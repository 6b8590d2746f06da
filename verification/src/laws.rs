use vstd::prelude::*;

use crate::arith::{fits_i128, total_due_computable, total_due_on};
use crate::contract::{
    contribution_in, contributions_after_fund, escrow_total_due, fund_outcome, init_outcome, opened_escrow, read_outcome, settle_outcome,
    stored_after, update_maturity_outcome,
};
use crate::state::{
    EscrowError, InvoiceEscrow, SCHEMA_VERSION, STATUS_FUNDED, STATUS_OPEN, STATUS_SETTLED,
};

verus! {

/// A record that `init` and the operations after it can produce: a known
/// status, the funding target equal to the invoice amount, nothing settled
/// while open, the target reached once no longer open, and a settled escrow
/// paid exactly its total due.
pub open spec fn valid_escrow(e: InvoiceEscrow) -> bool {
    &&& e.status <= STATUS_SETTLED
    &&& e.funding_target == e.amount
    &&& e.status == STATUS_OPEN ==> e.settled_amount == 0
    &&& e.status != STATUS_OPEN ==> e.funded_amount >= e.funding_target
    &&& e.status == STATUS_SETTLED ==> e.settled_amount == escrow_total_due(e)
}

/// The terms of the invoice, and the record's version, that no operation
/// after `init` changes.
pub open spec fn same_terms(a: InvoiceEscrow, b: InvoiceEscrow) -> bool {
    &&& a.invoice_id == b.invoice_id
    &&& a.sme_address == b.sme_address
    &&& a.admin == b.admin
    &&& a.amount == b.amount
    &&& a.funding_target == b.funding_target
    &&& a.yield_bps == b.yield_bps
    &&& a.version == b.version
}

/// `init` on empty storage always succeeds, and what it stores is valid.
pub proof fn lemma_init_establishes_validity(
    invoice_id: String,
    sme_address: String,
    admin: String,
    amount: i128,
    yield_bps: i64,
    maturity: u64,
)
    ensures
        init_outcome(None, invoice_id, sme_address, admin, amount, yield_bps, maturity) == Ok::<
            InvoiceEscrow,
            EscrowError,
        >(opened_escrow(invoice_id, sme_address, admin, amount, yield_bps, maturity)),
        valid_escrow(opened_escrow(invoice_id, sme_address, admin, amount, yield_bps, maturity)),
{
}

/// Every accepted operation keeps a valid record valid.
pub proof fn lemma_operations_preserve_validity(
    e: InvoiceEscrow,
    contribution: int,
    now: u64,
    authorized: Seq<char>,
    amount: i128,
    new_maturity: u64,
)
    requires
        valid_escrow(e),
    ensures
        fund_outcome(Some(e), contribution, amount) matches Ok(n) ==> valid_escrow(n),
        settle_outcome(Some(e), now, amount) matches Ok((n, _)) ==> valid_escrow(n),
        update_maturity_outcome(Some(e), authorized, new_maturity) matches Ok((n, _)) ==> valid_escrow(n),
{
}

/// The status only moves forward: open, then funded, then settled.
pub proof fn lemma_status_never_decreases(
    e: InvoiceEscrow,
    contribution: int,
    now: u64,
    authorized: Seq<char>,
    amount: i128,
    new_maturity: u64,
)
    ensures
        fund_outcome(Some(e), contribution, amount) matches Ok(n) ==> n.status >= e.status,
        settle_outcome(Some(e), now, amount) matches Ok((n, _)) ==> n.status >= e.status,
        update_maturity_outcome(Some(e), authorized, new_maturity) matches Ok((n, _)) ==> n.status == e.status,
{
}

/// The invoice's terms (identifier, parties, amount, target, yield) are fixed
/// at `init`: no accepted operation changes them.
pub proof fn lemma_terms_fixed_after_init(
    e: InvoiceEscrow,
    contribution: int,
    now: u64,
    authorized: Seq<char>,
    amount: i128,
    new_maturity: u64,
)
    ensures
        fund_outcome(Some(e), contribution, amount) matches Ok(n) ==> same_terms(n, e),
        settle_outcome(Some(e), now, amount) matches Ok((n, _)) ==> same_terms(n, e),
        update_maturity_outcome(Some(e), authorized, new_maturity) matches Ok((n, _)) ==> same_terms(n, e),
{
}

/// Each operation touches only its own fields: funding changes what was funded
/// and the status, settlement what was settled and the status, a maturity
/// update only the maturity.
pub proof fn lemma_operations_touch_only_their_fields(
    e: InvoiceEscrow,
    contribution: int,
    now: u64,
    authorized: Seq<char>,
    amount: i128,
    new_maturity: u64,
)
    ensures
        fund_outcome(Some(e), contribution, amount) matches Ok(n) ==> (n == InvoiceEscrow {
            funded_amount: n.funded_amount,
            status: n.status,
            ..e
        }),
        settle_outcome(Some(e), now, amount) matches Ok((n, _)) ==> (n == InvoiceEscrow {
            settled_amount: n.settled_amount,
            status: n.status,
            ..e
        }),
        update_maturity_outcome(Some(e), authorized, new_maturity) matches Ok((n, _)) ==> (n
            == InvoiceEscrow { maturity: new_maturity, ..e }),
{
}

/// An accepted settlement never takes the settled amount past the total due,
/// and the event reports that total.
pub proof fn lemma_settled_within_total_due(e: InvoiceEscrow, now: u64, amount: i128)
    ensures
        settle_outcome(Some(e), now, amount) matches Ok((n, ev)) ==> {
            &&& n.settled_amount <= escrow_total_due(n)
            &&& ev.total_due == escrow_total_due(e)
            &&& ev.settled_amount == n.settled_amount
        },
{
}

/// Once an escrow has left the open state, funding and maturity updates are
/// refused whatever their arguments, so a funding call cannot be replayed.
pub proof fn lemma_open_state_is_left_for_good(
    e: InvoiceEscrow,
    contribution: int,
    now: u64,
    authorized: Seq<char>,
    amount: i128,
    new_maturity: u64,
)
    requires
        e.status != STATUS_OPEN,
    ensures
        fund_outcome(Some(e), contribution, amount) == Err::<InvoiceEscrow, EscrowError>(
            EscrowError::NotOpenForFunding,
        ),
        update_maturity_outcome(Some(e), authorized, new_maturity) is Err,
{
}

/// An open escrow cannot be settled.
pub proof fn lemma_no_settlement_before_funding(e: InvoiceEscrow, now: u64, amount: i128)
    requires
        e.status == STATUS_OPEN,
    ensures
        settle_outcome(Some(e), now, amount) matches Err(EscrowError::NotFunded),
{
}

/// Funding reaches the funded state exactly when the target is met.
pub proof fn lemma_funded_exactly_at_target(e: InvoiceEscrow, contribution: int, amount: i128)
    requires
        e.status == STATUS_OPEN,
    ensures
        fund_outcome(Some(e), contribution, amount) matches Ok(n) ==> (n.status == STATUS_FUNDED <==> n.funded_amount
            >= e.funding_target),
{
}

/// Paying in parts is paying in whole: a non-negative payment followed by a
/// positive one leaves the same record as one payment of their sum, and the
/// two are both accepted exactly when the single payment is.
pub proof fn lemma_settlement_in_parts(e: InvoiceEscrow, now: u64, a: i128, b: i128)
    requires
        a >= 0,
        b > 0,
        fits_i128(a + b),
    ensures
        ({
            let whole = settle_outcome(Some(e), now, (a + b) as i128);
            let first = settle_outcome(Some(e), now, a);
            &&& (first matches Ok((m, _)) && settle_outcome(Some(m), now, b) is Ok) <==> whole is Ok
            &&& first matches Ok((m, _)) ==> (settle_outcome(Some(m), now, b) matches Ok((n, _))
                ==> whole matches Ok((w, _)) && w == n)
        }),
{
}

/// A read after an operation sees what the operation answered; a read after
/// a refusal sees what was stored before.
pub proof fn lemma_read_after_write(
    before: Option<InvoiceEscrow>,
    res: Result<InvoiceEscrow, EscrowError>,
)
    ensures
        res matches Ok(e) ==> read_outcome(stored_after(before, res)) == Ok::<
            InvoiceEscrow,
            EscrowError,
        >(e),
        res is Err ==> read_outcome(stored_after(before, res)) == read_outcome(before),
{
}

/// Reading an escrow right after `init` on empty storage gives back the
/// record that `init` answered.
pub proof fn lemma_init_then_read(
    invoice_id: String,
    sme_address: String,
    admin: String,
    amount: i128,
    yield_bps: i64,
    maturity: u64,
)
    ensures
        ({
            let res = init_outcome(None, invoice_id, sme_address, admin, amount, yield_bps, maturity);
            read_outcome(stored_after(None, res)) == res
        }),
{
}

/// A settled escrow is final: it takes no further funding, payment or
/// maturity update, so a settlement cannot be replayed.
pub proof fn lemma_settled_is_final(
    e: InvoiceEscrow,
    contribution: int,
    now: u64,
    authorized: Seq<char>,
    amount: i128,
    new_maturity: u64,
)
    requires
        e.status == STATUS_SETTLED,
    ensures
        fund_outcome(Some(e), contribution, amount) is Err,
        update_maturity_outcome(Some(e), authorized, new_maturity) is Err,
        settle_outcome(Some(e), now, amount) matches Err(EscrowError::NotFunded),
{
}

/// Accepted funding credits exactly the funding investor: the escrow's funded
/// amount and that investor's contribution grow by the same amount, and every
/// other investor's contribution stays as it was.
pub proof fn lemma_funding_credits_the_investor(
    e: InvoiceEscrow,
    contributions: Map<Seq<char>, i128>,
    investor: Seq<char>,
    other: Seq<char>,
    amount: i128,
)
    requires
        other != investor,
    ensures
        ({
            let res = fund_outcome(Some(e), contribution_in(contributions, investor), amount);
            let after = contributions_after_fund(contributions, investor, amount, res);
            res matches Ok(n) ==> {
                &&& n.funded_amount - e.funded_amount == contribution_in(after, investor)
                    - contribution_in(contributions, investor)
                &&& n.funded_amount - e.funded_amount == amount
                &&& contribution_in(after, other) == contribution_in(contributions, other)
            }
        }),
{
}

/// Settlement waits for maturity: a funded escrow refuses every payment made
/// before its maturity timestamp.
pub proof fn lemma_no_settlement_before_maturity(e: InvoiceEscrow, now: u64, amount: i128)
    requires
        e.status == STATUS_FUNDED,
        now < e.maturity,
    ensures
        settle_outcome(Some(e), now, amount) matches Err(EscrowError::NotMatured),
{
}

/// Only the stored admin may move the maturity: a call that carries anyone
/// else's authorization is refused, whatever the escrow's status.
pub proof fn lemma_only_admin_moves_maturity(
    e: InvoiceEscrow,
    authorized: Seq<char>,
    new_maturity: u64,
)
    requires
        authorized != e.admin@,
    ensures
        update_maturity_outcome(Some(e), authorized, new_maturity) matches Err(
            EscrowError::Unauthorized,
        ),
{
}

/// The yield is the product of amount and basis points divided by ten
/// thousand, rounded toward zero: the total due exceeds the amount by the
/// whole number `q` of ten-thousandths of `amount * yield_bps` that lies
/// between zero and that product, less than one ten-thousandth away from it.
pub proof fn lemma_total_due_is_amount_plus_rounded_yield(amount: int, yield_bps: int)
    ensures
        ({
            let q = total_due_on(amount, yield_bps) - amount;
            let p = amount * yield_bps;
            &&& p >= 0 ==> q * 10000 <= p < q * 10000 + 10000
            &&& p < 0 ==> q * 10000 - 10000 < p <= q * 10000
        }),
{
}

/// On an amount of ten thousand units, the yield in units equals the yield in
/// basis points.
pub proof fn lemma_total_due_on_ten_thousand(yield_bps: int)
    ensures
        total_due_on(10000, yield_bps) == 10000 + yield_bps,
{
    lemma_total_due_is_amount_plus_rounded_yield(10000, yield_bps);
}

/// `init` refuses whenever a record is stored, whatever its state, so an
/// escrow is never reset; on empty storage it opens a fresh record for the
/// given invoice, nothing funded or settled, targeting the invoice amount.
pub proof fn lemma_init_never_resets(
    stored: Option<InvoiceEscrow>,
    invoice_id: String,
    sme_address: String,
    admin: String,
    amount: i128,
    yield_bps: i64,
    maturity: u64,
)
    ensures
        stored is Some ==> init_outcome(
            stored,
            invoice_id,
            sme_address,
            admin,
            amount,
            yield_bps,
            maturity,
        ) == Err::<InvoiceEscrow, EscrowError>(EscrowError::AlreadyInitialized),
        stored is None ==> (init_outcome(
            stored,
            invoice_id,
            sme_address,
            admin,
            amount,
            yield_bps,
            maturity,
        ) matches Ok(n) && {
            &&& n.invoice_id == invoice_id
            &&& n.sme_address == sme_address
            &&& n.admin == admin
            &&& n.amount == amount
            &&& n.funding_target == amount
            &&& n.funded_amount == 0
            &&& n.settled_amount == 0
            &&& n.yield_bps == yield_bps
            &&& n.maturity == maturity
            &&& n.status == STATUS_OPEN
            &&& n.version == SCHEMA_VERSION
        }),
{
}

/// An open escrow accepts every funding whose sums fit in `i128`, whoever
/// funds and however much was funded before: the amount is added to what was
/// funded, and the escrow becomes funded exactly when the target is reached.
/// Funding is refused only when the escrow is not open or a sum overflows.
pub proof fn lemma_open_escrow_accepts_funding(e: InvoiceEscrow, contribution: int, amount: i128)
    ensures
        fund_outcome(Some(e), contribution, amount) is Ok <==> (e.status == STATUS_OPEN && fits_i128(
            e.funded_amount + amount,
        ) && fits_i128(contribution + amount)),
        fund_outcome(Some(e), contribution, amount) matches Ok(n) ==> {
            &&& n.funded_amount == e.funded_amount + amount
            &&& n.status == (if e.funded_amount + amount >= e.funding_target {
                STATUS_FUNDED
            } else {
                STATUS_OPEN
            })
        },
{
}

/// A funded escrow at or after its maturity accepts every payment that keeps
/// the settled amount within the total due: the payment is added to what was
/// settled, and the escrow becomes settled exactly when the total due is
/// reached. A payment is refused only before maturity, when the escrow is not
/// funded, on overflow, or when it would pay more than is due.
pub proof fn lemma_matured_escrow_accepts_payment(e: InvoiceEscrow, now: u64, amount: i128)
    ensures
        settle_outcome(Some(e), now, amount) is Ok <==> {
            &&& e.status == STATUS_FUNDED
            &&& now >= e.maturity
            &&& total_due_computable(e.amount as int, e.yield_bps as int)
            &&& fits_i128(e.settled_amount + amount)
            &&& e.settled_amount + amount <= total_due_on(e.amount as int, e.yield_bps as int)
        },
        settle_outcome(Some(e), now, amount) matches Ok((n, ev)) ==> {
            &&& n.settled_amount == e.settled_amount + amount
            &&& n.status == (if e.settled_amount + amount == total_due_on(
                e.amount as int,
                e.yield_bps as int,
            ) {
                STATUS_SETTLED
            } else {
                STATUS_FUNDED
            })
            &&& ev.amount == amount
            &&& ev.settled_amount == n.settled_amount
            &&& ev.total_due == total_due_on(e.amount as int, e.yield_bps as int)
        },
{
}

/// Waiting never hurts a payment: one accepted at some ledger time is accepted
/// with the same answer at every later time.
pub proof fn lemma_settlement_monotone_in_time(e: InvoiceEscrow, now: u64, later: u64, amount: i128)
    requires
        now <= later,
    ensures
        settle_outcome(Some(e), now, amount) is Ok ==> settle_outcome(Some(e), later, amount)
            == settle_outcome(Some(e), now, amount),
{
}

/// The admin can always move the maturity of an open escrow, however much it
/// has been funded: the record takes the new maturity and nothing else
/// changes, and the event reports the old and the new maturity. The move is
/// refused only for another party or an escrow no longer open.
pub proof fn lemma_admin_moves_maturity_while_open(
    e: InvoiceEscrow,
    authorized: Seq<char>,
    new_maturity: u64,
)
    ensures
        update_maturity_outcome(Some(e), authorized, new_maturity) is Ok <==> (authorized == e.admin@
            && e.status == STATUS_OPEN),
        update_maturity_outcome(Some(e), authorized, new_maturity) matches Ok((n, ev)) ==> {
            &&& n == InvoiceEscrow { maturity: new_maturity, ..e }
            &&& ev.invoice_id == e.invoice_id
            &&& ev.old_maturity == e.maturity
            &&& ev.new_maturity == new_maturity
        },
{
}

/// Each refusal names its cause: nothing stored, an escrow that is not open
/// (for funding and maturity moves) or not funded (for payments), an early
/// payment, an overflow, or a payment above what is due.
pub proof fn lemma_refusals_name_their_cause(
    e: InvoiceEscrow,
    contribution: int,
    now: u64,
    authorized: Seq<char>,
    amount: i128,
    new_maturity: u64,
)
    ensures
        fund_outcome(None, contribution, amount) matches Err(EscrowError::NotInitialized),
        settle_outcome(None, now, amount) matches Err(EscrowError::NotInitialized),
        update_maturity_outcome(None, authorized, new_maturity) matches Err(
            EscrowError::NotInitialized,
        ),
        read_outcome(None) == Err::<InvoiceEscrow, EscrowError>(EscrowError::NotInitialized),
        read_outcome(Some(e)) == Ok::<InvoiceEscrow, EscrowError>(e),
        e.status == STATUS_OPEN && !(fits_i128(e.funded_amount + amount) && fits_i128(
            contribution + amount,
        )) ==> fund_outcome(Some(e), contribution, amount) matches Err(
            EscrowError::ArithmeticOverflow,
        ),
        e.status == STATUS_FUNDED && now >= e.maturity && !(total_due_computable(
            e.amount as int,
            e.yield_bps as int,
        ) && fits_i128(e.settled_amount + amount)) ==> settle_outcome(Some(e), now, amount) matches Err(
            EscrowError::ArithmeticOverflow,
        ),
        e.status == STATUS_FUNDED && now >= e.maturity && total_due_computable(
            e.amount as int,
            e.yield_bps as int,
        ) && fits_i128(e.settled_amount + amount) && e.settled_amount + amount > total_due_on(
            e.amount as int,
            e.yield_bps as int,
        ) ==> settle_outcome(Some(e), now, amount) matches Err(
            EscrowError::SettlementExceedsTotalDue,
        ),
        authorized == e.admin@ && e.status != STATUS_OPEN ==> update_maturity_outcome(
            Some(e),
            authorized,
            new_maturity,
        ) matches Err(EscrowError::MaturityUpdateNotOpen),
{
}

/// Contributions count what was funded: nothing recorded counts as zero, a
/// recorded amount is read back as it was written, accepted funding adds the
/// amount to the funding investor's contribution alone, and refused funding
/// changes no contribution.
pub proof fn lemma_contributions_follow_funding(
    contributions: Map<Seq<char>, i128>,
    investor: Seq<char>,
    other: Seq<char>,
    value: i128,
    amount: i128,
    res: Result<InvoiceEscrow, EscrowError>,
)
    requires
        other != investor,
    ensures
        contribution_in(Map::<Seq<char>, i128>::empty(), investor) == 0,
        contribution_in(contributions.insert(investor, value), investor) == value,
        contribution_in(contributions.insert(investor, value), other) == contribution_in(
            contributions,
            other,
        ),
        fits_i128(contribution_in(contributions, investor) + amount) && res is Ok ==> contribution_in(
            contributions_after_fund(contributions, investor, amount, res),
            investor,
        ) == contribution_in(contributions, investor) + amount,
        contribution_in(contributions_after_fund(contributions, investor, amount, res), other)
            == contribution_in(contributions, other),
        res is Err ==> contributions_after_fund(contributions, investor, amount, res)
            == contributions,
{
}

} // verus!
