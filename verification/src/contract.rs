use vstd::prelude::*;

use crate::arith::{fits_i128, total_due, total_due_computable, total_due_on};
use crate::state::{
    EscrowError, InvoiceEscrow, MaturityUpdatedEvent, PartialSettlementEvent, STATUS_FUNDED,
    SCHEMA_VERSION, STATUS_OPEN, STATUS_SETTLED,
};

verus! {

/// The record that `init` stores for a new invoice: open, nothing funded or
/// settled, and the funding target equal to the invoice amount.
pub open spec fn opened_escrow(
    invoice_id: String,
    sme_address: String,
    admin: String,
    amount: i128,
    yield_bps: i64,
    maturity: u64,
) -> InvoiceEscrow {
    InvoiceEscrow {
        invoice_id,
        sme_address,
        admin,
        amount,
        funding_target: amount,
        funded_amount: 0,
        settled_amount: 0,
        yield_bps,
        maturity,
        status: STATUS_OPEN,
        version: SCHEMA_VERSION,
    }
}

/// What `init` answers, given what is stored: a record already stored is
/// never overwritten.
pub open spec fn init_outcome(
    stored: Option<InvoiceEscrow>,
    invoice_id: String,
    sme_address: String,
    admin: String,
    amount: i128,
    yield_bps: i64,
    maturity: u64,
) -> Result<InvoiceEscrow, EscrowError> {
    if stored is Some {
        Err(EscrowError::AlreadyInitialized)
    } else {
        Ok(opened_escrow(invoice_id, sme_address, admin, amount, yield_bps, maturity))
    }
}

/// What `get_escrow` answers, given what is stored.
pub open spec fn read_outcome(stored: Option<InvoiceEscrow>) -> Result<InvoiceEscrow, EscrowError> {
    match stored {
        Some(e) => Ok(e),
        None => Err(EscrowError::NotInitialized),
    }
}

/// What `fund` answers: an open escrow adds the amount to what was funded and
/// becomes funded once the funding target is reached. `contribution` is what
/// the funding investor had contributed before; their new contribution must
/// fit in `i128` as well.
pub open spec fn fund_outcome(stored: Option<InvoiceEscrow>, contribution: int, amount: i128) -> Result<
    InvoiceEscrow,
    EscrowError,
> {
    match stored {
        None => Err(EscrowError::NotInitialized),
        Some(e) => {
            let funded = e.funded_amount + amount;
            if e.status != STATUS_OPEN {
                Err(EscrowError::NotOpenForFunding)
            } else if !fits_i128(funded) || !fits_i128(contribution + amount) {
                Err(EscrowError::ArithmeticOverflow)
            } else {
                Ok(
                    InvoiceEscrow {
                        funded_amount: funded as i128,
                        status: if funded >= e.funding_target {
                            STATUS_FUNDED
                        } else {
                            e.status
                        },
                        ..e
                    },
                )
            }
        },
    }
}

/// What an investor has contributed according to `contributions`; nothing
/// recorded counts as zero.
pub open spec fn contribution_in(contributions: Map<Seq<char>, i128>, investor: Seq<char>) -> int {
    if contributions.dom().contains(investor) {
        contributions[investor] as int
    } else {
        0
    }
}

/// The contributions after a funding call that answered `res`: the funding
/// investor's grows by `amount` on success; nothing changes on refusal.
pub open spec fn contributions_after_fund(
    before: Map<Seq<char>, i128>,
    investor: Seq<char>,
    amount: i128,
    res: Result<InvoiceEscrow, EscrowError>,
) -> Map<Seq<char>, i128> {
    if res is Ok {
        before.insert(investor, (contribution_in(before, investor) + amount) as i128)
    } else {
        before
    }
}

/// Entry `i` is the first one in `entries` that belongs to `investor`.
pub open spec fn is_first_entry(entries: Seq<(String, i128)>, investor: Seq<char>, i: int) -> bool {
    &&& 0 <= i < entries.len()
    &&& entries[i].0@ == investor
    &&& forall|j: int| 0 <= j < i ==> entries[j].0@ != investor
}

/// The contributions that a list of entries records: for each investor, the
/// amount of the first entry that names them.
pub open spec fn entries_to_map(entries: Seq<(String, i128)>) -> Map<Seq<char>, i128> {
    Map::new(
        |k: Seq<char>| exists|i: int| is_first_entry(entries, k, i),
        |k: Seq<char>| entries[choose|i: int| is_first_entry(entries, k, i)].1,
    )
}

proof fn lemma_first_entry_unique(entries: Seq<(String, i128)>, k: Seq<char>, i: int, j: int)
    requires
        is_first_entry(entries, k, i),
        is_first_entry(entries, k, j),
    ensures
        i == j,
{
    if i < j {
        assert(entries[i].0@ != k);
    } else if j < i {
        assert(entries[j].0@ != k);
    }
}

/// Overwriting the amount of `investor`'s first entry records the new amount
/// for them and leaves every other investor's contribution as it was.
proof fn lemma_update_first_entry(entries: Seq<(String, i128)>, investor: String, i: int, value: i128)
    requires
        is_first_entry(entries, investor@, i),
    ensures
        entries_to_map(entries.update(i, (investor, value))) == entries_to_map(entries).insert(
            investor@,
            value,
        ),
{
    let new = entries.update(i, (investor, value));
    assert forall|k: Seq<char>, j: int| is_first_entry(new, k, j) == is_first_entry(entries, k, j) by {
        if 0 <= j < entries.len() {
            assert(new[j].0@ == entries[j].0@);
        }
        if is_first_entry(new, k, j) {
            assert forall|m: int| 0 <= m < j implies entries[m].0@ != k by {
                assert(new[m].0@ == entries[m].0@);
            }
        }
        if is_first_entry(entries, k, j) {
            assert forall|m: int| 0 <= m < j implies new[m].0@ != k by {
                assert(new[m].0@ == entries[m].0@);
            }
        }
    }
    assert forall|k: Seq<char>| #![auto] entries_to_map(new).dom().contains(k) implies entries_to_map(
        new,
    )[k] == entries_to_map(entries).insert(investor@, value)[k] by {
        let j = choose|j: int| is_first_entry(new, k, j);
        if k == investor@ {
            lemma_first_entry_unique(entries, k, i, j);
        } else {
            assert(j != i);
        }
    }
    assert(entries_to_map(new) =~= entries_to_map(entries).insert(investor@, value));
}

/// Appending an entry for an investor with no entry yet records its amount for
/// them and leaves every other investor's contribution as it was.
proof fn lemma_push_new_entry(entries: Seq<(String, i128)>, investor: String, value: i128)
    requires
        forall|j: int| 0 <= j < entries.len() ==> entries[j].0@ != investor@,
    ensures
        entries_to_map(entries.push((investor, value))) == entries_to_map(entries).insert(
            investor@,
            value,
        ),
{
    let new = entries.push((investor, value));
    let n = entries.len() as int;
    assert(is_first_entry(new, investor@, n));
    assert forall|k: Seq<char>, j: int| k != investor@ implies is_first_entry(new, k, j)
        == is_first_entry(entries, k, j) by {
        if is_first_entry(new, k, j) {
            assert(j != n);
            assert(new[j] == entries[j]);
            assert forall|m: int| 0 <= m < j implies entries[m].0@ != k by {
                assert(new[m] == entries[m]);
            }
        }
        if is_first_entry(entries, k, j) {
            assert(new[j] == entries[j]);
            assert forall|m: int| 0 <= m < j implies new[m].0@ != k by {
                assert(new[m] == entries[m]);
            }
        }
    }
    assert forall|k: Seq<char>| #![auto] entries_to_map(new).dom().contains(k) implies entries_to_map(
        new,
    )[k] == entries_to_map(entries).insert(investor@, value)[k] by {
        let j = choose|j: int| is_first_entry(new, k, j);
        if k == investor@ {
            lemma_first_entry_unique(new, k, n, j);
        } else {
            assert(is_first_entry(entries, k, j));
        }
    }
    assert(entries_to_map(new) =~= entries_to_map(entries).insert(investor@, value));
}

/// The total that the buyer owes on an escrow: principal plus yield.
pub open spec fn escrow_total_due(e: InvoiceEscrow) -> int {
    total_due_on(e.amount as int, e.yield_bps as int)
}

/// What `settle` answers at ledger time `now`: a funded escrow that has
/// reached its maturity records the payment as long as the settled amount
/// stays within the total due, and becomes settled when it reaches the total
/// due exactly. A settled escrow takes no further payment. The event reports
/// the payment.
pub open spec fn settle_outcome(stored: Option<InvoiceEscrow>, now: u64, amount: i128) -> Result<
    (InvoiceEscrow, PartialSettlementEvent),
    EscrowError,
> {
    match stored {
        None => Err(EscrowError::NotInitialized),
        Some(e) => {
            let due = escrow_total_due(e);
            let settled = e.settled_amount + amount;
            if e.status != STATUS_FUNDED {
                Err(EscrowError::NotFunded)
            } else if now < e.maturity {
                Err(EscrowError::NotMatured)
            } else if !total_due_computable(e.amount as int, e.yield_bps as int) || !fits_i128(
                settled,
            ) {
                Err(EscrowError::ArithmeticOverflow)
            } else if settled > due {
                Err(EscrowError::SettlementExceedsTotalDue)
            } else {
                Ok(
                    (
                        InvoiceEscrow {
                            settled_amount: settled as i128,
                            status: if settled == due {
                                STATUS_SETTLED
                            } else {
                                e.status
                            },
                            ..e
                        },
                        PartialSettlementEvent {
                            invoice_id: e.invoice_id,
                            amount,
                            settled_amount: settled as i128,
                            total_due: due as i128,
                        },
                    ),
                )
            }
        },
    }
}

/// What `update_maturity` answers when `authorized` is the party whose
/// authorization the call carries: only the stored admin may move the
/// maturity, and only while the escrow is open. The event reports the old and
/// the new maturity.
pub open spec fn update_maturity_outcome(
    stored: Option<InvoiceEscrow>,
    authorized: Seq<char>,
    new_maturity: u64,
) -> Result<(InvoiceEscrow, MaturityUpdatedEvent), EscrowError> {
    match stored {
        None => Err(EscrowError::NotInitialized),
        Some(e) => {
            if authorized != e.admin@ {
                Err(EscrowError::Unauthorized)
            } else if e.status != STATUS_OPEN {
                Err(EscrowError::MaturityUpdateNotOpen)
            } else {
                Ok(
                    (
                        InvoiceEscrow { maturity: new_maturity, ..e },
                        MaturityUpdatedEvent {
                            invoice_id: e.invoice_id,
                            old_maturity: e.maturity,
                            new_maturity,
                        },
                    ),
                )
            }
        },
    }
}

/// What is stored after an operation answered `res`: the new record on
/// success, the old one unchanged on refusal.
pub open spec fn stored_after(
    before: Option<InvoiceEscrow>,
    res: Result<InvoiceEscrow, EscrowError>,
) -> Option<InvoiceEscrow> {
    match res {
        Ok(e) => Some(e),
        Err(_) => before,
    }
}

/// The escrow contract's instance storage: at most one invoice escrow record,
/// and what each investor has contributed to it.
pub struct LiquifactEscrow {
    stored: Option<InvoiceEscrow>,
    contributions: Vec<(String, i128)>,
}

impl View for LiquifactEscrow {
    type V = Option<InvoiceEscrow>;

    closed spec fn view(&self) -> Option<InvoiceEscrow> {
        self.stored
    }
}

impl LiquifactEscrow {
    /// What each investor has contributed, by the investor's address.
    pub closed spec fn contributions(&self) -> Map<Seq<char>, i128> {
        entries_to_map(self.contributions@)
    }

    /// Storage that holds no escrow and no contributions yet.
    pub fn new() -> (res: Self)
        ensures
            res@ is None,
            res.contributions() == Map::<Seq<char>, i128>::empty(),
    {
        let res = LiquifactEscrow { stored: None, contributions: Vec::new() };
        assert(res.contributions() =~= Map::<Seq<char>, i128>::empty());
        res
    }

    /// Storage holding the given record, as read back from the ledger, with no
    /// contributions loaded yet.
    pub fn from_stored(stored: Option<InvoiceEscrow>) -> (res: Self)
        ensures
            res@ == stored,
            res.contributions() == Map::<Seq<char>, i128>::empty(),
    {
        let res = LiquifactEscrow { stored, contributions: Vec::new() };
        assert(res.contributions() =~= Map::<Seq<char>, i128>::empty());
        res
    }

    /// The index of `investor`'s first entry, if they have one.
    fn find_entry(&self, investor: &String) -> (res: Option<usize>)
        ensures
            res matches Some(i) ==> is_first_entry(self.contributions@, investor@, i as int),
            res is None ==> forall|j: int|
                0 <= j < self.contributions@.len() ==> self.contributions@[j].0@ != investor@,
    {
        let n = self.contributions.len();
        for i in 0..n
            invariant
                n == self.contributions@.len(),
                forall|j: int| 0 <= j < i ==> self.contributions@[j].0@ != investor@,
        {
            if self.contributions[i].0.eq(investor) {
                return Some(i);
            }
        }
        None
    }

    /// Records `value` as `investor`'s contribution.
    fn set_contribution(&mut self, investor: String, value: i128)
        ensures
            final(self)@ == old(self)@,
            final(self).contributions() == old(self).contributions().insert(investor@, value),
    {
        match self.find_entry(&investor) {
            Some(i) => {
                proof {
                    lemma_update_first_entry(self.contributions@, investor, i as int, value);
                }
                self.contributions.set(i, (investor, value));
            },
            None => {
                proof {
                    lemma_push_new_entry(self.contributions@, investor, value);
                }
                self.contributions.push((investor, value));
            },
        }
    }

    /// Loads `investor`'s contribution as read back from the ledger.
    pub fn restore_contribution(&mut self, investor: String, amount: i128)
        ensures
            final(self)@ == old(self)@,
            final(self).contributions() == old(self).contributions().insert(investor@, amount),
    {
        self.set_contribution(investor, amount);
    }

    /// What `investor` has contributed; zero when nothing is recorded.
    pub fn get_contribution(&self, investor: &String) -> (res: i128)
        ensures
            res == contribution_in(self.contributions(), investor@),
    {
        match self.find_entry(investor) {
            Some(i) => {
                proof {
                    let j = choose|j: int| is_first_entry(self.contributions@, investor@, j);
                    lemma_first_entry_unique(self.contributions@, investor@, i as int, j);
                }
                self.contributions[i].1
            },
            None => 0,
        }
    }

    /// The schema version of the stored record.
    pub fn get_version(&self) -> (res: Result<u32, EscrowError>)
        ensures
            res == (match self@ {
                Some(e) => Ok::<u32, EscrowError>(e.version),
                None => Err(EscrowError::NotInitialized),
            }),
    {
        match &self.stored {
            Some(e) => Ok(e.version),
            None => Err(EscrowError::NotInitialized),
        }
    }

    /// Initialize a new invoice escrow.
    pub fn init(
        &mut self,
        invoice_id: String,
        sme_address: String,
        admin: String,
        amount: i128,
        yield_bps: i64,
        maturity: u64,
    ) -> (res: Result<InvoiceEscrow, EscrowError>)
        ensures
            res == init_outcome(
                old(self)@,
                invoice_id,
                sme_address,
                admin,
                amount,
                yield_bps,
                maturity,
            ),
            final(self)@ == stored_after(old(self)@, res),
            final(self).contributions() == old(self).contributions(),
    {
        if self.stored.is_some() {
            return Err(EscrowError::AlreadyInitialized);
        }
        let escrow = InvoiceEscrow {
            invoice_id,
            sme_address,
            admin,
            amount,
            funding_target: amount,
            funded_amount: 0,
            settled_amount: 0,
            yield_bps,
            maturity,
            status: STATUS_OPEN,
            version: SCHEMA_VERSION,
        };
        self.stored = Some(escrow.clone());
        Ok(escrow)
    }

    /// Get current escrow state.
    pub fn get_escrow(&self) -> (res: Result<InvoiceEscrow, EscrowError>)
        ensures
            res == read_outcome(self@),
    {
        match &self.stored {
            Some(e) => Ok(e.clone()),
            None => Err(EscrowError::NotInitialized),
        }
    }

    /// Record investor funding, adding it to the investor's contribution.
    pub fn fund(&mut self, investor: String, amount: i128) -> (res: Result<
        InvoiceEscrow,
        EscrowError,
    >)
        ensures
            res == fund_outcome(
                old(self)@,
                contribution_in(old(self).contributions(), investor@),
                amount,
            ),
            final(self)@ == stored_after(old(self)@, res),
            final(self).contributions() == contributions_after_fund(
                old(self).contributions(),
                investor@,
                amount,
                res,
            ),
    {
        let mut escrow = match self.get_escrow() {
            Ok(e) => e,
            Err(err) => return Err(err),
        };
        if escrow.status != STATUS_OPEN {
            return Err(EscrowError::NotOpenForFunding);
        }
        escrow.funded_amount = match escrow.funded_amount.checked_add(amount) {
            Some(f) => f,
            None => return Err(EscrowError::ArithmeticOverflow),
        };
        let contribution = match self.get_contribution(&investor).checked_add(amount) {
            Some(c) => c,
            None => return Err(EscrowError::ArithmeticOverflow),
        };
        if escrow.funded_amount >= escrow.funding_target {
            escrow.status = STATUS_FUNDED;
        }
        self.stored = Some(escrow.clone());
        self.set_contribution(investor, contribution);
        Ok(escrow)
    }

    /// Record a payment by the buyer at ledger time `now`, partial or full,
    /// releasing principal plus yield to investors; answers the updated record
    /// and the event to publish.
    pub fn settle(&mut self, now: u64, amount: i128) -> (res: Result<
        (InvoiceEscrow, PartialSettlementEvent),
        EscrowError,
    >)
        ensures
            res == settle_outcome(old(self)@, now, amount),
            final(self)@ == stored_after(
                old(self)@,
                match res {
                    Ok((e, _)) => Ok(e),
                    Err(err) => Err(err),
                },
            ),
            final(self).contributions() == old(self).contributions(),
    {
        let mut escrow = match self.get_escrow() {
            Ok(e) => e,
            Err(err) => return Err(err),
        };
        if escrow.status != STATUS_FUNDED {
            return Err(EscrowError::NotFunded);
        }
        if now < escrow.maturity {
            return Err(EscrowError::NotMatured);
        }
        let due = match total_due(escrow.amount, escrow.yield_bps) {
            Some(t) => t,
            None => return Err(EscrowError::ArithmeticOverflow),
        };
        escrow.settled_amount = match escrow.settled_amount.checked_add(amount) {
            Some(s) => s,
            None => return Err(EscrowError::ArithmeticOverflow),
        };
        if escrow.settled_amount > due {
            return Err(EscrowError::SettlementExceedsTotalDue);
        }
        if escrow.settled_amount == due {
            escrow.status = STATUS_SETTLED;
        }
        self.stored = Some(escrow.clone());
        let event = PartialSettlementEvent {
            invoice_id: escrow.invoice_id.clone(),
            amount,
            settled_amount: escrow.settled_amount,
            total_due: due,
        };
        Ok((escrow, event))
    }

    /// Update the maturity timestamp; only allowed for the stored admin, in
    /// the open state. `authorized` is the party whose authorization the call
    /// carries.
    pub fn update_maturity(&mut self, authorized: &String, new_maturity: u64) -> (res: Result<
        (InvoiceEscrow, MaturityUpdatedEvent),
        EscrowError,
    >)
        ensures
            res == update_maturity_outcome(old(self)@, authorized@, new_maturity),
            final(self)@ == stored_after(
                old(self)@,
                match res {
                    Ok((e, _)) => Ok(e),
                    Err(err) => Err(err),
                },
            ),
            final(self).contributions() == old(self).contributions(),
    {
        let mut escrow = match self.get_escrow() {
            Ok(e) => e,
            Err(err) => return Err(err),
        };
        if !authorized.eq(&escrow.admin) {
            return Err(EscrowError::Unauthorized);
        }
        if escrow.status != STATUS_OPEN {
            return Err(EscrowError::MaturityUpdateNotOpen);
        }
        let old_maturity = escrow.maturity;
        escrow.maturity = new_maturity;
        self.stored = Some(escrow.clone());
        let event = MaturityUpdatedEvent {
            invoice_id: escrow.invoice_id.clone(),
            old_maturity,
            new_maturity,
        };
        Ok((escrow, event))
    }
}

} // verus!
