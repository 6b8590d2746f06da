use escrow::arith::total_due;
use escrow::contract::LiquifactEscrow;
use escrow::state::{
    EscrowError, InvoiceEscrow, MaturityUpdatedEvent, PartialSettlementEvent, SCHEMA_VERSION,
    STATUS_FUNDED, STATUS_OPEN, STATUS_SETTLED,
};

const ADMIN: &str = "GADMINAAAAAAAAAAAAAAAAAAAAAAAAAAAAAAAAAAAAAAAAAAAAAAAAAA";
const SME: &str = "GSMEAAAAAAAAAAAAAAAAAAAAAAAAAAAAAAAAAAAAAAAAAAAAAAAAAAAA";
const MATURITY: u64 = 1000;
const INVESTOR: &str = "GINVESTORAAAAAAAAAAAAAAAAAAAAAAAAAAAAAAAAAAAAAAAAAAAAAA";

fn initialized(id: &str, amount: i128, yield_bps: i64, maturity: u64) -> LiquifactEscrow {
    let mut escrow = LiquifactEscrow::new();
    escrow
        .init(
            id.to_string(),
            SME.to_string(),
            ADMIN.to_string(),
            amount,
            yield_bps,
            maturity,
        )
        .unwrap();
    escrow
}

fn funded(id: &str, amount: i128, yield_bps: i64, maturity: u64) -> LiquifactEscrow {
    let mut escrow = initialized(id, amount, yield_bps, maturity);
    escrow.fund(INVESTOR.to_string(), amount).unwrap();
    escrow
}

#[test]
fn test_init_replay_is_rejected() {
    let mut escrow = LiquifactEscrow::new();
    escrow
        .init("INV002".to_string(), SME.to_string(), ADMIN.to_string(), 10_000, 800, 1000)
        .unwrap();
    let replay =
        escrow.init("INV002".to_string(), SME.to_string(), ADMIN.to_string(), 10_000, 800, 1000);
    assert_eq!(replay, Err(EscrowError::AlreadyInitialized));
}

#[test]
fn test_fund_replay_after_funded_panics() {
    let mut escrow = initialized("INV003", 1_000, 800, 1000);
    escrow.fund(INVESTOR.to_string(), 1_000).unwrap();
    assert_eq!(escrow.get_escrow().unwrap().status, 1);

    let result = escrow.fund(INVESTOR.to_string(), 1);
    assert!(result.is_err());
    assert_eq!(result, Err(EscrowError::NotOpenForFunding));
}

#[test]
fn test_settle_partial_then_full_and_replay_overpay_panics() {
    let mut escrow = initialized("INV005", 1_000, 800, 1000);
    escrow.fund(INVESTOR.to_string(), 1_000).unwrap();

    let interest = (1_000i128 * 800i128) / 10_000i128;
    let total_due = 1_000i128 + interest;

    escrow.settle(MATURITY, 500).unwrap();
    assert_eq!(escrow.get_escrow().unwrap().status, 1);

    escrow.settle(MATURITY, total_due - 500).unwrap();
    assert_eq!(escrow.get_escrow().unwrap().status, 2);

    let result = escrow.settle(MATURITY, 1);
    assert!(result.is_err());
}

#[test]
fn test_settle_before_funded_is_rejected() {
    let mut escrow = initialized("INV006", 1_000, 800, 1000);
    assert_eq!(escrow.settle(MATURITY, 1), Err(EscrowError::NotFunded));
}

#[test]
fn init_stores_the_opened_record_and_reads_are_stable() {
    let mut escrow = LiquifactEscrow::new();
    let record = escrow
        .init("INV001".to_string(), SME.to_string(), ADMIN.to_string(), 10_000, 800, 1000)
        .unwrap();
    let expected = InvoiceEscrow {
        invoice_id: "INV001".to_string(),
        sme_address: SME.to_string(),
        admin: ADMIN.to_string(),
        amount: 10_000,
        funding_target: 10_000,
        funded_amount: 0,
        settled_amount: 0,
        yield_bps: 800,
        maturity: 1000,
        status: STATUS_OPEN,
        version: SCHEMA_VERSION,
    };
    assert_eq!(record, expected);
    let a = escrow.get_escrow().unwrap();
    let b = escrow.get_escrow().unwrap();
    assert_eq!(a, b);
    assert_eq!(a, expected);
}

#[test]
fn reads_and_operations_before_init_are_refused() {
    let mut escrow = LiquifactEscrow::new();
    assert_eq!(escrow.get_escrow(), Err(EscrowError::NotInitialized));
    assert_eq!(escrow.fund(INVESTOR.to_string(), 5), Err(EscrowError::NotInitialized));
    assert_eq!(escrow.settle(MATURITY, 5), Err(EscrowError::NotInitialized));
    assert_eq!(escrow.update_maturity(&ADMIN.to_string(), 5), Err(EscrowError::NotInitialized));
    assert_eq!(escrow.get_escrow(), Err(EscrowError::NotInitialized));
}

#[test]
fn partial_funding_stays_open_until_target() {
    let mut escrow = initialized("INV010", 1_000, 800, 1000);
    let first = escrow.fund(INVESTOR.to_string(), 400).unwrap();
    assert_eq!(first.funded_amount, 400);
    assert_eq!(first.status, STATUS_OPEN);
    let second = escrow.fund(INVESTOR.to_string(), 599).unwrap();
    assert_eq!(second.funded_amount, 999);
    assert_eq!(second.status, STATUS_OPEN);
    let third = escrow.fund(INVESTOR.to_string(), 1).unwrap();
    assert_eq!(third.funded_amount, 1_000);
    assert_eq!(third.status, STATUS_FUNDED);
    assert_eq!(escrow.get_escrow().unwrap(), third);
}

#[test]
fn overfunding_is_recorded_and_closes_funding() {
    let mut escrow = initialized("INV011", 1_000, 800, 1000);
    let record = escrow.fund(INVESTOR.to_string(), 1_500).unwrap();
    assert_eq!(record.funded_amount, 1_500);
    assert_eq!(record.status, STATUS_FUNDED);
}

#[test]
fn funding_overflow_is_refused_and_leaves_storage_unchanged() {
    let mut escrow = initialized("INV012", i128::MAX, 0, 1000);
    escrow.fund(INVESTOR.to_string(), i128::MAX - 1).unwrap();
    let before = escrow.get_escrow().unwrap();
    assert_eq!(escrow.fund(INVESTOR.to_string(), 2), Err(EscrowError::ArithmeticOverflow));
    assert_eq!(escrow.get_escrow().unwrap(), before);
}

#[test]
fn total_due_adds_yield_rounded_toward_zero() {
    assert_eq!(total_due(1_000, 800), Some(1_080));
    assert_eq!(total_due(10_000, 800), Some(10_800));
    assert_eq!(total_due(12_345, 777), Some(13_304));
    assert_eq!(total_due(15, 1), Some(15));
    assert_eq!(total_due(-12_345, 777), Some(-13_304));
    assert_eq!(total_due(-15, 1), Some(-15));
    assert_eq!(total_due(1_000, -800), Some(920));
}

#[test]
fn total_due_overflow_is_none() {
    assert_eq!(total_due(i128::MAX, 2), None);
    assert_eq!(total_due(i128::MAX, 1), None);
    assert_eq!(total_due(i128::MAX, 0), Some(i128::MAX));
}

#[test]
fn settle_reports_the_payment_in_its_event() {
    let mut escrow = funded("INV020", 1_000, 800, 1000);
    let (record, event) = escrow.settle(MATURITY, 300).unwrap();
    assert_eq!(record.settled_amount, 300);
    assert_eq!(record.status, STATUS_FUNDED);
    assert_eq!(
        event,
        PartialSettlementEvent {
            invoice_id: "INV020".to_string(),
            amount: 300,
            settled_amount: 300,
            total_due: 1_080,
        }
    );
    let (record, event) = escrow.settle(MATURITY, 780).unwrap();
    assert_eq!(record.settled_amount, 1_080);
    assert_eq!(record.status, STATUS_SETTLED);
    assert_eq!(event.settled_amount, 1_080);
    assert_eq!(event.amount, 780);
}

#[test]
fn settle_sets_status_to_two() {
    let mut escrow = funded("INV024", 1_000, 800, 1000);
    let due = total_due(1_000, 800).unwrap();
    escrow.settle(MATURITY, due).unwrap();
    assert_eq!(escrow.get_escrow().unwrap().status, 2u32);
}

#[test]
fn settle_twice_panics() {
    let mut escrow = funded("INV025", 1_000, 800, 1000);
    escrow.settle(MATURITY, 1_080).unwrap();
    let before = escrow.get_escrow().unwrap();
    assert_eq!(escrow.settle(MATURITY, 0), Err(EscrowError::NotFunded));
    assert_eq!(escrow.settle(MATURITY, -1), Err(EscrowError::NotFunded));
    assert_eq!(escrow.get_escrow().unwrap(), before);
}

#[test]
fn settle_on_open_escrow_panics() {
    let mut escrow = initialized("INV026", 1_000, 800, 1000);
    assert_eq!(escrow.settle(MATURITY, 1_080), Err(EscrowError::NotFunded));
}

#[test]
fn settle_before_maturity_panics() {
    let maturity: u64 = 1_000;
    let mut escrow = funded("INV_MAT_001", 1_000, 800, maturity);
    let before = escrow.get_escrow().unwrap();
    assert_eq!(escrow.settle(maturity - 1, 1_080), Err(EscrowError::NotMatured));
    assert_eq!(escrow.get_escrow().unwrap(), before);
}

#[test]
fn settle_at_maturity_succeeds() {
    let maturity: u64 = 1_000;
    let mut escrow = funded("INV_MAT_002", 1_000, 800, maturity);
    escrow.settle(maturity, 1_080).unwrap();
    assert_eq!(escrow.get_escrow().unwrap().status, 2u32);
}

#[test]
fn escrow_without_maturity_settles_at_any_time() {
    let mut escrow = funded("INV027", 1_000, 800, 0);
    escrow.settle(0, 1_080).unwrap();
    assert_eq!(escrow.get_escrow().unwrap().status, STATUS_SETTLED);
}

#[test]
fn overpayment_is_refused_and_leaves_storage_unchanged() {
    let mut escrow = funded("INV022", 1_000, 800, 1000);
    escrow.settle(MATURITY, 1_000).unwrap();
    let before = escrow.get_escrow().unwrap();
    assert_eq!(escrow.settle(MATURITY, 81), Err(EscrowError::SettlementExceedsTotalDue));
    assert_eq!(escrow.get_escrow().unwrap(), before);
}

#[test]
fn settle_overflow_is_refused() {
    let mut escrow = funded("INV023", i128::MAX, 800, 1000);
    assert_eq!(escrow.settle(MATURITY, 1), Err(EscrowError::ArithmeticOverflow));
}

#[test]
fn update_maturity_in_open_state_reports_old_and_new() {
    let mut escrow = initialized("INV030", 1_000, 800, 1000);
    let (record, event) = escrow.update_maturity(&ADMIN.to_string(), 2_000).unwrap();
    assert_eq!(record.maturity, 2_000);
    assert_eq!(
        event,
        MaturityUpdatedEvent { invoice_id: "INV030".to_string(), old_maturity: 1000, new_maturity: 2_000 }
    );
    assert_eq!(escrow.get_escrow().unwrap().maturity, 2_000);
}

#[test]
fn update_maturity_after_funding_is_refused() {
    let mut escrow = funded("INV031", 1_000, 800, 1000);
    assert_eq!(escrow.update_maturity(&ADMIN.to_string(), 2_000), Err(EscrowError::MaturityUpdateNotOpen));
    assert_eq!(escrow.get_escrow().unwrap().maturity, 1000);
}

#[test]
fn status_only_moves_forward_and_terms_stay_fixed() {
    let mut escrow = initialized("INV040", 1_000, 800, 1000);
    let opened = escrow.get_escrow().unwrap();
    let mut last = opened.status;
    let steps: Vec<InvoiceEscrow> = vec![
        escrow.update_maturity(&ADMIN.to_string(), 1_500).unwrap().0,
        escrow.fund(INVESTOR.to_string(), 1_000).unwrap(),
        escrow.settle(1_500, 40).unwrap().0,
        escrow.settle(1_500, 1_040).unwrap().0,
    ];
    for record in steps {
        assert!(record.status >= last);
        last = record.status;
        assert_eq!(record.invoice_id, opened.invoice_id);
        assert_eq!(record.sme_address, opened.sme_address);
        assert_eq!(record.admin, opened.admin);
        assert_eq!(record.amount, opened.amount);
        assert_eq!(record.funding_target, opened.funding_target);
        assert_eq!(record.yield_bps, opened.yield_bps);
    }
    assert_eq!(last, STATUS_SETTLED);
}

#[test]
fn settlement_in_parts_matches_one_payment() {
    let mut in_parts = funded("INV050", 1_000, 800, 1000);
    let mut whole = funded("INV050", 1_000, 800, 1000);
    in_parts.settle(MATURITY, 700).unwrap();
    let (parts_record, _) = in_parts.settle(MATURITY, 380).unwrap();
    let (whole_record, _) = whole.settle(MATURITY, 1_080).unwrap();
    assert_eq!(parts_record, whole_record);
}

#[test]
fn storage_restored_from_a_record_answers_as_before() {
    let original = funded("INV060", 1_000, 800, 1000).get_escrow().unwrap();
    let mut restored = LiquifactEscrow::from_stored(Some(original.clone()));
    assert_eq!(restored.get_escrow().unwrap(), original);
    assert_eq!(restored.fund(INVESTOR.to_string(), 1), Err(EscrowError::NotOpenForFunding));
    let empty = LiquifactEscrow::from_stored(None);
    assert_eq!(empty.get_escrow(), Err(EscrowError::NotInitialized));
}

#[test]
fn test_init_sets_version_and_is_idempotent_read() {
    let mut escrow = LiquifactEscrow::new();
    let record = escrow
        .init("INV001".to_string(), SME.to_string(), ADMIN.to_string(), 10_000, 800, 1000)
        .unwrap();

    assert_eq!(record.version, SCHEMA_VERSION);
    assert_eq!(escrow.get_version(), Ok(SCHEMA_VERSION));

    let a = escrow.get_escrow().unwrap();
    let b = escrow.get_escrow().unwrap();
    assert_eq!(a, b);
}

#[test]
fn version_before_init_is_refused() {
    let escrow = LiquifactEscrow::new();
    assert_eq!(escrow.get_version(), Err(EscrowError::NotInitialized));
}

#[test]
fn multi_investor_contributions_are_recorded() {
    let mut escrow = initialized("INV070", 1_000, 800, 1000);
    let inv_a = "GINVESTORA".to_string();
    let inv_b = "GINVESTORB".to_string();
    let half = 1_000 / 2;
    escrow.fund(inv_a.clone(), 200).unwrap();
    escrow.fund(inv_b.clone(), 1_000 - half).unwrap();
    escrow.fund(inv_a.clone(), half - 200).unwrap();

    assert_eq!(escrow.get_contribution(&inv_a), half);
    assert_eq!(escrow.get_contribution(&inv_b), 1_000 - half);
    assert_eq!(escrow.get_contribution(&"GSTRANGER".to_string()), 0);
    assert_eq!(escrow.get_escrow().unwrap().status, STATUS_FUNDED);
    assert_eq!(escrow.get_escrow().unwrap().funded_amount, 1_000);
}

#[test]
fn refused_funding_records_no_contribution() {
    let mut escrow = funded("INV071", 1_000, 800, 1000);
    let late = "GLATE".to_string();
    assert_eq!(escrow.fund(late.clone(), 10), Err(EscrowError::NotOpenForFunding));
    assert_eq!(escrow.get_contribution(&late), 0);
    assert_eq!(escrow.get_contribution(&INVESTOR.to_string()), 1_000);
}

#[test]
fn contribution_overflow_is_refused() {
    let mut escrow = initialized("INV072", i128::MAX, 0, 1000);
    let investor = INVESTOR.to_string();
    escrow.restore_contribution(investor.clone(), i128::MAX);
    let before = escrow.get_escrow().unwrap();
    assert_eq!(escrow.fund(investor.clone(), 1), Err(EscrowError::ArithmeticOverflow));
    assert_eq!(escrow.get_escrow().unwrap(), before);
    assert_eq!(escrow.get_contribution(&investor), i128::MAX);
}

#[test]
fn restored_contribution_is_added_to() {
    let record = initialized("INV073", 1_000, 800, 1000).get_escrow().unwrap();
    let mut escrow = LiquifactEscrow::from_stored(Some(record));
    let investor = INVESTOR.to_string();
    escrow.restore_contribution(investor.clone(), 300);
    escrow.restore_contribution(investor.clone(), 250);
    assert_eq!(escrow.get_contribution(&investor), 250);
    escrow.fund(investor.clone(), 100).unwrap();
    assert_eq!(escrow.get_contribution(&investor), 350);
}

#[test]
fn maturity_update_needs_the_stored_admin() {
    let mut escrow = initialized("INV080", 1_000, 800, 1000);
    let before = escrow.get_escrow().unwrap();
    assert_eq!(escrow.update_maturity(&SME.to_string(), 2_000), Err(EscrowError::Unauthorized));
    assert_eq!(escrow.get_escrow().unwrap(), before);
    let mut funded_escrow = funded("INV081", 1_000, 800, 1000);
    assert_eq!(
        funded_escrow.update_maturity(&INVESTOR.to_string(), 2_000),
        Err(EscrowError::Unauthorized)
    );
    let (record, _) = escrow.update_maturity(&ADMIN.to_string(), 2_000).unwrap();
    assert_eq!(record.maturity, 2_000);
}
