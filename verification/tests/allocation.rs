use hlr_provision::allocation::Allocation;
use hlr_provision::allocation::AllocationError;
use hlr_provision::allocation::AllocationTable;
use hlr_provision::text::decimal_string;

fn table_with(records: &[(&str, u64)]) -> AllocationTable {
    let mut t = AllocationTable::new();
    for (identity, number) in records {
        t.load_record(identity.to_string(), *number);
    }
    t
}

#[test]
fn empty_table_starts_at_floor() {
    let t = AllocationTable::new();
    assert_eq!(t.high_watermark, 90_400_000);
    assert_eq!(t.lookup("IMSI001234567890"), None);
}

#[test]
fn existing_identity_keeps_its_number_and_appends_nothing() {
    let mut t = table_with(&[("IMSI001234567890", 90_400_001)]);
    let a = t.get_or_allocate("IMSI001234567890").unwrap();
    assert_eq!(a.number, 90_400_001);
    assert!(!a.is_new);
    assert!(a.append.is_none());
    assert_eq!(t.high_watermark, 90_400_001);
}

#[test]
fn absent_identity_gets_successor_of_watermark() {
    let mut t = table_with(&[("IMSI001234567890", 90_400_001)]);
    let a = t.get_or_allocate("IMSI009999999999").unwrap();
    assert_eq!(a.number, 90_400_002);
    assert!(a.is_new);
    assert_eq!(
        a.append.as_deref(),
        Some("IMSI009999999999,90400002\n")
    );
    assert_eq!(t.high_watermark, 90_400_002);
}

#[test]
fn first_allocation_of_a_run_is_above_the_floor() {
    let mut t = AllocationTable::new();
    let a = t.get_or_allocate("IMSI000000000001").unwrap();
    assert_eq!(a.number, 90_400_001);
    assert!(a.is_new);
    assert_eq!(a.append.as_deref(), Some("IMSI000000000001,90400001\n"));
}

#[test]
fn numbers_strictly_increase_within_a_run() {
    let mut t = AllocationTable::new();
    let a = t.get_or_allocate("IMSI000000000001").unwrap();
    let b = t.get_or_allocate("IMSI000000000002").unwrap();
    assert!(b.number > a.number);
    assert_eq!(b.number, 90_400_002);
}

#[test]
fn repeated_absent_identity_never_reuses_a_number() {
    // Within a run the table only holds what was loaded, so an identity
    // seen twice in the input draws two distinct numbers: reuse of an
    // already-assigned number is never possible.
    let mut t = AllocationTable::new();
    let a = t.get_or_allocate("IMSI000000000001").unwrap();
    let b = t.get_or_allocate("IMSI000000000001").unwrap();
    assert!(b.is_new);
    assert!(b.number > a.number);
}

#[test]
fn loading_reflects_prior_appends_across_runs() {
    // First run allocates and appends; a later run loads that record and
    // must hand the same identity the same number back, and never hand
    // the number to anyone else.
    let mut first = AllocationTable::new();
    let a = first.get_or_allocate("IMSI000000000001").unwrap();
    assert_eq!(a.append.as_deref(), Some("IMSI000000000001,90400001\n"));

    let mut second = table_with(&[("IMSI000000000001", 90_400_001)]);
    let again = second.get_or_allocate("IMSI000000000001").unwrap();
    assert!(!again.is_new);
    assert_eq!(again.number, a.number);
    let fresh = second.get_or_allocate("IMSI000000000002").unwrap();
    assert!(fresh.number > a.number);
}

#[test]
fn later_records_override_earlier_ones() {
    let t = table_with(&[
        ("IMSI001234567890", 90_400_001),
        ("IMSI001234567890", 90_400_005),
    ]);
    assert_eq!(t.lookup("IMSI001234567890"), Some(90_400_005));
}

#[test]
fn allocation_at_the_ceiling_fails_without_persisting() {
    let mut t = table_with(&[("IMSI001234567890", 90_499_999)]);
    let r = t.get_or_allocate("IMSI009999999999");
    assert!(matches!(r, Err(AllocationError::CeilingExceeded)));
    // Nothing moved: the watermark is as loaded and a retry fails alike.
    assert_eq!(t.high_watermark, 90_499_999);
    assert!(matches!(
        t.get_or_allocate("IMSI009999999999"),
        Err(AllocationError::CeilingExceeded)
    ));
}

#[test]
fn allocation_just_below_the_ceiling_still_succeeds() {
    let mut t = table_with(&[("IMSI001234567890", 90_499_998)]);
    let a: Allocation = t.get_or_allocate("IMSI009999999999").unwrap();
    assert_eq!(a.number, 90_499_999);
    assert!(matches!(
        t.get_or_allocate("IMSI008888888888"),
        Err(AllocationError::CeilingExceeded)
    ));
}

#[test]
fn decimal_rendering_is_exact() {
    assert_eq!(decimal_string(0), "0");
    assert_eq!(decimal_string(7), "7");
    assert_eq!(decimal_string(90_400_002), "90400002");
    assert_eq!(decimal_string(u64::MAX), "18446744073709551615");
}
