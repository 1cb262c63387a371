use agrisurance_dao_backend::error::{decimal_string, not_found, Error, Kind, COUNTER_PARTITION};

#[test]
fn decimal_of_small_numbers() {
    assert_eq!(decimal_string(0), "0");
    assert_eq!(decimal_string(7), "7");
    assert_eq!(decimal_string(9), "9");
}

#[test]
fn decimal_of_numbers_with_several_digits() {
    assert_eq!(decimal_string(10), "10");
    assert_eq!(decimal_string(42), "42");
    assert_eq!(decimal_string(100), "100");
    assert_eq!(decimal_string(1_700_000_000), "1700000000");
    assert_eq!(decimal_string(9_876_543_210), "9876543210");
}

#[test]
fn decimal_of_the_greatest_number() {
    assert_eq!(decimal_string(u64::MAX), "18446744073709551615");
}

#[test]
fn decimal_agrees_with_the_standard_rendering() {
    let mut n: u64 = 1;
    for _ in 0..64 {
        assert_eq!(decimal_string(n), n.to_string());
        assert_eq!(decimal_string(n - 1), (n - 1).to_string());
        n = n.wrapping_mul(2);
    }
}

#[test]
fn not_found_message_for_each_kind() {
    assert_eq!(
        not_found(Kind::UserProfile, 42),
        Error::NotFound { msg: String::from("User profile with id=42 not found") }
    );
    assert_eq!(
        not_found(Kind::TransactionRecord, 0).message(),
        "Transaction record with id=0 not found"
    );
    assert_eq!(
        not_found(Kind::InsuranceContract, 5).message(),
        "Insurance contract with id=5 not found"
    );
    assert_eq!(
        not_found(Kind::GovernanceProposal, 10).message(),
        "Governance proposal with id=10 not found"
    );
    assert_eq!(
        not_found(Kind::StakeAdjustment, 99).message(),
        "Stake adjustment with id=99 not found"
    );
}

#[test]
fn kinds_have_their_names_partitions_and_ceilings() {
    assert_eq!(COUNTER_PARTITION, 0);
    let kinds = [
        (Kind::UserProfile, "User profile", 1, 2048),
        (Kind::TransactionRecord, "Transaction record", 2, 1024),
        (Kind::InsuranceContract, "Insurance contract", 3, 2048),
        (Kind::GovernanceProposal, "Governance proposal", 4, 2048),
        (Kind::StakeAdjustment, "Stake adjustment", 5, 1024),
    ];
    for (kind, label, partition, max_size) in kinds {
        assert_eq!(kind.label(), label);
        assert_eq!(kind.partition(), partition);
        assert_eq!(kind.max_size(), max_size);
    }
}
