use agrisurance_dao_backend::codec::to_bytes;
use agrisurance_dao_backend::error::{Error, Kind};
use agrisurance_dao_backend::records::{
    GovernanceProposal, InsuranceContract, StakeAdjustment, TransactionRecord, UserProfile,
    UserRole, VoteType, VotingRecord,
};
use agrisurance_dao_backend::store::Store;

fn text(s: &str) -> String {
    String::from(s)
}

fn bits(x: f64) -> u64 {
    x.to_bits()
}

fn add_user(store: &mut Store, name: &str, role: UserRole, stake: f64) -> UserProfile {
    let name = text(name);
    assert!(store.can_create_user_profile(&name, role, bits(stake)));
    store.create_user_profile(name, role, bits(stake))
}

fn add_transaction(store: &mut Store, amount: f64, date: u64, parties: Vec<u64>) -> TransactionRecord {
    assert!(store.can_create_transaction_record(bits(amount), date, &parties));
    store.create_transaction_record(bits(amount), date, parties)
}

fn add_contract(store: &mut Store, farmer: u64, consumer: u64) -> InsuranceContract {
    let (terms, conditions, payout) = (text("terms"), text("conditions"), text("payout"));
    assert!(store.can_create_insurance_contract(farmer, consumer, &terms, &conditions, &payout));
    store.create_insurance_contract(farmer, consumer, terms, conditions, payout)
}

fn add_proposal(store: &mut Store, details: &str, proposer: u64) -> GovernanceProposal {
    let details = text(details);
    let votes = vec![VotingRecord { user_id: proposer, vote: VoteType::Approve }];
    assert!(store.can_create_governance_proposal(&details, proposer, &votes));
    store.create_governance_proposal(details, proposer, votes)
}

fn add_adjustment(store: &mut Store, user: u64, before: f64, after: f64) -> StakeAdjustment {
    let reason = text("harvest");
    assert!(store.can_create_stake_adjustment(user, bits(before), bits(after), &reason));
    store.create_stake_adjustment(user, bits(before), bits(after), reason)
}

fn message(error: Error) -> String {
    match error {
        Error::NotFound { msg } => msg,
    }
}

#[test]
fn new_store_is_empty_and_valid() {
    let store = Store::new();
    assert!(store.is_valid());
    assert_eq!(store.next_id(), 0);
    assert!(store.read_user_profile(0).is_err());
    assert!(store.read_transaction_record(0).is_err());
    assert!(store.read_insurance_contract(0).is_err());
    assert!(store.read_governance_proposal(0).is_err());
    assert!(store.read_stake_adjustment(0).is_err());
    assert!(store.table(Kind::UserProfile).entries().is_empty());
}

#[test]
fn opened_store_on_fresh_memory_is_empty_and_valid() {
    let mut store = Store::open();
    assert!(store.is_valid());
    assert_eq!(store.next_id(), 0);
    let alice = add_user(&mut store, "Alice", UserRole::Farmer, 1.0);
    assert_eq!(alice.id, 0);
    assert!(store.is_valid());
}

#[test]
fn scenario_create_read_update_delete() {
    let mut store = Store::new();

    let alice = add_user(&mut store, "Alice", UserRole::Farmer, 10.0);
    assert_eq!(alice.id, 0);
    assert_eq!(alice.name, "Alice");
    assert_eq!(alice.role, UserRole::Farmer);
    assert_eq!(f64::from_bits(alice.stake_in_dao), 10.0);
    assert!(alice.transaction_history.is_empty());

    let payment = add_transaction(&mut store, 100.0, 1_700_000_000, vec![0]);
    assert_eq!(payment.id, 1);
    assert_eq!(f64::from_bits(payment.amount), 100.0);
    assert_eq!(payment.date, 1_700_000_000);
    assert_eq!(payment.involved_parties, vec![0]);

    assert_eq!(store.read_user_profile(0), Ok(alice.clone()));

    let name = text("Alice B");
    assert!(store.can_update_user_profile(0, &name, bits(15.0)));
    let updated = store.update_user_profile(0, name, bits(15.0)).unwrap();
    assert_eq!(updated.id, 0);
    assert_eq!(updated.name, "Alice B");
    assert_eq!(f64::from_bits(updated.stake_in_dao), 15.0);
    assert_eq!(updated.role, UserRole::Farmer);
    assert!(updated.transaction_history.is_empty());

    assert_eq!(store.delete_user_profile(0), Ok(updated));

    assert_eq!(
        store.read_user_profile(0),
        Err(Error::NotFound { msg: text("User profile with id=0 not found") })
    );
    assert!(store.is_valid());
}

#[test]
fn identifiers_are_shared_and_increase_across_kinds() {
    let mut store = Store::new();
    let mut ids = Vec::new();
    ids.push(add_user(&mut store, "Ann", UserRole::Consumer, 0.0).id);
    ids.push(add_transaction(&mut store, 1.5, 10, vec![]).id);
    ids.push(add_contract(&mut store, 0, 0).id);
    ids.push(add_proposal(&mut store, "plant more", 0).id);
    let before = store.next_id();
    add_adjustment(&mut store, 0, 1.0, 2.0);
    ids.push(before);
    ids.push(add_user(&mut store, "Bob", UserRole::Farmer, 3.0).id);
    ids.push(add_transaction(&mut store, 2.5, 11, vec![0, 5]).id);
    assert_eq!(ids, vec![0, 1, 2, 3, 4, 5, 6]);
    assert_eq!(store.next_id(), 7);
}

#[test]
fn reads_and_failed_calls_hand_out_no_identifier() {
    let mut store = Store::new();
    add_user(&mut store, "Ann", UserRole::Farmer, 0.0);
    assert!(store.read_user_profile(0).is_ok());
    assert!(store.read_user_profile(9).is_err());
    assert!(store.update_user_profile(9, text("x"), 0).is_err());
    assert!(store.delete_user_profile(9).is_err());
    let name = text("Ann Again");
    assert!(store.can_update_user_profile(0, &name, 1));
    assert!(store.update_user_profile(0, name, 1).is_ok());
    assert_eq!(store.next_id(), 1);
    assert_eq!(add_user(&mut store, "Bob", UserRole::Farmer, 0.0).id, 1);
}

#[test]
fn read_after_create_gives_the_record_for_every_kind() {
    let mut store = Store::new();

    let user = add_user(&mut store, "Zoë", UserRole::Consumer, 2.25);
    assert_eq!(store.read_user_profile(user.id), Ok(user));

    let payment = add_transaction(&mut store, -4.0, 99, vec![7, 8, 9]);
    assert_eq!(store.read_transaction_record(payment.id), Ok(payment));

    let contract = add_contract(&mut store, 11, 12);
    assert_eq!(contract.farmer_id, 11);
    assert_eq!(contract.consumer_id, 12);
    assert_eq!(contract.terms, "terms");
    assert_eq!(contract.conditions, "conditions");
    assert_eq!(contract.payout_criteria, "payout");
    assert_eq!(store.read_insurance_contract(contract.id), Ok(contract));

    let proposal = add_proposal(&mut store, "buy a tractor", 4);
    assert_eq!(proposal.proposer_id, 4);
    assert_eq!(proposal.voting_records, vec![VotingRecord { user_id: 4, vote: VoteType::Approve }]);
    assert_eq!(store.read_governance_proposal(proposal.id), Ok(proposal));

    let id = store.next_id();
    let adjustment = add_adjustment(&mut store, 3, 1.0, 1.5);
    assert_eq!(adjustment.user_id, 3);
    assert_eq!(f64::from_bits(adjustment.old_stake), 1.0);
    assert_eq!(f64::from_bits(adjustment.new_stake), 1.5);
    assert_eq!(adjustment.reason, "harvest");
    assert_eq!(store.read_stake_adjustment(id), Ok(adjustment));
}

#[test]
fn creating_a_transaction_leaves_user_profiles_alone() {
    let mut store = Store::new();
    let user = add_user(&mut store, "Ann", UserRole::Farmer, 1.0);
    add_transaction(&mut store, 5.0, 1, vec![user.id]);
    let found = store.read_user_profile(user.id).unwrap();
    assert!(found.transaction_history.is_empty());
    assert_eq!(found, user);
    assert_eq!(store.table(Kind::UserProfile).entries().len(), 1);
    assert_eq!(store.table(Kind::TransactionRecord).entries().len(), 1);
}

#[test]
fn same_identifier_in_two_tables_is_two_records() {
    let mut store = Store::new();
    add_user(&mut store, "Ann", UserRole::Farmer, 1.0);
    assert!(store.read_user_profile(0).is_ok());
    assert!(store.read_transaction_record(0).is_err());
    assert!(store.delete_transaction_record(0).is_err());
    assert!(store.read_user_profile(0).is_ok());
}

#[test]
fn update_user_profile_keeps_identity_role_and_history() {
    let mut store = Store::new();
    add_user(&mut store, "Ann", UserRole::Farmer, 1.0);
    let bob = add_user(&mut store, "Bob", UserRole::Consumer, 2.0);
    let name = text("Robert");
    assert!(store.can_update_user_profile(bob.id, &name, bits(7.5)));
    let updated = store.update_user_profile(bob.id, name, bits(7.5)).unwrap();
    assert_eq!(
        updated,
        UserProfile {
            id: 1,
            name: text("Robert"),
            role: UserRole::Consumer,
            transaction_history: vec![],
            stake_in_dao: bits(7.5),
        }
    );
    assert_eq!(store.read_user_profile(1), Ok(updated));
    assert_eq!(store.read_user_profile(0).unwrap().name, "Ann");
    assert_eq!(store.next_id(), 2);
}

#[test]
fn update_transaction_record_replaces_fields() {
    let mut store = Store::new();
    let payment = add_transaction(&mut store, 1.0, 5, vec![1]);
    let parties = vec![2, 3];
    assert!(store.can_update_transaction_record(payment.id, bits(9.0), 6, &parties));
    let updated = store.update_transaction_record(payment.id, bits(9.0), 6, parties).unwrap();
    assert_eq!(
        updated,
        TransactionRecord { id: 0, amount: bits(9.0), date: 6, involved_parties: vec![2, 3] }
    );
    assert_eq!(store.read_transaction_record(0), Ok(updated));
}

#[test]
fn update_insurance_contract_replaces_fields() {
    let mut store = Store::new();
    let contract = add_contract(&mut store, 1, 2);
    let (terms, conditions, payout) = (text("t2"), text("c2"), text("p2"));
    assert!(store.can_update_insurance_contract(contract.id, 3, 4, &terms, &conditions, &payout));
    let updated =
        store.update_insurance_contract(contract.id, 3, 4, terms, conditions, payout).unwrap();
    assert_eq!(
        updated,
        InsuranceContract {
            id: 0,
            farmer_id: 3,
            consumer_id: 4,
            terms: text("t2"),
            conditions: text("c2"),
            payout_criteria: text("p2"),
        }
    );
    assert_eq!(store.read_insurance_contract(0), Ok(updated));
}

#[test]
fn update_governance_proposal_replaces_fields() {
    let mut store = Store::new();
    let proposal = add_proposal(&mut store, "first", 1);
    let details = text("second");
    let votes = vec![
        VotingRecord { user_id: 1, vote: VoteType::Reject },
        VotingRecord { user_id: 2, vote: VoteType::Abstain },
    ];
    assert!(store.can_update_governance_proposal(proposal.id, &details, 9, &votes));
    let updated =
        store.update_governance_proposal(proposal.id, details, 9, votes.clone()).unwrap();
    assert_eq!(
        updated,
        GovernanceProposal {
            id: 0,
            proposal_details: text("second"),
            proposer_id: 9,
            voting_records: votes,
        }
    );
    assert_eq!(store.read_governance_proposal(0), Ok(updated));
}

#[test]
fn update_stake_adjustment_replaces_every_field() {
    let mut store = Store::new();
    add_user(&mut store, "Ann", UserRole::Farmer, 1.0);
    let id = store.next_id();
    add_adjustment(&mut store, 0, 1.0, 2.0);
    let reason = text("drought");
    assert!(store.can_update_stake_adjustment(id, 5, bits(2.0), bits(0.5), &reason));
    let updated = store.update_stake_adjustment(id, 5, bits(2.0), bits(0.5), reason).unwrap();
    assert_eq!(
        updated,
        StakeAdjustment {
            user_id: 5,
            old_stake: bits(2.0),
            new_stake: bits(0.5),
            reason: text("drought"),
        }
    );
    assert_eq!(store.read_stake_adjustment(id), Ok(updated));
}

#[test]
fn update_of_absent_record_creates_nothing() {
    let mut store = Store::new();
    let name = text("Nobody");
    assert!(store.can_update_user_profile(3, &name, 0));
    assert_eq!(
        store.update_user_profile(3, name, 0),
        Err(Error::NotFound { msg: text("User profile with id=3 not found") })
    );
    assert!(store.read_user_profile(3).is_err());
    assert!(store.table(Kind::UserProfile).entries().is_empty());
    assert_eq!(store.next_id(), 0);
}

#[test]
fn delete_is_terminal() {
    let mut store = Store::new();
    let ann = add_user(&mut store, "Ann", UserRole::Farmer, 1.0);
    assert_eq!(store.delete_user_profile(ann.id), Ok(ann));
    let expected = Err(Error::NotFound { msg: text("User profile with id=0 not found") });
    assert_eq!(store.read_user_profile(0), expected);
    let name = text("Ann");
    assert!(store.can_update_user_profile(0, &name, 0));
    assert_eq!(store.update_user_profile(0, name, 0), expected);
    assert_eq!(store.delete_user_profile(0), expected);
    for expected_id in 1..6 {
        let next = add_user(&mut store, "Later", UserRole::Consumer, 0.0);
        assert_eq!(next.id, expected_id);
    }
    assert_eq!(store.read_user_profile(0), expected);
    assert!(store.is_valid());
}

#[test]
fn delete_returns_the_last_value_for_every_kind() {
    let mut store = Store::new();
    let payment = add_transaction(&mut store, 1.0, 2, vec![3]);
    let contract = add_contract(&mut store, 1, 2);
    let proposal = add_proposal(&mut store, "p", 1);
    let id = store.next_id();
    let adjustment = add_adjustment(&mut store, 1, 0.0, 1.0);
    assert_eq!(store.delete_transaction_record(payment.id), Ok(payment));
    assert_eq!(store.delete_insurance_contract(contract.id), Ok(contract));
    assert_eq!(store.delete_governance_proposal(proposal.id), Ok(proposal));
    assert_eq!(store.delete_stake_adjustment(id), Ok(adjustment));
    assert!(store.read_transaction_record(0).is_err());
    assert!(store.read_insurance_contract(1).is_err());
    assert!(store.read_governance_proposal(2).is_err());
    assert!(store.read_stake_adjustment(3).is_err());
    assert_eq!(store.next_id(), 4);
}

#[test]
fn not_found_names_the_kind_and_the_identifier() {
    let mut store = Store::new();
    assert_eq!(message(store.read_user_profile(42).unwrap_err()), "User profile with id=42 not found");
    assert_eq!(
        message(store.read_transaction_record(7).unwrap_err()),
        "Transaction record with id=7 not found"
    );
    assert_eq!(
        message(store.read_insurance_contract(100).unwrap_err()),
        "Insurance contract with id=100 not found"
    );
    assert_eq!(
        message(store.read_governance_proposal(0).unwrap_err()),
        "Governance proposal with id=0 not found"
    );
    assert_eq!(
        message(store.read_stake_adjustment(u64::MAX).unwrap_err()),
        "Stake adjustment with id=18446744073709551615 not found"
    );
    assert_eq!(
        message(store.delete_transaction_record(12).unwrap_err()),
        "Transaction record with id=12 not found"
    );
    assert_eq!(
        message(store.delete_insurance_contract(13).unwrap_err()),
        "Insurance contract with id=13 not found"
    );
    assert_eq!(
        message(store.delete_governance_proposal(14).unwrap_err()),
        "Governance proposal with id=14 not found"
    );
    assert_eq!(
        message(store.delete_stake_adjustment(15).unwrap_err()),
        "Stake adjustment with id=15 not found"
    );
    assert_eq!(
        message(store.update_transaction_record(16, 0, 0, vec![]).unwrap_err()),
        "Transaction record with id=16 not found"
    );
    assert_eq!(
        message(
            store.update_insurance_contract(17, 0, 0, text(""), text(""), text("")).unwrap_err()
        ),
        "Insurance contract with id=17 not found"
    );
    assert_eq!(
        message(store.update_governance_proposal(18, text(""), 0, vec![]).unwrap_err()),
        "Governance proposal with id=18 not found"
    );
    assert_eq!(
        message(store.update_stake_adjustment(19, 0, 0, 0, text("")).unwrap_err()),
        "Stake adjustment with id=19 not found"
    );
}

#[test]
fn user_profile_ceiling_is_2048_bytes() {
    let mut store = Store::new();
    let longest = "a".repeat(2015);
    let too_long = "a".repeat(2016);
    assert!(!store.can_create_user_profile(&too_long, UserRole::Farmer, 0));
    assert!(store.can_create_user_profile(&longest, UserRole::Farmer, 0));
    let profile = store.create_user_profile(longest, UserRole::Farmer, 0);
    assert_eq!(to_bytes(&profile).len(), 2048);
    assert!(!store.can_update_user_profile(profile.id, &too_long, 0));
    assert!(store.can_update_user_profile(profile.id, &text("short"), 0));
    assert!(store.can_update_user_profile(77, &too_long, 0));
    assert_eq!(store.read_user_profile(0), Ok(profile));
    assert_eq!(store.next_id(), 1);
}

#[test]
fn ceiling_counts_bytes_not_characters() {
    let store = Store::new();
    let two_bytes_each = "é".repeat(1007);
    assert_eq!(two_bytes_each.len(), 2014);
    assert!(store.can_create_user_profile(&two_bytes_each, UserRole::Farmer, 0));
    let one_more = "é".repeat(1008);
    assert!(!store.can_create_user_profile(&one_more, UserRole::Farmer, 0));
}

#[test]
fn transaction_record_ceiling_is_1024_bytes() {
    let mut store = Store::new();
    let most: Vec<u64> = (0..124).collect();
    let too_many: Vec<u64> = (0..125).collect();
    assert!(!store.can_create_transaction_record(0, 0, &too_many));
    assert!(store.can_create_transaction_record(0, 0, &most));
    let record = store.create_transaction_record(0, 0, most);
    assert_eq!(to_bytes(&record).len(), 1024);
    assert!(!store.can_update_transaction_record(record.id, 0, 0, &too_many));
    assert!(store.can_update_transaction_record(record.id, 0, 0, &vec![]));
}

#[test]
fn insurance_contract_ceiling_is_2048_bytes() {
    let store = Store::new();
    let terms = "t".repeat(1000);
    let conditions = "c".repeat(1000);
    assert!(store.can_create_insurance_contract(0, 0, &terms, &conditions, &text("")));
    assert!(!store.can_create_insurance_contract(0, 0, &terms, &conditions, &text("p")));
}

#[test]
fn governance_proposal_ceiling_is_2048_bytes() {
    let store = Store::new();
    let votes: Vec<VotingRecord> =
        (0..100).map(|i| VotingRecord { user_id: i, vote: VoteType::Abstain }).collect();
    let details = "d".repeat(1116);
    assert!(store.can_create_governance_proposal(&details, 0, &votes));
    let longer = "d".repeat(1117);
    assert!(!store.can_create_governance_proposal(&longer, 0, &votes));
}

#[test]
fn stake_adjustment_ceiling_is_1024_bytes() {
    let mut store = Store::new();
    let longest = "r".repeat(992);
    let too_long = "r".repeat(993);
    assert!(store.can_create_stake_adjustment(0, 0, 0, &longest));
    assert!(!store.can_create_stake_adjustment(0, 0, 0, &too_long));
    store.create_stake_adjustment(0, 0, 0, text(""));
    assert!(store.can_update_stake_adjustment(0, 0, 0, 0, &longest));
    assert!(!store.can_update_stake_adjustment(0, 0, 0, 0, &too_long));
}

#[test]
fn tables_hold_the_encoded_records_in_ascending_order() {
    let mut store = Store::new();
    let ann = add_user(&mut store, "Ann", UserRole::Farmer, 1.0);
    add_transaction(&mut store, 1.0, 1, vec![]);
    let bob = add_user(&mut store, "Bob", UserRole::Consumer, 2.0);
    let cat = add_user(&mut store, "Cat", UserRole::Farmer, 3.0);
    assert!(store.delete_user_profile(bob.id).is_ok());
    let table = store.table(Kind::UserProfile);
    assert_eq!(table.entries(), vec![(0, to_bytes(&ann)), (3, to_bytes(&cat))]);
    assert_eq!(table.get(3), Some(to_bytes(&cat)));
    assert_eq!(table.get(2), None);
    assert_eq!(table.max_size(), 2048);
    assert!(table.accepts(&vec![0u8; 2048]));
    assert!(!table.accepts(&vec![0u8; 2049]));
    assert!(table.fits(&ann));
    assert_eq!(table.fetch::<UserProfile>(0), Some(ann));
    assert!(table.check::<UserProfile>(4));
    assert!(!table.check::<UserProfile>(3));
    assert!(!table.check::<TransactionRecord>(4));
    assert_eq!(store.table(Kind::TransactionRecord).max_size(), 1024);
    assert_eq!(store.table(Kind::InsuranceContract).max_size(), 2048);
    assert_eq!(store.table(Kind::GovernanceProposal).max_size(), 2048);
    assert_eq!(store.table(Kind::StakeAdjustment).max_size(), 1024);
}

#[test]
fn two_stores_do_not_share_records() {
    let mut first = Store::new();
    let mut second = Store::new();
    add_user(&mut first, "Ann", UserRole::Farmer, 1.0);
    assert!(second.read_user_profile(0).is_err());
    assert_eq!(add_user(&mut second, "Bob", UserRole::Farmer, 1.0).id, 0);
    assert_eq!(first.read_user_profile(0).unwrap().name, "Ann");
    assert_eq!(second.read_user_profile(0).unwrap().name, "Bob");
}

#[test]
fn many_records_survive_in_one_table() {
    let mut store = Store::new();
    for i in 0..300u64 {
        let user = add_user(&mut store, &format!("user {i}"), UserRole::Farmer, 0.0);
        assert_eq!(user.id, i);
    }
    for i in (0..300u64).step_by(2) {
        assert!(store.delete_user_profile(i).is_ok());
    }
    for i in 0..300u64 {
        let found = store.read_user_profile(i);
        if i % 2 == 0 {
            assert!(found.is_err());
        } else {
            assert_eq!(found.unwrap().name, format!("user {i}"));
        }
    }
    assert_eq!(store.table(Kind::UserProfile).entries().len(), 150);
    assert!(store.is_valid());
}
