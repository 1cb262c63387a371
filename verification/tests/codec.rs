use agrisurance_dao_backend::codec::{from_bytes, to_bytes, Codec, DecodeError};
use agrisurance_dao_backend::records::{
    GovernanceProposal, InsuranceContract, StakeAdjustment, TransactionRecord, UserProfile,
    UserRole, VoteType, VotingRecord,
};

fn le(x: u64) -> Vec<u8> {
    x.to_le_bytes().to_vec()
}

fn sample_profile() -> UserProfile {
    UserProfile {
        id: 7,
        name: String::from("Alice"),
        role: UserRole::Consumer,
        transaction_history: vec![TransactionRecord {
            id: 9,
            amount: 2.5f64.to_bits(),
            date: 1_700_000_000,
            involved_parties: vec![7, 8],
        }],
        stake_in_dao: 10.0f64.to_bits(),
    }
}

#[test]
fn integer_is_eight_bytes_least_significant_first() {
    assert_eq!(to_bytes(&5u64), vec![5, 0, 0, 0, 0, 0, 0, 0]);
    assert_eq!(to_bytes(&0x0102030405060708u64), vec![8, 7, 6, 5, 4, 3, 2, 1]);
    assert_eq!(to_bytes(&u64::MAX), vec![255; 8]);
    assert_eq!(from_bytes::<u64>(&[8, 7, 6, 5, 4, 3, 2, 1]), Ok(0x0102030405060708u64));
}

#[test]
fn integer_of_wrong_length_is_rejected() {
    assert_eq!(from_bytes::<u64>(&[]), Err(DecodeError));
    assert_eq!(from_bytes::<u64>(&[1, 2, 3, 4, 5, 6, 7]), Err(DecodeError));
    assert_eq!(from_bytes::<u64>(&[1, 2, 3, 4, 5, 6, 7, 8, 9]), Err(DecodeError));
}

#[test]
fn text_is_length_then_utf8() {
    assert_eq!(to_bytes(&String::from("hi")), vec![2, 0, 0, 0, 0, 0, 0, 0, b'h', b'i']);
    assert_eq!(to_bytes(&String::new()), vec![0; 8]);
    assert_eq!(to_bytes(&String::from("é")), vec![2, 0, 0, 0, 0, 0, 0, 0, 0xC3, 0xA9]);
    assert_eq!(
        from_bytes::<String>(&[2, 0, 0, 0, 0, 0, 0, 0, 0xC3, 0xA9]),
        Ok(String::from("é"))
    );
}

#[test]
fn text_that_is_not_utf8_is_rejected() {
    assert_eq!(from_bytes::<String>(&[1, 0, 0, 0, 0, 0, 0, 0, 0xFF]), Err(DecodeError));
    assert_eq!(from_bytes::<String>(&[2, 0, 0, 0, 0, 0, 0, 0, 0xC3, b'a']), Err(DecodeError));
    assert_eq!(from_bytes::<String>(&[1, 0, 0, 0, 0, 0, 0, 0, 0xC3]), Err(DecodeError));
}

#[test]
fn text_shorter_or_longer_than_its_length_is_rejected() {
    assert_eq!(from_bytes::<String>(&[3, 0, 0, 0, 0, 0, 0, 0, b'h', b'i']), Err(DecodeError));
    assert_eq!(from_bytes::<String>(&[1, 0, 0, 0, 0, 0, 0, 0, b'h', b'i']), Err(DecodeError));
    assert_eq!(from_bytes::<String>(&[255, 255, 255, 255, 255, 255, 255, 255, b'h']), Err(DecodeError));
    assert_eq!(from_bytes::<String>(&[2, 0, 0]), Err(DecodeError));
}

#[test]
fn role_and_vote_are_one_byte() {
    assert_eq!(to_bytes(&UserRole::Farmer), vec![0]);
    assert_eq!(to_bytes(&UserRole::Consumer), vec![1]);
    assert_eq!(to_bytes(&VoteType::Approve), vec![0]);
    assert_eq!(to_bytes(&VoteType::Reject), vec![1]);
    assert_eq!(to_bytes(&VoteType::Abstain), vec![2]);
    assert_eq!(from_bytes::<UserRole>(&[1]), Ok(UserRole::Consumer));
    assert_eq!(from_bytes::<VoteType>(&[2]), Ok(VoteType::Abstain));
}

#[test]
fn unknown_role_or_vote_is_rejected() {
    assert_eq!(from_bytes::<UserRole>(&[2]), Err(DecodeError));
    assert_eq!(from_bytes::<UserRole>(&[]), Err(DecodeError));
    assert_eq!(from_bytes::<UserRole>(&[0, 0]), Err(DecodeError));
    assert_eq!(from_bytes::<VoteType>(&[3]), Err(DecodeError));
    assert_eq!(from_bytes::<VoteType>(&[]), Err(DecodeError));
}

#[test]
fn default_role_is_farmer() {
    assert_eq!(UserRole::default(), UserRole::Farmer);
}

#[test]
fn list_is_length_then_items() {
    let mut expected = le(2);
    expected.extend(le(1));
    expected.extend(le(2));
    assert_eq!(to_bytes(&vec![1u64, 2u64]), expected);
    assert_eq!(to_bytes(&Vec::<u64>::new()), le(0));
    assert_eq!(from_bytes::<Vec<u64>>(&expected), Ok(vec![1, 2]));
}

#[test]
fn list_with_missing_or_extra_items_is_rejected() {
    let mut short = le(3);
    short.extend(le(1));
    short.extend(le(2));
    assert_eq!(from_bytes::<Vec<u64>>(&short), Err(DecodeError));
    let mut long = le(1);
    long.extend(le(1));
    long.extend(le(2));
    assert_eq!(from_bytes::<Vec<u64>>(&long), Err(DecodeError));
    assert_eq!(from_bytes::<Vec<u64>>(&le(u64::MAX)), Err(DecodeError));
}

#[test]
fn voting_record_is_user_then_vote() {
    let record = VotingRecord { user_id: 3, vote: VoteType::Reject };
    assert_eq!(to_bytes(&record), vec![3, 0, 0, 0, 0, 0, 0, 0, 1]);
    assert_eq!(from_bytes::<VotingRecord>(&[3, 0, 0, 0, 0, 0, 0, 0, 1]), Ok(record));
    assert_eq!(from_bytes::<VotingRecord>(&[3, 0, 0, 0, 0, 0, 0, 0, 9]), Err(DecodeError));
}

#[test]
fn transaction_record_layout() {
    let record = TransactionRecord {
        id: 1,
        amount: 100.0f64.to_bits(),
        date: 1_700_000_000,
        involved_parties: vec![0],
    };
    let mut expected = le(1);
    expected.extend(le(100.0f64.to_bits()));
    expected.extend(le(1_700_000_000));
    expected.extend(le(1));
    expected.extend(le(0));
    assert_eq!(to_bytes(&record), expected);
    assert_eq!(from_bytes::<TransactionRecord>(&expected), Ok(record));
}

#[test]
fn user_profile_layout() {
    let profile = UserProfile {
        id: 0,
        name: String::from("Alice"),
        role: UserRole::Farmer,
        transaction_history: vec![],
        stake_in_dao: 10.0f64.to_bits(),
    };
    let mut expected = le(0);
    expected.extend(le(5));
    expected.extend(b"Alice");
    expected.push(0);
    expected.extend(le(0));
    expected.extend(le(10.0f64.to_bits()));
    assert_eq!(expected.len(), 38);
    assert_eq!(to_bytes(&profile), expected);
    assert_eq!(from_bytes::<UserProfile>(&expected), Ok(profile));
}

#[test]
fn insurance_contract_layout() {
    let contract = InsuranceContract {
        id: 4,
        farmer_id: 1,
        consumer_id: 2,
        terms: String::from("t"),
        conditions: String::from("cc"),
        payout_criteria: String::new(),
    };
    let mut expected = le(4);
    expected.extend(le(1));
    expected.extend(le(2));
    expected.extend(le(1));
    expected.extend(b"t");
    expected.extend(le(2));
    expected.extend(b"cc");
    expected.extend(le(0));
    assert_eq!(to_bytes(&contract), expected);
    assert_eq!(from_bytes::<InsuranceContract>(&expected), Ok(contract));
}

#[test]
fn governance_proposal_layout() {
    let proposal = GovernanceProposal {
        id: 6,
        proposal_details: String::from("go"),
        proposer_id: 3,
        voting_records: vec![
            VotingRecord { user_id: 3, vote: VoteType::Approve },
            VotingRecord { user_id: 4, vote: VoteType::Abstain },
        ],
    };
    let mut expected = le(6);
    expected.extend(le(2));
    expected.extend(b"go");
    expected.extend(le(3));
    expected.extend(le(2));
    expected.extend(le(3));
    expected.push(0);
    expected.extend(le(4));
    expected.push(2);
    assert_eq!(to_bytes(&proposal), expected);
    assert_eq!(from_bytes::<GovernanceProposal>(&expected), Ok(proposal));
}

#[test]
fn stake_adjustment_layout() {
    let adjustment = StakeAdjustment {
        user_id: 1,
        old_stake: 2,
        new_stake: 3,
        reason: String::from("x"),
    };
    let mut expected = le(1);
    expected.extend(le(2));
    expected.extend(le(3));
    expected.extend(le(1));
    expected.push(b'x');
    assert_eq!(expected.len(), 33);
    assert_eq!(to_bytes(&adjustment), expected);
    assert_eq!(from_bytes::<StakeAdjustment>(&expected), Ok(adjustment));
}

#[test]
fn nested_record_round_trips() {
    let profile = sample_profile();
    let bytes = to_bytes(&profile);
    assert_eq!(from_bytes::<UserProfile>(&bytes), Ok(profile));
}

#[test]
fn every_truncation_of_a_record_is_rejected() {
    let bytes = to_bytes(&sample_profile());
    for cut in 0..bytes.len() {
        assert_eq!(from_bytes::<UserProfile>(&bytes[..cut]), Err(DecodeError));
    }
}

#[test]
fn trailing_bytes_are_rejected() {
    let mut bytes = to_bytes(&sample_profile());
    bytes.push(0);
    assert_eq!(from_bytes::<UserProfile>(&bytes), Err(DecodeError));
}

#[test]
fn record_with_unknown_role_is_rejected() {
    let profile = UserProfile {
        id: 0,
        name: String::new(),
        role: UserRole::Farmer,
        transaction_history: vec![],
        stake_in_dao: 0,
    };
    let mut bytes = to_bytes(&profile);
    assert_eq!(bytes[16], 0);
    bytes[16] = 2;
    assert_eq!(from_bytes::<UserProfile>(&bytes), Err(DecodeError));
}

#[test]
fn placeholder_values_encode_like_constructed_ones() {
    let placeholder = UserProfile {
        id: u64::default(),
        name: String::default(),
        role: UserRole::default(),
        transaction_history: Vec::default(),
        stake_in_dao: 0.0f64.to_bits(),
    };
    let constructed = UserProfile {
        id: 0,
        name: String::from(""),
        role: UserRole::Farmer,
        transaction_history: vec![],
        stake_in_dao: 0,
    };
    assert_eq!(to_bytes(&placeholder), to_bytes(&constructed));
    assert_eq!(from_bytes::<UserProfile>(&to_bytes(&placeholder)), Ok(constructed));
}

#[test]
fn encode_appends_and_decode_reads_in_the_middle() {
    let mut out = vec![9u8, 9];
    7u64.encode(&mut out);
    String::from("ab").encode(&mut out);
    assert_eq!(out, vec![9, 9, 7, 0, 0, 0, 0, 0, 0, 0, 2, 0, 0, 0, 0, 0, 0, 0, b'a', b'b']);
    assert_eq!(u64::decode(&out, 2), Some((7, 10)));
    assert_eq!(String::decode(&out, 10), Some((String::from("ab"), 20)));
    assert_eq!(u64::decode(&out, 13), None);
    assert_eq!(u64::decode(&out, 20), None);
}

#[test]
fn amounts_keep_every_bit() {
    for amount in [0.0f64, -0.0, 1.0, -1.5, f64::MAX, f64::MIN_POSITIVE, f64::INFINITY] {
        let record = TransactionRecord {
            id: 0,
            amount: amount.to_bits(),
            date: 0,
            involved_parties: vec![],
        };
        let back = from_bytes::<TransactionRecord>(&to_bytes(&record)).unwrap();
        assert_eq!(back.amount, amount.to_bits());
        assert_eq!(f64::from_bits(back.amount).to_bits(), amount.to_bits());
    }
    let nan = f64::NAN.to_bits();
    let record = TransactionRecord { id: 0, amount: nan, date: 0, involved_parties: vec![] };
    assert_eq!(from_bytes::<TransactionRecord>(&to_bytes(&record)).unwrap().amount, nan);
}
