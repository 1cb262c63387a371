//! The five kinds of records, the values they stand for, and their encodings.
//!
//! Amounts and stakes are real numbers to the callers of this library. Here
//! they are carried as the 64 bits of their IEEE 754 form, which is all that
//! storing and returning them needs.

use crate::codec::{lemma_concat_assoc, Codec};
use crate::table::Record;
use vstd::prelude::*;

verus! {

/// What a user does in the organisation.
#[derive(Clone, Copy, Debug, PartialEq, Eq, Structural)]
pub enum UserRole {
    Farmer,
    Consumer,
}

impl Default for UserRole {
    /// A placeholder only: a profile that is created names its role.
    fn default() -> (role: UserRole)
        ensures
            role == UserRole::Farmer,
    {
        UserRole::Farmer
    }
}

/// How a member voted on a proposal.
#[derive(Clone, Copy, Debug, PartialEq, Eq, Structural)]
pub enum VoteType {
    Approve,
    Reject,
    Abstain,
}

/// One vote on a proposal.
#[derive(Clone, Copy, Debug, PartialEq, Eq, Structural)]
pub struct VotingRecord {
    pub user_id: u64,
    pub vote: VoteType,
}

/// A payment between users.
#[derive(Clone, Debug, PartialEq, Eq)]
pub struct TransactionRecord {
    pub id: u64,
    /// The bits of the amount.
    pub amount: u64,
    /// Seconds since the Unix epoch.
    pub date: u64,
    /// The identifiers of the users involved. They are not looked up.
    pub involved_parties: Vec<u64>,
}

/// A member of the organisation.
#[derive(Clone, Debug, PartialEq, Eq)]
pub struct UserProfile {
    pub id: u64,
    pub name: String,
    pub role: UserRole,
    /// Copies of transaction records. No operation of the store adds to it.
    pub transaction_history: Vec<TransactionRecord>,
    /// The bits of the stake.
    pub stake_in_dao: u64,
}

/// An insurance contract between a farmer and a consumer.
#[derive(Clone, Debug, PartialEq, Eq)]
pub struct InsuranceContract {
    pub id: u64,
    pub farmer_id: u64,
    pub consumer_id: u64,
    pub terms: String,
    pub conditions: String,
    pub payout_criteria: String,
}

/// A proposal put to the vote.
#[derive(Clone, Debug, PartialEq, Eq)]
pub struct GovernanceProposal {
    pub id: u64,
    pub proposal_details: String,
    pub proposer_id: u64,
    pub voting_records: Vec<VotingRecord>,
}

/// A change of one user's stake. The record does not carry the identifier it
/// is stored under: `user_id` names the user whose stake changed.
#[derive(Clone, Debug, PartialEq, Eq)]
pub struct StakeAdjustment {
    pub user_id: u64,
    /// The bits of the stake before.
    pub old_stake: u64,
    /// The bits of the stake after.
    pub new_stake: u64,
    pub reason: String,
}

/// A transaction record as a mathematical value.
pub ghost struct TransactionRecordModel {
    pub id: u64,
    pub amount: u64,
    pub date: u64,
    pub involved_parties: Seq<u64>,
}

/// A user profile as a mathematical value.
pub ghost struct UserProfileModel {
    pub id: u64,
    pub name: Seq<char>,
    pub role: UserRole,
    pub transaction_history: Seq<TransactionRecordModel>,
    pub stake_in_dao: u64,
}

/// An insurance contract as a mathematical value.
pub ghost struct InsuranceContractModel {
    pub id: u64,
    pub farmer_id: u64,
    pub consumer_id: u64,
    pub terms: Seq<char>,
    pub conditions: Seq<char>,
    pub payout_criteria: Seq<char>,
}

/// A governance proposal as a mathematical value.
pub ghost struct GovernanceProposalModel {
    pub id: u64,
    pub proposal_details: Seq<char>,
    pub proposer_id: u64,
    pub voting_records: Seq<VotingRecord>,
}

/// A stake adjustment as a mathematical value.
pub ghost struct StakeAdjustmentModel {
    pub user_id: u64,
    pub old_stake: u64,
    pub new_stake: u64,
    pub reason: Seq<char>,
}

impl View for TransactionRecord {
    type V = TransactionRecordModel;

    open spec fn view(&self) -> TransactionRecordModel {
        self.model()
    }
}

impl View for UserProfile {
    type V = UserProfileModel;

    open spec fn view(&self) -> UserProfileModel {
        self.model()
    }
}

impl View for InsuranceContract {
    type V = InsuranceContractModel;

    open spec fn view(&self) -> InsuranceContractModel {
        self.model()
    }
}

impl View for GovernanceProposal {
    type V = GovernanceProposalModel;

    open spec fn view(&self) -> GovernanceProposalModel {
        self.model()
    }
}

impl View for StakeAdjustment {
    type V = StakeAdjustmentModel;

    open spec fn view(&self) -> StakeAdjustmentModel {
        self.model()
    }
}

/// The byte that stands for a role.
pub open spec fn role_tag(role: UserRole) -> u8 {
    match role {
        UserRole::Farmer => 0,
        UserRole::Consumer => 1,
    }
}

/// The byte that stands for a vote.
pub open spec fn vote_tag(vote: VoteType) -> u8 {
    match vote {
        VoteType::Approve => 0,
        VoteType::Reject => 1,
        VoteType::Abstain => 2,
    }
}

impl Codec for UserRole {
    type Model = UserRole;

    open spec fn model(&self) -> UserRole {
        *self
    }

    open spec fn encodable(value: UserRole) -> bool {
        true
    }

    open spec fn encoding(value: UserRole) -> Seq<u8> {
        seq![role_tag(value)]
    }

    open spec fn parse(bytes: Seq<u8>) -> Option<(UserRole, Seq<u8>)> {
        if bytes.len() == 0 {
            None
        } else if bytes[0] == 0 {
            Some((UserRole::Farmer, bytes.skip(1)))
        } else if bytes[0] == 1 {
            Some((UserRole::Consumer, bytes.skip(1)))
        } else {
            None
        }
    }

    proof fn lemma_parse_encoding(value: UserRole, rest: Seq<u8>) {
        assert((Self::encoding(value) + rest).skip(1) =~= rest);
    }

    proof fn lemma_encoding_parse(bytes: Seq<u8>) {
        let (role, rest) = Self::parse(bytes).unwrap();
        assert(bytes =~= Self::encoding(role) + rest);
    }

    fn encode(&self, out: &mut Vec<u8>) {
        let tag: u8 = match self {
            UserRole::Farmer => 0,
            UserRole::Consumer => 1,
        };
        out.push(tag);
        assert(out@ =~= old(out)@ + Self::encoding(*self));
    }

    fn decode(bytes: &[u8], start: usize) -> (read: Option<(UserRole, usize)>) {
        if start == bytes.len() {
            return None;
        }
        let tag: u8 = bytes[start];
        let end: usize = start + 1;
        assert(bytes@.skip(start as int).skip(1) =~= bytes@.skip(end as int));
        if tag == 0 {
            Some((UserRole::Farmer, end))
        } else if tag == 1 {
            Some((UserRole::Consumer, end))
        } else {
            None
        }
    }
}

impl Codec for VoteType {
    type Model = VoteType;

    open spec fn model(&self) -> VoteType {
        *self
    }

    open spec fn encodable(value: VoteType) -> bool {
        true
    }

    open spec fn encoding(value: VoteType) -> Seq<u8> {
        seq![vote_tag(value)]
    }

    open spec fn parse(bytes: Seq<u8>) -> Option<(VoteType, Seq<u8>)> {
        if bytes.len() == 0 {
            None
        } else if bytes[0] == 0 {
            Some((VoteType::Approve, bytes.skip(1)))
        } else if bytes[0] == 1 {
            Some((VoteType::Reject, bytes.skip(1)))
        } else if bytes[0] == 2 {
            Some((VoteType::Abstain, bytes.skip(1)))
        } else {
            None
        }
    }

    proof fn lemma_parse_encoding(value: VoteType, rest: Seq<u8>) {
        assert((Self::encoding(value) + rest).skip(1) =~= rest);
    }

    proof fn lemma_encoding_parse(bytes: Seq<u8>) {
        let (vote, rest) = Self::parse(bytes).unwrap();
        assert(bytes =~= Self::encoding(vote) + rest);
    }

    fn encode(&self, out: &mut Vec<u8>) {
        let tag: u8 = match self {
            VoteType::Approve => 0,
            VoteType::Reject => 1,
            VoteType::Abstain => 2,
        };
        out.push(tag);
        assert(out@ =~= old(out)@ + Self::encoding(*self));
    }

    fn decode(bytes: &[u8], start: usize) -> (read: Option<(VoteType, usize)>) {
        if start == bytes.len() {
            return None;
        }
        let tag: u8 = bytes[start];
        let end: usize = start + 1;
        assert(bytes@.skip(start as int).skip(1) =~= bytes@.skip(end as int));
        if tag == 0 {
            Some((VoteType::Approve, end))
        } else if tag == 1 {
            Some((VoteType::Reject, end))
        } else if tag == 2 {
            Some((VoteType::Abstain, end))
        } else {
            None
        }
    }
}

impl Codec for VotingRecord {
    type Model = VotingRecord;

    open spec fn model(&self) -> VotingRecord {
        *self
    }

    open spec fn encodable(value: VotingRecord) -> bool {
        true
    }

    open spec fn encoding(value: VotingRecord) -> Seq<u8> {
        u64::encoding(value.user_id) + VoteType::encoding(value.vote)
    }

    open spec fn parse(bytes: Seq<u8>) -> Option<(VotingRecord, Seq<u8>)> {
        match u64::parse(bytes) {
            Some((user_id, after_user)) => match VoteType::parse(after_user) {
                Some((vote, rest)) => Some((VotingRecord { user_id, vote }, rest)),
                None => None,
            },
            None => None,
        }
    }

    proof fn lemma_parse_encoding(value: VotingRecord, rest: Seq<u8>) {
        let after_user = VoteType::encoding(value.vote) + rest;
        assert(Self::encoding(value) + rest =~= u64::encoding(value.user_id) + after_user);
        u64::lemma_parse_encoding(value.user_id, after_user);
        VoteType::lemma_parse_encoding(value.vote, rest);
    }

    proof fn lemma_encoding_parse(bytes: Seq<u8>) {
        u64::lemma_encoding_parse(bytes);
        let (user_id, after_user) = u64::parse(bytes).unwrap();
        VoteType::lemma_encoding_parse(after_user);
        let (value, rest) = Self::parse(bytes).unwrap();
        assert(bytes =~= Self::encoding(value) + rest);
    }

    fn encode(&self, out: &mut Vec<u8>) {
        self.user_id.encode(out);
        self.vote.encode(out);
        assert(out@ =~= old(out)@ + Self::encoding(*self));
    }

    fn decode(bytes: &[u8], start: usize) -> (read: Option<(VotingRecord, usize)>) {
        let (user_id, at) = match u64::decode(bytes, start) {
            Some(field) => field,
            None => { return None; },
        };
        let (vote, end) = match VoteType::decode(bytes, at) {
            Some(field) => field,
            None => { return None; },
        };
        Some((VotingRecord { user_id, vote }, end))
    }
}

impl Codec for TransactionRecord {
    type Model = TransactionRecordModel;

    open spec fn model(&self) -> TransactionRecordModel {
        TransactionRecordModel {
            id: self.id,
            amount: self.amount,
            date: self.date,
            involved_parties: self.involved_parties.model(),
        }
    }

    open spec fn encodable(value: TransactionRecordModel) -> bool {
        Vec::<u64>::encodable(value.involved_parties)
    }

    open spec fn encoding(value: TransactionRecordModel) -> Seq<u8> {
        u64::encoding(value.id) + u64::encoding(value.amount) + u64::encoding(value.date)
            + Vec::<u64>::encoding(value.involved_parties)
    }

    open spec fn parse(bytes: Seq<u8>) -> Option<(TransactionRecordModel, Seq<u8>)> {
        match u64::parse(bytes) {
            Some((id, after_id)) => match u64::parse(after_id) {
                Some((amount, after_amount)) => match u64::parse(after_amount) {
                    Some((date, after_date)) => match Vec::<u64>::parse(after_date) {
                        Some((involved_parties, rest)) => Some(
                            (TransactionRecordModel { id, amount, date, involved_parties }, rest),
                        ),
                        None => None,
                    },
                    None => None,
                },
                None => None,
            },
            None => None,
        }
    }

    proof fn lemma_parse_encoding(value: TransactionRecordModel, rest: Seq<u8>) {
        let after_date = Vec::<u64>::encoding(value.involved_parties) + rest;
        let after_amount = u64::encoding(value.date) + after_date;
        let after_id = u64::encoding(value.amount) + after_amount;
        assert(Self::encoding(value) + rest =~= u64::encoding(value.id) + after_id);
        u64::lemma_parse_encoding(value.id, after_id);
        u64::lemma_parse_encoding(value.amount, after_amount);
        u64::lemma_parse_encoding(value.date, after_date);
        Vec::<u64>::lemma_parse_encoding(value.involved_parties, rest);
    }

    proof fn lemma_encoding_parse(bytes: Seq<u8>) {
        u64::lemma_encoding_parse(bytes);
        let (id, after_id) = u64::parse(bytes).unwrap();
        u64::lemma_encoding_parse(after_id);
        let (amount, after_amount) = u64::parse(after_id).unwrap();
        u64::lemma_encoding_parse(after_amount);
        let (date, after_date) = u64::parse(after_amount).unwrap();
        Vec::<u64>::lemma_encoding_parse(after_date);
        let (value, rest) = Self::parse(bytes).unwrap();
        assert(bytes =~= Self::encoding(value) + rest);
    }

    fn encode(&self, out: &mut Vec<u8>) {
        self.id.encode(out);
        self.amount.encode(out);
        self.date.encode(out);
        self.involved_parties.encode(out);
        assert(out@ =~= old(out)@ + Self::encoding(self.model()));
    }

    fn decode(bytes: &[u8], start: usize) -> (read: Option<(TransactionRecord, usize)>) {
        let (id, at) = match u64::decode(bytes, start) {
            Some(field) => field,
            None => { return None; },
        };
        let (amount, at) = match u64::decode(bytes, at) {
            Some(field) => field,
            None => { return None; },
        };
        let (date, at) = match u64::decode(bytes, at) {
            Some(field) => field,
            None => { return None; },
        };
        let (involved_parties, end) = match Vec::<u64>::decode(bytes, at) {
            Some(field) => field,
            None => { return None; },
        };
        Some((TransactionRecord { id, amount, date, involved_parties }, end))
    }
}

impl Codec for UserProfile {
    type Model = UserProfileModel;

    open spec fn model(&self) -> UserProfileModel {
        UserProfileModel {
            id: self.id,
            name: self.name@,
            role: self.role,
            transaction_history: self.transaction_history.model(),
            stake_in_dao: self.stake_in_dao,
        }
    }

    open spec fn encodable(value: UserProfileModel) -> bool {
        &&& String::encodable(value.name)
        &&& Vec::<TransactionRecord>::encodable(value.transaction_history)
    }

    open spec fn encoding(value: UserProfileModel) -> Seq<u8> {
        u64::encoding(value.id) + String::encoding(value.name) + UserRole::encoding(value.role)
            + Vec::<TransactionRecord>::encoding(value.transaction_history) + u64::encoding(
            value.stake_in_dao,
        )
    }

    open spec fn parse(bytes: Seq<u8>) -> Option<(UserProfileModel, Seq<u8>)> {
        match u64::parse(bytes) {
            Some((id, after_id)) => match String::parse(after_id) {
                Some((name, after_name)) => match UserRole::parse(after_name) {
                    Some((role, after_role)) => match Vec::<TransactionRecord>::parse(after_role) {
                        Some((transaction_history, after_history)) => match u64::parse(
                            after_history,
                        ) {
                            Some((stake_in_dao, rest)) => Some(
                                (
                                    UserProfileModel {
                                        id,
                                        name,
                                        role,
                                        transaction_history,
                                        stake_in_dao,
                                    },
                                    rest,
                                ),
                            ),
                            None => None,
                        },
                        None => None,
                    },
                    None => None,
                },
                None => None,
            },
            None => None,
        }
    }

    proof fn lemma_parse_encoding(value: UserProfileModel, rest: Seq<u8>) {
        let after_history = u64::encoding(value.stake_in_dao) + rest;
        let after_role = Vec::<TransactionRecord>::encoding(value.transaction_history)
            + after_history;
        let after_name = UserRole::encoding(value.role) + after_role;
        let after_id = String::encoding(value.name) + after_name;
        assert(Self::encoding(value) + rest =~= u64::encoding(value.id) + after_id);
        u64::lemma_parse_encoding(value.id, after_id);
        String::lemma_parse_encoding(value.name, after_name);
        UserRole::lemma_parse_encoding(value.role, after_role);
        Vec::<TransactionRecord>::lemma_parse_encoding(value.transaction_history, after_history);
        u64::lemma_parse_encoding(value.stake_in_dao, rest);
    }

    proof fn lemma_encoding_parse(bytes: Seq<u8>) {
        u64::lemma_encoding_parse(bytes);
        let (id, after_id) = u64::parse(bytes).unwrap();
        String::lemma_encoding_parse(after_id);
        let (name, after_name) = String::parse(after_id).unwrap();
        UserRole::lemma_encoding_parse(after_name);
        let (role, after_role) = UserRole::parse(after_name).unwrap();
        Vec::<TransactionRecord>::lemma_encoding_parse(after_role);
        let (history, after_history) = Vec::<TransactionRecord>::parse(after_role).unwrap();
        u64::lemma_encoding_parse(after_history);
        let (value, rest) = Self::parse(bytes).unwrap();
        assert(bytes =~= Self::encoding(value) + rest);
    }

    fn encode(&self, out: &mut Vec<u8>) {
        self.id.encode(out);
        self.name.encode(out);
        self.role.encode(out);
        self.transaction_history.encode(out);
        self.stake_in_dao.encode(out);
        assert(out@ =~= old(out)@ + Self::encoding(self.model()));
    }

    fn decode(bytes: &[u8], start: usize) -> (read: Option<(UserProfile, usize)>) {
        let (id, at) = match u64::decode(bytes, start) {
            Some(field) => field,
            None => { return None; },
        };
        let (name, at) = match String::decode(bytes, at) {
            Some(field) => field,
            None => { return None; },
        };
        let (role, at) = match UserRole::decode(bytes, at) {
            Some(field) => field,
            None => { return None; },
        };
        let (transaction_history, at) = match Vec::<TransactionRecord>::decode(bytes, at) {
            Some(field) => field,
            None => { return None; },
        };
        let (stake_in_dao, end) = match u64::decode(bytes, at) {
            Some(field) => field,
            None => { return None; },
        };
        Some((UserProfile { id, name, role, transaction_history, stake_in_dao }, end))
    }
}

impl Codec for InsuranceContract {
    type Model = InsuranceContractModel;

    open spec fn model(&self) -> InsuranceContractModel {
        InsuranceContractModel {
            id: self.id,
            farmer_id: self.farmer_id,
            consumer_id: self.consumer_id,
            terms: self.terms@,
            conditions: self.conditions@,
            payout_criteria: self.payout_criteria@,
        }
    }

    open spec fn encodable(value: InsuranceContractModel) -> bool {
        &&& String::encodable(value.terms)
        &&& String::encodable(value.conditions)
        &&& String::encodable(value.payout_criteria)
    }

    open spec fn encoding(value: InsuranceContractModel) -> Seq<u8> {
        u64::encoding(value.id) + u64::encoding(value.farmer_id) + u64::encoding(value.consumer_id)
            + String::encoding(value.terms) + String::encoding(value.conditions)
            + String::encoding(value.payout_criteria)
    }

    open spec fn parse(bytes: Seq<u8>) -> Option<(InsuranceContractModel, Seq<u8>)> {
        match u64::parse(bytes) {
            Some((id, after_id)) => match u64::parse(after_id) {
                Some((farmer_id, after_farmer)) => match u64::parse(after_farmer) {
                    Some((consumer_id, after_consumer)) => match String::parse(after_consumer) {
                        Some((terms, after_terms)) => match String::parse(after_terms) {
                            Some((conditions, after_conditions)) => match String::parse(
                                after_conditions,
                            ) {
                                Some((payout_criteria, rest)) => Some(
                                    (
                                        InsuranceContractModel {
                                            id,
                                            farmer_id,
                                            consumer_id,
                                            terms,
                                            conditions,
                                            payout_criteria,
                                        },
                                        rest,
                                    ),
                                ),
                                None => None,
                            },
                            None => None,
                        },
                        None => None,
                    },
                    None => None,
                },
                None => None,
            },
            None => None,
        }
    }

    proof fn lemma_parse_encoding(value: InsuranceContractModel, rest: Seq<u8>) {
        let after_conditions = String::encoding(value.payout_criteria) + rest;
        let after_terms = String::encoding(value.conditions) + after_conditions;
        let after_consumer = String::encoding(value.terms) + after_terms;
        let after_farmer = u64::encoding(value.consumer_id) + after_consumer;
        let after_id = u64::encoding(value.farmer_id) + after_farmer;
        assert(Self::encoding(value) + rest =~= u64::encoding(value.id) + after_id);
        u64::lemma_parse_encoding(value.id, after_id);
        u64::lemma_parse_encoding(value.farmer_id, after_farmer);
        u64::lemma_parse_encoding(value.consumer_id, after_consumer);
        String::lemma_parse_encoding(value.terms, after_terms);
        String::lemma_parse_encoding(value.conditions, after_conditions);
        String::lemma_parse_encoding(value.payout_criteria, rest);
    }

    proof fn lemma_encoding_parse(bytes: Seq<u8>) {
        u64::lemma_encoding_parse(bytes);
        let (id, after_id) = u64::parse(bytes).unwrap();
        u64::lemma_encoding_parse(after_id);
        let (farmer_id, after_farmer) = u64::parse(after_id).unwrap();
        u64::lemma_encoding_parse(after_farmer);
        let (consumer_id, after_consumer) = u64::parse(after_farmer).unwrap();
        String::lemma_encoding_parse(after_consumer);
        let (terms, after_terms) = String::parse(after_consumer).unwrap();
        String::lemma_encoding_parse(after_terms);
        let (conditions, after_conditions) = String::parse(after_terms).unwrap();
        String::lemma_encoding_parse(after_conditions);
        let (payout_criteria, rest) = String::parse(after_conditions).unwrap();
        let e1 = u64::encoding(id);
        let e2 = u64::encoding(farmer_id);
        let e3 = u64::encoding(consumer_id);
        let e4 = String::encoding(terms);
        let e5 = String::encoding(conditions);
        let e6 = String::encoding(payout_criteria);
        lemma_concat_assoc(e1 + e2 + e3 + e4 + e5, e6, rest);
        lemma_concat_assoc(e1 + e2 + e3 + e4, e5, after_conditions);
        lemma_concat_assoc(e1 + e2 + e3, e4, after_terms);
        lemma_concat_assoc(e1 + e2, e3, after_consumer);
        lemma_concat_assoc(e1, e2, after_farmer);
    }

    fn encode(&self, out: &mut Vec<u8>) {
        self.id.encode(out);
        self.farmer_id.encode(out);
        self.consumer_id.encode(out);
        self.terms.encode(out);
        self.conditions.encode(out);
        self.payout_criteria.encode(out);
        assert(out@ =~= old(out)@ + Self::encoding(self.model()));
    }

    fn decode(bytes: &[u8], start: usize) -> (read: Option<(InsuranceContract, usize)>) {
        let (id, at) = match u64::decode(bytes, start) {
            Some(field) => field,
            None => { return None; },
        };
        let (farmer_id, at) = match u64::decode(bytes, at) {
            Some(field) => field,
            None => { return None; },
        };
        let (consumer_id, at) = match u64::decode(bytes, at) {
            Some(field) => field,
            None => { return None; },
        };
        let (terms, at) = match String::decode(bytes, at) {
            Some(field) => field,
            None => { return None; },
        };
        let (conditions, at) = match String::decode(bytes, at) {
            Some(field) => field,
            None => { return None; },
        };
        let (payout_criteria, end) = match String::decode(bytes, at) {
            Some(field) => field,
            None => { return None; },
        };
        Some(
            (InsuranceContract { id, farmer_id, consumer_id, terms, conditions, payout_criteria }, end),
        )
    }
}

impl Codec for GovernanceProposal {
    type Model = GovernanceProposalModel;

    open spec fn model(&self) -> GovernanceProposalModel {
        GovernanceProposalModel {
            id: self.id,
            proposal_details: self.proposal_details@,
            proposer_id: self.proposer_id,
            voting_records: self.voting_records.model(),
        }
    }

    open spec fn encodable(value: GovernanceProposalModel) -> bool {
        &&& String::encodable(value.proposal_details)
        &&& Vec::<VotingRecord>::encodable(value.voting_records)
    }

    open spec fn encoding(value: GovernanceProposalModel) -> Seq<u8> {
        u64::encoding(value.id) + String::encoding(value.proposal_details) + u64::encoding(
            value.proposer_id,
        ) + Vec::<VotingRecord>::encoding(value.voting_records)
    }

    open spec fn parse(bytes: Seq<u8>) -> Option<(GovernanceProposalModel, Seq<u8>)> {
        match u64::parse(bytes) {
            Some((id, after_id)) => match String::parse(after_id) {
                Some((proposal_details, after_details)) => match u64::parse(after_details) {
                    Some((proposer_id, after_proposer)) => match Vec::<VotingRecord>::parse(
                        after_proposer,
                    ) {
                        Some((voting_records, rest)) => Some(
                            (
                                GovernanceProposalModel {
                                    id,
                                    proposal_details,
                                    proposer_id,
                                    voting_records,
                                },
                                rest,
                            ),
                        ),
                        None => None,
                    },
                    None => None,
                },
                None => None,
            },
            None => None,
        }
    }

    proof fn lemma_parse_encoding(value: GovernanceProposalModel, rest: Seq<u8>) {
        let after_proposer = Vec::<VotingRecord>::encoding(value.voting_records) + rest;
        let after_details = u64::encoding(value.proposer_id) + after_proposer;
        let after_id = String::encoding(value.proposal_details) + after_details;
        assert(Self::encoding(value) + rest =~= u64::encoding(value.id) + after_id);
        u64::lemma_parse_encoding(value.id, after_id);
        String::lemma_parse_encoding(value.proposal_details, after_details);
        u64::lemma_parse_encoding(value.proposer_id, after_proposer);
        Vec::<VotingRecord>::lemma_parse_encoding(value.voting_records, rest);
    }

    proof fn lemma_encoding_parse(bytes: Seq<u8>) {
        u64::lemma_encoding_parse(bytes);
        let (id, after_id) = u64::parse(bytes).unwrap();
        String::lemma_encoding_parse(after_id);
        let (details, after_details) = String::parse(after_id).unwrap();
        u64::lemma_encoding_parse(after_details);
        let (proposer_id, after_proposer) = u64::parse(after_details).unwrap();
        Vec::<VotingRecord>::lemma_encoding_parse(after_proposer);
        let (value, rest) = Self::parse(bytes).unwrap();
        assert(bytes =~= Self::encoding(value) + rest);
    }

    fn encode(&self, out: &mut Vec<u8>) {
        self.id.encode(out);
        self.proposal_details.encode(out);
        self.proposer_id.encode(out);
        self.voting_records.encode(out);
        assert(out@ =~= old(out)@ + Self::encoding(self.model()));
    }

    fn decode(bytes: &[u8], start: usize) -> (read: Option<(GovernanceProposal, usize)>) {
        let (id, at) = match u64::decode(bytes, start) {
            Some(field) => field,
            None => { return None; },
        };
        let (proposal_details, at) = match String::decode(bytes, at) {
            Some(field) => field,
            None => { return None; },
        };
        let (proposer_id, at) = match u64::decode(bytes, at) {
            Some(field) => field,
            None => { return None; },
        };
        let (voting_records, end) = match Vec::<VotingRecord>::decode(bytes, at) {
            Some(field) => field,
            None => { return None; },
        };
        Some((GovernanceProposal { id, proposal_details, proposer_id, voting_records }, end))
    }
}

impl Codec for StakeAdjustment {
    type Model = StakeAdjustmentModel;

    open spec fn model(&self) -> StakeAdjustmentModel {
        StakeAdjustmentModel {
            user_id: self.user_id,
            old_stake: self.old_stake,
            new_stake: self.new_stake,
            reason: self.reason@,
        }
    }

    open spec fn encodable(value: StakeAdjustmentModel) -> bool {
        String::encodable(value.reason)
    }

    open spec fn encoding(value: StakeAdjustmentModel) -> Seq<u8> {
        u64::encoding(value.user_id) + u64::encoding(value.old_stake) + u64::encoding(
            value.new_stake,
        ) + String::encoding(value.reason)
    }

    open spec fn parse(bytes: Seq<u8>) -> Option<(StakeAdjustmentModel, Seq<u8>)> {
        match u64::parse(bytes) {
            Some((user_id, after_user)) => match u64::parse(after_user) {
                Some((old_stake, after_old)) => match u64::parse(after_old) {
                    Some((new_stake, after_new)) => match String::parse(after_new) {
                        Some((reason, rest)) => Some(
                            (StakeAdjustmentModel { user_id, old_stake, new_stake, reason }, rest),
                        ),
                        None => None,
                    },
                    None => None,
                },
                None => None,
            },
            None => None,
        }
    }

    proof fn lemma_parse_encoding(value: StakeAdjustmentModel, rest: Seq<u8>) {
        let after_new = String::encoding(value.reason) + rest;
        let after_old = u64::encoding(value.new_stake) + after_new;
        let after_user = u64::encoding(value.old_stake) + after_old;
        assert(Self::encoding(value) + rest =~= u64::encoding(value.user_id) + after_user);
        u64::lemma_parse_encoding(value.user_id, after_user);
        u64::lemma_parse_encoding(value.old_stake, after_old);
        u64::lemma_parse_encoding(value.new_stake, after_new);
        String::lemma_parse_encoding(value.reason, rest);
    }

    proof fn lemma_encoding_parse(bytes: Seq<u8>) {
        u64::lemma_encoding_parse(bytes);
        let (user_id, after_user) = u64::parse(bytes).unwrap();
        u64::lemma_encoding_parse(after_user);
        let (old_stake, after_old) = u64::parse(after_user).unwrap();
        u64::lemma_encoding_parse(after_old);
        let (new_stake, after_new) = u64::parse(after_old).unwrap();
        String::lemma_encoding_parse(after_new);
        let (value, rest) = Self::parse(bytes).unwrap();
        assert(bytes =~= Self::encoding(value) + rest);
    }

    fn encode(&self, out: &mut Vec<u8>) {
        self.user_id.encode(out);
        self.old_stake.encode(out);
        self.new_stake.encode(out);
        self.reason.encode(out);
        assert(out@ =~= old(out)@ + Self::encoding(self.model()));
    }

    fn decode(bytes: &[u8], start: usize) -> (read: Option<(StakeAdjustment, usize)>) {
        let (user_id, at) = match u64::decode(bytes, start) {
            Some(field) => field,
            None => { return None; },
        };
        let (old_stake, at) = match u64::decode(bytes, at) {
            Some(field) => field,
            None => { return None; },
        };
        let (new_stake, at) = match u64::decode(bytes, at) {
            Some(field) => field,
            None => { return None; },
        };
        let (reason, end) = match String::decode(bytes, at) {
            Some(field) => field,
            None => { return None; },
        };
        Some((StakeAdjustment { user_id, old_stake, new_stake, reason }, end))
    }
}

impl Record for UserProfile {
    open spec fn stored_under(record: UserProfileModel, id: u64) -> bool {
        record.id == id
    }

    fn is_stored_under(&self, id: u64) -> (yes: bool) {
        self.id == id
    }
}

impl Record for TransactionRecord {
    open spec fn stored_under(record: TransactionRecordModel, id: u64) -> bool {
        record.id == id
    }

    fn is_stored_under(&self, id: u64) -> (yes: bool) {
        self.id == id
    }
}

impl Record for InsuranceContract {
    open spec fn stored_under(record: InsuranceContractModel, id: u64) -> bool {
        record.id == id
    }

    fn is_stored_under(&self, id: u64) -> (yes: bool) {
        self.id == id
    }
}

impl Record for GovernanceProposal {
    open spec fn stored_under(record: GovernanceProposalModel, id: u64) -> bool {
        record.id == id
    }

    fn is_stored_under(&self, id: u64) -> (yes: bool) {
        self.id == id
    }
}

impl Record for StakeAdjustment {
    /// A stake adjustment carries no identifier of its own.
    open spec fn stored_under(record: StakeAdjustmentModel, id: u64) -> bool {
        true
    }

    fn is_stored_under(&self, id: u64) -> (yes: bool) {
        true
    }
}

} // verus!
