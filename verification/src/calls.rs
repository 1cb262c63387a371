//! Operations as values, so that something can be said of every operation
//! and of every sequence of operations at once.

use crate::error::{ErrorModel, Kind};
use crate::model::StoreModel;
use crate::records::{
    GovernanceProposalModel, InsuranceContractModel, StakeAdjustmentModel, TransactionRecordModel,
    UserProfileModel, UserRole, VotingRecord,
};
use vstd::prelude::*;

verus! {

/// One call of an operation of the store, with its arguments.
pub ghost enum Call {
    CreateUserProfile { name: Seq<char>, role: UserRole, stake_in_dao: u64 },
    ReadUserProfile { id: u64 },
    UpdateUserProfile { id: u64, name: Seq<char>, stake_in_dao: u64 },
    DeleteUserProfile { id: u64 },
    CreateTransactionRecord { amount: u64, date: u64, involved_parties: Seq<u64> },
    ReadTransactionRecord { id: u64 },
    UpdateTransactionRecord { id: u64, amount: u64, date: u64, involved_parties: Seq<u64> },
    DeleteTransactionRecord { id: u64 },
    CreateInsuranceContract {
        farmer_id: u64,
        consumer_id: u64,
        terms: Seq<char>,
        conditions: Seq<char>,
        payout_criteria: Seq<char>,
    },
    ReadInsuranceContract { id: u64 },
    UpdateInsuranceContract {
        id: u64,
        farmer_id: u64,
        consumer_id: u64,
        terms: Seq<char>,
        conditions: Seq<char>,
        payout_criteria: Seq<char>,
    },
    DeleteInsuranceContract { id: u64 },
    CreateGovernanceProposal {
        proposal_details: Seq<char>,
        proposer_id: u64,
        voting_records: Seq<VotingRecord>,
    },
    ReadGovernanceProposal { id: u64 },
    UpdateGovernanceProposal {
        id: u64,
        proposal_details: Seq<char>,
        proposer_id: u64,
        voting_records: Seq<VotingRecord>,
    },
    DeleteGovernanceProposal { id: u64 },
    CreateStakeAdjustment { user_id: u64, old_stake: u64, new_stake: u64, reason: Seq<char> },
    ReadStakeAdjustment { id: u64 },
    UpdateStakeAdjustment {
        id: u64,
        user_id: u64,
        old_stake: u64,
        new_stake: u64,
        reason: Seq<char>,
    },
    DeleteStakeAdjustment { id: u64 },
}

/// What a call hands back: a record of the kind it works on, or an error.
pub ghost enum Outcome {
    UserProfile(UserProfileModel),
    TransactionRecord(TransactionRecordModel),
    InsuranceContract(InsuranceContractModel),
    GovernanceProposal(GovernanceProposalModel),
    StakeAdjustment(StakeAdjustmentModel),
    Failed(ErrorModel),
}

pub open spec fn user_profile_outcome(result: Result<UserProfileModel, ErrorModel>) -> Outcome {
    match result {
        Ok(record) => Outcome::UserProfile(record),
        Err(error) => Outcome::Failed(error),
    }
}

pub open spec fn transaction_record_outcome(
    result: Result<TransactionRecordModel, ErrorModel>,
) -> Outcome {
    match result {
        Ok(record) => Outcome::TransactionRecord(record),
        Err(error) => Outcome::Failed(error),
    }
}

pub open spec fn insurance_contract_outcome(
    result: Result<InsuranceContractModel, ErrorModel>,
) -> Outcome {
    match result {
        Ok(record) => Outcome::InsuranceContract(record),
        Err(error) => Outcome::Failed(error),
    }
}

pub open spec fn governance_proposal_outcome(
    result: Result<GovernanceProposalModel, ErrorModel>,
) -> Outcome {
    match result {
        Ok(record) => Outcome::GovernanceProposal(record),
        Err(error) => Outcome::Failed(error),
    }
}

pub open spec fn stake_adjustment_outcome(
    result: Result<StakeAdjustmentModel, ErrorModel>,
) -> Outcome {
    match result {
        Ok(record) => Outcome::StakeAdjustment(record),
        Err(error) => Outcome::Failed(error),
    }
}

impl Outcome {
    /// The identifier that the returned record carries, where a record was
    /// returned and its kind carries one.
    pub open spec fn id(self) -> Option<u64> {
        match self {
            Outcome::UserProfile(record) => Some(record.id),
            Outcome::TransactionRecord(record) => Some(record.id),
            Outcome::InsuranceContract(record) => Some(record.id),
            Outcome::GovernanceProposal(record) => Some(record.id),
            Outcome::StakeAdjustment(_) => None,
            Outcome::Failed(_) => None,
        }
    }
}

impl Call {
    /// The kind of record that the call works on.
    pub open spec fn kind(self) -> Kind {
        match self {
            Call::CreateUserProfile { .. } => Kind::UserProfile,
            Call::ReadUserProfile { .. } => Kind::UserProfile,
            Call::UpdateUserProfile { .. } => Kind::UserProfile,
            Call::DeleteUserProfile { .. } => Kind::UserProfile,
            Call::CreateTransactionRecord { .. } => Kind::TransactionRecord,
            Call::ReadTransactionRecord { .. } => Kind::TransactionRecord,
            Call::UpdateTransactionRecord { .. } => Kind::TransactionRecord,
            Call::DeleteTransactionRecord { .. } => Kind::TransactionRecord,
            Call::CreateInsuranceContract { .. } => Kind::InsuranceContract,
            Call::ReadInsuranceContract { .. } => Kind::InsuranceContract,
            Call::UpdateInsuranceContract { .. } => Kind::InsuranceContract,
            Call::DeleteInsuranceContract { .. } => Kind::InsuranceContract,
            Call::CreateGovernanceProposal { .. } => Kind::GovernanceProposal,
            Call::ReadGovernanceProposal { .. } => Kind::GovernanceProposal,
            Call::UpdateGovernanceProposal { .. } => Kind::GovernanceProposal,
            Call::DeleteGovernanceProposal { .. } => Kind::GovernanceProposal,
            Call::CreateStakeAdjustment { .. } => Kind::StakeAdjustment,
            Call::ReadStakeAdjustment { .. } => Kind::StakeAdjustment,
            Call::UpdateStakeAdjustment { .. } => Kind::StakeAdjustment,
            Call::DeleteStakeAdjustment { .. } => Kind::StakeAdjustment,
        }
    }

    /// Whether the call creates a record.
    pub open spec fn is_creation(self) -> bool {
        match self {
            Call::CreateUserProfile { .. } => true,
            Call::CreateTransactionRecord { .. } => true,
            Call::CreateInsuranceContract { .. } => true,
            Call::CreateGovernanceProposal { .. } => true,
            Call::CreateStakeAdjustment { .. } => true,
            _ => false,
        }
    }

    /// Whether the call removes a record.
    pub open spec fn is_deletion(self) -> bool {
        match self {
            Call::DeleteUserProfile { .. } => true,
            Call::DeleteTransactionRecord { .. } => true,
            Call::DeleteInsuranceContract { .. } => true,
            Call::DeleteGovernanceProposal { .. } => true,
            Call::DeleteStakeAdjustment { .. } => true,
            _ => false,
        }
    }

    /// The identifier that a read, an update or a delete names.
    pub open spec fn target(self) -> Option<u64> {
        match self {
            Call::ReadUserProfile { id } => Some(id),
            Call::UpdateUserProfile { id, .. } => Some(id),
            Call::DeleteUserProfile { id } => Some(id),
            Call::ReadTransactionRecord { id } => Some(id),
            Call::UpdateTransactionRecord { id, .. } => Some(id),
            Call::DeleteTransactionRecord { id } => Some(id),
            Call::ReadInsuranceContract { id } => Some(id),
            Call::UpdateInsuranceContract { id, .. } => Some(id),
            Call::DeleteInsuranceContract { id } => Some(id),
            Call::ReadGovernanceProposal { id } => Some(id),
            Call::UpdateGovernanceProposal { id, .. } => Some(id),
            Call::DeleteGovernanceProposal { id } => Some(id),
            Call::ReadStakeAdjustment { id } => Some(id),
            Call::UpdateStakeAdjustment { id, .. } => Some(id),
            Call::DeleteStakeAdjustment { id } => Some(id),
            _ => None,
        }
    }

    /// The call that reads the record of `kind` stored under `id`.
    pub open spec fn read(kind: Kind, id: u64) -> Call {
        match kind {
            Kind::UserProfile => Call::ReadUserProfile { id },
            Kind::TransactionRecord => Call::ReadTransactionRecord { id },
            Kind::InsuranceContract => Call::ReadInsuranceContract { id },
            Kind::GovernanceProposal => Call::ReadGovernanceProposal { id },
            Kind::StakeAdjustment => Call::ReadStakeAdjustment { id },
        }
    }

    /// The call that deletes the record of `kind` stored under `id`.
    pub open spec fn delete(kind: Kind, id: u64) -> Call {
        match kind {
            Kind::UserProfile => Call::DeleteUserProfile { id },
            Kind::TransactionRecord => Call::DeleteTransactionRecord { id },
            Kind::InsuranceContract => Call::DeleteInsuranceContract { id },
            Kind::GovernanceProposal => Call::DeleteGovernanceProposal { id },
            Kind::StakeAdjustment => Call::DeleteStakeAdjustment { id },
        }
    }
}

impl StoreModel {
    /// Whether the call may be made in this state: what the operation
    /// requires beyond a well-formed store.
    pub open spec fn allows(self, call: Call) -> bool {
        match call {
            Call::CreateUserProfile { name, role, stake_in_dao } => self.can_create_user_profile(
                name,
                role,
                stake_in_dao,
            ),
            Call::UpdateUserProfile { id, name, stake_in_dao } => self.can_update_user_profile(
                id,
                name,
                stake_in_dao,
            ),
            Call::CreateTransactionRecord {
                amount,
                date,
                involved_parties,
            } => self.can_create_transaction_record(amount, date, involved_parties),
            Call::UpdateTransactionRecord {
                id,
                amount,
                date,
                involved_parties,
            } => self.can_update_transaction_record(id, amount, date, involved_parties),
            Call::CreateInsuranceContract {
                farmer_id,
                consumer_id,
                terms,
                conditions,
                payout_criteria,
            } => self.can_create_insurance_contract(
                farmer_id,
                consumer_id,
                terms,
                conditions,
                payout_criteria,
            ),
            Call::UpdateInsuranceContract {
                id,
                farmer_id,
                consumer_id,
                terms,
                conditions,
                payout_criteria,
            } => self.can_update_insurance_contract(
                id,
                farmer_id,
                consumer_id,
                terms,
                conditions,
                payout_criteria,
            ),
            Call::CreateGovernanceProposal {
                proposal_details,
                proposer_id,
                voting_records,
            } => self.can_create_governance_proposal(proposal_details, proposer_id, voting_records),
            Call::UpdateGovernanceProposal {
                id,
                proposal_details,
                proposer_id,
                voting_records,
            } => self.can_update_governance_proposal(
                id,
                proposal_details,
                proposer_id,
                voting_records,
            ),
            Call::CreateStakeAdjustment {
                user_id,
                old_stake,
                new_stake,
                reason,
            } => self.can_create_stake_adjustment(user_id, old_stake, new_stake, reason),
            Call::UpdateStakeAdjustment {
                id,
                user_id,
                old_stake,
                new_stake,
                reason,
            } => self.can_update_stake_adjustment(id, user_id, old_stake, new_stake, reason),
            _ => true,
        }
    }

    /// The state that the call leaves, and what it hands back.
    pub open spec fn step(self, call: Call) -> (StoreModel, Outcome) {
        match call {
            Call::CreateUserProfile { name, role, stake_in_dao } => {
                let (next, record) = self.create_user_profile(name, role, stake_in_dao);
                (next, Outcome::UserProfile(record))
            },
            Call::ReadUserProfile { id } => (
                self,
                user_profile_outcome(self.read_user_profile(id)),
            ),
            Call::UpdateUserProfile { id, name, stake_in_dao } => {
                let (next, result) = self.update_user_profile(id, name, stake_in_dao);
                (next, user_profile_outcome(result))
            },
            Call::DeleteUserProfile { id } => {
                let (next, result) = self.delete_user_profile(id);
                (next, user_profile_outcome(result))
            },
            Call::CreateTransactionRecord { amount, date, involved_parties } => {
                let (next, record) = self.create_transaction_record(amount, date, involved_parties);
                (next, Outcome::TransactionRecord(record))
            },
            Call::ReadTransactionRecord { id } => (
                self,
                transaction_record_outcome(self.read_transaction_record(id)),
            ),
            Call::UpdateTransactionRecord { id, amount, date, involved_parties } => {
                let (next, result) = self.update_transaction_record(
                    id,
                    amount,
                    date,
                    involved_parties,
                );
                (next, transaction_record_outcome(result))
            },
            Call::DeleteTransactionRecord { id } => {
                let (next, result) = self.delete_transaction_record(id);
                (next, transaction_record_outcome(result))
            },
            Call::CreateInsuranceContract {
                farmer_id,
                consumer_id,
                terms,
                conditions,
                payout_criteria,
            } => {
                let (next, record) = self.create_insurance_contract(
                    farmer_id,
                    consumer_id,
                    terms,
                    conditions,
                    payout_criteria,
                );
                (next, Outcome::InsuranceContract(record))
            },
            Call::ReadInsuranceContract { id } => (
                self,
                insurance_contract_outcome(self.read_insurance_contract(id)),
            ),
            Call::UpdateInsuranceContract {
                id,
                farmer_id,
                consumer_id,
                terms,
                conditions,
                payout_criteria,
            } => {
                let (next, result) = self.update_insurance_contract(
                    id,
                    farmer_id,
                    consumer_id,
                    terms,
                    conditions,
                    payout_criteria,
                );
                (next, insurance_contract_outcome(result))
            },
            Call::DeleteInsuranceContract { id } => {
                let (next, result) = self.delete_insurance_contract(id);
                (next, insurance_contract_outcome(result))
            },
            Call::CreateGovernanceProposal { proposal_details, proposer_id, voting_records } => {
                let (next, record) = self.create_governance_proposal(
                    proposal_details,
                    proposer_id,
                    voting_records,
                );
                (next, Outcome::GovernanceProposal(record))
            },
            Call::ReadGovernanceProposal { id } => (
                self,
                governance_proposal_outcome(self.read_governance_proposal(id)),
            ),
            Call::UpdateGovernanceProposal { id, proposal_details, proposer_id, voting_records } => {
                let (next, result) = self.update_governance_proposal(
                    id,
                    proposal_details,
                    proposer_id,
                    voting_records,
                );
                (next, governance_proposal_outcome(result))
            },
            Call::DeleteGovernanceProposal { id } => {
                let (next, result) = self.delete_governance_proposal(id);
                (next, governance_proposal_outcome(result))
            },
            Call::CreateStakeAdjustment { user_id, old_stake, new_stake, reason } => {
                let (next, record) = self.create_stake_adjustment(
                    user_id,
                    old_stake,
                    new_stake,
                    reason,
                );
                (next, Outcome::StakeAdjustment(record))
            },
            Call::ReadStakeAdjustment { id } => (
                self,
                stake_adjustment_outcome(self.read_stake_adjustment(id)),
            ),
            Call::UpdateStakeAdjustment { id, user_id, old_stake, new_stake, reason } => {
                let (next, result) = self.update_stake_adjustment(
                    id,
                    user_id,
                    old_stake,
                    new_stake,
                    reason,
                );
                (next, stake_adjustment_outcome(result))
            },
            Call::DeleteStakeAdjustment { id } => {
                let (next, result) = self.delete_stake_adjustment(id);
                (next, stake_adjustment_outcome(result))
            },
        }
    }

    /// The identifier under which the call stores a new record, where it
    /// creates one.
    pub open spec fn hands_out(self, call: Call) -> Option<u64> {
        if call.is_creation() {
            Some(self.next_id)
        } else {
            None
        }
    }

    /// The state after the calls of `calls`, made one after the other.
    pub open spec fn run(self, calls: Seq<Call>) -> StoreModel
        decreases calls.len(),
    {
        if calls.len() == 0 {
            self
        } else {
            self.run(calls.drop_last()).step(calls.last()).0
        }
    }

    /// Whether each call of `calls` may be made in the state that it meets.
    pub open spec fn allows_all(self, calls: Seq<Call>) -> bool
        decreases calls.len(),
    {
        if calls.len() == 0 {
            true
        } else {
            self.allows_all(calls.drop_last()) && self.run(calls.drop_last()).allows(calls.last())
        }
    }
}

} // verus!
