//! The store as a mathematical object: the next identifier and five maps
//! from identifiers to records, with a function for each operation that
//! says what the operation returns and what it leaves behind.

use crate::codec::Codec;
use crate::error::{not_found_model, ErrorModel, Kind};
use crate::records::{
    GovernanceProposal, GovernanceProposalModel, InsuranceContract, InsuranceContractModel,
    StakeAdjustment, StakeAdjustmentModel, TransactionRecord, TransactionRecordModel, UserProfile,
    UserProfileModel, UserRole, VotingRecord,
};
use vstd::prelude::*;

verus! {

/// The state of the store.
pub ghost struct StoreModel {
    /// The identifier that the next record will get, of whatever kind.
    pub next_id: u64,
    pub user_profiles: Map<u64, UserProfileModel>,
    pub transaction_records: Map<u64, TransactionRecordModel>,
    pub insurance_contracts: Map<u64, InsuranceContractModel>,
    pub governance_proposals: Map<u64, GovernanceProposalModel>,
    pub stake_adjustments: Map<u64, StakeAdjustmentModel>,
}

/// Every identifier in use is below `bound`.
pub open spec fn keys_below<V>(table: Map<u64, V>, bound: u64) -> bool {
    forall|id: u64| #[trigger] table.contains_key(id) ==> id < bound
}

/// A user profile as it is created: it has no history yet.
pub open spec fn new_user_profile(
    id: u64,
    name: Seq<char>,
    role: UserRole,
    stake_in_dao: u64,
) -> UserProfileModel {
    UserProfileModel { id, name, role, transaction_history: Seq::empty(), stake_in_dao }
}

/// A user profile after an update: its name and stake are replaced, its
/// identifier, role and history stay.
pub open spec fn updated_user_profile(
    before: UserProfileModel,
    name: Seq<char>,
    stake_in_dao: u64,
) -> UserProfileModel {
    UserProfileModel {
        id: before.id,
        name,
        role: before.role,
        transaction_history: before.transaction_history,
        stake_in_dao,
    }
}

/// A transaction record after an update: everything but its identifier is
/// replaced.
pub open spec fn updated_transaction_record(
    before: TransactionRecordModel,
    amount: u64,
    date: u64,
    involved_parties: Seq<u64>,
) -> TransactionRecordModel {
    TransactionRecordModel { id: before.id, amount, date, involved_parties }
}

/// An insurance contract after an update: everything but its identifier is
/// replaced.
pub open spec fn updated_insurance_contract(
    before: InsuranceContractModel,
    farmer_id: u64,
    consumer_id: u64,
    terms: Seq<char>,
    conditions: Seq<char>,
    payout_criteria: Seq<char>,
) -> InsuranceContractModel {
    InsuranceContractModel {
        id: before.id,
        farmer_id,
        consumer_id,
        terms,
        conditions,
        payout_criteria,
    }
}

/// A governance proposal after an update: everything but its identifier is
/// replaced.
pub open spec fn updated_governance_proposal(
    before: GovernanceProposalModel,
    proposal_details: Seq<char>,
    proposer_id: u64,
    voting_records: Seq<VotingRecord>,
) -> GovernanceProposalModel {
    GovernanceProposalModel { id: before.id, proposal_details, proposer_id, voting_records }
}

impl StoreModel {
    /// A store that holds nothing and has handed out no identifier.
    pub open spec fn empty() -> StoreModel {
        StoreModel {
            next_id: 0,
            user_profiles: Map::empty(),
            transaction_records: Map::empty(),
            insurance_contracts: Map::empty(),
            governance_proposals: Map::empty(),
            stake_adjustments: Map::empty(),
        }
    }

    /// Every identifier in use has been handed out, and every record that
    /// carries its identifier is stored under it.
    pub open spec fn wf(self) -> bool {
        &&& keys_below(self.user_profiles, self.next_id)
        &&& keys_below(self.transaction_records, self.next_id)
        &&& keys_below(self.insurance_contracts, self.next_id)
        &&& keys_below(self.governance_proposals, self.next_id)
        &&& keys_below(self.stake_adjustments, self.next_id)
        &&& forall|id: u64| #[trigger]
            self.user_profiles.contains_key(id) ==> self.user_profiles[id].id == id
        &&& forall|id: u64| #[trigger]
            self.transaction_records.contains_key(id) ==> self.transaction_records[id].id == id
        &&& forall|id: u64| #[trigger]
            self.insurance_contracts.contains_key(id) ==> self.insurance_contracts[id].id == id
        &&& forall|id: u64| #[trigger]
            self.governance_proposals.contains_key(id) ==> self.governance_proposals[id].id == id
    }

    /// Every record is within the ceiling of its kind.
    pub open spec fn bounded(self) -> bool {
        &&& forall|id: u64| #[trigger]
            self.user_profiles.contains_key(id) ==> UserProfile::encoding(
                self.user_profiles[id],
            ).len() <= Kind::UserProfile.ceiling()
        &&& forall|id: u64| #[trigger]
            self.transaction_records.contains_key(id) ==> TransactionRecord::encoding(
                self.transaction_records[id],
            ).len() <= Kind::TransactionRecord.ceiling()
        &&& forall|id: u64| #[trigger]
            self.insurance_contracts.contains_key(id) ==> InsuranceContract::encoding(
                self.insurance_contracts[id],
            ).len() <= Kind::InsuranceContract.ceiling()
        &&& forall|id: u64| #[trigger]
            self.governance_proposals.contains_key(id) ==> GovernanceProposal::encoding(
                self.governance_proposals[id],
            ).len() <= Kind::GovernanceProposal.ceiling()
        &&& forall|id: u64| #[trigger]
            self.stake_adjustments.contains_key(id) ==> StakeAdjustment::encoding(
                self.stake_adjustments[id],
            ).len() <= Kind::StakeAdjustment.ceiling()
    }

    /// Whether a record of `kind` is stored under `id`.
    pub open spec fn contains(self, kind: Kind, id: u64) -> bool {
        match kind {
            Kind::UserProfile => self.user_profiles.contains_key(id),
            Kind::TransactionRecord => self.transaction_records.contains_key(id),
            Kind::InsuranceContract => self.insurance_contracts.contains_key(id),
            Kind::GovernanceProposal => self.governance_proposals.contains_key(id),
            Kind::StakeAdjustment => self.stake_adjustments.contains_key(id),
        }
    }

    // User profiles

    /// Whether a user profile with these fields can be created: an
    /// identifier is left, and the record is within its kind's ceiling.
    pub open spec fn can_create_user_profile(
        self,
        name: Seq<char>,
        role: UserRole,
        stake_in_dao: u64,
    ) -> bool {
        &&& self.next_id < u64::MAX
        &&& UserProfile::encoding(new_user_profile(self.next_id, name, role, stake_in_dao)).len()
            <= Kind::UserProfile.ceiling()
    }

    pub open spec fn create_user_profile(
        self,
        name: Seq<char>,
        role: UserRole,
        stake_in_dao: u64,
    ) -> (StoreModel, UserProfileModel) {
        let record = new_user_profile(self.next_id, name, role, stake_in_dao);
        (
            StoreModel {
                next_id: (self.next_id + 1) as u64,
                user_profiles: self.user_profiles.insert(self.next_id, record),
                ..self
            },
            record,
        )
    }

    pub open spec fn read_user_profile(self, id: u64) -> Result<UserProfileModel, ErrorModel> {
        if self.user_profiles.contains_key(id) {
            Ok(self.user_profiles[id])
        } else {
            Err(not_found_model(Kind::UserProfile, id))
        }
    }

    /// Whether the user profile under `id`, if there is one, stays within
    /// its kind's ceiling with these fields.
    pub open spec fn can_update_user_profile(
        self,
        id: u64,
        name: Seq<char>,
        stake_in_dao: u64,
    ) -> bool {
        self.user_profiles.contains_key(id) ==> UserProfile::encoding(
            updated_user_profile(self.user_profiles[id], name, stake_in_dao),
        ).len() <= Kind::UserProfile.ceiling()
    }

    pub open spec fn update_user_profile(self, id: u64, name: Seq<char>, stake_in_dao: u64) -> (
        StoreModel,
        Result<UserProfileModel, ErrorModel>,
    ) {
        if self.user_profiles.contains_key(id) {
            let record = updated_user_profile(self.user_profiles[id], name, stake_in_dao);
            (StoreModel { user_profiles: self.user_profiles.insert(id, record), ..self }, Ok(record))
        } else {
            (self, Err(not_found_model(Kind::UserProfile, id)))
        }
    }

    pub open spec fn delete_user_profile(self, id: u64) -> (
        StoreModel,
        Result<UserProfileModel, ErrorModel>,
    ) {
        if self.user_profiles.contains_key(id) {
            (
                StoreModel { user_profiles: self.user_profiles.remove(id), ..self },
                Ok(self.user_profiles[id]),
            )
        } else {
            (self, Err(not_found_model(Kind::UserProfile, id)))
        }
    }

    // Transaction records

    /// Whether a transaction record with these fields can be created: an
    /// identifier is left, and the record is within its kind's ceiling.
    pub open spec fn can_create_transaction_record(
        self,
        amount: u64,
        date: u64,
        involved_parties: Seq<u64>,
    ) -> bool {
        &&& self.next_id < u64::MAX
        &&& TransactionRecord::encoding(
            TransactionRecordModel { id: self.next_id, amount, date, involved_parties },
        ).len() <= Kind::TransactionRecord.ceiling()
    }

    pub open spec fn create_transaction_record(
        self,
        amount: u64,
        date: u64,
        involved_parties: Seq<u64>,
    ) -> (StoreModel, TransactionRecordModel) {
        let record = TransactionRecordModel { id: self.next_id, amount, date, involved_parties };
        (
            StoreModel {
                next_id: (self.next_id + 1) as u64,
                transaction_records: self.transaction_records.insert(self.next_id, record),
                ..self
            },
            record,
        )
    }

    pub open spec fn read_transaction_record(self, id: u64) -> Result<
        TransactionRecordModel,
        ErrorModel,
    > {
        if self.transaction_records.contains_key(id) {
            Ok(self.transaction_records[id])
        } else {
            Err(not_found_model(Kind::TransactionRecord, id))
        }
    }

    /// Whether the transaction record under `id`, if there is one, stays
    /// within its kind's ceiling with these fields.
    pub open spec fn can_update_transaction_record(
        self,
        id: u64,
        amount: u64,
        date: u64,
        involved_parties: Seq<u64>,
    ) -> bool {
        self.transaction_records.contains_key(id) ==> TransactionRecord::encoding(
            updated_transaction_record(self.transaction_records[id], amount, date, involved_parties),
        ).len() <= Kind::TransactionRecord.ceiling()
    }

    pub open spec fn update_transaction_record(
        self,
        id: u64,
        amount: u64,
        date: u64,
        involved_parties: Seq<u64>,
    ) -> (StoreModel, Result<TransactionRecordModel, ErrorModel>) {
        if self.transaction_records.contains_key(id) {
            let record = updated_transaction_record(
                self.transaction_records[id],
                amount,
                date,
                involved_parties,
            );
            (
                StoreModel {
                    transaction_records: self.transaction_records.insert(id, record),
                    ..self
                },
                Ok(record),
            )
        } else {
            (self, Err(not_found_model(Kind::TransactionRecord, id)))
        }
    }

    pub open spec fn delete_transaction_record(self, id: u64) -> (
        StoreModel,
        Result<TransactionRecordModel, ErrorModel>,
    ) {
        if self.transaction_records.contains_key(id) {
            (
                StoreModel { transaction_records: self.transaction_records.remove(id), ..self },
                Ok(self.transaction_records[id]),
            )
        } else {
            (self, Err(not_found_model(Kind::TransactionRecord, id)))
        }
    }

    // Insurance contracts

    /// Whether an insurance contract with these fields can be created: an
    /// identifier is left, and the record is within its kind's ceiling.
    pub open spec fn can_create_insurance_contract(
        self,
        farmer_id: u64,
        consumer_id: u64,
        terms: Seq<char>,
        conditions: Seq<char>,
        payout_criteria: Seq<char>,
    ) -> bool {
        &&& self.next_id < u64::MAX
        &&& InsuranceContract::encoding(
            InsuranceContractModel {
                id: self.next_id,
                farmer_id,
                consumer_id,
                terms,
                conditions,
                payout_criteria,
            },
        ).len() <= Kind::InsuranceContract.ceiling()
    }

    pub open spec fn create_insurance_contract(
        self,
        farmer_id: u64,
        consumer_id: u64,
        terms: Seq<char>,
        conditions: Seq<char>,
        payout_criteria: Seq<char>,
    ) -> (StoreModel, InsuranceContractModel) {
        let record = InsuranceContractModel {
            id: self.next_id,
            farmer_id,
            consumer_id,
            terms,
            conditions,
            payout_criteria,
        };
        (
            StoreModel {
                next_id: (self.next_id + 1) as u64,
                insurance_contracts: self.insurance_contracts.insert(self.next_id, record),
                ..self
            },
            record,
        )
    }

    pub open spec fn read_insurance_contract(self, id: u64) -> Result<
        InsuranceContractModel,
        ErrorModel,
    > {
        if self.insurance_contracts.contains_key(id) {
            Ok(self.insurance_contracts[id])
        } else {
            Err(not_found_model(Kind::InsuranceContract, id))
        }
    }

    /// Whether the insurance contract under `id`, if there is one, stays
    /// within its kind's ceiling with these fields.
    pub open spec fn can_update_insurance_contract(
        self,
        id: u64,
        farmer_id: u64,
        consumer_id: u64,
        terms: Seq<char>,
        conditions: Seq<char>,
        payout_criteria: Seq<char>,
    ) -> bool {
        self.insurance_contracts.contains_key(id) ==> InsuranceContract::encoding(
            updated_insurance_contract(
                self.insurance_contracts[id],
                farmer_id,
                consumer_id,
                terms,
                conditions,
                payout_criteria,
            ),
        ).len() <= Kind::InsuranceContract.ceiling()
    }

    pub open spec fn update_insurance_contract(
        self,
        id: u64,
        farmer_id: u64,
        consumer_id: u64,
        terms: Seq<char>,
        conditions: Seq<char>,
        payout_criteria: Seq<char>,
    ) -> (StoreModel, Result<InsuranceContractModel, ErrorModel>) {
        if self.insurance_contracts.contains_key(id) {
            let record = updated_insurance_contract(
                self.insurance_contracts[id],
                farmer_id,
                consumer_id,
                terms,
                conditions,
                payout_criteria,
            );
            (
                StoreModel {
                    insurance_contracts: self.insurance_contracts.insert(id, record),
                    ..self
                },
                Ok(record),
            )
        } else {
            (self, Err(not_found_model(Kind::InsuranceContract, id)))
        }
    }

    pub open spec fn delete_insurance_contract(self, id: u64) -> (
        StoreModel,
        Result<InsuranceContractModel, ErrorModel>,
    ) {
        if self.insurance_contracts.contains_key(id) {
            (
                StoreModel { insurance_contracts: self.insurance_contracts.remove(id), ..self },
                Ok(self.insurance_contracts[id]),
            )
        } else {
            (self, Err(not_found_model(Kind::InsuranceContract, id)))
        }
    }

    // Governance proposals

    /// Whether a governance proposal with these fields can be created: an
    /// identifier is left, and the record is within its kind's ceiling.
    pub open spec fn can_create_governance_proposal(
        self,
        proposal_details: Seq<char>,
        proposer_id: u64,
        voting_records: Seq<VotingRecord>,
    ) -> bool {
        &&& self.next_id < u64::MAX
        &&& GovernanceProposal::encoding(
            GovernanceProposalModel {
                id: self.next_id,
                proposal_details,
                proposer_id,
                voting_records,
            },
        ).len() <= Kind::GovernanceProposal.ceiling()
    }

    pub open spec fn create_governance_proposal(
        self,
        proposal_details: Seq<char>,
        proposer_id: u64,
        voting_records: Seq<VotingRecord>,
    ) -> (StoreModel, GovernanceProposalModel) {
        let record = GovernanceProposalModel {
            id: self.next_id,
            proposal_details,
            proposer_id,
            voting_records,
        };
        (
            StoreModel {
                next_id: (self.next_id + 1) as u64,
                governance_proposals: self.governance_proposals.insert(self.next_id, record),
                ..self
            },
            record,
        )
    }

    pub open spec fn read_governance_proposal(self, id: u64) -> Result<
        GovernanceProposalModel,
        ErrorModel,
    > {
        if self.governance_proposals.contains_key(id) {
            Ok(self.governance_proposals[id])
        } else {
            Err(not_found_model(Kind::GovernanceProposal, id))
        }
    }

    /// Whether the governance proposal under `id`, if there is one, stays
    /// within its kind's ceiling with these fields.
    pub open spec fn can_update_governance_proposal(
        self,
        id: u64,
        proposal_details: Seq<char>,
        proposer_id: u64,
        voting_records: Seq<VotingRecord>,
    ) -> bool {
        self.governance_proposals.contains_key(id) ==> GovernanceProposal::encoding(
            updated_governance_proposal(
                self.governance_proposals[id],
                proposal_details,
                proposer_id,
                voting_records,
            ),
        ).len() <= Kind::GovernanceProposal.ceiling()
    }

    pub open spec fn update_governance_proposal(
        self,
        id: u64,
        proposal_details: Seq<char>,
        proposer_id: u64,
        voting_records: Seq<VotingRecord>,
    ) -> (StoreModel, Result<GovernanceProposalModel, ErrorModel>) {
        if self.governance_proposals.contains_key(id) {
            let record = updated_governance_proposal(
                self.governance_proposals[id],
                proposal_details,
                proposer_id,
                voting_records,
            );
            (
                StoreModel {
                    governance_proposals: self.governance_proposals.insert(id, record),
                    ..self
                },
                Ok(record),
            )
        } else {
            (self, Err(not_found_model(Kind::GovernanceProposal, id)))
        }
    }

    pub open spec fn delete_governance_proposal(self, id: u64) -> (
        StoreModel,
        Result<GovernanceProposalModel, ErrorModel>,
    ) {
        if self.governance_proposals.contains_key(id) {
            (
                StoreModel { governance_proposals: self.governance_proposals.remove(id), ..self },
                Ok(self.governance_proposals[id]),
            )
        } else {
            (self, Err(not_found_model(Kind::GovernanceProposal, id)))
        }
    }

    // Stake adjustments

    /// Whether a stake adjustment with these fields can be created: an
    /// identifier is left, and the record is within its kind's ceiling.
    pub open spec fn can_create_stake_adjustment(
        self,
        user_id: u64,
        old_stake: u64,
        new_stake: u64,
        reason: Seq<char>,
    ) -> bool {
        &&& self.next_id < u64::MAX
        &&& StakeAdjustment::encoding(
            StakeAdjustmentModel { user_id, old_stake, new_stake, reason },
        ).len() <= Kind::StakeAdjustment.ceiling()
    }

    /// The record is stored under the next identifier, which it does not
    /// carry.
    pub open spec fn create_stake_adjustment(
        self,
        user_id: u64,
        old_stake: u64,
        new_stake: u64,
        reason: Seq<char>,
    ) -> (StoreModel, StakeAdjustmentModel) {
        let record = StakeAdjustmentModel { user_id, old_stake, new_stake, reason };
        (
            StoreModel {
                next_id: (self.next_id + 1) as u64,
                stake_adjustments: self.stake_adjustments.insert(self.next_id, record),
                ..self
            },
            record,
        )
    }

    pub open spec fn read_stake_adjustment(self, id: u64) -> Result<
        StakeAdjustmentModel,
        ErrorModel,
    > {
        if self.stake_adjustments.contains_key(id) {
            Ok(self.stake_adjustments[id])
        } else {
            Err(not_found_model(Kind::StakeAdjustment, id))
        }
    }

    /// Whether a stake adjustment with these fields is within its kind's
    /// ceiling, where one is stored under `id`.
    pub open spec fn can_update_stake_adjustment(
        self,
        id: u64,
        user_id: u64,
        old_stake: u64,
        new_stake: u64,
        reason: Seq<char>,
    ) -> bool {
        self.stake_adjustments.contains_key(id) ==> StakeAdjustment::encoding(
            StakeAdjustmentModel { user_id, old_stake, new_stake, reason },
        ).len() <= Kind::StakeAdjustment.ceiling()
    }

    /// Every field of the record is replaced.
    pub open spec fn update_stake_adjustment(
        self,
        id: u64,
        user_id: u64,
        old_stake: u64,
        new_stake: u64,
        reason: Seq<char>,
    ) -> (StoreModel, Result<StakeAdjustmentModel, ErrorModel>) {
        if self.stake_adjustments.contains_key(id) {
            let record = StakeAdjustmentModel { user_id, old_stake, new_stake, reason };
            (
                StoreModel { stake_adjustments: self.stake_adjustments.insert(id, record), ..self },
                Ok(record),
            )
        } else {
            (self, Err(not_found_model(Kind::StakeAdjustment, id)))
        }
    }

    pub open spec fn delete_stake_adjustment(self, id: u64) -> (
        StoreModel,
        Result<StakeAdjustmentModel, ErrorModel>,
    ) {
        if self.stake_adjustments.contains_key(id) {
            (
                StoreModel { stake_adjustments: self.stake_adjustments.remove(id), ..self },
                Ok(self.stake_adjustments[id]),
            )
        } else {
            (self, Err(not_found_model(Kind::StakeAdjustment, id)))
        }
    }
}

} // verus!
