//! The store: the identifier allocator and the five tables, with the four
//! operations on each kind of record.
//!
//! An operation runs from start to end with the store to itself, so the
//! moment in an update at which the record is neither old nor new is seen by
//! nobody.

use crate::allocator::IdAllocator;
use crate::codec::Codec;
use crate::error::{not_found, Error, ErrorModel, Kind, COUNTER_PARTITION};
use crate::model::StoreModel;
use crate::records::{
    GovernanceProposal, InsuranceContract, StakeAdjustment, TransactionRecord, UserProfile,
    UserRole, VotingRecord,
};
use crate::stable::{open_partitions, partition};
use crate::table::Table;
use vstd::prelude::*;

verus! {

/// The whole store. It takes the default durable memory of the platform
/// for itself: a process that runs on one such memory builds one store.
pub struct Store {
    ids: IdAllocator,
    user_profiles: Table,
    transaction_records: Table,
    insurance_contracts: Table,
    governance_proposals: Table,
    stake_adjustments: Table,
}

/// What an operation hands back, as a mathematical value.
pub open spec fn reply<T: Codec>(outcome: Result<T, Error>) -> Result<T::Model, ErrorModel> {
    match outcome {
        Ok(record) => Ok(record.model()),
        Err(error) => Err(error@),
    }
}

impl View for Store {
    type V = StoreModel;

    closed spec fn view(&self) -> StoreModel {
        StoreModel {
            next_id: self.ids@,
            user_profiles: self.user_profiles.records::<UserProfile>(),
            transaction_records: self.transaction_records.records::<TransactionRecord>(),
            insurance_contracts: self.insurance_contracts.records::<InsuranceContract>(),
            governance_proposals: self.governance_proposals.records::<GovernanceProposal>(),
            stake_adjustments: self.stake_adjustments.records::<StakeAdjustment>(),
        }
    }
}

impl Store {
    /// Each table takes records up to the ceiling of its kind, and no longer
    /// ones.
    pub closed spec fn laid_out(&self) -> bool {
        &&& self.user_profiles.ceiling() == Kind::UserProfile.ceiling()
        &&& self.transaction_records.ceiling() == Kind::TransactionRecord.ceiling()
        &&& self.insurance_contracts.ceiling() == Kind::InsuranceContract.ceiling()
        &&& self.governance_proposals.ceiling() == Kind::GovernanceProposal.ceiling()
        &&& self.stake_adjustments.ceiling() == Kind::StakeAdjustment.ceiling()
    }

    /// Each table holds records of its kind only, none longer than the
    /// table's ceiling.
    pub closed spec fn sound(&self) -> bool {
        &&& self.user_profiles.wf()
        &&& self.user_profiles.holds::<UserProfile>()
        &&& self.transaction_records.wf()
        &&& self.transaction_records.holds::<TransactionRecord>()
        &&& self.insurance_contracts.wf()
        &&& self.insurance_contracts.holds::<InsuranceContract>()
        &&& self.governance_proposals.wf()
        &&& self.governance_proposals.holds::<GovernanceProposal>()
        &&& self.stake_adjustments.wf()
        &&& self.stake_adjustments.holds::<StakeAdjustment>()
    }

    /// What every operation needs and keeps.
    pub open spec fn wf(&self) -> bool {
        self.laid_out() && self.sound() && self@.wf()
    }

    /// In a store that is fit for use every record is within the ceiling of
    /// its kind.
    pub proof fn lemma_bounded(&self)
        requires
            self.wf(),
        ensures
            self@.bounded(),
    {
        assert forall|id: u64| #[trigger]
            self@.user_profiles.contains_key(id) implies UserProfile::encoding(
            self@.user_profiles[id],
        ).len() <= Kind::UserProfile.ceiling() by {
            self.user_profiles.lemma_stored_is_encoding::<UserProfile>(id);
        }
        assert forall|id: u64| #[trigger]
            self@.transaction_records.contains_key(id) implies TransactionRecord::encoding(
            self@.transaction_records[id],
        ).len() <= Kind::TransactionRecord.ceiling() by {
            self.transaction_records.lemma_stored_is_encoding::<TransactionRecord>(id);
        }
        assert forall|id: u64| #[trigger]
            self@.insurance_contracts.contains_key(id) implies InsuranceContract::encoding(
            self@.insurance_contracts[id],
        ).len() <= Kind::InsuranceContract.ceiling() by {
            self.insurance_contracts.lemma_stored_is_encoding::<InsuranceContract>(id);
        }
        assert forall|id: u64| #[trigger]
            self@.governance_proposals.contains_key(id) implies GovernanceProposal::encoding(
            self@.governance_proposals[id],
        ).len() <= Kind::GovernanceProposal.ceiling() by {
            self.governance_proposals.lemma_stored_is_encoding::<GovernanceProposal>(id);
        }
        assert forall|id: u64| #[trigger]
            self@.stake_adjustments.contains_key(id) implies StakeAdjustment::encoding(
            self@.stake_adjustments[id],
        ).len() <= Kind::StakeAdjustment.ceiling() by {
            self.stake_adjustments.lemma_stored_is_encoding::<StakeAdjustment>(id);
        }
    }

    /// A store that holds nothing and has handed out no identifier. What the
    /// durable memory held is overwritten.
    pub fn new() -> (store: Store)
        ensures
            store.wf(),
            store@ == StoreModel::empty(),
    {
        let memory = open_partitions();
        let store = Store {
            ids: IdAllocator::new(partition(&memory, COUNTER_PARTITION)),
            user_profiles: Table::new(
                partition(&memory, Kind::UserProfile.partition()),
                Kind::UserProfile.max_size(),
            ),
            transaction_records: Table::new(
                partition(&memory, Kind::TransactionRecord.partition()),
                Kind::TransactionRecord.max_size(),
            ),
            insurance_contracts: Table::new(
                partition(&memory, Kind::InsuranceContract.partition()),
                Kind::InsuranceContract.max_size(),
            ),
            governance_proposals: Table::new(
                partition(&memory, Kind::GovernanceProposal.partition()),
                Kind::GovernanceProposal.max_size(),
            ),
            stake_adjustments: Table::new(
                partition(&memory, Kind::StakeAdjustment.partition()),
                Kind::StakeAdjustment.max_size(),
            ),
        };
        assert(store@.user_profiles =~= Map::empty());
        assert(store@.transaction_records =~= Map::empty());
        assert(store@.insurance_contracts =~= Map::empty());
        assert(store@.governance_proposals =~= Map::empty());
        assert(store@.stake_adjustments =~= Map::empty());
        store
    }

    /// The store that the durable memory holds, or an empty one where it
    /// holds none. Each table is opened in the partition of its kind and
    /// with the ceiling of its kind. What the memory held is not known
    /// before it is read, so the records and the counter have still to be
    /// checked: see [`Store::is_valid`].
    pub fn open() -> (store: Store)
        ensures
            store.laid_out(),
    {
        let memory = open_partitions();
        Store {
            ids: IdAllocator::open(partition(&memory, COUNTER_PARTITION)),
            user_profiles: Table::open(
                partition(&memory, Kind::UserProfile.partition()),
                Kind::UserProfile.max_size(),
            ),
            transaction_records: Table::open(
                partition(&memory, Kind::TransactionRecord.partition()),
                Kind::TransactionRecord.max_size(),
            ),
            insurance_contracts: Table::open(
                partition(&memory, Kind::InsuranceContract.partition()),
                Kind::InsuranceContract.max_size(),
            ),
            governance_proposals: Table::open(
                partition(&memory, Kind::GovernanceProposal.partition()),
                Kind::GovernanceProposal.max_size(),
            ),
            stake_adjustments: Table::open(
                partition(&memory, Kind::StakeAdjustment.partition()),
                Kind::StakeAdjustment.max_size(),
            ),
        }
    }

    /// Whether the store is fit for use: every stored value stands for a
    /// record of its table's kind, within the kind's ceiling and under its
    /// own identifier, and every identifier in use has been handed out.
    pub fn is_valid(&self) -> (valid: bool)
        ensures
            valid == self.wf(),
    {
        let next = self.ids.peek();
        self.user_profiles.max_size() == Kind::UserProfile.max_size()
            && self.transaction_records.max_size() == Kind::TransactionRecord.max_size()
            && self.insurance_contracts.max_size() == Kind::InsuranceContract.max_size()
            && self.governance_proposals.max_size() == Kind::GovernanceProposal.max_size()
            && self.stake_adjustments.max_size() == Kind::StakeAdjustment.max_size()
            && self.user_profiles.check::<UserProfile>(next)
            && self.transaction_records.check::<TransactionRecord>(next)
            && self.insurance_contracts.check::<InsuranceContract>(next)
            && self.governance_proposals.check::<GovernanceProposal>(next)
            && self.stake_adjustments.check::<StakeAdjustment>(next)
    }

    /// The identifier that the next record will get.
    pub fn next_id(&self) -> (next: u64)
        ensures
            next == self@.next_id,
    {
        self.ids.peek()
    }

    /// The table of a kind, to look at: its ceiling and the bytes that
    /// stand for each record.
    pub fn table(&self, kind: Kind) -> (table: &Table)
        requires
            self.wf(),
        ensures
            table.wf(),
            table.ceiling() == kind.ceiling(),
            kind == Kind::UserProfile ==> table.holds::<UserProfile>(),
            kind == Kind::UserProfile ==> table.records::<UserProfile>() == self@.user_profiles,
            kind == Kind::TransactionRecord ==> table.holds::<TransactionRecord>(),
            kind == Kind::TransactionRecord ==> table.records::<TransactionRecord>()
                == self@.transaction_records,
            kind == Kind::InsuranceContract ==> table.holds::<InsuranceContract>(),
            kind == Kind::InsuranceContract ==> table.records::<InsuranceContract>()
                == self@.insurance_contracts,
            kind == Kind::GovernanceProposal ==> table.holds::<GovernanceProposal>(),
            kind == Kind::GovernanceProposal ==> table.records::<GovernanceProposal>()
                == self@.governance_proposals,
            kind == Kind::StakeAdjustment ==> table.holds::<StakeAdjustment>(),
            kind == Kind::StakeAdjustment ==> table.records::<StakeAdjustment>()
                == self@.stake_adjustments,
    {
        match kind {
            Kind::UserProfile => &self.user_profiles,
            Kind::TransactionRecord => &self.transaction_records,
            Kind::InsuranceContract => &self.insurance_contracts,
            Kind::GovernanceProposal => &self.governance_proposals,
            Kind::StakeAdjustment => &self.stake_adjustments,
        }
    }

    // User profiles

    /// Whether [`Store::create_user_profile`] may be called with these
    /// fields.
    pub fn can_create_user_profile(&self, name: &String, role: UserRole, stake_in_dao: u64) -> (can:
        bool)
        requires
            self.wf(),
        ensures
            can == self@.can_create_user_profile(name@, role, stake_in_dao),
    {
        let next = self.ids.peek();
        if next == u64::MAX {
            return false;
        }
        let probe = UserProfile {
            id: next,
            name: name.clone(),
            role,
            transaction_history: Vec::new(),
            stake_in_dao,
        };
        assert(probe.transaction_history.model() =~= Seq::empty());
        self.user_profiles.fits(&probe)
    }

    /// Stores a new user profile under a fresh identifier and returns it.
    /// No other table changes.
    pub fn create_user_profile(&mut self, name: String, role: UserRole, stake_in_dao: u64) -> (created:
        UserProfile)
        requires
            old(self).wf(),
            old(self)@.can_create_user_profile(name@, role, stake_in_dao),
        ensures
            final(self).wf(),
            (final(self)@, created@) == old(self)@.create_user_profile(name@, role, stake_in_dao),
    {
        let id = self.ids.next_id();
        let created = UserProfile { id, name, role, transaction_history: Vec::new(), stake_in_dao };
        assert(created.transaction_history.model() =~= Seq::empty());
        self.user_profiles.put(id, &created);
        created
    }

    /// The user profile stored under `id`. The store is unchanged.
    pub fn read_user_profile(&self, id: u64) -> (found: Result<UserProfile, Error>)
        requires
            self.wf(),
        ensures
            reply(found) == self@.read_user_profile(id),
    {
        match self.user_profiles.fetch::<UserProfile>(id) {
            Some(profile) => Ok(profile),
            None => Err(not_found(Kind::UserProfile, id)),
        }
    }

    /// Whether [`Store::update_user_profile`] may be called with these
    /// fields.
    pub fn can_update_user_profile(&self, id: u64, name: &String, stake_in_dao: u64) -> (can: bool)
        requires
            self.wf(),
        ensures
            can == self@.can_update_user_profile(id, name@, stake_in_dao),
    {
        match self.user_profiles.fetch::<UserProfile>(id) {
            Some(mut profile) => {
                profile.name = name.clone();
                profile.stake_in_dao = stake_in_dao;
                self.user_profiles.fits(&profile)
            },
            None => true,
        }
    }

    /// Replaces the name and the stake of the user profile stored under
    /// `id` and returns the new profile. Where none is stored there, nothing
    /// is created.
    pub fn update_user_profile(&mut self, id: u64, name: String, stake_in_dao: u64) -> (updated:
        Result<UserProfile, Error>)
        requires
            old(self).wf(),
            old(self)@.can_update_user_profile(id, name@, stake_in_dao),
        ensures
            final(self).wf(),
            (final(self)@, reply(updated)) == old(self)@.update_user_profile(
                id,
                name@,
                stake_in_dao,
            ),
    {
        match self.user_profiles.take::<UserProfile>(id) {
            Some(mut profile) => {
                profile.name = name;
                profile.stake_in_dao = stake_in_dao;
                self.user_profiles.put(id, &profile);
                assert(self@.user_profiles =~= old(self)@.user_profiles.insert(id, profile@));
                Ok(profile)
            },
            None => {
                assert(self@.user_profiles =~= old(self)@.user_profiles);
                Err(not_found(Kind::UserProfile, id))
            },
        }
    }

    /// Removes the user profile stored under `id` and returns it.
    pub fn delete_user_profile(&mut self, id: u64) -> (deleted: Result<UserProfile, Error>)
        requires
            old(self).wf(),
        ensures
            final(self).wf(),
            (final(self)@, reply(deleted)) == old(self)@.delete_user_profile(id),
    {
        match self.user_profiles.take::<UserProfile>(id) {
            Some(profile) => Ok(profile),
            None => {
                assert(self@.user_profiles =~= old(self)@.user_profiles);
                Err(not_found(Kind::UserProfile, id))
            },
        }
    }

    // Transaction records

    /// Whether [`Store::create_transaction_record`] may be called with
    /// these fields.
    pub fn can_create_transaction_record(
        &self,
        amount: u64,
        date: u64,
        involved_parties: &Vec<u64>,
    ) -> (can: bool)
        requires
            self.wf(),
        ensures
            can == self@.can_create_transaction_record(amount, date, involved_parties@),
    {
        let next = self.ids.peek();
        if next == u64::MAX {
            return false;
        }
        let probe = TransactionRecord {
            id: next,
            amount,
            date,
            involved_parties: involved_parties.clone(),
        };
        assert(probe.involved_parties.model() =~= involved_parties@);
        self.transaction_records.fits(&probe)
    }

    /// Stores a new transaction record under a fresh identifier and returns
    /// it. No other table changes: no user profile learns of it.
    pub fn create_transaction_record(
        &mut self,
        amount: u64,
        date: u64,
        involved_parties: Vec<u64>,
    ) -> (created: TransactionRecord)
        requires
            old(self).wf(),
            old(self)@.can_create_transaction_record(amount, date, involved_parties@),
        ensures
            final(self).wf(),
            (final(self)@, created@) == old(self)@.create_transaction_record(
                amount,
                date,
                involved_parties@,
            ),
    {
        let id = self.ids.next_id();
        let created = TransactionRecord { id, amount, date, involved_parties };
        assert(created.involved_parties.model() =~= created.involved_parties@);
        self.transaction_records.put(id, &created);
        created
    }

    /// The transaction record stored under `id`. The store is unchanged.
    pub fn read_transaction_record(&self, id: u64) -> (found: Result<TransactionRecord, Error>)
        requires
            self.wf(),
        ensures
            reply(found) == self@.read_transaction_record(id),
    {
        match self.transaction_records.fetch::<TransactionRecord>(id) {
            Some(record) => Ok(record),
            None => Err(not_found(Kind::TransactionRecord, id)),
        }
    }

    /// Whether [`Store::update_transaction_record`] may be called with
    /// these fields.
    pub fn can_update_transaction_record(
        &self,
        id: u64,
        amount: u64,
        date: u64,
        involved_parties: &Vec<u64>,
    ) -> (can: bool)
        requires
            self.wf(),
        ensures
            can == self@.can_update_transaction_record(id, amount, date, involved_parties@),
    {
        match self.transaction_records.fetch::<TransactionRecord>(id) {
            Some(mut record) => {
                record.amount = amount;
                record.date = date;
                record.involved_parties = involved_parties.clone();
                assert(record.involved_parties.model() =~= involved_parties@);
                self.transaction_records.fits(&record)
            },
            None => true,
        }
    }

    /// Replaces the amount, the date and the parties of the transaction
    /// record stored under `id` and returns the new record. Where none is
    /// stored there, nothing is created.
    pub fn update_transaction_record(
        &mut self,
        id: u64,
        amount: u64,
        date: u64,
        involved_parties: Vec<u64>,
    ) -> (updated: Result<TransactionRecord, Error>)
        requires
            old(self).wf(),
            old(self)@.can_update_transaction_record(id, amount, date, involved_parties@),
        ensures
            final(self).wf(),
            (final(self)@, reply(updated)) == old(self)@.update_transaction_record(
                id,
                amount,
                date,
                involved_parties@,
            ),
    {
        match self.transaction_records.take::<TransactionRecord>(id) {
            Some(mut record) => {
                record.amount = amount;
                record.date = date;
                record.involved_parties = involved_parties;
                assert(record.involved_parties.model() =~= record.involved_parties@);
                self.transaction_records.put(id, &record);
                assert(self@.transaction_records =~= old(self)@.transaction_records.insert(
                    id,
                    record@,
                ));
                Ok(record)
            },
            None => {
                assert(self@.transaction_records =~= old(self)@.transaction_records);
                Err(not_found(Kind::TransactionRecord, id))
            },
        }
    }

    /// Removes the transaction record stored under `id` and returns it.
    pub fn delete_transaction_record(&mut self, id: u64) -> (deleted: Result<
        TransactionRecord,
        Error,
    >)
        requires
            old(self).wf(),
        ensures
            final(self).wf(),
            (final(self)@, reply(deleted)) == old(self)@.delete_transaction_record(id),
    {
        match self.transaction_records.take::<TransactionRecord>(id) {
            Some(record) => Ok(record),
            None => {
                assert(self@.transaction_records =~= old(self)@.transaction_records);
                Err(not_found(Kind::TransactionRecord, id))
            },
        }
    }

    // Insurance contracts

    /// Whether [`Store::create_insurance_contract`] may be called with
    /// these fields.
    pub fn can_create_insurance_contract(
        &self,
        farmer_id: u64,
        consumer_id: u64,
        terms: &String,
        conditions: &String,
        payout_criteria: &String,
    ) -> (can: bool)
        requires
            self.wf(),
        ensures
            can == self@.can_create_insurance_contract(
                farmer_id,
                consumer_id,
                terms@,
                conditions@,
                payout_criteria@,
            ),
    {
        let next = self.ids.peek();
        if next == u64::MAX {
            return false;
        }
        let probe = InsuranceContract {
            id: next,
            farmer_id,
            consumer_id,
            terms: terms.clone(),
            conditions: conditions.clone(),
            payout_criteria: payout_criteria.clone(),
        };
        self.insurance_contracts.fits(&probe)
    }

    /// Stores a new insurance contract under a fresh identifier and returns
    /// it. Neither the farmer nor the consumer is looked up.
    pub fn create_insurance_contract(
        &mut self,
        farmer_id: u64,
        consumer_id: u64,
        terms: String,
        conditions: String,
        payout_criteria: String,
    ) -> (created: InsuranceContract)
        requires
            old(self).wf(),
            old(self)@.can_create_insurance_contract(
                farmer_id,
                consumer_id,
                terms@,
                conditions@,
                payout_criteria@,
            ),
        ensures
            final(self).wf(),
            (final(self)@, created@) == old(self)@.create_insurance_contract(
                farmer_id,
                consumer_id,
                terms@,
                conditions@,
                payout_criteria@,
            ),
    {
        let id = self.ids.next_id();
        let created = InsuranceContract {
            id,
            farmer_id,
            consumer_id,
            terms,
            conditions,
            payout_criteria,
        };
        self.insurance_contracts.put(id, &created);
        created
    }

    /// The insurance contract stored under `id`. The store is unchanged.
    pub fn read_insurance_contract(&self, id: u64) -> (found: Result<InsuranceContract, Error>)
        requires
            self.wf(),
        ensures
            reply(found) == self@.read_insurance_contract(id),
    {
        match self.insurance_contracts.fetch::<InsuranceContract>(id) {
            Some(contract) => Ok(contract),
            None => Err(not_found(Kind::InsuranceContract, id)),
        }
    }

    /// Whether [`Store::update_insurance_contract`] may be called with
    /// these fields.
    pub fn can_update_insurance_contract(
        &self,
        id: u64,
        farmer_id: u64,
        consumer_id: u64,
        terms: &String,
        conditions: &String,
        payout_criteria: &String,
    ) -> (can: bool)
        requires
            self.wf(),
        ensures
            can == self@.can_update_insurance_contract(
                id,
                farmer_id,
                consumer_id,
                terms@,
                conditions@,
                payout_criteria@,
            ),
    {
        match self.insurance_contracts.fetch::<InsuranceContract>(id) {
            Some(mut contract) => {
                contract.farmer_id = farmer_id;
                contract.consumer_id = consumer_id;
                contract.terms = terms.clone();
                contract.conditions = conditions.clone();
                contract.payout_criteria = payout_criteria.clone();
                self.insurance_contracts.fits(&contract)
            },
            None => true,
        }
    }

    /// Replaces every field but the identifier of the insurance contract
    /// stored under `id` and returns the new contract. Where none is stored
    /// there, nothing is created.
    pub fn update_insurance_contract(
        &mut self,
        id: u64,
        farmer_id: u64,
        consumer_id: u64,
        terms: String,
        conditions: String,
        payout_criteria: String,
    ) -> (updated: Result<InsuranceContract, Error>)
        requires
            old(self).wf(),
            old(self)@.can_update_insurance_contract(
                id,
                farmer_id,
                consumer_id,
                terms@,
                conditions@,
                payout_criteria@,
            ),
        ensures
            final(self).wf(),
            (final(self)@, reply(updated)) == old(self)@.update_insurance_contract(
                id,
                farmer_id,
                consumer_id,
                terms@,
                conditions@,
                payout_criteria@,
            ),
    {
        match self.insurance_contracts.take::<InsuranceContract>(id) {
            Some(mut contract) => {
                contract.farmer_id = farmer_id;
                contract.consumer_id = consumer_id;
                contract.terms = terms;
                contract.conditions = conditions;
                contract.payout_criteria = payout_criteria;
                self.insurance_contracts.put(id, &contract);
                assert(self@.insurance_contracts =~= old(self)@.insurance_contracts.insert(
                    id,
                    contract@,
                ));
                Ok(contract)
            },
            None => {
                assert(self@.insurance_contracts =~= old(self)@.insurance_contracts);
                Err(not_found(Kind::InsuranceContract, id))
            },
        }
    }

    /// Removes the insurance contract stored under `id` and returns it.
    pub fn delete_insurance_contract(&mut self, id: u64) -> (deleted: Result<
        InsuranceContract,
        Error,
    >)
        requires
            old(self).wf(),
        ensures
            final(self).wf(),
            (final(self)@, reply(deleted)) == old(self)@.delete_insurance_contract(id),
    {
        match self.insurance_contracts.take::<InsuranceContract>(id) {
            Some(contract) => Ok(contract),
            None => {
                assert(self@.insurance_contracts =~= old(self)@.insurance_contracts);
                Err(not_found(Kind::InsuranceContract, id))
            },
        }
    }

    // Governance proposals

    /// Whether [`Store::create_governance_proposal`] may be called with
    /// these fields.
    pub fn can_create_governance_proposal(
        &self,
        proposal_details: &String,
        proposer_id: u64,
        voting_records: &Vec<VotingRecord>,
    ) -> (can: bool)
        requires
            self.wf(),
        ensures
            can == self@.can_create_governance_proposal(
                proposal_details@,
                proposer_id,
                voting_records@,
            ),
    {
        let next = self.ids.peek();
        if next == u64::MAX {
            return false;
        }
        let probe = GovernanceProposal {
            id: next,
            proposal_details: proposal_details.clone(),
            proposer_id,
            voting_records: voting_records.clone(),
        };
        assert(probe.voting_records.model() =~= voting_records@);
        self.governance_proposals.fits(&probe)
    }

    /// Stores a new governance proposal under a fresh identifier and
    /// returns it.
    pub fn create_governance_proposal(
        &mut self,
        proposal_details: String,
        proposer_id: u64,
        voting_records: Vec<VotingRecord>,
    ) -> (created: GovernanceProposal)
        requires
            old(self).wf(),
            old(self)@.can_create_governance_proposal(
                proposal_details@,
                proposer_id,
                voting_records@,
            ),
        ensures
            final(self).wf(),
            (final(self)@, created@) == old(self)@.create_governance_proposal(
                proposal_details@,
                proposer_id,
                voting_records@,
            ),
    {
        let id = self.ids.next_id();
        let created = GovernanceProposal { id, proposal_details, proposer_id, voting_records };
        assert(created.voting_records.model() =~= created.voting_records@);
        self.governance_proposals.put(id, &created);
        created
    }

    /// The governance proposal stored under `id`. The store is unchanged.
    pub fn read_governance_proposal(&self, id: u64) -> (found: Result<GovernanceProposal, Error>)
        requires
            self.wf(),
        ensures
            reply(found) == self@.read_governance_proposal(id),
    {
        match self.governance_proposals.fetch::<GovernanceProposal>(id) {
            Some(proposal) => Ok(proposal),
            None => Err(not_found(Kind::GovernanceProposal, id)),
        }
    }

    /// Whether [`Store::update_governance_proposal`] may be called with
    /// these fields.
    pub fn can_update_governance_proposal(
        &self,
        id: u64,
        proposal_details: &String,
        proposer_id: u64,
        voting_records: &Vec<VotingRecord>,
    ) -> (can: bool)
        requires
            self.wf(),
        ensures
            can == self@.can_update_governance_proposal(
                id,
                proposal_details@,
                proposer_id,
                voting_records@,
            ),
    {
        match self.governance_proposals.fetch::<GovernanceProposal>(id) {
            Some(mut proposal) => {
                proposal.proposal_details = proposal_details.clone();
                proposal.proposer_id = proposer_id;
                proposal.voting_records = voting_records.clone();
                assert(proposal.voting_records.model() =~= voting_records@);
                self.governance_proposals.fits(&proposal)
            },
            None => true,
        }
    }

    /// Replaces every field but the identifier of the governance proposal
    /// stored under `id` and returns the new proposal. Where none is stored
    /// there, nothing is created.
    pub fn update_governance_proposal(
        &mut self,
        id: u64,
        proposal_details: String,
        proposer_id: u64,
        voting_records: Vec<VotingRecord>,
    ) -> (updated: Result<GovernanceProposal, Error>)
        requires
            old(self).wf(),
            old(self)@.can_update_governance_proposal(
                id,
                proposal_details@,
                proposer_id,
                voting_records@,
            ),
        ensures
            final(self).wf(),
            (final(self)@, reply(updated)) == old(self)@.update_governance_proposal(
                id,
                proposal_details@,
                proposer_id,
                voting_records@,
            ),
    {
        match self.governance_proposals.take::<GovernanceProposal>(id) {
            Some(mut proposal) => {
                proposal.proposal_details = proposal_details;
                proposal.proposer_id = proposer_id;
                proposal.voting_records = voting_records;
                assert(proposal.voting_records.model() =~= proposal.voting_records@);
                self.governance_proposals.put(id, &proposal);
                assert(self@.governance_proposals =~= old(self)@.governance_proposals.insert(
                    id,
                    proposal@,
                ));
                Ok(proposal)
            },
            None => {
                assert(self@.governance_proposals =~= old(self)@.governance_proposals);
                Err(not_found(Kind::GovernanceProposal, id))
            },
        }
    }

    /// Removes the governance proposal stored under `id` and returns it.
    pub fn delete_governance_proposal(&mut self, id: u64) -> (deleted: Result<
        GovernanceProposal,
        Error,
    >)
        requires
            old(self).wf(),
        ensures
            final(self).wf(),
            (final(self)@, reply(deleted)) == old(self)@.delete_governance_proposal(id),
    {
        match self.governance_proposals.take::<GovernanceProposal>(id) {
            Some(proposal) => Ok(proposal),
            None => {
                assert(self@.governance_proposals =~= old(self)@.governance_proposals);
                Err(not_found(Kind::GovernanceProposal, id))
            },
        }
    }

    // Stake adjustments

    /// Whether [`Store::create_stake_adjustment`] may be called with these
    /// fields.
    pub fn can_create_stake_adjustment(
        &self,
        user_id: u64,
        old_stake: u64,
        new_stake: u64,
        reason: &String,
    ) -> (can: bool)
        requires
            self.wf(),
        ensures
            can == self@.can_create_stake_adjustment(user_id, old_stake, new_stake, reason@),
    {
        let next = self.ids.peek();
        if next == u64::MAX {
            return false;
        }
        let probe = StakeAdjustment { user_id, old_stake, new_stake, reason: reason.clone() };
        self.stake_adjustments.fits(&probe)
    }

    /// Stores a new stake adjustment under a fresh identifier and returns
    /// it. The record does not carry that identifier: it is the one that
    /// [`Store::next_id`] gave before the call.
    pub fn create_stake_adjustment(
        &mut self,
        user_id: u64,
        old_stake: u64,
        new_stake: u64,
        reason: String,
    ) -> (created: StakeAdjustment)
        requires
            old(self).wf(),
            old(self)@.can_create_stake_adjustment(user_id, old_stake, new_stake, reason@),
        ensures
            final(self).wf(),
            (final(self)@, created@) == old(self)@.create_stake_adjustment(
                user_id,
                old_stake,
                new_stake,
                reason@,
            ),
    {
        let id = self.ids.next_id();
        let created = StakeAdjustment { user_id, old_stake, new_stake, reason };
        self.stake_adjustments.put(id, &created);
        created
    }

    /// The stake adjustment stored under `id`. The store is unchanged.
    pub fn read_stake_adjustment(&self, id: u64) -> (found: Result<StakeAdjustment, Error>)
        requires
            self.wf(),
        ensures
            reply(found) == self@.read_stake_adjustment(id),
    {
        match self.stake_adjustments.fetch::<StakeAdjustment>(id) {
            Some(adjustment) => Ok(adjustment),
            None => Err(not_found(Kind::StakeAdjustment, id)),
        }
    }

    /// Whether [`Store::update_stake_adjustment`] may be called with these
    /// fields.
    pub fn can_update_stake_adjustment(
        &self,
        id: u64,
        user_id: u64,
        old_stake: u64,
        new_stake: u64,
        reason: &String,
    ) -> (can: bool)
        requires
            self.wf(),
        ensures
            can == self@.can_update_stake_adjustment(id, user_id, old_stake, new_stake, reason@),
    {
        match self.stake_adjustments.fetch::<StakeAdjustment>(id) {
            Some(mut adjustment) => {
                adjustment.user_id = user_id;
                adjustment.old_stake = old_stake;
                adjustment.new_stake = new_stake;
                adjustment.reason = reason.clone();
                self.stake_adjustments.fits(&adjustment)
            },
            None => true,
        }
    }

    /// Replaces every field of the stake adjustment stored under `id` and
    /// returns the new record. Where none is stored there, nothing is
    /// created.
    pub fn update_stake_adjustment(
        &mut self,
        id: u64,
        user_id: u64,
        old_stake: u64,
        new_stake: u64,
        reason: String,
    ) -> (updated: Result<StakeAdjustment, Error>)
        requires
            old(self).wf(),
            old(self)@.can_update_stake_adjustment(id, user_id, old_stake, new_stake, reason@),
        ensures
            final(self).wf(),
            (final(self)@, reply(updated)) == old(self)@.update_stake_adjustment(
                id,
                user_id,
                old_stake,
                new_stake,
                reason@,
            ),
    {
        match self.stake_adjustments.take::<StakeAdjustment>(id) {
            Some(mut adjustment) => {
                adjustment.user_id = user_id;
                adjustment.old_stake = old_stake;
                adjustment.new_stake = new_stake;
                adjustment.reason = reason;
                self.stake_adjustments.put(id, &adjustment);
                assert(self@.stake_adjustments =~= old(self)@.stake_adjustments.insert(
                    id,
                    adjustment@,
                ));
                Ok(adjustment)
            },
            None => {
                assert(self@.stake_adjustments =~= old(self)@.stake_adjustments);
                Err(not_found(Kind::StakeAdjustment, id))
            },
        }
    }

    /// Removes the stake adjustment stored under `id` and returns it.
    pub fn delete_stake_adjustment(&mut self, id: u64) -> (deleted: Result<StakeAdjustment, Error>)
        requires
            old(self).wf(),
        ensures
            final(self).wf(),
            (final(self)@, reply(deleted)) == old(self)@.delete_stake_adjustment(id),
    {
        match self.stake_adjustments.take::<StakeAdjustment>(id) {
            Some(adjustment) => Ok(adjustment),
            None => {
                assert(self@.stake_adjustments =~= old(self)@.stake_adjustments);
                Err(not_found(Kind::StakeAdjustment, id))
            },
        }
    }
}

} // verus!
