//! What holds of the store whatever is asked of it, stated over the same
//! functions that the operations' contracts use.

use crate::calls::{Call, Outcome};
use crate::error::{
    decimal, not_found_model, not_found_text, ErrorModel, Kind, COUNTER_PARTITION,
};
use crate::model::{
    updated_governance_proposal, updated_insurance_contract, updated_transaction_record,
    updated_user_profile, StoreModel,
};
use crate::records::{StakeAdjustmentModel, VotingRecord};
use vstd::prelude::*;

verus! {

/// The layout of the durable memory: no two kinds share a partition, none
/// takes that of the counter, and every number is one that the memory has.
pub proof fn law_partitions_distinct(a: Kind, b: Kind)
    ensures
        a.partition_number() != COUNTER_PARTITION,
        1 <= a.partition_number() <= 5,
        a != b ==> a.partition_number() != b.partition_number(),
{
}

/// A call that may be made in a well-formed store leaves a well-formed
/// store. A call that creates a record moves the counter on by one, and no
/// other call moves it.
pub proof fn law_step_keeps_wf(s: StoreModel, call: Call)
    requires
        s.wf(),
        s.allows(call),
    ensures
        s.step(call).0.wf(),
        call.is_creation() ==> s.step(call).0.next_id == s.next_id + 1,
        !call.is_creation() ==> s.step(call).0.next_id == s.next_id,
{
}

/// Bounded encoding: a call that may be made leaves every record within
/// the ceiling of its kind, where every record was.
pub proof fn law_step_keeps_bounded(s: StoreModel, call: Call)
    requires
        s.bounded(),
        s.allows(call),
    ensures
        s.step(call).0.bounded(),
{
}

/// The calls before the `k`-th of a sequence that may be made may be made.
pub proof fn law_prefix_allowed(s: StoreModel, calls: Seq<Call>, k: int)
    requires
        s.allows_all(calls),
        0 <= k <= calls.len(),
    ensures
        s.allows_all(calls.take(k)),
    decreases calls.len(),
{
    if k == calls.len() {
        assert(calls.take(k) =~= calls);
    } else {
        assert(calls.drop_last().take(k) =~= calls.take(k));
        law_prefix_allowed(s, calls.drop_last(), k);
    }
}

/// A sequence of calls that may be made in a well-formed store leaves a
/// well-formed store, and the counter never moves back.
pub proof fn law_run_keeps_wf(s: StoreModel, calls: Seq<Call>)
    requires
        s.wf(),
        s.allows_all(calls),
    ensures
        s.run(calls).wf(),
        s.next_id <= s.run(calls).next_id,
    decreases calls.len(),
{
    if calls.len() > 0 {
        law_run_keeps_wf(s, calls.drop_last());
        law_step_keeps_wf(s.run(calls.drop_last()), calls.last());
    }
}

/// The counter at the `i`-th call is no greater than at the `j`-th, where
/// `i` comes first.
pub proof fn law_counter_grows(s: StoreModel, calls: Seq<Call>, i: int, j: int)
    requires
        s.wf(),
        s.allows_all(calls),
        0 <= i <= j <= calls.len(),
    ensures
        s.run(calls.take(i)).next_id <= s.run(calls.take(j)).next_id,
    decreases j - i,
{
    if i < j {
        law_counter_grows(s, calls, i, j - 1);
        law_prefix_allowed(s, calls, j);
        law_prefix_allowed(s, calls, j - 1);
        law_run_keeps_wf(s, calls.take(j - 1));
        assert(calls.take(j).drop_last() =~= calls.take(j - 1));
        law_step_keeps_wf(s.run(calls.take(j - 1)), calls.take(j).last());
    }
}

/// Uniqueness: in any sequence of calls that may be made, of whatever kinds
/// and with whatever else between them, a later creation hands out a
/// greater identifier than an earlier one. So no two are the same.
pub proof fn law_identifiers_increase(s: StoreModel, calls: Seq<Call>, i: int, j: int)
    requires
        s.wf(),
        s.allows_all(calls),
        0 <= i < j < calls.len(),
        calls[i].is_creation(),
        calls[j].is_creation(),
    ensures
        s.run(calls.take(i)).hands_out(calls[i]) is Some,
        s.run(calls.take(j)).hands_out(calls[j]) is Some,
        s.run(calls.take(i)).hands_out(calls[i])->0 < s.run(calls.take(j)).hands_out(calls[j])->0,
{
    law_prefix_allowed(s, calls, i);
    law_prefix_allowed(s, calls, i + 1);
    law_run_keeps_wf(s, calls.take(i));
    assert(calls.take(i + 1).drop_last() =~= calls.take(i));
    assert(calls.take(i + 1).last() == calls[i]);
    law_step_keeps_wf(s.run(calls.take(i)), calls[i]);
    law_counter_grows(s, calls, i + 1, j);
}

/// The record that a creation returns carries the identifier that was
/// handed out, unless it is a stake adjustment, which carries none.
pub proof fn law_created_record_carries_id(s: StoreModel, call: Call)
    requires
        call.is_creation(),
    ensures
        call.kind() != Kind::StakeAdjustment ==> s.step(call).1.id() == s.hands_out(call),
        call.kind() == Kind::StakeAdjustment ==> s.step(call).1.id() is None,
        s.step(call).0.contains(call.kind(), s.next_id),
{
}

/// Round trip: reading under the identifier that a creation handed out,
/// right after it, gives the record that the creation returned.
pub proof fn law_read_after_create(s: StoreModel, call: Call)
    requires
        call.is_creation(),
    ensures
        s.step(call).0.step(Call::read(call.kind(), s.next_id)).1 == s.step(call).1,
        s.step(call).0.step(Call::read(call.kind(), s.next_id)).0 == s.step(call).0,
{
}

/// An update of a user profile that is there keeps its identifier, its role
/// and its history, takes the new name and stake, and is what a read then
/// finds. Every other profile, every other table and the counter stay.
pub proof fn law_update_user_profile(s: StoreModel, id: u64, name: Seq<char>, stake_in_dao: u64)
    requires
        s.wf(),
        s.user_profiles.contains_key(id),
    ensures
        ({
            let (after, result) = s.update_user_profile(id, name, stake_in_dao);
            &&& result is Ok
            &&& result->Ok_0 == updated_user_profile(s.user_profiles[id], name, stake_in_dao)
            &&& result->Ok_0.id == id
            &&& result->Ok_0.name == name
            &&& result->Ok_0.stake_in_dao == stake_in_dao
            &&& result->Ok_0.role == s.user_profiles[id].role
            &&& result->Ok_0.transaction_history == s.user_profiles[id].transaction_history
            &&& after.read_user_profile(id) == result
            &&& after.user_profiles.remove(id) == s.user_profiles.remove(id)
            &&& after == StoreModel { user_profiles: after.user_profiles, ..s }
        }),
{
    let (after, result) = s.update_user_profile(id, name, stake_in_dao);
    assert(after.user_profiles.remove(id) =~= s.user_profiles.remove(id));
}

/// An update of a transaction record that is there keeps its identifier,
/// takes the new fields, and is what a read then finds. Every other record,
/// every other table and the counter stay.
pub proof fn law_update_transaction_record(
    s: StoreModel,
    id: u64,
    amount: u64,
    date: u64,
    involved_parties: Seq<u64>,
)
    requires
        s.wf(),
        s.transaction_records.contains_key(id),
    ensures
        ({
            let (after, result) = s.update_transaction_record(id, amount, date, involved_parties);
            &&& result is Ok
            &&& result->Ok_0 == updated_transaction_record(
                s.transaction_records[id],
                amount,
                date,
                involved_parties,
            )
            &&& result->Ok_0.id == id
            &&& result->Ok_0.amount == amount
            &&& result->Ok_0.date == date
            &&& result->Ok_0.involved_parties == involved_parties
            &&& after.read_transaction_record(id) == result
            &&& after.transaction_records.remove(id) == s.transaction_records.remove(id)
            &&& after == StoreModel { transaction_records: after.transaction_records, ..s }
        }),
{
    let (after, result) = s.update_transaction_record(id, amount, date, involved_parties);
    assert(after.transaction_records.remove(id) =~= s.transaction_records.remove(id));
}

/// An update of an insurance contract that is there keeps its identifier,
/// takes the new fields, and is what a read then finds. Every other
/// contract, every other table and the counter stay.
pub proof fn law_update_insurance_contract(
    s: StoreModel,
    id: u64,
    farmer_id: u64,
    consumer_id: u64,
    terms: Seq<char>,
    conditions: Seq<char>,
    payout_criteria: Seq<char>,
)
    requires
        s.wf(),
        s.insurance_contracts.contains_key(id),
    ensures
        ({
            let (after, result) = s.update_insurance_contract(
                id,
                farmer_id,
                consumer_id,
                terms,
                conditions,
                payout_criteria,
            );
            &&& result is Ok
            &&& result->Ok_0 == updated_insurance_contract(
                s.insurance_contracts[id],
                farmer_id,
                consumer_id,
                terms,
                conditions,
                payout_criteria,
            )
            &&& result->Ok_0.id == id
            &&& result->Ok_0.farmer_id == farmer_id
            &&& result->Ok_0.consumer_id == consumer_id
            &&& result->Ok_0.terms == terms
            &&& result->Ok_0.conditions == conditions
            &&& result->Ok_0.payout_criteria == payout_criteria
            &&& after.read_insurance_contract(id) == result
            &&& after.insurance_contracts.remove(id) == s.insurance_contracts.remove(id)
            &&& after == StoreModel { insurance_contracts: after.insurance_contracts, ..s }
        }),
{
    let (after, result) = s.update_insurance_contract(
        id,
        farmer_id,
        consumer_id,
        terms,
        conditions,
        payout_criteria,
    );
    assert(after.insurance_contracts.remove(id) =~= s.insurance_contracts.remove(id));
}

/// An update of a governance proposal that is there keeps its identifier,
/// takes the new fields, and is what a read then finds. Every other
/// proposal, every other table and the counter stay.
pub proof fn law_update_governance_proposal(
    s: StoreModel,
    id: u64,
    proposal_details: Seq<char>,
    proposer_id: u64,
    voting_records: Seq<VotingRecord>,
)
    requires
        s.wf(),
        s.governance_proposals.contains_key(id),
    ensures
        ({
            let (after, result) = s.update_governance_proposal(
                id,
                proposal_details,
                proposer_id,
                voting_records,
            );
            &&& result is Ok
            &&& result->Ok_0 == updated_governance_proposal(
                s.governance_proposals[id],
                proposal_details,
                proposer_id,
                voting_records,
            )
            &&& result->Ok_0.id == id
            &&& result->Ok_0.proposal_details == proposal_details
            &&& result->Ok_0.proposer_id == proposer_id
            &&& result->Ok_0.voting_records == voting_records
            &&& after.read_governance_proposal(id) == result
            &&& after.governance_proposals.remove(id) == s.governance_proposals.remove(id)
            &&& after == StoreModel { governance_proposals: after.governance_proposals, ..s }
        }),
{
    let (after, result) = s.update_governance_proposal(
        id,
        proposal_details,
        proposer_id,
        voting_records,
    );
    assert(after.governance_proposals.remove(id) =~= s.governance_proposals.remove(id));
}

/// An update of a stake adjustment that is there stays under the same
/// identifier, takes the new fields, and is what a read then finds. Every
/// other adjustment, every other table and the counter stay.
pub proof fn law_update_stake_adjustment(
    s: StoreModel,
    id: u64,
    user_id: u64,
    old_stake: u64,
    new_stake: u64,
    reason: Seq<char>,
)
    requires
        s.stake_adjustments.contains_key(id),
    ensures
        ({
            let (after, result) = s.update_stake_adjustment(
                id,
                user_id,
                old_stake,
                new_stake,
                reason,
            );
            &&& result == Ok::<StakeAdjustmentModel, ErrorModel>(
                StakeAdjustmentModel { user_id, old_stake, new_stake, reason },
            )
            &&& after.read_stake_adjustment(id) == result
            &&& after.stake_adjustments.remove(id) == s.stake_adjustments.remove(id)
            &&& after == StoreModel { stake_adjustments: after.stake_adjustments, ..s }
        }),
{
    let (after, result) = s.update_stake_adjustment(id, user_id, old_stake, new_stake, reason);
    assert(after.stake_adjustments.remove(id) =~= s.stake_adjustments.remove(id));
}

/// A delete of a record that is there returns that record, removes it and
/// nothing else, and leaves the counter where it was.
pub proof fn law_delete_removes(s: StoreModel, kind: Kind, id: u64)
    requires
        s.wf(),
        s.contains(kind, id),
    ensures
        s.step(Call::delete(kind, id)).1 == s.step(Call::read(kind, id)).1,
        !(s.step(Call::delete(kind, id)).1 is Failed),
        !s.step(Call::delete(kind, id)).0.contains(kind, id),
        s.step(Call::delete(kind, id)).0.next_id == s.next_id,
        id < s.next_id,
        forall|other_kind: Kind, other: u64|
            (other_kind != kind || other != id) ==> s.step(Call::delete(kind, id)).0.contains(
                other_kind,
                other,
            ) == #[trigger] s.contains(other_kind, other),
{
}

/// A call that creates nothing adds no record, and a creation adds one
/// under the identifier that it hands out and nowhere else.
pub proof fn law_only_creation_adds(s: StoreModel, call: Call, kind: Kind, id: u64)
    requires
        !s.contains(kind, id),
        s.step(call).0.contains(kind, id),
    ensures
        call.is_creation(),
        call.kind() == kind,
        s.hands_out(call) == Some(id),
{
}

/// Delete is terminal: once a record has been deleted, no sequence of calls
/// that may be made brings a record back under its identifier, and no
/// creation among them hands that identifier out again. So every read,
/// update and delete of it fails from then on: see
/// [`law_not_found_on_absent`].
pub proof fn law_delete_is_terminal(s: StoreModel, kind: Kind, id: u64, calls: Seq<Call>, k: int)
    requires
        s.wf(),
        s.contains(kind, id),
        s.step(Call::delete(kind, id)).0.allows_all(calls),
        0 <= k <= calls.len(),
    ensures
        !s.step(Call::delete(kind, id)).0.run(calls.take(k)).contains(kind, id),
        id < s.step(Call::delete(kind, id)).0.run(calls.take(k)).next_id,
        k < calls.len() ==> s.step(Call::delete(kind, id)).0.run(calls.take(k)).hands_out(calls[k])
            != Some(id),
    decreases k,
{
    let after = s.step(Call::delete(kind, id)).0;
    law_delete_removes(s, kind, id);
    law_step_keeps_wf(s, Call::delete(kind, id));
    if k > 0 {
        law_delete_is_terminal(s, kind, id, calls, k - 1);
        law_prefix_allowed(after, calls, k);
        law_prefix_allowed(after, calls, k - 1);
        law_run_keeps_wf(after, calls.take(k - 1));
        assert(calls.take(k).drop_last() =~= calls.take(k - 1));
        assert(calls.take(k).last() == calls[k - 1]);
        let before = after.run(calls.take(k - 1));
        law_step_keeps_wf(before, calls[k - 1]);
        if before.step(calls[k - 1]).0.contains(kind, id) {
            law_only_creation_adds(before, calls[k - 1], kind, id);
        }
    } else {
        assert(calls.take(0) =~= Seq::<Call>::empty());
    }
}

/// An identifier that has not been handed out has no record, of any kind.
pub proof fn law_unallocated_is_absent(s: StoreModel, kind: Kind, id: u64)
    requires
        s.wf(),
        id >= s.next_id,
    ensures
        !s.contains(kind, id),
{
}

/// Not found on absent: a read, an update or a delete of an identifier
/// under which no record of the kind is stored changes nothing and fails
/// with the message that names the kind and the identifier.
pub proof fn law_not_found_on_absent(s: StoreModel, call: Call, id: u64)
    requires
        call.target() == Some(id),
        !s.contains(call.kind(), id),
    ensures
        s.allows(call),
        s.step(call) == (s, Outcome::Failed(not_found_model(call.kind(), id))),
{
}

/// The message of a missing record holds the identifier, written in
/// decimal, right after the name of the kind and the words ` with id=`.
pub proof fn law_message_names_id(kind: Kind, id: u64)
    ensures
        ({
            let text = not_found_text(kind, id);
            let at = kind.name().len() + " with id="@.len();
            &&& at + decimal(id as nat).len() <= text.len()
            &&& text.subrange(at as int, (at + decimal(id as nat).len()) as int) == decimal(id as nat)
            &&& text.subrange(0, kind.name().len() as int) == kind.name()
        }),
{
    let text = not_found_text(kind, id);
    let at = kind.name().len() + " with id="@.len();
    assert(text.subrange(at as int, (at + decimal(id as nat).len()) as int) =~= decimal(id as nat));
    assert(text.subrange(0, kind.name().len() as int) =~= kind.name());
}

} // verus!
