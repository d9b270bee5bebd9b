//! The evidence packets of planner turns: how they are built, and what they stand on.

use vstd::prelude::*;
use crate::artifact::{require_readable, ArtifactRef};
use crate::contract::Contract;
use crate::digest::Sha256Digest;
use crate::error::StoreError;
use crate::event::{EventEnvelope, EventPayload};
use crate::history::{EventLog, EventQuery, MAX_SEQUENCE, PayloadFilter};
use crate::identity::{EventId, PlannerEvidenceEntryId, RunId, SessionId};
use crate::planner_prompt::{
    PlannerReplannerV2ContextCatalog, PlannerReplannerV2EvidenceBinding,
    PlannerReplannerV2EvidenceDelta, PlannerReplannerV2EvidenceEntry,
    PlannerReplannerV2EvidencePacket, PlannerReplannerV2Purpose,
};
use crate::planner_turn::{
    PlannerEvidenceBindingV2, PlannerEvidenceDeltaV2, PlannerEvidenceEntryV2,
    PlannerEvidencePacketV2,
    PlannerTurnAcceptedV1, PlannerTurnPreparedV1, PlannerTurnPurposeV1,
};
use crate::planner_v2_sources::{
    planner_evidence_pairs, ChildEvidenceReads, PlannerEvidencePair,
};
use crate::retained::RootPlannerOutput;
use crate::store::Store;
use crate::text::{Same, Text};

verus! {

/// An entry of the prompt's evidence by identity and content.
pub open spec fn binding_of(entry: PlannerReplannerV2EvidenceEntry) ->
    PlannerReplannerV2EvidenceBinding {
    PlannerReplannerV2EvidenceBinding {
        evidence_id: entry.evidence_id,
        normalized_content_sha256: entry.normalized_content_sha256,
    }
}

/// The entries of the prompt's evidence by identity and content.
pub open spec fn prompt_bindings(entries: Seq<PlannerReplannerV2EvidenceEntry>) -> Seq<
    PlannerReplannerV2EvidenceBinding,
> {
    entries.map_values(|entry: PlannerReplannerV2EvidenceEntry| binding_of(entry))
}

/// Whether one binding comes before another: by identity, and then by content.
pub open spec fn binding_precedes(
    first: PlannerReplannerV2EvidenceBinding,
    second: PlannerReplannerV2EvidenceBinding,
) -> bool {
    ||| first.evidence_id.0 < second.evidence_id.0
    ||| first.evidence_id == second.evidence_id && crate::text::text_precedes(
        first.normalized_content_sha256@,
        second.normalized_content_sha256@,
    )
}

/// Whether bindings are in their order.
pub open spec fn in_order(bindings: Seq<PlannerReplannerV2EvidenceBinding>) -> bool {
    forall|i: int, j: int|
        0 <= i < j < bindings.len() ==> !binding_precedes(
            #[trigger] bindings[j],
            #[trigger] bindings[i],
        )
}

/// Whether bindings are exactly those of some entries, in their order.
pub open spec fn catalogs(
    bindings: Seq<PlannerReplannerV2EvidenceBinding>,
    entries: Seq<PlannerReplannerV2EvidenceEntry>,
) -> bool {
    &&& in_order(bindings)
    &&& bindings.to_multiset() == prompt_bindings(entries).to_multiset()
}

proof fn lemma_binding_order(
    first: PlannerReplannerV2EvidenceBinding,
    second: PlannerReplannerV2EvidenceBinding,
    third: PlannerReplannerV2EvidenceBinding,
)
    ensures
        !binding_precedes(first, first),
        binding_precedes(first, second) && binding_precedes(second, third) ==> binding_precedes(
            first,
            third,
        ),
{
    crate::text::lemma_precedes_irreflexive(first.normalized_content_sha256@);
    let (a, b, c) = (
        first.normalized_content_sha256@,
        second.normalized_content_sha256@,
        third.normalized_content_sha256@,
    );
    if crate::text::text_precedes(a, b) && crate::text::text_precedes(b, c) {
        crate::text::lemma_precedes_transitive(a, b, c);
    }
}

fn is_before(
    first: &PlannerReplannerV2EvidenceBinding,
    second: &PlannerReplannerV2EvidenceBinding,
) -> (r: bool)
    ensures
        r == binding_precedes(*first, *second),
{
    first.evidence_id.0 < second.evidence_id.0 || (first.evidence_id == second.evidence_id
        && first.normalized_content_sha256.precedes(&second.normalized_content_sha256))
}

fn insert_in_order(
    bindings: &mut Vec<PlannerReplannerV2EvidenceBinding>,
    binding: PlannerReplannerV2EvidenceBinding,
)
    requires
        in_order(old(bindings)@),
    ensures
        in_order(final(bindings)@),
        final(bindings)@.to_multiset() == old(bindings)@.to_multiset().insert(binding),
{
    let ghost before = bindings@;
    let mut p: usize = 0;
    while p < bindings.len() && !is_before(&binding, &bindings[p])
        invariant
            p <= bindings@.len(),
            bindings@ == before,
            forall|i: int| 0 <= i < p ==> !binding_precedes(binding, #[trigger] bindings@[i]),
        decreases bindings.len() - p,
    {
        p += 1;
    }
    proof {
        before.to_multiset_ensures();
        vstd::seq_lib::to_multiset_insert(before, p as int, binding);
        let after = before.insert(p as int, binding);
        assert forall|i: int, j: int| 0 <= i < j < after.len() implies !binding_precedes(
            #[trigger] after[j],
            #[trigger] after[i],
        ) by {
            if i < p && j == p {
            } else if i == p {
                let other = before[j - 1];
                lemma_binding_order(other, binding, before[p as int]);
                lemma_binding_order(before[p as int], binding, before[p as int]);
                if binding_precedes(other, binding) {
                    assert(binding_precedes(other, before[p as int]));
                    if j - 1 > p {
                        assert(!binding_precedes(before[j - 1], before[p as int]));
                    }
                }
            } else if i < p && j > p {
                assert(after[i] == before[i] && after[j] == before[j - 1]);
            } else if j < p {
                assert(after[i] == before[i] && after[j] == before[j]);
            } else {
                assert(after[i] == before[i - 1] && after[j] == before[j - 1]);
            }
        }
    }
    bindings.insert(p, binding);
}

/// The bindings of the prompt's evidence, in their order.
pub fn sorted_evidence_bindings(entries: &Vec<PlannerReplannerV2EvidenceEntry>) -> (r: Vec<
    PlannerReplannerV2EvidenceBinding,
>)
    ensures
        catalogs(r@, entries@),
{
    let mut bindings: Vec<PlannerReplannerV2EvidenceBinding> = Vec::new();
    let mut n: usize = 0;
    proof {
        assert(prompt_bindings(entries@.take(0)) =~= bindings@);
    }
    while n < entries.len()
        invariant
            n <= entries@.len(),
            in_order(bindings@),
            bindings@.to_multiset() == prompt_bindings(entries@.take(n as int)).to_multiset(),
        decreases entries.len() - n,
    {
        let binding = PlannerReplannerV2EvidenceBinding {
            evidence_id: entries[n].evidence_id,
            normalized_content_sha256: entries[n].normalized_content_sha256.clone(),
        };
        proof {
            let before = prompt_bindings(entries@.take(n as int));
            assert(prompt_bindings(entries@.take(n + 1)) =~= before.push(binding));
            before.to_multiset_ensures();
        }
        insert_in_order(&mut bindings, binding);
        n += 1;
    }
    assert(entries@.take(entries@.len() as int) =~= entries@);
    bindings
}

/// The catalog of the prompt's evidence; `manifest` is the digest that its bindings amount to.
pub fn planner_context_catalog(
    entries: &Vec<PlannerReplannerV2EvidenceEntry>,
    manifest: &Result<Text, StoreError>,
) -> (r: Result<PlannerReplannerV2ContextCatalog, StoreError>)
    ensures
        match (r, *manifest) {
            (Ok(context), Ok(digest)) => context.manifest_sha256 == digest && catalogs(
                context.evidence_bindings@,
                entries@,
            ),
            (Err(error), Err(expected)) => error == expected,
            _ => false,
        },
{
    let evidence_bindings = sorted_evidence_bindings(entries);
    match manifest {
        Ok(digest) => Ok(
            PlannerReplannerV2ContextCatalog { manifest_sha256: digest.clone(), evidence_bindings },
        ),
        Err(error) => Err(*error),
    }
}

/// What the prompt calls the purpose of a turn.
#[verifier::allow_in_spec]
pub fn prompting_planner_purpose(purpose: PlannerTurnPurposeV1) -> PlannerReplannerV2Purpose
    returns
        (match purpose {
            PlannerTurnPurposeV1::InitialDelegation => PlannerReplannerV2Purpose::InitialDelegation,
            PlannerTurnPurposeV1::EvidenceReplan => PlannerReplannerV2Purpose::EvidenceReplan,
        }),
{
    match purpose {
        PlannerTurnPurposeV1::InitialDelegation => PlannerReplannerV2Purpose::InitialDelegation,
        PlannerTurnPurposeV1::EvidenceReplan => PlannerReplannerV2Purpose::EvidenceReplan,
    }
}

/// Whether the prompt and the turn have the same purpose.
#[verifier::allow_in_spec]
pub fn prompting_v2_purpose_matches(
    prompt: PlannerReplannerV2Purpose,
    durable: PlannerTurnPurposeV1,
) -> bool
    returns
        (match (prompt, durable) {
            (
                PlannerReplannerV2Purpose::InitialDelegation,
                PlannerTurnPurposeV1::InitialDelegation,
            ) => true,
            (PlannerReplannerV2Purpose::EvidenceReplan, PlannerTurnPurposeV1::EvidenceReplan) =>
                true,
            _ => false,
        }),
{
    match (prompt, durable) {
        (PlannerReplannerV2Purpose::InitialDelegation, PlannerTurnPurposeV1::InitialDelegation) =>
            true,
        (PlannerReplannerV2Purpose::EvidenceReplan, PlannerTurnPurposeV1::EvidenceReplan) => true,
        _ => false,
    }
}

/// The purpose that the prompt is given matches the turn's, and no other does.
pub proof fn law_purposes_agree(prompt: PlannerReplannerV2Purpose, durable: PlannerTurnPurposeV1)
    ensures
        prompting_v2_purpose_matches(prompt, durable) <==> prompt == prompting_planner_purpose(
            durable,
        ),
{
}

/// The durable entries by identity and content.
pub open spec fn durable_bindings(entries: Seq<PlannerEvidenceEntryV2>) -> Seq<
    PlannerEvidenceBindingV2,
> {
    entries.map_values(
        |entry: PlannerEvidenceEntryV2|
            PlannerEvidenceBindingV2 {
                evidence_id: entry.evidence_id,
                normalized_content_digest: entry.normalized_content_digest,
            },
    )
}

/// The durable entries of a packet by identity and content.
pub fn planner_evidence_bindings(packet: &PlannerEvidencePacketV2) -> (r: Vec<
    PlannerEvidenceBindingV2,
>)
    ensures
        r@ == durable_bindings(packet.entries@),
{
    let mut bindings: Vec<PlannerEvidenceBindingV2> = Vec::new();
    let mut n: usize = 0;
    while n < packet.entries.len()
        invariant
            n <= packet.entries@.len(),
            bindings@ == durable_bindings(packet.entries@.take(n as int)),
        decreases packet.entries.len() - n,
    {
        let entry = &packet.entries[n];
        let binding = PlannerEvidenceBindingV2 {
            evidence_id: entry.evidence_id,
            normalized_content_digest: entry.normalized_content_digest.clone(),
        };
        assert(durable_bindings(packet.entries@.take(n + 1)) =~= durable_bindings(
            packet.entries@.take(n as int),
        ).push(binding));
        bindings.push(binding);
        n += 1;
    }
    assert(packet.entries@.take(n as int) =~= packet.entries@);
    bindings
}

/// Whether bindings name an entry.
pub open spec fn names_entry(
    bindings: Seq<PlannerEvidenceBindingV2>,
    evidence_id: PlannerEvidenceEntryId,
) -> bool {
    exists|i: int| 0 <= i < bindings.len() && #[trigger] bindings[i].evidence_id == evidence_id
}

/// The bindings that name no entry of an earlier packet.
pub open spec fn new_bindings(
    current: Seq<PlannerEvidenceBindingV2>,
    previous: Seq<PlannerEvidenceBindingV2>,
) -> Seq<PlannerEvidenceBindingV2> {
    current.filter(|binding: PlannerEvidenceBindingV2| !names_entry(previous, binding.evidence_id))
}

fn finds_entry(bindings: &Vec<PlannerEvidenceBindingV2>, evidence_id: PlannerEvidenceEntryId) -> (r:
    bool)
    ensures
        r == names_entry(bindings@, evidence_id),
{
    let mut i: usize = 0;
    while i < bindings.len()
        invariant
            i <= bindings@.len(),
            forall|j: int| 0 <= j < i ==> #[trigger] bindings@[j].evidence_id != evidence_id,
        decreases bindings.len() - i,
    {
        if bindings[i].evidence_id == evidence_id {
            return true;
        }
        i += 1;
    }
    false
}

/// The bindings that name no entry of an earlier packet.
pub fn newly_available_bindings(
    current: &Vec<PlannerEvidenceBindingV2>,
    previous: &Vec<PlannerEvidenceBindingV2>,
) -> (r: Vec<PlannerEvidenceBindingV2>)
    ensures
        r@ == new_bindings(current@, previous@),
{
    let mut found: Vec<PlannerEvidenceBindingV2> = Vec::new();
    let mut n: usize = 0;
    let ghost is_new = |binding: PlannerEvidenceBindingV2|
        !names_entry(previous@, binding.evidence_id);
    proof {
        reveal(Seq::filter);
        assert(current@.take(0).filter(is_new) =~= Seq::empty());
    }
    while n < current.len()
        invariant
            n <= current@.len(),
            is_new == (|binding: PlannerEvidenceBindingV2|
                !names_entry(previous@, binding.evidence_id)),
            found@ == current@.take(n as int).filter(is_new),
        decreases current.len() - n,
    {
        proof {
            reveal(Seq::filter);
            assert(current@.take(n + 1).drop_last() =~= current@.take(n as int));
            assert(current@.take(n + 1).last() == current@[n as int]);
        }
        if !finds_entry(previous, current[n].evidence_id) {
            found.push(
                PlannerEvidenceBindingV2 {
                    evidence_id: current[n].evidence_id,
                    normalized_content_digest: current[n].normalized_content_digest.clone(),
                },
            );
        }
        n += 1;
    }
    assert(current@.take(n as int) =~= current@);
    found
}

/// The last turn prepared for a run before a sequence.
pub open spec fn latest_preparation_before(
    events: Seq<EventEnvelope>,
    session_id: SessionId,
    run_id: RunId,
    sequence: u64,
) -> Option<EventEnvelope> {
    EventQuery::in_run(session_id, run_id, PayloadFilter::PlannerTurnPrepared).before(
        sequence,
    ).last_of(events)
}

/// The last turn prepared for a run before a sequence.
pub fn latest_planner_prepared_before<'a>(
    log: &'a EventLog,
    session_id: SessionId,
    run_id: RunId,
    sequence: u64,
) -> (r: Option<&'a EventEnvelope>)
    ensures
        latest_preparation_before(log@, session_id, run_id, sequence) == (match r {
            Some(event) => Some(*event),
            None => None,
        }),
{
    log.last(
        &EventQuery::in_run(session_id, run_id, PayloadFilter::PlannerTurnPrepared).before(
            sequence,
        ),
    )
}

/// The last turn accepted for a run before a sequence.
pub open spec fn latest_acceptance_before(
    events: Seq<EventEnvelope>,
    session_id: SessionId,
    run_id: RunId,
    sequence: u64,
) -> Option<EventEnvelope> {
    EventQuery::in_run(session_id, run_id, PayloadFilter::PlannerTurnAccepted).before(
        sequence,
    ).last_of(events)
}

/// The last turn accepted for a run before a sequence.
pub fn latest_planner_accepted_before<'a>(
    log: &'a EventLog,
    session_id: SessionId,
    run_id: RunId,
    sequence: u64,
) -> (r: Option<&'a EventEnvelope>)
    ensures
        latest_acceptance_before(log@, session_id, run_id, sequence) == (match r {
            Some(event) => Some(*event),
            None => None,
        }),
{
    log.last(
        &EventQuery::in_run(session_id, run_id, PayloadFilter::PlannerTurnAccepted).before(
            sequence,
        ),
    )
}

/// The acceptance in an acceptance event.
pub open spec fn acceptance_in(event: EventEnvelope) -> Option<PlannerTurnAcceptedV1> {
    match event.payload {
        EventPayload::PlannerTurnAcceptedV1(accepted) => Some(accepted),
        _ => None,
    }
}

/// The evidence of one turn, for the prompt and for the history.
#[derive(Debug)]
pub struct BuiltPlannerEvidence {
    pub context: PlannerReplannerV2ContextCatalog,
    pub prompt_packet: PlannerReplannerV2EvidencePacket,
    pub prompt_delta: PlannerReplannerV2EvidenceDelta,
    pub durable_packet: PlannerEvidencePacketV2,
    pub durable_delta: PlannerEvidenceDeltaV2,
    pub prompt_packet_artifact: ArtifactRef,
    pub prompt_delta_artifact: ArtifactRef,
    pub durable_packet_artifact: ArtifactRef,
    pub durable_delta_artifact: ArtifactRef,
}

/// What a retried turn retained, and the digest that the prompt's evidence amounts to.
#[derive(Debug)]
pub struct RetryEvidenceReads {
    pub prompt_packet: Result<PlannerReplannerV2EvidencePacket, StoreError>,
    pub prompt_delta: Result<PlannerReplannerV2EvidenceDelta, StoreError>,
    pub durable_packet: Result<PlannerEvidencePacketV2, StoreError>,
    pub durable_delta: Result<PlannerEvidenceDeltaV2, StoreError>,
    pub manifest: Result<Text, StoreError>,
}

/// What is read, made and written for the evidence of a new turn: the accepted plan, the children,
/// the prompt's entries for all evidence in its order, the digest of the catalog, the prompt's packet
/// before this one, its packet and delta now, and the artifacts that these and the durable ones were
/// written to.
#[derive(Debug)]
pub struct FreshEvidenceReads {
    pub plan: Result<RootPlannerOutput, StoreError>,
    pub children: Vec<ChildEvidenceReads>,
    pub entries: Result<Vec<PlannerReplannerV2EvidenceEntry>, StoreError>,
    pub manifest: Result<Text, StoreError>,
    pub previous_packet: Result<PlannerReplannerV2EvidencePacket, StoreError>,
    pub packet: Result<PlannerReplannerV2EvidencePacket, StoreError>,
    pub delta: Result<PlannerReplannerV2EvidenceDelta, StoreError>,
    pub prompt_packet_artifact: Result<ArtifactRef, StoreError>,
    pub prompt_delta_artifact: Result<ArtifactRef, StoreError>,
    pub durable_packet_artifact: Result<ArtifactRef, StoreError>,
    pub durable_delta_artifact: Result<ArtifactRef, StoreError>,
}

/// What the evidence of a turn is built from: what the turn that it retries retained, or what the
/// run's history has now.
#[derive(Debug)]
pub enum PlannerEvidenceInput {
    Retry { prepared_event_id: EventId, reads: RetryEvidenceReads },
    Fresh { reads: FreshEvidenceReads },
}

/// Whether what a retried turn retained is what it was prepared with.
pub open spec fn retains_evidence(
    prepared: PlannerTurnPreparedV1,
    reads: RetryEvidenceReads,
) -> bool {
    &&& reads.manifest matches Ok(manifest) && manifest@ == prepared.context_manifest_digest@
    &&& reads.durable_packet matches Ok(packet) && packet.same(&prepared.durable_evidence_packet)
    &&& reads.durable_delta matches Ok(delta) && delta.same(&prepared.durable_evidence_delta)
}

/// What is found of the evidence of a retried turn.
pub open spec fn retry_verdict(
    store: Store,
    session_id: SessionId,
    run_id: RunId,
    purpose: PlannerTurnPurposeV1,
    prepared_event_id: EventId,
    reads: RetryEvidenceReads,
) -> Result<(), StoreError> {
    match crate::planning_ground::event_of_run(store, session_id, run_id, prepared_event_id) {
        None => Err(StoreError::InvalidStateEvent),
        Some(event) => match crate::planner_v2_terminal::turn_in(event) {
            None => Err(StoreError::InvalidStateEvent),
            Some(prepared) => if prepared.purpose != purpose {
                Err(StoreError::InvalidStateEvent)
            } else {
                retry_reads_verdict(store.contract, prepared, reads)
            },
        },
    }
}

/// What is found of what a retried turn retained.
pub open spec fn retry_reads_verdict(
    contract: Contract,
    prepared: PlannerTurnPreparedV1,
    reads: RetryEvidenceReads,
) -> Result<(), StoreError> {
    crate::error::and_next(
        crate::artifact::readable(
            prepared.prompt_evidence_packet_artifact,
            contract.media.planner_prompt_evidence_packet_v2,
            reads.prompt_packet,
        ),
        crate::error::and_next(
            crate::artifact::readable(
                prepared.prompt_evidence_delta_artifact,
                contract.media.planner_prompt_evidence_delta_v2,
                reads.prompt_delta,
            ),
            crate::error::and_next(
                crate::artifact::readable(
                    prepared.durable_evidence_packet_artifact,
                    contract.media.planner_durable_evidence_packet_v2,
                    reads.durable_packet,
                ),
                crate::error::and_next(
                    crate::artifact::readable(
                        prepared.durable_evidence_delta_artifact,
                        contract.media.planner_durable_evidence_delta_v2,
                        reads.durable_delta,
                    ),
                    crate::error::and_next(
                        crate::artifact::outcome(reads.manifest),
                        crate::error::demand(retains_evidence(prepared, reads)),
                    ),
                ),
            ),
        ),
    )
}

/// Whether evidence is exactly what a retried turn retained.
pub open spec fn is_retained(
    built: BuiltPlannerEvidence,
    prepared: PlannerTurnPreparedV1,
    reads: RetryEvidenceReads,
) -> bool {
    &&& reads.manifest == Ok::<Text, StoreError>(built.context.manifest_sha256)
    &&& catalogs(built.context.evidence_bindings@, built.prompt_packet.entries@)
    &&& reads.prompt_packet == Ok::<PlannerReplannerV2EvidencePacket, StoreError>(
        built.prompt_packet,
    )
    &&& reads.prompt_delta == Ok::<PlannerReplannerV2EvidenceDelta, StoreError>(built.prompt_delta)
    &&& reads.durable_packet == Ok::<PlannerEvidencePacketV2, StoreError>(built.durable_packet)
    &&& reads.durable_delta == Ok::<PlannerEvidenceDeltaV2, StoreError>(built.durable_delta)
    &&& built.prompt_packet_artifact == prepared.prompt_evidence_packet_artifact
    &&& built.prompt_delta_artifact == prepared.prompt_evidence_delta_artifact
    &&& built.durable_packet_artifact == prepared.durable_evidence_packet_artifact
    &&& built.durable_delta_artifact == prepared.durable_evidence_delta_artifact
}

fn check_retry_reads(
    contract: &Contract,
    prepared: &PlannerTurnPreparedV1,
    reads: &RetryEvidenceReads,
) -> (r: Result<(), StoreError>)
    ensures
        r == retry_reads_verdict(*contract, *prepared, *reads),
{
    match require_readable(
        &prepared.prompt_evidence_packet_artifact,
        &contract.media.planner_prompt_evidence_packet_v2,
        &reads.prompt_packet,
    ) {
        Ok(()) => {},
        Err(error) => return Err(error),
    }
    match require_readable(
        &prepared.prompt_evidence_delta_artifact,
        &contract.media.planner_prompt_evidence_delta_v2,
        &reads.prompt_delta,
    ) {
        Ok(()) => {},
        Err(error) => return Err(error),
    }
    match require_readable(
        &prepared.durable_evidence_packet_artifact,
        &contract.media.planner_durable_evidence_packet_v2,
        &reads.durable_packet,
    ) {
        Ok(()) => {},
        Err(error) => return Err(error),
    }
    match require_readable(
        &prepared.durable_evidence_delta_artifact,
        &contract.media.planner_durable_evidence_delta_v2,
        &reads.durable_delta,
    ) {
        Ok(()) => {},
        Err(error) => return Err(error),
    }
    match (&reads.manifest, &reads.durable_packet, &reads.durable_delta) {
        (Err(error), _, _) => Err(*error),
        (Ok(manifest), Ok(packet), Ok(delta)) => if !prepared.context_manifest_digest.reads(
            manifest,
        ) || *packet != prepared.durable_evidence_packet || *delta
            != prepared.durable_evidence_delta {
            Err(StoreError::InvalidStateEvent)
        } else {
            Ok(())
        },
        _ => Err(StoreError::InvalidStateEvent),
    }
}

/// The evidence that a retried turn retained.
pub fn retained_turn_evidence(
    store: &Store,
    session_id: SessionId,
    run_id: RunId,
    purpose: PlannerTurnPurposeV1,
    prepared_event_id: EventId,
    reads: RetryEvidenceReads,
) -> (r: Result<BuiltPlannerEvidence, StoreError>)
    ensures
        match (
            r,
            retry_verdict(*store, session_id, run_id, purpose, prepared_event_id, reads),
        ) {
            (Ok(built), Ok(())) => is_retained(
                built,
                crate::planner_v2_terminal::turn_in(
                    crate::planning_ground::event_of_run(
                        *store,
                        session_id,
                        run_id,
                        prepared_event_id,
                    )->0,
                )->0,
                reads,
            ),
            (Err(error), Err(expected)) => error == expected,
            _ => false,
        },
{
    let event = match store.log.event(session_id, run_id, prepared_event_id) {
        Ok(event) => event,
        Err(error) => return Err(error),
    };
    let prepared = match &event.payload {
        EventPayload::PlannerTurnPreparedV1(prepared) => prepared,
        _ => return Err(StoreError::InvalidStateEvent),
    };
    if prepared.purpose != purpose {
        return Err(StoreError::InvalidStateEvent);
    }
    match check_retry_reads(&store.contract, prepared, &reads) {
        Ok(()) => {},
        Err(error) => return Err(error),
    }
    let RetryEvidenceReads { prompt_packet, prompt_delta, durable_packet, durable_delta, manifest } =
        reads;
    match (prompt_packet, prompt_delta, durable_packet, durable_delta) {
        (Ok(prompt_packet), Ok(prompt_delta), Ok(durable_packet), Ok(durable_delta)) => {
            let context = match planner_context_catalog(&prompt_packet.entries, &manifest) {
                Ok(context) => context,
                Err(error) => return Err(error),
            };
            Ok(
                BuiltPlannerEvidence {
                    context,
                    prompt_packet,
                    prompt_delta,
                    durable_packet,
                    durable_delta,
                    prompt_packet_artifact: prepared.prompt_evidence_packet_artifact.clone(),
                    prompt_delta_artifact: prepared.prompt_evidence_delta_artifact.clone(),
                    durable_packet_artifact: prepared.durable_evidence_packet_artifact.clone(),
                    durable_delta_artifact: prepared.durable_evidence_delta_artifact.clone(),
                },
            )
        },
        _ => Err(StoreError::InvalidStateEvent),
    }
}

/// The first entry of the prompt's evidence with one identity.
pub open spec fn entry_position(
    entries: Seq<PlannerReplannerV2EvidenceEntry>,
    evidence_id: PlannerEvidenceEntryId,
    from: int,
) -> Option<int>
    decreases entries.len() - from,
{
    if from < 0 || from >= entries.len() {
        None
    } else if entries[from].evidence_id == evidence_id {
        Some(from)
    } else {
        entry_position(entries, evidence_id, from + 1)
    }
}

fn find_entry(
    entries: &Vec<PlannerReplannerV2EvidenceEntry>,
    evidence_id: PlannerEvidenceEntryId,
) -> (r: Option<usize>)
    ensures
        entry_position(entries@, evidence_id, 0) == (match r {
            Some(position) => Some(position as int),
            None => None,
        }),
        r matches Some(position) ==> position < entries@.len(),
{
    let mut i: usize = 0;
    while i < entries.len()
        invariant
            i <= entries@.len(),
            entry_position(entries@, evidence_id, 0) == entry_position(
                entries@,
                evidence_id,
                i as int,
            ),
        decreases entries.len() - i,
    {
        if entries[i].evidence_id == evidence_id {
            return Some(i);
        }
        i += 1;
    }
    None
}

/// Whether there is one entry of the prompt's evidence for each piece, each bears the identity of its
/// piece, and no two have one identity.
pub open spec fn entries_tell_pairs_apart(
    entries: Seq<PlannerReplannerV2EvidenceEntry>,
    pairs: Seq<PlannerEvidencePair>,
) -> bool {
    &&& entries.len() == pairs.len()
    &&& forall|i: int|
        0 <= i < entries.len() ==> (#[trigger] entries[i]).evidence_id == pairs[i].durable_id
    &&& forall|i: int, j: int|
        0 <= i < j < entries.len() ==> (#[trigger] entries[i]).evidence_id != (
        #[trigger] entries[j]).evidence_id
}

fn tells_pairs_apart(
    entries: &Vec<PlannerReplannerV2EvidenceEntry>,
    pairs: &Vec<PlannerEvidencePair>,
) -> (r: bool)
    ensures
        r == entries_tell_pairs_apart(entries@, pairs@),
{
    if entries.len() != pairs.len() {
        return false;
    }
    let mut j: usize = 0;
    while j < entries.len()
        invariant
            j <= entries@.len(),
            entries@.len() == pairs@.len(),
            forall|a: int|
                0 <= a < j ==> (#[trigger] entries@[a]).evidence_id == pairs@[a].durable_id,
            forall|a: int, b: int|
                0 <= a < b < j ==> (#[trigger] entries@[a]).evidence_id != (
                #[trigger] entries@[b]).evidence_id,
        decreases entries.len() - j,
    {
        if entries[j].evidence_id != pairs[j].durable_id {
            assert(entries@[j as int].evidence_id != pairs@[j as int].durable_id);
            return false;
        }
        let mut i: usize = 0;
        while i < j
            invariant
                i <= j < entries@.len(),
                entries@.len() == pairs@.len(),
                forall|a: int|
                    0 <= a < i ==> (#[trigger] entries@[a]).evidence_id
                        != entries@[j as int].evidence_id,
            decreases j - i,
        {
            if entries[i].evidence_id == entries[j].evidence_id {
                assert(entries@[i as int].evidence_id == entries@[j as int].evidence_id);
                return false;
            }
            i += 1;
        }
        j += 1;
    }
    true
}

/// The durable entry for an entry of the prompt's packet.
pub open spec fn durable_entry(
    entries: Seq<PlannerReplannerV2EvidenceEntry>,
    pairs: Seq<PlannerEvidencePair>,
    entry: PlannerReplannerV2EvidenceEntry,
) -> Option<PlannerEvidenceEntryV2> {
    match (
        entry_position(entries, entry.evidence_id, 0),
        Sha256Digest::read_in(entry.normalized_content_sha256),
    ) {
        (Some(position), Some(digest)) => Some(
            PlannerEvidenceEntryV2 {
                evidence_id: pairs[position].durable_id,
                normalized_content_digest: digest,
                material: pairs[position].durable,
            },
        ),
        _ => None,
    }
}

/// Whether every entry of the prompt's packet has its durable entry.
pub open spec fn has_durable_entries(
    entries: Seq<PlannerReplannerV2EvidenceEntry>,
    pairs: Seq<PlannerEvidencePair>,
    packet: Seq<PlannerReplannerV2EvidenceEntry>,
) -> bool {
    forall|i: int|
        0 <= i < packet.len() ==> durable_entry(entries, pairs, #[trigger] packet[i]) is Some
}

/// The durable entries for the prompt's packet.
pub open spec fn durable_entries(
    entries: Seq<PlannerReplannerV2EvidenceEntry>,
    pairs: Seq<PlannerEvidencePair>,
    packet: Seq<PlannerReplannerV2EvidenceEntry>,
) -> Seq<PlannerEvidenceEntryV2> {
    packet.map_values(
        |entry: PlannerReplannerV2EvidenceEntry| durable_entry(entries, pairs, entry)->0,
    )
}

fn build_durable_entries(
    entries: &Vec<PlannerReplannerV2EvidenceEntry>,
    pairs: &Vec<PlannerEvidencePair>,
    packet: &Vec<PlannerReplannerV2EvidenceEntry>,
) -> (r: Option<Vec<PlannerEvidenceEntryV2>>)
    requires
        entries@.len() == pairs@.len(),
    ensures
        r is Some <==> has_durable_entries(entries@, pairs@, packet@),
        r matches Some(built) ==> built@ == durable_entries(entries@, pairs@, packet@),
{
    let mut built: Vec<PlannerEvidenceEntryV2> = Vec::new();
    let mut n: usize = 0;
    while n < packet.len()
        invariant
            n <= packet@.len(),
            entries@.len() == pairs@.len(),
            forall|i: int|
                0 <= i < n ==> durable_entry(entries@, pairs@, #[trigger] packet@[i]) is Some,
            built@ == durable_entries(entries@, pairs@, packet@.take(n as int)),
        decreases packet.len() - n,
    {
        let entry = &packet[n];
        let position = match find_entry(entries, entry.evidence_id) {
            Some(position) => position,
            None => {
                assert(durable_entry(entries@, pairs@, packet@[n as int]) is None);
                return None;
            },
        };
        let digest = match Sha256Digest::parse(&entry.normalized_content_sha256) {
            Some(digest) => digest,
            None => {
                assert(durable_entry(entries@, pairs@, packet@[n as int]) is None);
                return None;
            },
        };
        let durable = PlannerEvidenceEntryV2 {
            evidence_id: pairs[position].durable_id,
            normalized_content_digest: digest,
            material: pairs[position].durable.clone(),
        };
        assert(durable_entries(entries@, pairs@, packet@.take(n + 1)) =~= durable_entries(
            entries@,
            pairs@,
            packet@.take(n as int),
        ).push(durable));
        built.push(durable);
        n += 1;
    }
    assert(packet@.take(n as int) =~= packet@);
    Some(built)
}

/// What an earlier turn was prepared with, by identity and content; nothing, if there was none.
pub open spec fn previous_bindings(previous: Option<EventEnvelope>) -> Seq<
    PlannerEvidenceBindingV2,
> {
    match previous {
        Some(event) => match crate::planner_v2_terminal::turn_in(event) {
            Some(prepared) => durable_bindings(prepared.durable_evidence_packet.entries@),
            None => Seq::empty(),
        },
        None => Seq::empty(),
    }
}

/// Whether the evidence of a new turn can be stated durably, and is new.
pub open spec fn states_new_evidence(
    entries: Seq<PlannerReplannerV2EvidenceEntry>,
    pairs: Seq<PlannerEvidencePair>,
    packet: Seq<PlannerReplannerV2EvidenceEntry>,
    manifest: Text,
    delta_sha256: Text,
    previous: Option<EventEnvelope>,
) -> bool {
    &&& has_durable_entries(entries, pairs, packet)
    &&& crate::digest::is_canonical_digest(manifest@)
    &&& new_bindings(
        durable_bindings(durable_entries(entries, pairs, packet)),
        previous_bindings(previous),
    ).len() > 0
    &&& crate::digest::is_canonical_digest(delta_sha256@)
}

/// Whether the purpose fits: the first turn delegates, and every later one replans.
pub open spec fn purpose_fits(
    contract: Contract,
    purpose: PlannerTurnPurposeV1,
    previous: Option<EventEnvelope>,
    packet: Result<PlannerReplannerV2EvidencePacket, StoreError>,
) -> Result<(), StoreError> {
    match previous {
        None => crate::error::demand(purpose == PlannerTurnPurposeV1::InitialDelegation),
        Some(event) => match crate::planner_v2_terminal::turn_in(event) {
            None => Err(StoreError::InvalidStateEvent),
            Some(prepared) => if purpose == PlannerTurnPurposeV1::InitialDelegation {
                Err(StoreError::InvalidStateEvent)
            } else {
                crate::artifact::readable(
                    prepared.prompt_evidence_packet_artifact,
                    contract.media.planner_prompt_evidence_packet_v2,
                    packet,
                )
            },
        },
    }
}

/// Whether everything was written.
pub open spec fn all_written(reads: FreshEvidenceReads) -> Result<(), StoreError> {
    crate::error::and_next(
        crate::artifact::outcome(reads.prompt_packet_artifact),
        crate::error::and_next(
            crate::artifact::outcome(reads.prompt_delta_artifact),
            crate::error::and_next(
                crate::artifact::outcome(reads.durable_packet_artifact),
                crate::artifact::outcome(reads.durable_delta_artifact),
            ),
        ),
    )
}

/// What is found of the evidence of a new turn, with the run's evidence and the turn before it known.
pub open spec fn fresh_parts_verdict(
    contract: Contract,
    purpose: PlannerTurnPurposeV1,
    pairs: Seq<PlannerEvidencePair>,
    previous: Option<EventEnvelope>,
    reads: FreshEvidenceReads,
) -> Result<(), StoreError> {
    match reads.entries {
        Err(error) => Err(error),
        Ok(entries) => if !entries_tell_pairs_apart(entries@, pairs) {
            Err(StoreError::InvalidStateEvent)
        } else {
            match reads.manifest {
                Err(error) => Err(error),
                Ok(manifest) => crate::error::and_next(
                    purpose_fits(contract, purpose, previous, reads.previous_packet),
                    match (reads.packet, reads.delta) {
                        (Err(error), _) => Err(error),
                        (Ok(_), Err(error)) => Err(error),
                        (Ok(packet), Ok(delta)) => crate::error::and_next(
                            crate::error::demand(
                                states_new_evidence(
                                    entries@,
                                    pairs,
                                    packet.entries@,
                                    manifest,
                                    delta.delta_sha256,
                                    previous,
                                ),
                            ),
                            all_written(reads),
                        ),
                    },
                ),
            }
        },
    }
}

/// What is found of the evidence of a new turn.
pub open spec fn fresh_verdict(
    store: Store,
    session_id: SessionId,
    run_id: RunId,
    purpose: PlannerTurnPurposeV1,
    reads: FreshEvidenceReads,
) -> Result<(), StoreError> {
    match crate::planner_v2_sources::evidence_pairs(
        store,
        session_id,
        run_id,
        reads.plan,
        reads.children@,
    ) {
        Err(error) => Err(error),
        Ok(pairs) => fresh_parts_verdict(
            store.contract,
            purpose,
            pairs,
            latest_preparation_before(store.log@, session_id, run_id, MAX_SEQUENCE),
            reads,
        ),
    }
}

/// Whether a durable packet states the run's evidence.
pub open spec fn is_durable_packet(
    contract: Contract,
    packet: PlannerEvidencePacketV2,
    purpose: PlannerTurnPurposeV1,
    manifest: Text,
    entries: Seq<PlannerEvidenceEntryV2>,
) -> bool {
    &&& packet.schema_version == contract.versions.planner_evidence
    &&& packet.purpose == purpose
    &&& packet.context_manifest_digest == Sha256Digest::written_as(manifest)
    &&& packet.entries@ == entries
}

/// Whether a durable delta states what is new since the turn before.
pub open spec fn is_durable_delta(
    contract: Contract,
    delta: PlannerEvidenceDeltaV2,
    purpose: PlannerTurnPurposeV1,
    previous: Option<EventEnvelope>,
    entries: Seq<PlannerEvidenceEntryV2>,
    delta_sha256: Text,
) -> bool {
    &&& delta.schema_version == contract.versions.planner_evidence
    &&& delta.purpose == purpose
    &&& delta.previous_packet_digest == (match previous {
        Some(event) => match crate::planner_v2_terminal::turn_in(event) {
            Some(prepared) => Some(prepared.durable_evidence_packet_digest),
            None => None,
        },
        None => None,
    })
    &&& delta.previous_evidence@ == previous_bindings(previous)
    &&& delta.newly_available@ == new_bindings(
        durable_bindings(entries),
        previous_bindings(previous),
    )
    &&& delta.delta_digest == Sha256Digest::written_as(delta_sha256)
}

/// Whether evidence is that of a new turn.
pub open spec fn is_fresh(
    contract: Contract,
    built: BuiltPlannerEvidence,
    purpose: PlannerTurnPurposeV1,
    pairs: Seq<PlannerEvidencePair>,
    previous: Option<EventEnvelope>,
    reads: FreshEvidenceReads,
) -> bool {
    let entries = reads.entries->Ok_0@;
    let durable = durable_entries(entries, pairs, built.prompt_packet.entries@);
    &&& reads.manifest == Ok::<Text, StoreError>(built.context.manifest_sha256)
    &&& catalogs(built.context.evidence_bindings@, entries)
    &&& reads.packet == Ok::<PlannerReplannerV2EvidencePacket, StoreError>(built.prompt_packet)
    &&& reads.delta == Ok::<PlannerReplannerV2EvidenceDelta, StoreError>(built.prompt_delta)
    &&& is_durable_packet(
        contract,
        built.durable_packet,
        purpose,
        built.context.manifest_sha256,
        durable,
    )
    &&& is_durable_delta(
        contract,
        built.durable_delta,
        purpose,
        previous,
        durable,
        built.prompt_delta.delta_sha256,
    )
    &&& reads.prompt_packet_artifact == Ok::<ArtifactRef, StoreError>(built.prompt_packet_artifact)
    &&& reads.prompt_delta_artifact == Ok::<ArtifactRef, StoreError>(built.prompt_delta_artifact)
    &&& reads.durable_packet_artifact == Ok::<ArtifactRef, StoreError>(
        built.durable_packet_artifact,
    )
    &&& reads.durable_delta_artifact == Ok::<ArtifactRef, StoreError>(built.durable_delta_artifact)
}

fn check_purpose(
    contract: &Contract,
    purpose: PlannerTurnPurposeV1,
    previous: Option<&EventEnvelope>,
    packet: &Result<PlannerReplannerV2EvidencePacket, StoreError>,
) -> (r: Result<(), StoreError>)
    ensures
        r == purpose_fits(
            *contract,
            purpose,
            match previous {
                Some(event) => Some(*event),
                None => None,
            },
            *packet,
        ),
{
    match previous {
        None => if purpose == PlannerTurnPurposeV1::InitialDelegation {
            Ok(())
        } else {
            Err(StoreError::InvalidStateEvent)
        },
        Some(event) => match &event.payload {
            EventPayload::PlannerTurnPreparedV1(prepared) => if purpose
                == PlannerTurnPurposeV1::InitialDelegation {
                Err(StoreError::InvalidStateEvent)
            } else {
                require_readable(
                    &prepared.prompt_evidence_packet_artifact,
                    &contract.media.planner_prompt_evidence_packet_v2,
                    packet,
                )
            },
            _ => Err(StoreError::InvalidStateEvent),
        },
    }
}

fn list_previous_bindings(previous: Option<&EventEnvelope>) -> (r: Vec<PlannerEvidenceBindingV2>)
    ensures
        r@ == previous_bindings(
            match previous {
                Some(event) => Some(*event),
                None => None,
            },
        ),
{
    match previous {
        Some(event) => match &event.payload {
            EventPayload::PlannerTurnPreparedV1(prepared) => planner_evidence_bindings(
                &prepared.durable_evidence_packet,
            ),
            _ => Vec::new(),
        },
        None => Vec::new(),
    }
}

fn previous_packet_digest(previous: Option<&EventEnvelope>) -> (r: Option<Sha256Digest>)
    ensures
        r == (match previous {
            Some(event) => match crate::planner_v2_terminal::turn_in(*event) {
                Some(prepared) => Some(prepared.durable_evidence_packet_digest),
                None => None,
            },
            None => None,
        }),
{
    match previous {
        Some(event) => match &event.payload {
            EventPayload::PlannerTurnPreparedV1(prepared) => Some(
                prepared.durable_evidence_packet_digest.clone(),
            ),
            _ => None,
        },
        None => None,
    }
}

/// The durable packet and delta of a new turn; nothing, where its evidence cannot be stated or is not
/// new.
fn build_durable_evidence(
    contract: &Contract,
    purpose: PlannerTurnPurposeV1,
    pairs: &Vec<PlannerEvidencePair>,
    previous: Option<&EventEnvelope>,
    entries: &Vec<PlannerReplannerV2EvidenceEntry>,
    manifest: &Text,
    packet: &PlannerReplannerV2EvidencePacket,
    delta: &PlannerReplannerV2EvidenceDelta,
) -> (r: Option<(PlannerEvidencePacketV2, PlannerEvidenceDeltaV2)>)
    requires
        entries@.len() == pairs@.len(),
    ensures
        ({
            let before = match previous {
                Some(event) => Some(*event),
                None => None,
            };
            let durable = durable_entries(entries@, pairs@, packet.entries@);
            &&& r is Some <==> states_new_evidence(
                entries@,
                pairs@,
                packet.entries@,
                *manifest,
                delta.delta_sha256,
                before,
            )
            &&& r matches Some((durable_packet, durable_delta)) ==> is_durable_packet(
                *contract,
                durable_packet,
                purpose,
                *manifest,
                durable,
            ) && is_durable_delta(
                *contract,
                durable_delta,
                purpose,
                before,
                durable,
                delta.delta_sha256,
            )
        }),
{
    let durable = match build_durable_entries(entries, pairs, &packet.entries) {
        Some(durable) => durable,
        None => return None,
    };
    let context_manifest_digest = match Sha256Digest::parse(manifest) {
        Some(digest) => digest,
        None => return None,
    };
    let durable_packet = PlannerEvidencePacketV2 {
        schema_version: contract.versions.planner_evidence,
        purpose,
        context_manifest_digest,
        entries: durable,
    };
    let current = planner_evidence_bindings(&durable_packet);
    let previous_evidence = list_previous_bindings(previous);
    let newly_available = newly_available_bindings(&current, &previous_evidence);
    if newly_available.len() == 0 {
        return None;
    }
    let delta_digest = match Sha256Digest::parse(&delta.delta_sha256) {
        Some(digest) => digest,
        None => return None,
    };
    Some(
        (
            durable_packet,
            PlannerEvidenceDeltaV2 {
                schema_version: contract.versions.planner_evidence,
                purpose,
                previous_packet_digest: previous_packet_digest(previous),
                previous_evidence,
                newly_available,
                delta_digest,
            },
        ),
    )
}

/// The evidence of a new turn, from the run's evidence and the turn before it.
fn assemble_fresh_evidence(
    contract: &Contract,
    purpose: PlannerTurnPurposeV1,
    pairs: &Vec<PlannerEvidencePair>,
    previous: Option<&EventEnvelope>,
    reads: FreshEvidenceReads,
) -> (r: Result<BuiltPlannerEvidence, StoreError>)
    ensures
        ({
            let before = match previous {
                Some(event) => Some(*event),
                None => None,
            };
            match (r, fresh_parts_verdict(*contract, purpose, pairs@, before, reads)) {
                (Ok(built), Ok(())) => is_fresh(*contract, built, purpose, pairs@, before, reads),
                (Err(error), Err(expected)) => error == expected,
                _ => false,
            }
        }),
{
    let entries = match &reads.entries {
        Ok(entries) => entries,
        Err(error) => return Err(*error),
    };
    if !tells_pairs_apart(entries, pairs) {
        return Err(StoreError::InvalidStateEvent);
    }
    let context = match planner_context_catalog(entries, &reads.manifest) {
        Ok(context) => context,
        Err(error) => return Err(error),
    };
    match check_purpose(contract, purpose, previous, &reads.previous_packet) {
        Ok(()) => {},
        Err(error) => return Err(error),
    }
    let (durable_packet, durable_delta) = match (&reads.packet, &reads.delta) {
        (Err(error), _) => return Err(*error),
        (Ok(_), Err(error)) => return Err(*error),
        (Ok(packet), Ok(delta)) => match build_durable_evidence(
            contract,
            purpose,
            pairs,
            previous,
            entries,
            &context.manifest_sha256,
            packet,
            delta,
        ) {
            Some(built) => built,
            None => return Err(StoreError::InvalidStateEvent),
        },
    };
    match (
        reads.packet,
        reads.delta,
        reads.prompt_packet_artifact,
        reads.prompt_delta_artifact,
        reads.durable_packet_artifact,
        reads.durable_delta_artifact,
    ) {
        (
            Ok(prompt_packet),
            Ok(prompt_delta),
            Ok(prompt_packet_artifact),
            Ok(prompt_delta_artifact),
            Ok(durable_packet_artifact),
            Ok(durable_delta_artifact),
        ) => Ok(
            BuiltPlannerEvidence {
                context,
                prompt_packet,
                prompt_delta,
                durable_packet,
                durable_delta,
                prompt_packet_artifact,
                prompt_delta_artifact,
                durable_packet_artifact,
                durable_delta_artifact,
            },
        ),
        (Err(error), _, _, _, _, _) => Err(error),
        (Ok(_), Err(error), _, _, _, _) => Err(error),
        (Ok(_), Ok(_), Err(error), _, _, _) => Err(error),
        (Ok(_), Ok(_), Ok(_), Err(error), _, _) => Err(error),
        (Ok(_), Ok(_), Ok(_), Ok(_), Err(error), _) => Err(error),
        (Ok(_), Ok(_), Ok(_), Ok(_), Ok(_), Err(error)) => Err(error),
    }
}

/// The evidence of a new turn.
pub fn fresh_turn_evidence(
    store: &Store,
    session_id: SessionId,
    run_id: RunId,
    purpose: PlannerTurnPurposeV1,
    reads: FreshEvidenceReads,
) -> (r: Result<BuiltPlannerEvidence, StoreError>)
    ensures
        match (r, fresh_verdict(*store, session_id, run_id, purpose, reads)) {
            (Ok(built), Ok(())) => is_fresh(
                store.contract,
                built,
                purpose,
                crate::planner_v2_sources::evidence_pairs(
                    *store,
                    session_id,
                    run_id,
                    reads.plan,
                    reads.children@,
                )->Ok_0,
                latest_preparation_before(store.log@, session_id, run_id, MAX_SEQUENCE),
                reads,
            ),
            (Err(error), Err(expected)) => error == expected,
            _ => false,
        },
{
    let pairs = match planner_evidence_pairs(
        store,
        session_id,
        run_id,
        &reads.plan,
        &reads.children,
    ) {
        Ok(pairs) => pairs,
        Err(error) => return Err(error),
    };
    let previous = latest_planner_prepared_before(&store.log, session_id, run_id, MAX_SEQUENCE);
    assemble_fresh_evidence(&store.contract, purpose, &pairs, previous, reads)
}

/// What is found of the evidence of a turn.
#[verifier::opaque]
pub open spec fn evidence_verdict(
    store: Store,
    session_id: SessionId,
    run_id: RunId,
    purpose: PlannerTurnPurposeV1,
    input: PlannerEvidenceInput,
) -> Result<(), StoreError> {
    match input {
        PlannerEvidenceInput::Retry { prepared_event_id, reads } => retry_verdict(
            store,
            session_id,
            run_id,
            purpose,
            prepared_event_id,
            reads,
        ),
        PlannerEvidenceInput::Fresh { reads } => fresh_verdict(
            store,
            session_id,
            run_id,
            purpose,
            reads,
        ),
    }
}

/// Whether evidence is that of a turn: what the turn that it retries retained, or what is new.
#[verifier::opaque]
pub open spec fn is_evidence_of_turn(
    store: Store,
    session_id: SessionId,
    run_id: RunId,
    purpose: PlannerTurnPurposeV1,
    input: PlannerEvidenceInput,
    built: BuiltPlannerEvidence,
) -> bool {
    match input {
        PlannerEvidenceInput::Retry { prepared_event_id, reads } => is_retained(
            built,
            crate::planner_v2_terminal::turn_in(
                crate::planning_ground::event_of_run(
                    store,
                    session_id,
                    run_id,
                    prepared_event_id,
                )->0,
            )->0,
            reads,
        ),
        PlannerEvidenceInput::Fresh { reads } => is_fresh(
            store.contract,
            built,
            purpose,
            crate::planner_v2_sources::evidence_pairs(
                store,
                session_id,
                run_id,
                reads.plan,
                reads.children@,
            )->Ok_0,
            latest_preparation_before(store.log@, session_id, run_id, MAX_SEQUENCE),
            reads,
        ),
    }
}

/// The evidence of a turn: what the turn that it retries retained, or what is new.
pub fn build_planner_evidence(
    store: &Store,
    session_id: SessionId,
    run_id: RunId,
    purpose: PlannerTurnPurposeV1,
    input: PlannerEvidenceInput,
) -> (r: Result<BuiltPlannerEvidence, StoreError>)
    ensures
        match (r, evidence_verdict(*store, session_id, run_id, purpose, input)) {
            (Ok(built), Ok(())) => is_evidence_of_turn(
                *store,
                session_id,
                run_id,
                purpose,
                input,
                built,
            ),
            (Err(error), Err(expected)) => error == expected,
            _ => false,
        },
{
    proof {
        reveal(evidence_verdict);
        reveal(is_evidence_of_turn);
    }
    match input {
        PlannerEvidenceInput::Retry { prepared_event_id, reads } => retained_turn_evidence(
            store,
            session_id,
            run_id,
            purpose,
            prepared_event_id,
            reads,
        ),
        PlannerEvidenceInput::Fresh { reads } => fresh_turn_evidence(
            store,
            session_id,
            run_id,
            purpose,
            reads,
        ),
    }
}

/// What a new turn is told is new: every binding that it calls new names no entry of the turn before,
/// and every entry that the turn before did not have is among them.
pub proof fn law_delta_is_what_is_new(
    current: Seq<PlannerEvidenceBindingV2>,
    previous: Seq<PlannerEvidenceBindingV2>,
    binding: PlannerEvidenceBindingV2,
)
    ensures
        new_bindings(current, previous).contains(binding) <==> current.contains(binding)
            && !names_entry(previous, binding.evidence_id),
{
    let is_new = |binding: PlannerEvidenceBindingV2| !names_entry(previous, binding.evidence_id);
    if current.contains(binding) && is_new(binding) {
        let i = choose|i: int| 0 <= i < current.len() && current[i] == binding;
        current.lemma_filter_contains(is_new, i);
    }
    if new_bindings(current, previous).contains(binding) {
        let found = new_bindings(current, previous);
        let i = choose|i: int| 0 <= i < found.len() && found[i] == binding;
        current.lemma_filter_pred(is_new, i);
        current.lemma_filter_contains_rev(is_new, binding);
    }
}

proof fn lemma_entry_position(
    entries: Seq<PlannerReplannerV2EvidenceEntry>,
    evidence_id: PlannerEvidenceEntryId,
    from: int,
)
    requires
        0 <= from,
    ensures
        entry_position(entries, evidence_id, from) matches Some(position) ==> from <= position
            < entries.len() && entries[position].evidence_id == evidence_id,
    decreases entries.len() - from,
{
    if from < entries.len() && entries[from].evidence_id != evidence_id {
        lemma_entry_position(entries, evidence_id, from + 1);
    }
}

/// A piece of evidence has one identity: the durable entry for an entry of the prompt's packet bears
/// the identity of that entry.
pub proof fn law_durable_entries_keep_identities(
    entries: Seq<PlannerReplannerV2EvidenceEntry>,
    pairs: Seq<PlannerEvidencePair>,
    packet: Seq<PlannerReplannerV2EvidenceEntry>,
    i: int,
)
    requires
        entries_tell_pairs_apart(entries, pairs),
        has_durable_entries(entries, pairs, packet),
        0 <= i < packet.len(),
    ensures
        durable_entries(entries, pairs, packet)[i].evidence_id == packet[i].evidence_id,
{
    assert(durable_entry(entries, pairs, packet[i]) is Some);
    lemma_entry_position(entries, packet[i].evidence_id, 0);
}

} // verus!
