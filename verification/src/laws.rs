//! What holds of the accumulator and the coordinator on every input.
//!
//! Each law is a proof about the models [`BuilderView`] and [`ServiceView`],
//! which the executable methods are proved to follow step by step.

use vstd::prelude::*;
use crate::builder::BuilderView;
use crate::envelope::{EnvelopeView, PayloadVersion};
use crate::error::FlashblocksError;
use crate::primitives::{DeltaView, FragmentView, PayloadId, Withdrawal};
use crate::service::{IntakeAction, PayloadSourceView, ServiceView};

verus! {

/// The accumulator after folding `fragments` into `builder` one after the
/// other, whatever the verdict on each.
pub open spec fn extend_all(builder: BuilderView, fragments: Seq<FragmentView>) -> BuilderView
    decreases fragments.len(),
{
    if fragments.len() == 0 {
        builder
    } else {
        extend_all(builder, fragments.drop_last()).extend(fragments.last())
    }
}

/// The coordinator's state after `fragments` arrived one after the other.
pub open spec fn on_events(service: ServiceView, fragments: Seq<FragmentView>) -> ServiceView
    decreases fragments.len(),
{
    if fragments.len() == 0 {
        service
    } else {
        on_events(service, fragments.drop_last()).on_event(fragments.last())
    }
}

/// The stream of one job as its builder sends it: at least one fragment, the
/// indexes count up from 0 without a gap, the first fragment carries the base
/// and no later one does.
pub open spec fn is_job_stream(fragments: Seq<FragmentView>) -> bool {
    &&& fragments.len() > 0
    &&& forall|i: int| 0 <= i < fragments.len() ==> (#[trigger] fragments[i]).index == i
    &&& fragments[0].base is Some
    &&& forall|i: int| 0 < i < fragments.len() ==> (#[trigger] fragments[i]).base is None
}

/// The deltas of `fragments`, in order.
pub open spec fn deltas_of(fragments: Seq<FragmentView>) -> Seq<DeltaView> {
    fragments.map_values(|fragment: FragmentView| fragment.diff)
}

/// The transactions of `fragments` in one list: those of the first fragment,
/// then those of the second, and so on.
pub open spec fn transactions_of(fragments: Seq<FragmentView>) -> Seq<Seq<u8>> {
    fragments.map_values(|fragment: FragmentView| fragment.diff.transactions).flatten()
}

/// The withdrawals of `fragments` in one list, in the same order.
pub open spec fn withdrawals_of(fragments: Seq<FragmentView>) -> Seq<Withdrawal> {
    fragments.map_values(|fragment: FragmentView| fragment.diff.withdrawals).flatten()
}

/// Folding the first `count` fragments of a job's stream into an empty
/// accumulator leaves the base of fragment 0 and the deltas of those
/// fragments, and the next fragment is accepted.
proof fn lemma_job_stream_prefix(fragments: Seq<FragmentView>, count: int)
    requires
        is_job_stream(fragments),
        0 <= count <= fragments.len(),
    ensures
        extend_all(BuilderView::empty(), fragments.take(count)) == (BuilderView {
            base: if count == 0 {
                None
            } else {
                fragments[0].base
            },
            flashblocks: deltas_of(fragments.take(count)),
        }),
        count < fragments.len() ==> extend_all(
            BuilderView::empty(),
            fragments.take(count),
        ).extend_result(fragments[count]) is Ok,
    decreases count,
{
    let prefix = fragments.take(count);
    if count == 0 {
        assert(deltas_of(prefix) =~= Seq::empty());
    } else {
        lemma_job_stream_prefix(fragments, count - 1);
        assert(prefix.drop_last() =~= fragments.take(count - 1));
        assert(prefix.last() == fragments[count - 1]);
        assert(deltas_of(prefix) =~= deltas_of(fragments.take(count - 1)).push(
            fragments[count - 1].diff,
        ));
    }
}

/// The stream of a job is accepted fragment by fragment, and the payload that
/// comes out holds the transactions of all its fragments in order.
///
/// Folded into an empty accumulator, every fragment of the stream is accepted;
/// the accumulator then holds the base of fragment 0 and all the deltas; and
/// in either version the envelope exists and its transaction list is the
/// concatenation of the fragments' transaction lists, as its withdrawal list
/// is of their withdrawal lists.
pub proof fn lemma_job_stream_assembles(fragments: Seq<FragmentView>, version: PayloadVersion)
    requires
        is_job_stream(fragments),
    ensures
        forall|i: int|
            0 <= i < fragments.len() ==> extend_all(
                BuilderView::empty(),
                #[trigger] fragments.take(i),
            ).extend_result(fragments[i]) is Ok,
        extend_all(BuilderView::empty(), fragments) == (BuilderView {
            base: fragments[0].base,
            flashblocks: deltas_of(fragments),
        }),
        extend_all(BuilderView::empty(), fragments).envelope(version) is Ok,
        extend_all(BuilderView::empty(), fragments).envelope(
            version,
        )->Ok_0.execution_payload().transactions == transactions_of(fragments),
        extend_all(BuilderView::empty(), fragments).envelope(
            version,
        )->Ok_0.execution_payload().withdrawals == withdrawals_of(fragments),
{
    assert forall|i: int| 0 <= i < fragments.len() implies extend_all(
        BuilderView::empty(),
        #[trigger] fragments.take(i),
    ).extend_result(fragments[i]) is Ok by {
        lemma_job_stream_prefix(fragments, i);
    }
    lemma_job_stream_prefix(fragments, fragments.len() as int);
    assert(fragments.take(fragments.len() as int) =~= fragments);
    assert(deltas_of(fragments).map_values(|delta: DeltaView| delta.transactions)
        =~= fragments.map_values(|fragment: FragmentView| fragment.diff.transactions));
    assert(deltas_of(fragments).map_values(|delta: DeltaView| delta.withdrawals)
        =~= fragments.map_values(|fragment: FragmentView| fragment.diff.withdrawals));
}

/// The stream of the current job, arriving at a coordinator whose accumulator
/// is empty, is broadcast fragment by fragment, and the payload fetched
/// afterwards holds the transactions of all its fragments in order.
pub proof fn lemma_current_job_stream_assembles(
    service: ServiceView,
    fragments: Seq<FragmentView>,
    version: PayloadVersion,
)
    requires
        service.best_payload == BuilderView::empty(),
        is_job_stream(fragments),
        forall|i: int|
            0 <= i < fragments.len() ==> (#[trigger] fragments[i]).payload_id
                == service.current_payload_id,
    ensures
        forall|i: int|
            0 <= i < fragments.len() ==> on_events(
                service,
                #[trigger] fragments.take(i),
            ).intake_action(fragments[i]) == IntakeAction::Broadcast,
        on_events(service, fragments).get_best_payload(version) matches Ok(Some(envelope))
            && envelope.execution_payload().transactions == transactions_of(fragments),
{
    assert forall|i: int| 0 <= i < fragments.len() implies on_events(
        service,
        #[trigger] fragments.take(i),
    ).intake_action(fragments[i]) == IntakeAction::Broadcast by {
        lemma_on_events_of_current_job(service, fragments.take(i));
        lemma_job_stream_prefix(fragments, i);
    }
    lemma_on_events_of_current_job(service, fragments);
    lemma_job_stream_assembles(fragments, version);
}

/// Fragments of the current job change the accumulator as folding them does
/// and leave the job current.
proof fn lemma_on_events_of_current_job(service: ServiceView, fragments: Seq<FragmentView>)
    requires
        forall|i: int|
            0 <= i < fragments.len() ==> (#[trigger] fragments[i]).payload_id
                == service.current_payload_id,
    ensures
        on_events(service, fragments) == (ServiceView {
            current_payload_id: service.current_payload_id,
            best_payload: extend_all(service.best_payload, fragments),
        }),
    decreases fragments.len(),
{
    if fragments.len() > 0 {
        lemma_on_events_of_current_job(service, fragments.drop_last());
    }
}

/// A fragment 0 without a base is refused with `MissingBasePayload`, whatever
/// the accumulator holds, and leaves it as it was.
pub proof fn lemma_first_fragment_needs_base(builder: BuilderView, fragment: FragmentView)
    requires
        fragment.index == 0,
        fragment.base is None,
    ensures
        builder.extend_result(fragment) == Err::<(), _>(FlashblocksError::MissingBasePayload),
        builder.extend(fragment) == builder,
{
}

/// A fragment with an index above 0 that carries a base is refused with
/// `UnexpectedBasePayload`, whatever the accumulator holds, and leaves it as
/// it was.
pub proof fn lemma_later_fragment_refuses_base(builder: BuilderView, fragment: FragmentView)
    requires
        fragment.index != 0,
        fragment.base is Some,
    ensures
        builder.extend_result(fragment) == Err::<(), _>(FlashblocksError::UnexpectedBasePayload),
        builder.extend(fragment) == builder,
{
}

/// A fragment that is refused, for whichever reason, leaves the accumulator
/// exactly as it was: the base and every delta.
pub proof fn lemma_refused_fragment_changes_nothing(builder: BuilderView, fragment: FragmentView)
    requires
        builder.extend_result(fragment) is Err,
    ensures
        builder.extend(fragment) == builder,
{
}

/// Once a fragment has been accepted, a fragment with the same or a lower
/// index is refused with `InvalidIndex` if it passes the base rule, and the
/// accumulator stays as it was, the base too. So the same fragment delivered
/// twice is refused the second time, and a second fragment 0 does not
/// replace the base of the first.
pub proof fn lemma_duplicate_refused(
    builder: BuilderView,
    accepted: FragmentView,
    again: FragmentView,
)
    requires
        builder.extend_result(accepted) is Ok,
        again.index <= accepted.index,
        again.index == 0 <==> again.base is Some,
    ensures
        builder.extend(accepted).extend_result(again) == Err::<(), _>(
            FlashblocksError::InvalidIndex,
        ),
        builder.extend(accepted).extend(again) == builder.extend(accepted),
{
}

/// Once a fragment has been accepted, a fragment that skips one or more
/// indexes is refused with `InvalidIndex` if it carries no base, and the
/// accumulator stays as it was.
pub proof fn lemma_gap_refused(builder: BuilderView, accepted: FragmentView, later: FragmentView)
    requires
        builder.extend_result(accepted) is Ok,
        later.index > accepted.index + 1,
        later.base is None,
    ensures
        builder.extend(accepted).extend_result(later) == Err::<(), _>(
            FlashblocksError::InvalidIndex,
        ),
        builder.extend(accepted).extend(later) == builder.extend(accepted),
{
}

/// A fragment is accepted only at its own position: its delta becomes the
/// last one, at the position that its index names.
pub proof fn lemma_accepted_delta_at_its_index(builder: BuilderView, fragment: FragmentView)
    requires
        builder.extend_result(fragment) is Ok,
    ensures
        builder.extend(fragment).flashblocks.len() == fragment.index + 1,
        builder.extend(fragment).flashblocks[fragment.index as int] == fragment.diff,
{
}

/// No fragment, accepted or refused, removes or changes a delta that was
/// accepted before.
pub proof fn lemma_deltas_are_kept(builder: BuilderView, fragment: FragmentView)
    ensures
        builder.flashblocks.is_prefix_of(builder.extend(fragment).flashblocks),
{
}

/// The empty accumulator is well formed, and folding a fragment keeps an
/// accumulator well formed, whether the fragment is accepted or refused.
pub proof fn lemma_wf_is_kept(builder: BuilderView, fragment: FragmentView)
    requires
        builder.wf(),
    ensures
        BuilderView::empty().wf(),
        builder.extend(fragment).wf(),
{
}

/// A well-formed accumulator never fails with `MissingDelta`: it fails with
/// `MissingPayload` exactly when it holds no delta, and else yields an
/// envelope.
pub proof fn lemma_wf_envelope(builder: BuilderView, version: PayloadVersion)
    requires
        builder.wf(),
    ensures
        builder.flashblocks.len() == 0 <==> builder.envelope(version) == Err::<EnvelopeView, _>(
            FlashblocksError::MissingPayload,
        ),
        builder.flashblocks.len() > 0 <==> builder.envelope(version) is Ok,
{
}

/// In the payload that is materialized, the state root, the receipts root,
/// the logs bloom, the gas used and the block hash are those of the delta
/// accepted last, not of any earlier one; in version 4 so is the withdrawals
/// root beside the payload.
pub proof fn lemma_latest_delta_is_authoritative(builder: BuilderView, version: PayloadVersion)
    requires
        builder.envelope(version) is Ok,
    ensures
        ({
            let envelope = builder.envelope(version)->Ok_0;
            let payload = envelope.execution_payload();
            let last = builder.flashblocks.last();
            &&& envelope.version() == version
            &&& payload.state_root == last.state_root
            &&& payload.receipts_root == last.receipts_root
            &&& payload.logs_bloom == last.logs_bloom
            &&& payload.gas_used == last.gas_used
            &&& payload.block_hash == last.block_hash
            &&& envelope matches EnvelopeView::V4(v4) ==> v4.withdrawals_root
                == last.withdrawals_root
        }),
{
}

/// Of two fetches without a fragment in between, the first returns the
/// envelope of what was accumulated, or fails with `MissingPayload` if no base
/// was captured; the second finds an empty accumulator: it fails with
/// `MissingPayload`, a payload request goes to the engine, and the state is as
/// the first fetch left it.
pub proof fn lemma_second_fetch_finds_nothing(service: ServiceView, version: PayloadVersion)
    ensures
        service.best_payload.base is None ==> service.get_best_payload(version) == Err::<
            Option<EnvelopeView>,
            _,
        >(FlashblocksError::MissingPayload),
        service.best_payload.base is Some && service.best_payload.flashblocks.len() > 0
            ==> service.get_best_payload(version) == Ok::<_, FlashblocksError>(
            Some(service.best_payload.wrap(service.best_payload.base->Some_0, version)),
        ),
        service.after_fetch().best_payload == BuilderView::empty(),
        service.after_fetch().current_payload_id == service.current_payload_id,
        service.after_fetch().get_best_payload(version) == Err::<Option<EnvelopeView>, _>(
            FlashblocksError::MissingPayload,
        ),
        service.after_fetch().get_payload(version) == PayloadSourceView::Engine(
            FlashblocksError::MissingPayload,
        ),
        service.after_fetch().after_fetch() == service.after_fetch(),
{
}

/// A fragment of the current job that the accumulator refuses is reported
/// with its error and leaves the coordinator's state exactly as it was, so a
/// fetch after it returns what a fetch before it would have returned.
pub proof fn lemma_rejected_fragment_changes_nothing(
    service: ServiceView,
    fragment: FragmentView,
    version: PayloadVersion,
)
    requires
        fragment.payload_id == service.current_payload_id,
        service.best_payload.extend_result(fragment) is Err,
    ensures
        service.intake_action(fragment) == IntakeAction::ReportRejected(
            service.best_payload.extend_result(fragment)->Err_0,
        ),
        service.on_event(fragment) == service,
        service.on_event(fragment).get_best_payload(version) == service.get_best_payload(version),
{
}

/// A fragment of a job other than the current one is dropped: the state is
/// exactly as before, so a fetch after it returns what a fetch before it would
/// have returned.
pub proof fn lemma_foreign_fragment_dropped(
    service: ServiceView,
    fragment: FragmentView,
    version: PayloadVersion,
)
    requires
        fragment.payload_id != service.current_payload_id,
    ensures
        service.intake_action(fragment) == IntakeAction::ReportMismatch,
        service.on_event(fragment) == service,
        service.on_event(fragment).get_best_payload(version) == service.get_best_payload(version),
{
}

/// Once the engine has named a new job, a fragment of the job that was current
/// before is dropped, however well formed it is.
pub proof fn lemma_stale_fragment_dropped(
    service: ServiceView,
    new_job: PayloadId,
    fragment: FragmentView,
)
    requires
        new_job != service.current_payload_id,
        fragment.payload_id == service.current_payload_id,
    ensures
        ({
            let announced = service.on_fork_choice_updated(Some(new_job));
            &&& announced.current_payload_id == new_job
            &&& announced.intake_action(fragment) == IntakeAction::ReportMismatch
            &&& announced.on_event(fragment) == announced
        }),
{
}

/// The coordinator's accumulator is well formed from the start and stays so
/// through every operation, so that fetching the best payload never fails with
/// `MissingDelta`.
pub proof fn lemma_service_stays_well_formed(
    service: ServiceView,
    fragment: FragmentView,
    payload_id: Option<PayloadId>,
    version: PayloadVersion,
)
    requires
        service.best_payload.wf(),
    ensures
        ServiceView::initial().best_payload.wf(),
        service.on_event(fragment).best_payload.wf(),
        service.on_fork_choice_updated(payload_id).best_payload.wf(),
        service.after_fetch().best_payload.wf(),
        service.get_best_payload(version) != Err::<Option<EnvelopeView>, _>(
            FlashblocksError::MissingDelta,
        ),
        service.get_payload(version) != PayloadSourceView::Engine(FlashblocksError::MissingDelta),
{
}

/// Announcing a new job abandons what was accumulated for the one before: a
/// fetch right after it fails with `MissingPayload`.
pub proof fn lemma_new_job_starts_empty(
    service: ServiceView,
    new_job: PayloadId,
    version: PayloadVersion,
)
    requires
        new_job != service.current_payload_id,
    ensures
        service.set_current_payload_id(new_job).best_payload == BuilderView::empty(),
        service.set_current_payload_id(new_job).get_best_payload(version) == Err::<Option<EnvelopeView>, _>(
            FlashblocksError::MissingPayload,
        ),
{
}

} // verus!
