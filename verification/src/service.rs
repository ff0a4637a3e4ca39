//! The coordinator: which job is current, the accumulator for that job, and
//! the decisions taken when a fragment arrives, when the engine announces a
//! job and when a payload is requested.
//!
//! Every operation is one step of a state machine on [`ServiceView`]. The
//! caller owns the lock around the state, the connection to the engine and the
//! broadcaster, and does what the returned action says.

use vstd::prelude::*;
use crate::builder::{envelope_result_view, BuilderView, FlashblockBuilder};
use crate::envelope::{EnvelopeView, OpExecutionPayloadEnvelope, PayloadVersion};
use crate::error::FlashblocksError;
use crate::primitives::{FlashblocksPayloadV1, FragmentView, PayloadId};

verus! {

/// A message on the coordinator's intake.
#[derive(Debug)]
pub enum FlashblocksEngineMessage {
    /// The next fragment from the upstream feed.
    FlashblocksPayloadV1(FlashblocksPayloadV1),
}

impl FlashblocksEngineMessage {
    /// The fragment that the message carries.
    pub open spec fn fragment(self) -> FragmentView {
        match self {
            FlashblocksEngineMessage::FlashblocksPayloadV1(payload) => payload@,
        }
    }
}

/// What the intake does with a fragment once the coordinator has seen it.
#[derive(Clone, Copy, Debug, PartialEq, Eq, Structural)]
pub enum IntakeAction {
    /// The fragment was folded in: hand it to the broadcaster.
    Broadcast,
    /// The fragment belongs to a job that is not current: report it and go on.
    ReportMismatch,
    /// The fragment was refused for the reason given: report it and go on.
    ReportRejected(FlashblocksError),
}

/// Where the answer to a payload request comes from.
#[derive(Clone, Debug, PartialEq, Eq)]
pub enum PayloadSource {
    /// Answer with this envelope, assembled from the fragments received. The
    /// engine is not contacted.
    Assembled(OpExecutionPayloadEnvelope),
    /// Nothing could be assembled, for the reason given: forward the request to
    /// the engine and return its answer.
    Engine(FlashblocksError),
}

/// The view of a [`PayloadSource`].
pub enum PayloadSourceView {
    Assembled(EnvelopeView),
    Engine(FlashblocksError),
}

impl View for PayloadSource {
    type V = PayloadSourceView;

    open spec fn view(&self) -> PayloadSourceView {
        match self {
            PayloadSource::Assembled(envelope) => PayloadSourceView::Assembled(envelope@),
            PayloadSource::Engine(reason) => PayloadSourceView::Engine(*reason),
        }
    }
}

/// The coordinator's state: the job most recently announced and the
/// accumulator for it.
pub struct ServiceView {
    pub current_payload_id: PayloadId,
    pub best_payload: BuilderView,
}

impl ServiceView {
    /// The state before any job was announced: the all-zero job identifier and
    /// an empty accumulator.
    pub open spec fn initial() -> ServiceView {
        ServiceView { current_payload_id: PayloadId(0), best_payload: BuilderView::empty() }
    }

    /// The action taken on `fragment`: a fragment of another job is reported
    /// as a mismatch, one that the accumulator refuses is reported with its
    /// error, and one that it accepts is broadcast.
    pub open spec fn intake_action(self, fragment: FragmentView) -> IntakeAction {
        if fragment.payload_id != self.current_payload_id {
            IntakeAction::ReportMismatch
        } else {
            match self.best_payload.extend_result(fragment) {
                Ok(_) => IntakeAction::Broadcast,
                Err(error) => IntakeAction::ReportRejected(error),
            }
        }
    }

    /// The state after `fragment` arrived: untouched by a fragment of another
    /// job and by one that the accumulator refuses; else the accumulator is
    /// extended by the fragment.
    pub open spec fn on_event(self, fragment: FragmentView) -> ServiceView {
        if fragment.payload_id != self.current_payload_id {
            self
        } else {
            ServiceView {
                current_payload_id: self.current_payload_id,
                best_payload: self.best_payload.extend(fragment),
            }
        }
    }

    /// The state after the job `payload_id` was announced. A job other than the
    /// current one becomes current with an empty accumulator: what was
    /// accumulated for the previous job and not fetched is lost. Announcing the
    /// current job again changes nothing.
    pub open spec fn set_current_payload_id(self, payload_id: PayloadId) -> ServiceView {
        if payload_id == self.current_payload_id {
            self
        } else {
            ServiceView { current_payload_id: payload_id, best_payload: BuilderView::empty() }
        }
    }

    /// The state after the engine answered a fork-choice update successfully:
    /// a job that the answer names is announced, and an answer that names none
    /// changes nothing.
    pub open spec fn on_fork_choice_updated(self, payload_id: Option<PayloadId>) -> ServiceView {
        match payload_id {
            Some(payload_id) => self.set_current_payload_id(payload_id),
            None => self,
        }
    }

    /// The state after the best payload was fetched: the job stays current and
    /// the accumulator is empty, whether or not an envelope came out.
    pub open spec fn after_fetch(self) -> ServiceView {
        ServiceView {
            current_payload_id: self.current_payload_id,
            best_payload: BuilderView::empty(),
        }
    }

    /// What fetching the best payload returns: the envelope of what was
    /// accumulated, or the error of materializing it. It is never `Ok(None)`.
    pub open spec fn get_best_payload(self, version: PayloadVersion) -> Result<
        Option<EnvelopeView>,
        FlashblocksError,
    > {
        match self.best_payload.envelope(version) {
            Ok(envelope) => Ok(Some(envelope)),
            Err(error) => Err(error),
        }
    }

    /// Where the answer to a payload request comes from: the envelope if one
    /// can be assembled, else the engine.
    pub open spec fn get_payload(self, version: PayloadVersion) -> PayloadSourceView {
        match self.best_payload.envelope(version) {
            Ok(envelope) => PayloadSourceView::Assembled(envelope),
            Err(error) => PayloadSourceView::Engine(error),
        }
    }
}

/// A result of [`FlashblocksService::get_best_payload`] with the envelope
/// replaced by its view.
pub open spec fn best_payload_view(
    result: Result<Option<OpExecutionPayloadEnvelope>, FlashblocksError>,
) -> Result<Option<EnvelopeView>, FlashblocksError> {
    match result {
        Ok(Some(envelope)) => Ok(Some(envelope@)),
        Ok(None) => Ok(None),
        Err(error) => Err(error),
    }
}

/// The coordinator for one stream of fragments.
#[derive(Debug)]
pub struct FlashblocksService {
    // The job that fragments must belong to.
    current_payload_id: PayloadId,
    // What has been accumulated for that job since the last fetch.
    best_payload: FlashblockBuilder,
}

impl View for FlashblocksService {
    type V = ServiceView;

    closed spec fn view(&self) -> ServiceView {
        ServiceView {
            current_payload_id: self.current_payload_id,
            best_payload: self.best_payload@,
        }
    }
}

impl FlashblocksService {
    /// The coordinator before any job was announced.
    pub fn new() -> (service: Self)
        ensures
            service@ == ServiceView::initial(),
    {
        FlashblocksService {
            current_payload_id: PayloadId::default(),
            best_payload: FlashblockBuilder::new(),
        }
    }

    /// The job that is current.
    pub fn current_payload_id(&self) -> (payload_id: PayloadId)
        ensures
            payload_id == self@.current_payload_id,
    {
        self.current_payload_id
    }

    /// Takes what has been accumulated, leaves an empty accumulator in its
    /// place and materializes what was taken.
    fn take_envelope(&mut self, version: PayloadVersion) -> (result: Result<
        OpExecutionPayloadEnvelope,
        FlashblocksError,
    >)
        ensures
            envelope_result_view(result) == old(self)@.best_payload.envelope(version),
            final(self)@ == old(self)@.after_fetch(),
    {
        let mut taken = FlashblockBuilder::new();
        std::mem::swap(&mut taken, &mut self.best_payload);
        taken.into_envelope(version)
    }

    /// Takes what has been accumulated, leaves an empty accumulator in its
    /// place and materializes what was taken in the given version.
    ///
    /// The accumulator is empty afterwards even when materializing fails, so
    /// that a second fetch without a fragment in between finds nothing and
    /// fails with `MissingPayload`.
    pub fn get_best_payload(&mut self, version: PayloadVersion) -> (result: Result<
        Option<OpExecutionPayloadEnvelope>,
        FlashblocksError,
    >)
        ensures
            best_payload_view(result) == old(self)@.get_best_payload(version),
            final(self)@ == old(self)@.after_fetch(),
    {
        match self.take_envelope(version) {
            Ok(envelope) => Ok(Some(envelope)),
            Err(error) => Err(error),
        }
    }

    /// Announces the job `payload_id`; see
    /// [`ServiceView::set_current_payload_id`].
    pub fn set_current_payload_id(&mut self, payload_id: PayloadId)
        ensures
            final(self)@ == old(self)@.set_current_payload_id(payload_id),
    {
        if payload_id != self.current_payload_id {
            self.current_payload_id = payload_id;
            self.best_payload = FlashblockBuilder::new();
        }
    }

    /// Handles one message of the intake.
    ///
    /// A fragment of a job that is not current is dropped and the state is
    /// left exactly as it was. A fragment of the current job goes to the
    /// accumulator; one that it refuses leaves the state exactly as it was
    /// too. Only a fragment that was folded in changes the state and is to be
    /// broadcast.
    pub fn on_event(&mut self, event: FlashblocksEngineMessage) -> (action: IntakeAction)
        ensures
            action == old(self)@.intake_action(event.fragment()),
            final(self)@ == old(self)@.on_event(event.fragment()),
            action != IntakeAction::Broadcast ==> final(self)@ == old(self)@,
    {
        match event {
            FlashblocksEngineMessage::FlashblocksPayloadV1(payload) => {
                if self.current_payload_id != payload.payload_id {
                    return IntakeAction::ReportMismatch;
                }
                match self.best_payload.extend(payload) {
                    Ok(_) => IntakeAction::Broadcast,
                    Err(error) => IntakeAction::ReportRejected(error),
                }
            },
        }
    }

    /// Takes note of the engine's successful answer to a fork-choice update,
    /// of which `payload_id` is the job that it names, if any.
    pub fn on_fork_choice_updated(&mut self, payload_id: Option<PayloadId>)
        ensures
            final(self)@ == old(self)@.on_fork_choice_updated(payload_id),
    {
        if let Some(payload_id) = payload_id {
            self.set_current_payload_id(payload_id);
        }
    }

    /// Decides where the answer to a request for the payload of job
    /// `payload_id` comes from.
    ///
    /// The best payload is fetched first, whichever job is asked for. If an
    /// envelope comes out it is the answer; if not, the request goes to the
    /// engine. Either way the accumulator is empty afterwards.
    pub fn get_payload(&mut self, payload_id: PayloadId, version: PayloadVersion) -> (source:
        PayloadSource)
        ensures
            source@ == old(self)@.get_payload(version),
            final(self)@ == old(self)@.after_fetch(),
    {
        match self.take_envelope(version) {
            Ok(envelope) => PayloadSource::Assembled(envelope),
            Err(error) => PayloadSource::Engine(error),
        }
    }
}

} // verus!
