//! The active side's handshake: find the session's outbound channel, send
//! one negotiate request, and start consuming decoded media without
//! waiting for an answer.

use crate::error::CoreError;
use vstd::prelude::*;

verus! {

/// What the active side asks a session to be started with.
#[derive(Clone, Copy, Debug, PartialEq, Eq, Structural)]
pub struct NegotiateFinishedRequest {
    pub active_device_id: i64,
    pub passive_device_id: i64,
    pub expect_frame_rate: u8,
    pub texture_id: i64,
    pub video_texture_pointer: i64,
    pub update_frame_callback_pointer: i64,
}

/// The negotiate request as it travels to the passive side.
#[derive(Clone, Copy, Debug, PartialEq, Eq, Structural)]
pub struct EndPointNegotiateFinishedRequest {
    pub expected_frame_rate: u8,
}

/// How the bounded-time send of the request ended.
#[derive(Clone, Copy, Debug, PartialEq, Eq, Structural)]
pub enum SendOutcome {
    Delivered,
    TimedOut,
    Closed,
}

/// What the outside reports to a negotiation.
#[derive(Clone, Copy, Debug, PartialEq, Eq, Structural)]
pub enum NegotiateEvent {
    /// The caller asked for the session.
    Started,
    /// The registry was asked for the pair's channel: it has one (true) or
    /// not.
    ChannelResolved(bool),
    /// The send of the request ended.
    SendFinished(SendOutcome),
}

/// What a negotiation asks the outside to do next.
#[derive(Clone, Copy, Debug, PartialEq, Eq, Structural)]
pub enum NegotiateAction {
    /// Look the pair's outbound channel up.
    ResolveChannel { active_device_id: i64, passive_device_id: i64 },
    /// Send this request on the channel, with the send timeout.
    SendRequest(EndPointNegotiateFinishedRequest),
    /// Start consuming decoded media for the pair; the call succeeds.
    ServeDecoder { active_device_id: i64, passive_device_id: i64 },
    /// Give up; the call fails with this error.
    Abort(CoreError),
    /// The event answers nothing the negotiation asked for; nothing
    /// changed.
    Ignored,
}

/// Where a negotiation stands.
#[derive(Clone, Copy, Debug, PartialEq, Eq, Structural)]
pub enum NegotiateStage {
    Created,
    Resolving,
    Sending,
    Serving,
    Aborted(CoreError),
}

/// One negotiation of the active side.
#[derive(Clone, Copy, Debug, PartialEq, Eq, Structural)]
pub struct Negotiation {
    pub request: NegotiateFinishedRequest,
    pub stage: NegotiateStage,
}

impl Negotiation {
    /// The negotiation at `stage`, asking for `action`.
    pub open spec fn at(self, stage: NegotiateStage, action: NegotiateAction) -> (
        Negotiation,
        NegotiateAction,
    ) {
        (Negotiation { request: self.request, stage }, action)
    }

    /// The negotiation's answer to `event`: its next state, and what it
    /// asks for.
    pub open spec fn step(self, event: NegotiateEvent) -> (Negotiation, NegotiateAction) {
        match (self.stage, event) {
            (NegotiateStage::Created, NegotiateEvent::Started) => self.at(
                NegotiateStage::Resolving,
                NegotiateAction::ResolveChannel {
                    active_device_id: self.request.active_device_id,
                    passive_device_id: self.request.passive_device_id,
                },
            ),
            (NegotiateStage::Resolving, NegotiateEvent::ChannelResolved(true)) => self.at(
                NegotiateStage::Sending,
                NegotiateAction::SendRequest(
                    EndPointNegotiateFinishedRequest {
                        expected_frame_rate: self.request.expect_frame_rate,
                    },
                ),
            ),
            (NegotiateStage::Resolving, NegotiateEvent::ChannelResolved(false)) => self.at(
                NegotiateStage::Aborted(CoreError::EndpointNotFound),
                NegotiateAction::Abort(CoreError::EndpointNotFound),
            ),
            (
                NegotiateStage::Sending,
                NegotiateEvent::SendFinished(SendOutcome::Delivered),
            ) => self.at(
                NegotiateStage::Serving,
                NegotiateAction::ServeDecoder {
                    active_device_id: self.request.active_device_id,
                    passive_device_id: self.request.passive_device_id,
                },
            ),
            (
                NegotiateStage::Sending,
                NegotiateEvent::SendFinished(SendOutcome::TimedOut),
            ) => self.at(
                NegotiateStage::Aborted(CoreError::ChannelSendTimeout),
                NegotiateAction::Abort(CoreError::ChannelSendTimeout),
            ),
            (NegotiateStage::Sending, NegotiateEvent::SendFinished(SendOutcome::Closed)) => self.at(
                NegotiateStage::Aborted(CoreError::ChannelClosed),
                NegotiateAction::Abort(CoreError::ChannelClosed),
            ),
            _ => (self, NegotiateAction::Ignored),
        }
    }

    /// A negotiation for `request`, before anything was done.
    pub fn new(request: NegotiateFinishedRequest) -> (negotiation: Self)
        ensures
            negotiation == (Negotiation { request, stage: NegotiateStage::Created }),
    {
        Negotiation { request, stage: NegotiateStage::Created }
    }
}

/// Takes one event of a negotiation and answers with what is to be done
/// next, as `step` says.
pub fn negotiate_finished(negotiation: &mut Negotiation, event: NegotiateEvent) -> (action:
    NegotiateAction)
    ensures
        (*final(negotiation), action) == old(negotiation).step(event),
{
    let request = negotiation.request;
    match (negotiation.stage, event) {
        (NegotiateStage::Created, NegotiateEvent::Started) => {
            negotiation.stage = NegotiateStage::Resolving;
            NegotiateAction::ResolveChannel {
                active_device_id: request.active_device_id,
                passive_device_id: request.passive_device_id,
            }
        },
        (NegotiateStage::Resolving, NegotiateEvent::ChannelResolved(true)) => {
            negotiation.stage = NegotiateStage::Sending;
            NegotiateAction::SendRequest(
                EndPointNegotiateFinishedRequest { expected_frame_rate: request.expect_frame_rate },
            )
        },
        (NegotiateStage::Resolving, NegotiateEvent::ChannelResolved(false)) => {
            negotiation.stage = NegotiateStage::Aborted(CoreError::EndpointNotFound);
            NegotiateAction::Abort(CoreError::EndpointNotFound)
        },
        (NegotiateStage::Sending, NegotiateEvent::SendFinished(SendOutcome::Delivered)) => {
            negotiation.stage = NegotiateStage::Serving;
            NegotiateAction::ServeDecoder {
                active_device_id: request.active_device_id,
                passive_device_id: request.passive_device_id,
            }
        },
        (NegotiateStage::Sending, NegotiateEvent::SendFinished(SendOutcome::TimedOut)) => {
            negotiation.stage = NegotiateStage::Aborted(CoreError::ChannelSendTimeout);
            NegotiateAction::Abort(CoreError::ChannelSendTimeout)
        },
        (NegotiateStage::Sending, NegotiateEvent::SendFinished(SendOutcome::Closed)) => {
            negotiation.stage = NegotiateStage::Aborted(CoreError::ChannelClosed);
            NegotiateAction::Abort(CoreError::ChannelClosed)
        },
        _ => NegotiateAction::Ignored,
    }
}

/// How many requests a negotiation asks to have sent while it takes
/// `events` in order.
pub open spec fn sends_during(negotiation: Negotiation, events: Seq<NegotiateEvent>) -> nat
    decreases events.len(),
{
    if events.len() == 0 {
        0
    } else {
        let (next, action) = negotiation.step(events[0]);
        let here: nat = if action is SendRequest {
            1
        } else {
            0
        };
        here + sends_during(next, events.subrange(1, events.len() as int))
    }
}

/// Once a negotiation has asked for its send, or has ended, it never asks
/// for a send again.
pub proof fn lemma_no_send_after_send(negotiation: Negotiation, events: Seq<NegotiateEvent>)
    requires
        negotiation.stage is Sending || negotiation.stage is Serving
            || negotiation.stage is Aborted,
    ensures
        sends_during(negotiation, events) == 0,
    decreases events.len(),
{
    if events.len() > 0 {
        let (next, action) = negotiation.step(events[0]);
        lemma_no_send_after_send(next, events.subrange(1, events.len() as int));
    }
}

/// A negotiation asks for at most one send, whatever it is told.
pub proof fn lemma_at_most_one_send(negotiation: Negotiation, events: Seq<NegotiateEvent>)
    ensures
        sends_during(negotiation, events) <= 1,
    decreases events.len(),
{
    if events.len() > 0 {
        let (next, action) = negotiation.step(events[0]);
        let rest = events.subrange(1, events.len() as int);
        if action is SendRequest {
            lemma_no_send_after_send(next, rest);
        } else {
            lemma_at_most_one_send(next, rest);
        }
    }
}

/// Without a registered channel for the device pair the negotiation fails
/// with `EndpointNotFound` and asks for no send, then or later.
pub proof fn lemma_unregistered_pair_sends_nothing(
    request: NegotiateFinishedRequest,
    later: Seq<NegotiateEvent>,
)
    ensures
        ({
            let fresh = Negotiation { request, stage: NegotiateStage::Created };
            let (resolving, first) = fresh.step(NegotiateEvent::Started);
            let (aborted, second) = resolving.step(NegotiateEvent::ChannelResolved(false));
            &&& first == (NegotiateAction::ResolveChannel {
                active_device_id: request.active_device_id,
                passive_device_id: request.passive_device_id,
            })
            &&& second == NegotiateAction::Abort(CoreError::EndpointNotFound)
            &&& aborted.stage == NegotiateStage::Aborted(CoreError::EndpointNotFound)
            &&& sends_during(aborted, later) == 0
        }),
{
    let fresh = Negotiation { request, stage: NegotiateStage::Created };
    let (resolving, first) = fresh.step(NegotiateEvent::Started);
    let (aborted, second) = resolving.step(NegotiateEvent::ChannelResolved(false));
    lemma_no_send_after_send(aborted, later);
}

} // verus!
