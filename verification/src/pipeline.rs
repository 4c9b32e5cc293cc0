//! The passive side's capture-to-encoder pipeline: which workers a session
//! is run by, what each does next, and when it stops.
//!
//! Capture and encoding are blocking native work. Under the blocking
//! policy one worker owns encoder and duplicator, and the capture source
//! itself waits on a full queue. Under the drop-newest policy a capture
//! worker polls the source and offers each frame to the queue without
//! waiting, while a second worker encodes.

use crate::channels::{frame_channel, sender_is_closed, try_send_frame, SendStatus};
use crate::encoder_config::FFMPEGEncoderType;
use crate::error::CoreError;
use crate::negotiation::EndPointNegotiateFinishedRequest;
use vstd::prelude::*;

verus! {

/// How many captured frames the queue between capture and encoding holds.
pub const CAPTURE_QUEUE_CAPACITY: usize = 180;

/// What happens to a captured frame when the queue is full.
#[derive(Clone, Copy, Debug, PartialEq, Eq, Structural)]
pub enum OverflowPolicy {
    /// The capture source waits until the encoder has taken a frame.
    Block,
    /// The frame is dropped and capture goes on.
    DropNewest,
}

/// The primary monitor, as the platform reports it.
#[derive(Clone, Copy, Debug, PartialEq, Eq, Structural)]
pub struct MonitorParams {
    pub monitor_id: u32,
    pub height: u16,
    pub width: u16,
}

/// A capture session that was asked for.
#[derive(Clone, Copy, Debug, PartialEq, Eq, Structural)]
pub struct CaptureSession {
    pub active_device_id: i64,
    pub passive_device_id: i64,
    pub policy: OverflowPolicy,
    pub queue_capacity: usize,
}

/// The part a worker plays in a session.
#[derive(Clone, Copy, Debug, PartialEq, Eq, Structural)]
pub enum WorkerKind {
    /// Blocking policy: queries the monitor, owns encoder and duplicator,
    /// encodes what the capture source queues.
    PushSession,
    /// Drop-newest policy: owns the duplicator, polls it and offers each
    /// frame to the queue.
    PullCapture,
    /// Drop-newest policy: owns the encoder, encodes what is queued.
    PullEncode,
}

/// The ends of the capture queue a worker holds.
#[derive(Clone, Copy, Debug, PartialEq, Eq, Structural)]
pub struct QueueEnds {
    pub sender: bool,
    pub receiver: bool,
}

impl WorkerKind {
    /// The ends of the capture queue a worker of this kind holds. The
    /// capture side holds no receiver and the encode side no sender, so
    /// that each sees the queue disconnect when the other leaves; the push
    /// session holds the receiver and hands its sender to the duplicator.
    pub open spec fn held_ends(self) -> QueueEnds {
        QueueEnds {
            sender: self != WorkerKind::PullEncode,
            receiver: self != WorkerKind::PullCapture,
        }
    }

    /// Tells which ends of the capture queue a worker of this kind holds.
    pub fn queue_ends(self) -> (ends: QueueEnds)
        ensures
            ends == self.held_ends(),
    {
        match self {
            WorkerKind::PushSession => QueueEnds { sender: true, receiver: true },
            WorkerKind::PullCapture => QueueEnds { sender: true, receiver: false },
            WorkerKind::PullEncode => QueueEnds { sender: false, receiver: true },
        }
    }
}

/// Where a worker stands.
#[derive(Clone, Copy, Debug, PartialEq, Eq, Structural)]
pub enum WorkerStage {
    Created,
    AwaitMonitor,
    AwaitEncoder,
    AwaitDuplicator,
    AwaitStart,
    AwaitFrame,
    AwaitEncode,
    AwaitCapture,
    AwaitOffer,
    Exited,
}

/// What the outside reports to a worker.
#[derive(Clone, Copy, Debug, PartialEq, Eq, Structural)]
pub enum WorkerEvent {
    /// The worker's thread runs.
    Started,
    /// The platform named the primary monitor, or could not.
    MonitorKnown(Option<MonitorParams>),
    /// The encoder was built (true), or could not be.
    EncoderBuilt(bool),
    /// The duplicator was built (true), or could not be.
    DuplicatorBuilt(bool),
    /// The duplicator was started (true), or could not be.
    DuplicatorStarted(bool),
    /// A frame came out of the queue and the outbound channel is open.
    FrameReady,
    /// A frame came out of the queue but the outbound channel is closed.
    OutboundClosed,
    /// The queue is disconnected: no frame will come.
    QueueDisconnected,
    /// The frame was encoded and written out (true), or encoding failed.
    FrameEncoded(bool),
    /// The duplicator captured a frame (true), or failed.
    Captured(bool),
    /// The captured frame was offered to the queue, with this outcome.
    Offered(SendStatus),
}

/// What a worker asks the outside to do next.
#[derive(Clone, Copy, Debug, PartialEq, Eq, Structural)]
pub enum WorkerAction {
    QueryMonitor,
    /// Build an encoder of this size; `variant` is `None` where the
    /// platform's default encoder is meant.
    CreateEncoder { variant: Option<FFMPEGEncoderType>, width: i32, height: i32 },
    CreateDuplicator { monitor_id: u32 },
    StartDuplicator,
    /// Wait for the next frame of the queue.
    ReceiveFrame,
    /// Encode the frame at hand and write it to the outbound channel.
    EncodeFrame,
    /// Capture one frame.
    CaptureFrame,
    /// Offer the captured frame to the queue without waiting.
    OfferFrame,
    /// Stop the duplicator, then return.
    StopDuplicator,
    /// Return.
    Exit,
    /// The event answers nothing the worker asked for; nothing changed.
    Ignored,
}

/// One worker of a capture session.
#[derive(Clone, Copy, Debug, PartialEq, Eq, Structural)]
pub struct Worker {
    pub kind: WorkerKind,
    pub stage: WorkerStage,
    /// The monitor the session captures, once it is known.
    pub monitor: Option<MonitorParams>,
    /// Why the worker left, once it has.
    pub failure: Option<CoreError>,
}

impl Worker {
    /// A worker knows its monitor from the moment it needs it: the pull
    /// workers from the start, the push worker once the platform answered.
    pub open spec fn wf(&self) -> bool {
        match (self.kind, self.stage) {
            (WorkerKind::PushSession, WorkerStage::Created) => true,
            (WorkerKind::PushSession, WorkerStage::AwaitMonitor) => true,
            (_, WorkerStage::Exited) => true,
            _ => self.monitor is Some,
        }
    }

    /// True while the worker owns a duplicator it has built, started or
    /// not.
    pub open spec fn duplicator_built(&self) -> bool {
        match (self.kind, self.stage) {
            (WorkerKind::PushSession, WorkerStage::AwaitStart) => true,
            (WorkerKind::PushSession, WorkerStage::AwaitFrame) => true,
            (WorkerKind::PushSession, WorkerStage::AwaitEncode) => true,
            (WorkerKind::PullCapture, WorkerStage::AwaitCapture) => true,
            (WorkerKind::PullCapture, WorkerStage::AwaitOffer) => true,
            _ => false,
        }
    }

    /// The worker at `stage`, asking for `action`.
    pub open spec fn at(self, stage: WorkerStage, action: WorkerAction) -> (Worker, WorkerAction) {
        (Worker { kind: self.kind, stage, monitor: self.monitor, failure: self.failure }, action)
    }

    /// The worker as it leaves because of `why`: a duplicator it has built
    /// is stopped first.
    pub open spec fn leave(self, why: CoreError) -> (Worker, WorkerAction) {
        (
            Worker {
                kind: self.kind,
                stage: WorkerStage::Exited,
                monitor: self.monitor,
                failure: Some(why),
            },
            if self.duplicator_built() {
                WorkerAction::StopDuplicator
            } else {
                WorkerAction::Exit
            },
        )
    }

    /// The encoder this worker builds for its monitor.
    pub open spec fn encoder_request(self) -> WorkerAction {
        WorkerAction::CreateEncoder {
            variant: if self.kind == WorkerKind::PullEncode {
                Some(FFMPEGEncoderType::Libx264)
            } else {
                None
            },
            width: self.monitor->Some_0.width as i32,
            height: self.monitor->Some_0.height as i32,
        }
    }

    /// The worker's answer to `event`: its next state, and what it asks
    /// for.
    pub open spec fn step(self, event: WorkerEvent) -> (Worker, WorkerAction) {
        match (self.kind, self.stage, event) {
            (WorkerKind::PushSession, WorkerStage::Created, WorkerEvent::Started) => self.at(
                WorkerStage::AwaitMonitor,
                WorkerAction::QueryMonitor,
            ),
            (WorkerKind::PullEncode, WorkerStage::Created, WorkerEvent::Started) => self.at(
                WorkerStage::AwaitEncoder,
                self.encoder_request(),
            ),
            (WorkerKind::PullCapture, WorkerStage::Created, WorkerEvent::Started) => self.at(
                WorkerStage::AwaitDuplicator,
                WorkerAction::CreateDuplicator { monitor_id: self.monitor->Some_0.monitor_id },
            ),
            (
                WorkerKind::PushSession,
                WorkerStage::AwaitMonitor,
                WorkerEvent::MonitorKnown(Some(found)),
            ) => {
                let knowing = Worker {
                    kind: self.kind,
                    stage: self.stage,
                    monitor: Some(found),
                    failure: self.failure,
                };
                knowing.at(WorkerStage::AwaitEncoder, knowing.encoder_request())
            },
            (
                WorkerKind::PushSession,
                WorkerStage::AwaitMonitor,
                WorkerEvent::MonitorKnown(None),
            ) => self.leave(
                CoreError::CaptureInitFailed,
            ),
            (
                WorkerKind::PushSession,
                WorkerStage::AwaitEncoder,
                WorkerEvent::EncoderBuilt(true),
            ) => self.at(
                WorkerStage::AwaitDuplicator,
                WorkerAction::CreateDuplicator { monitor_id: self.monitor->Some_0.monitor_id },
            ),
            (
                WorkerKind::PullEncode,
                WorkerStage::AwaitEncoder,
                WorkerEvent::EncoderBuilt(true),
            ) => self.at(
                WorkerStage::AwaitFrame,
                WorkerAction::ReceiveFrame,
            ),
            (_, WorkerStage::AwaitEncoder, WorkerEvent::EncoderBuilt(false)) => self.leave(
                CoreError::EncoderInitFailed,
            ),
            (
                WorkerKind::PushSession,
                WorkerStage::AwaitDuplicator,
                WorkerEvent::DuplicatorBuilt(true),
            ) => self.at(WorkerStage::AwaitStart, WorkerAction::StartDuplicator),
            (
                WorkerKind::PullCapture,
                WorkerStage::AwaitDuplicator,
                WorkerEvent::DuplicatorBuilt(true),
            ) => self.at(WorkerStage::AwaitCapture, WorkerAction::CaptureFrame),
            (_, WorkerStage::AwaitDuplicator, WorkerEvent::DuplicatorBuilt(false)) => self.leave(
                CoreError::CaptureInitFailed,
            ),
            (_, WorkerStage::AwaitStart, WorkerEvent::DuplicatorStarted(true)) => self.at(
                WorkerStage::AwaitFrame,
                WorkerAction::ReceiveFrame,
            ),
            (_, WorkerStage::AwaitStart, WorkerEvent::DuplicatorStarted(false)) => self.leave(
                CoreError::CaptureInitFailed,
            ),
            (_, WorkerStage::AwaitFrame, WorkerEvent::FrameReady) => self.at(
                WorkerStage::AwaitEncode,
                WorkerAction::EncodeFrame,
            ),
            (_, WorkerStage::AwaitFrame, WorkerEvent::OutboundClosed) => self.leave(
                CoreError::ChannelClosed,
            ),
            (_, WorkerStage::AwaitFrame, WorkerEvent::QueueDisconnected) => self.leave(
                CoreError::CaptureFailed,
            ),
            (_, WorkerStage::AwaitEncode, WorkerEvent::FrameEncoded(true)) => self.at(
                WorkerStage::AwaitFrame,
                WorkerAction::ReceiveFrame,
            ),
            (_, WorkerStage::AwaitEncode, WorkerEvent::FrameEncoded(false)) => self.leave(
                CoreError::EncodeFailed,
            ),
            (_, WorkerStage::AwaitCapture, WorkerEvent::Captured(true)) => self.at(
                WorkerStage::AwaitOffer,
                WorkerAction::OfferFrame,
            ),
            (_, WorkerStage::AwaitCapture, WorkerEvent::Captured(false)) => self.leave(
                CoreError::CaptureFailed,
            ),
            (_, WorkerStage::AwaitOffer, WorkerEvent::Offered(SendStatus::Closed)) => self.leave(
                CoreError::ChannelClosed,
            ),
            (_, WorkerStage::AwaitOffer, WorkerEvent::Offered(_)) => self.at(
                WorkerStage::AwaitCapture,
                WorkerAction::CaptureFrame,
            ),
            _ => (self, WorkerAction::Ignored),
        }
    }

    /// Takes one event and answers with what is to be done next, as `step`
    /// says.
    pub fn advance(&mut self, event: WorkerEvent) -> (action: WorkerAction)
        requires
            old(self).wf(),
        ensures
            (*final(self), action) == old(self).step(event),
            final(self).wf(),
    {
        let kind = self.kind;
        let stage = self.stage;
        let leaving: Option<CoreError> = match (kind, stage, event) {
            (WorkerKind::PushSession, WorkerStage::Created, WorkerEvent::Started) => {
                self.stage = WorkerStage::AwaitMonitor;
                return WorkerAction::QueryMonitor;
            },
            (WorkerKind::PullEncode, WorkerStage::Created, WorkerEvent::Started) => {
                self.stage = WorkerStage::AwaitEncoder;
                return self.encoder_action();
            },
            (WorkerKind::PullCapture, WorkerStage::Created, WorkerEvent::Started) => {
                self.stage = WorkerStage::AwaitDuplicator;
                return WorkerAction::CreateDuplicator {
                    monitor_id: self.monitor.unwrap().monitor_id,
                };
            },
            (
                WorkerKind::PushSession,
                WorkerStage::AwaitMonitor,
                WorkerEvent::MonitorKnown(Some(found)),
            ) => {
                self.monitor = Some(found);
                self.stage = WorkerStage::AwaitEncoder;
                return self.encoder_action();
            },
            (
                WorkerKind::PushSession,
                WorkerStage::AwaitMonitor,
                WorkerEvent::MonitorKnown(None),
            ) => Some(CoreError::CaptureInitFailed),
            (
                WorkerKind::PushSession,
                WorkerStage::AwaitEncoder,
                WorkerEvent::EncoderBuilt(true),
            ) => {
                self.stage = WorkerStage::AwaitDuplicator;
                return WorkerAction::CreateDuplicator {
                    monitor_id: self.monitor.unwrap().monitor_id,
                };
            },
            (
                WorkerKind::PullEncode,
                WorkerStage::AwaitEncoder,
                WorkerEvent::EncoderBuilt(true),
            ) => {
                self.stage = WorkerStage::AwaitFrame;
                return WorkerAction::ReceiveFrame;
            },
            (
                _,
                WorkerStage::AwaitEncoder,
                WorkerEvent::EncoderBuilt(false),
            ) => Some(CoreError::EncoderInitFailed),
            (
                WorkerKind::PushSession,
                WorkerStage::AwaitDuplicator,
                WorkerEvent::DuplicatorBuilt(true),
            ) => {
                self.stage = WorkerStage::AwaitStart;
                return WorkerAction::StartDuplicator;
            },
            (
                WorkerKind::PullCapture,
                WorkerStage::AwaitDuplicator,
                WorkerEvent::DuplicatorBuilt(true),
            ) => {
                self.stage = WorkerStage::AwaitCapture;
                return WorkerAction::CaptureFrame;
            },
            (
                _,
                WorkerStage::AwaitDuplicator,
                WorkerEvent::DuplicatorBuilt(false),
            ) => Some(CoreError::CaptureInitFailed),
            (_, WorkerStage::AwaitStart, WorkerEvent::DuplicatorStarted(true)) => {
                self.stage = WorkerStage::AwaitFrame;
                return WorkerAction::ReceiveFrame;
            },
            (
                _,
                WorkerStage::AwaitStart,
                WorkerEvent::DuplicatorStarted(false),
            ) => Some(CoreError::CaptureInitFailed),
            (_, WorkerStage::AwaitFrame, WorkerEvent::FrameReady) => {
                self.stage = WorkerStage::AwaitEncode;
                return WorkerAction::EncodeFrame;
            },
            (
                _,
                WorkerStage::AwaitFrame,
                WorkerEvent::OutboundClosed,
            ) => Some(CoreError::ChannelClosed),
            (
                _,
                WorkerStage::AwaitFrame,
                WorkerEvent::QueueDisconnected,
            ) => Some(CoreError::CaptureFailed),
            (_, WorkerStage::AwaitEncode, WorkerEvent::FrameEncoded(true)) => {
                self.stage = WorkerStage::AwaitFrame;
                return WorkerAction::ReceiveFrame;
            },
            (
                _,
                WorkerStage::AwaitEncode,
                WorkerEvent::FrameEncoded(false),
            ) => Some(CoreError::EncodeFailed),
            (_, WorkerStage::AwaitCapture, WorkerEvent::Captured(true)) => {
                self.stage = WorkerStage::AwaitOffer;
                return WorkerAction::OfferFrame;
            },
            (
                _,
                WorkerStage::AwaitCapture,
                WorkerEvent::Captured(false),
            ) => Some(CoreError::CaptureFailed),
            (
                _,
                WorkerStage::AwaitOffer,
                WorkerEvent::Offered(SendStatus::Closed),
            ) => Some(CoreError::ChannelClosed),
            (_, WorkerStage::AwaitOffer, WorkerEvent::Offered(_)) => {
                self.stage = WorkerStage::AwaitCapture;
                return WorkerAction::CaptureFrame;
            },
            _ => None,
        };
        match leaving {
            None => WorkerAction::Ignored,
            Some(why) => {
                let built = self.owns_duplicator();
                self.stage = WorkerStage::Exited;
                self.failure = Some(why);
                if built {
                    WorkerAction::StopDuplicator
                } else {
                    WorkerAction::Exit
                }
            },
        }
    }

    /// Tells whether the worker knows its monitor where it needs it.
    pub fn is_well_formed(&self) -> (ok: bool)
        ensures
            ok == self.wf(),
    {
        match (self.kind, self.stage) {
            (WorkerKind::PushSession, WorkerStage::Created) => true,
            (WorkerKind::PushSession, WorkerStage::AwaitMonitor) => true,
            (_, WorkerStage::Exited) => true,
            _ => self.monitor.is_some(),
        }
    }

    /// Tells whether the worker owns a duplicator it has built.
    pub fn owns_duplicator(&self) -> (built: bool)
        ensures
            built == self.duplicator_built(),
    {
        match (self.kind, self.stage) {
            (WorkerKind::PushSession, WorkerStage::AwaitStart) => true,
            (WorkerKind::PushSession, WorkerStage::AwaitFrame) => true,
            (WorkerKind::PushSession, WorkerStage::AwaitEncode) => true,
            (WorkerKind::PullCapture, WorkerStage::AwaitCapture) => true,
            (WorkerKind::PullCapture, WorkerStage::AwaitOffer) => true,
            _ => false,
        }
    }

    fn encoder_action(&self) -> (action: WorkerAction)
        requires
            self.monitor is Some,
        ensures
            action == self.encoder_request(),
    {
        let monitor = self.monitor.unwrap();
        let variant = match self.kind {
            WorkerKind::PullEncode => Some(FFMPEGEncoderType::Libx264),
            _ => None,
        };
        WorkerAction::CreateEncoder {
            variant,
            width: monitor.width as i32,
            height: monitor.height as i32,
        }
    }
}

/// The workers a session is run by: one under the blocking policy, which
/// finds the monitor itself; under the drop-newest policy a capture and an
/// encode worker for the monitor found, and none where none was found.
pub open spec fn session_workers(policy: OverflowPolicy, monitor: Option<MonitorParams>) -> Seq<
    Worker,
> {
    match policy {
        OverflowPolicy::Block => seq![
            Worker {
                kind: WorkerKind::PushSession,
                stage: WorkerStage::Created,
                monitor: None,
                failure: None,
            },
        ],
        OverflowPolicy::DropNewest => match monitor {
            None => seq![],
            Some(found) => seq![
                Worker {
                    kind: WorkerKind::PullCapture,
                    stage: WorkerStage::Created,
                    monitor: Some(found),
                    failure: None,
                },
                Worker {
                    kind: WorkerKind::PullEncode,
                    stage: WorkerStage::Created,
                    monitor: Some(found),
                    failure: None,
                },
            ],
        },
    }
}

/// Answers a negotiate request on the passive side: a capture session for
/// the device pair, with the queue between capture and encoding at its
/// fixed capacity.
pub fn handle_negotiate_finished_request(
    active_device_id: i64,
    passive_device_id: i64,
    _request: EndPointNegotiateFinishedRequest,
    policy: OverflowPolicy,
) -> (session: CaptureSession)
    ensures
        session == (CaptureSession {
            active_device_id,
            passive_device_id,
            policy,
            queue_capacity: CAPTURE_QUEUE_CAPACITY,
        }),
{
    CaptureSession {
        active_device_id,
        passive_device_id,
        policy,
        queue_capacity: CAPTURE_QUEUE_CAPACITY,
    }
}

/// Names the workers that run `session`; `monitor` is what the platform
/// said of the primary monitor, which only the drop-newest policy asks
/// before it starts anything.
pub fn spawn_desktop_capture_and_encode_process(
    session: &CaptureSession,
    monitor: Option<MonitorParams>,
) -> (workers: Vec<Worker>)
    ensures
        workers@ == session_workers(session.policy, monitor),
        forall|i: int| 0 <= i < workers@.len() ==> (#[trigger] workers@[i]).wf(),
{
    let mut workers: Vec<Worker> = Vec::new();
    match session.policy {
        OverflowPolicy::Block => {
            workers.push(
                Worker {
                kind: WorkerKind::PushSession,
                stage: WorkerStage::Created,
                monitor: None,
                failure: None,
            },
            );
        },
        OverflowPolicy::DropNewest => {
            if let Some(found) = monitor {
                workers.push(
                    Worker {
                        kind: WorkerKind::PullCapture,
                        stage: WorkerStage::Created,
                        monitor: Some(found),
                        failure: None,
                    },
                );
                workers.push(
                    Worker {
                        kind: WorkerKind::PullEncode,
                        stage: WorkerStage::Created,
                        monitor: Some(found),
                        failure: None,
                    },
                );
            }
        },
    }
    assert(workers@ =~= session_workers(session.policy, monitor));
    workers
}

/// Makes the queue between capture and encoding, at its fixed capacity.
pub fn capture_queue<T>() -> (ends: (
    crossbeam::channel::Sender<T>,
    crossbeam::channel::Receiver<T>,
)) {
    frame_channel(CAPTURE_QUEUE_CAPACITY)
}

/// Offers a captured frame to the queue without waiting and reports how
/// that went. A full queue drops the frame.
pub fn offer_frame<T>(queue: &crossbeam::channel::Sender<T>, frame: T) -> (event: WorkerEvent)
    ensures
        event is Offered,
{
    WorkerEvent::Offered(try_send_frame(queue, frame))
}

/// What a frame in hand leads to: nothing is encoded for an outbound
/// channel that is closed.
pub open spec fn frame_outcome(closed: bool) -> WorkerEvent {
    if closed {
        WorkerEvent::OutboundClosed
    } else {
        WorkerEvent::FrameReady
    }
}

/// Decides what a frame in hand leads to, from whether the outbound
/// channel is closed.
pub fn outbound_event(closed: bool) -> (event: WorkerEvent)
    ensures
        event == frame_outcome(closed),
{
    if closed {
        WorkerEvent::OutboundClosed
    } else {
        WorkerEvent::FrameReady
    }
}

/// Reports what a receive on the queue gave: without a frame the queue is
/// disconnected; with a frame in hand, the outbound channel is looked at
/// and decides between encoding and leaving.
pub fn frame_event<M>(received: bool, outbound: &tokio::sync::mpsc::Sender<M>) -> (event:
    WorkerEvent)
    ensures
        !received ==> event == WorkerEvent::QueueDisconnected,
        received ==> exists|closed: bool| event == #[trigger] frame_outcome(closed),
{
    if !received {
        WorkerEvent::QueueDisconnected
    } else {
        let closed = sender_is_closed(outbound);
        let event = outbound_event(closed);
        assert(event == frame_outcome(closed));
        event
    }
}

/// A worker stops a duplicator it has built whenever it leaves, on every
/// exit path, a failed start among them, and leaves without a stop only
/// where it has built none. It comes to own a duplicator only by building
/// one, leaves with a reason, and once it has left asks for nothing more.
pub proof fn lemma_duplicator_stopped_on_exit(worker: Worker, event: WorkerEvent)
    ensures
        ({
            let (next, action) = worker.step(event);
            &&& next.stage is Exited && !(worker.stage is Exited) ==> action == if worker.duplicator_built(
            ) {
                WorkerAction::StopDuplicator
            } else {
                WorkerAction::Exit
            }
            &&& action is StopDuplicator ==> worker.duplicator_built() && next.stage is Exited
            &&& action is Exit ==> !worker.duplicator_built() && next.stage is Exited
            &&& next.stage is Exited && !(worker.stage is Exited) ==> next.failure is Some
            &&& worker.stage is Exited ==> next == worker && action is Ignored
            &&& next.duplicator_built() && !worker.duplicator_built() ==> worker.stage
                is AwaitDuplicator && event == WorkerEvent::DuplicatorBuilt(true)
            &&& worker.duplicator_built() ==> next.duplicator_built() || action
                is StopDuplicator
        }),
{
}

/// Under the drop-newest policy a full queue never stops capture: after an
/// offer the worker captures again unless the queue is disconnected, and
/// only then does it leave, stopping its duplicator.
pub proof fn lemma_full_queue_keeps_capturing(worker: Worker, status: SendStatus)
    requires
        worker.kind == WorkerKind::PullCapture,
        worker.stage == WorkerStage::AwaitOffer,
    ensures
        status != SendStatus::Closed ==> worker.step(WorkerEvent::Offered(status)) == worker.at(
            WorkerStage::AwaitCapture,
            WorkerAction::CaptureFrame,
        ),
        status == SendStatus::Closed ==> worker.step(WorkerEvent::Offered(status)) == (
            Worker {
                kind: worker.kind,
                stage: WorkerStage::Exited,
                monitor: worker.monitor,
                failure: Some(CoreError::ChannelClosed),
            },
            WorkerAction::StopDuplicator,
        ),
{
}

/// How many encoders and duplicators a worker asks for while it takes
/// `events` in order.
pub open spec fn builds_during(worker: Worker, events: Seq<WorkerEvent>) -> (nat, nat)
    decreases events.len(),
{
    if events.len() == 0 {
        (0, 0)
    } else {
        let (next, action) = worker.step(events[0]);
        let rest = builds_during(next, events.subrange(1, events.len() as int));
        (
            rest.0 + if action is CreateEncoder {
                1nat
            } else {
                0nat
            },
            rest.1 + if action is CreateDuplicator {
                1nat
            } else {
                0nat
            },
        )
    }
}

/// How far a worker has come: stages only ever move forward, but for the
/// loop over frames.
pub open spec fn progress(stage: WorkerStage) -> nat {
    match stage {
        WorkerStage::Created => 0,
        WorkerStage::AwaitMonitor => 1,
        WorkerStage::AwaitEncoder => 2,
        WorkerStage::AwaitDuplicator => 3,
        WorkerStage::AwaitStart => 4,
        WorkerStage::AwaitFrame => 5,
        WorkerStage::AwaitEncode => 5,
        WorkerStage::AwaitCapture => 5,
        WorkerStage::AwaitOffer => 5,
        WorkerStage::Exited => 6,
    }
}

/// A session never has more than one encoder and one duplicator: a worker
/// asks for each at most once, whatever it is told, and for none after it
/// has asked for the duplicator to start or a frame to be taken.
pub proof fn lemma_one_encoder_one_duplicator(worker: Worker, events: Seq<WorkerEvent>)
    ensures
        builds_during(worker, events).0 <= 1,
        builds_during(worker, events).1 <= 1,
        progress(worker.stage) >= 2 ==> builds_during(worker, events).0 == 0,
        progress(worker.stage) >= 3 ==> builds_during(worker, events).1 == 0,
        worker.kind == WorkerKind::PullCapture ==> builds_during(worker, events).0 == 0,
        worker.kind == WorkerKind::PullEncode ==> builds_during(worker, events).1 == 0,
    decreases events.len(),
{
    if events.len() > 0 {
        let (next, action) = worker.step(events[0]);
        lemma_one_encoder_one_duplicator(next, events.subrange(1, events.len() as int));
    }
}

/// A session's encoder is sized to the primary monitor and its duplicator
/// bound to it: under the blocking policy the worker asks for both once
/// the platform has named the monitor, under the drop-newest policy the
/// two workers ask for one each as they start.
pub proof fn lemma_session_builds_for_the_primary_monitor(found: MonitorParams)
    ensures
        ({
            let push = session_workers(OverflowPolicy::Block, None)[0];
            let (asking, query) = push.step(WorkerEvent::Started);
            let (sizing, encoder) = asking.step(WorkerEvent::MonitorKnown(Some(found)));
            let (binding, duplicator) = sizing.step(WorkerEvent::EncoderBuilt(true));
            &&& query == WorkerAction::QueryMonitor
            &&& encoder == (WorkerAction::CreateEncoder {
                variant: None,
                width: found.width as i32,
                height: found.height as i32,
            })
            &&& duplicator == (WorkerAction::CreateDuplicator { monitor_id: found.monitor_id })
        }),
        ({
            let pull = session_workers(OverflowPolicy::DropNewest, Some(found));
            &&& pull.len() == 2
            &&& pull[0].step(WorkerEvent::Started).1 == (WorkerAction::CreateDuplicator {
                monitor_id: found.monitor_id,
            })
            &&& pull[1].step(WorkerEvent::Started).1 == (WorkerAction::CreateEncoder {
                variant: Some(FFMPEGEncoderType::Libx264),
                width: found.width as i32,
                height: found.height as i32,
            })
        }),
{
}

} // verus!
