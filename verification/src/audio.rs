//! Audio decode and playback: the player's decisions frame by frame, the
//! decoder's scratch buffer, and the queue that feeds the output stream.

use crate::channels::{
    message_channel, try_recv_message, try_send_message, RecvFailure, SendStatus,
};
use crate::error::{CoreError, CoreResult, DecodeFailure};
use vstd::prelude::*;
use vstd::slice::{slice_subrange, slice_to_vec};

verus! {

/// How many sample blocks the queue to the output stream holds.
pub const SAMPLE_QUEUE_CAPACITY: usize = 64;

/// How samples are laid out on the wire.
#[derive(Clone, Copy, Debug, PartialEq, Eq, Structural)]
pub enum AudioSampleFormat {
    I16,
    U16,
    F32,
}

/// The parameters a decoder and an output stream are built from.
#[derive(Clone, Copy, Debug, PartialEq, Eq, Structural)]
pub struct AudioParams {
    pub sample_rate: u32,
    pub channels: u8,
    pub frame_size: u16,
}

/// One inbound audio unit: an encoded packet, and the stream's parameters
/// (sample rate, sample format, channels, frame size) where they are new.
pub struct EndPointAudioFrame {
    pub params: Option<(u32, AudioSampleFormat, u8, u16)>,
    pub buffer: Vec<u8>,
}

impl EndPointAudioFrame {
    /// The parameters this frame announces, if any.
    pub open spec fn announced(&self) -> Option<AudioParams> {
        match self.params {
            Some((sample_rate, _, channels, frame_size)) => Some(
                AudioParams { sample_rate, channels, frame_size },
            ),
            None => None,
        }
    }

    /// The parameters this frame announces, if any.
    pub fn announced_params(&self) -> (params: Option<AudioParams>)
        ensures
            params == self.announced(),
    {
        match self.params {
            Some((sample_rate, _, channels, frame_size)) => Some(
                AudioParams { sample_rate, channels, frame_size },
            ),
            None => None,
        }
    }
}

/// What the native library reported when asked for a decoder.
#[derive(Clone, Copy, Debug, PartialEq, Eq, Structural)]
pub struct DecoderCreation {
    pub handle_is_null: bool,
    pub error_code: i32,
}

/// The scratch side of a decoder session: a buffer that the native decoder
/// writes into. It holds `frame_size * channels` samples from the moment
/// it is built to the moment it is dropped.
pub struct DecodeContext<T> {
    dec_buffer: Vec<T>,
    sample_rate: u32,
    channels: u8,
    frame_size: u16,
}

impl<T> DecodeContext<T> {
    /// The scratch buffer holds exactly `frame_size * channels` samples.
    #[verifier::type_invariant]
    spec fn scratch_sized(&self) -> bool {
        self.dec_buffer@.len() == self.frame_size * self.channels
    }
}

impl<T: Copy> DecodeContext<T> {
    pub closed spec fn spec_sample_rate(&self) -> u32 {
        self.sample_rate
    }

    pub closed spec fn spec_channels(&self) -> u8 {
        self.channels
    }

    pub closed spec fn spec_frame_size(&self) -> u16 {
        self.frame_size
    }

    /// The scratch buffer's samples.
    pub closed spec fn scratch_view(&self) -> Seq<T> {
        self.dec_buffer@
    }

    /// Builds the scratch side once the native decoder was asked for:
    /// `created` is what the native library reported, `silence` the sample
    /// the buffer is filled with.
    pub fn new(
        sample_rate: u32,
        channels: u8,
        frame_size: u16,
        created: DecoderCreation,
        silence: T,
    ) -> (built: CoreResult<Self>)
        ensures
            created.handle_is_null ==> built is Err && built->Err_0 == (CoreError::DecodeFailed {
                cause: DecodeFailure::NoHandle,
            }),
            !created.handle_is_null && created.error_code != 0 ==> built is Err && built->Err_0
                == (CoreError::DecodeFailed {
                cause: DecodeFailure::CreateCode(created.error_code),
            }),
            !created.handle_is_null && created.error_code == 0 ==> built is Ok && {
                let ctx = built->Ok_0;
                &&& ctx.scratch_view().len() == frame_size * channels
                &&& ctx.spec_sample_rate() == sample_rate
                &&& ctx.spec_channels() == channels
                &&& ctx.spec_frame_size() == frame_size
                &&& forall|i: int|
                    0 <= i < ctx.scratch_view().len() ==> ctx.scratch_view()[i] == silence
            },
    {
        if created.handle_is_null {
            return Err(CoreError::DecodeFailed { cause: DecodeFailure::NoHandle });
        }
        if created.error_code != 0 {
            return Err(
                CoreError::DecodeFailed { cause: DecodeFailure::CreateCode(created.error_code) },
            );
        }
        assert(frame_size * channels <= 0xffff * 0xff) by (nonlinear_arith)
            requires
                frame_size <= 0xffff,
                channels <= 0xff,
        ;
        let buffer_size: usize = (frame_size as usize) * (channels as usize);
        let mut dec_buffer: Vec<T> = Vec::new();
        let mut filled: usize = 0;
        while filled < buffer_size
            invariant
                filled <= buffer_size,
                dec_buffer@.len() == filled,
                forall|i: int| 0 <= i < filled ==> dec_buffer@[i] == silence,
            decreases buffer_size - filled,
        {
            dec_buffer.push(silence);
            filled = filled + 1;
        }
        Ok(DecodeContext { dec_buffer, sample_rate, channels, frame_size })
    }

    pub fn sample_rate(&self) -> (r: u32)
        ensures
            r == self.spec_sample_rate(),
    {
        self.sample_rate
    }

    pub fn channels(&self) -> (r: u8)
        ensures
            r == self.spec_channels(),
    {
        self.channels
    }

    pub fn frame_size(&self) -> (r: u16)
        ensures
            r == self.spec_frame_size(),
    {
        self.frame_size
    }

    /// What the native decoder's return value `ret` for one packet means: a
    /// negative value is a failure, anything else the number of samples
    /// per channel at the front of the scratch buffer.
    pub open spec fn decoded(&self, ret: i32) -> CoreResult<Seq<T>> {
        if ret < 0 {
            Err(CoreError::DecodeFailed { cause: DecodeFailure::Native(ret) })
        } else {
            Ok(self.scratch_view().subrange(0, ret * self.spec_channels()))
        }
    }

    /// The parameters the context was built with.
    pub open spec fn params(&self) -> AudioParams {
        AudioParams {
            sample_rate: self.spec_sample_rate(),
            channels: self.spec_channels(),
            frame_size: self.spec_frame_size(),
        }
    }

    /// The room the native decoder is given: `frame_size` samples for each
    /// channel, which is exactly what the scratch buffer holds, so that
    /// nothing it writes lands outside.
    pub fn output_room(&self) -> (per_channel: u16)
        ensures
            per_channel == self.spec_frame_size(),
            per_channel * self.spec_channels() == self.scratch_view().len(),
    {
        proof {
            use_type_invariant(self);
        }
        self.frame_size
    }

    /// How many samples the scratch buffer holds: `frame_size * channels`.
    pub fn capacity(&self) -> (n: usize)
        ensures
            n == self.spec_frame_size() * self.spec_channels(),
            n == self.scratch_view().len(),
    {
        proof {
            use_type_invariant(self);
        }
        self.dec_buffer.len()
    }

    /// Takes over what the native decoder wrote: `written` replaces the
    /// front of the scratch buffer, the rest stays, the length never
    /// changes.
    pub fn store(&mut self, written: &[T])
        requires
            written@.len() <= old(self).spec_frame_size() * old(self).spec_channels(),
        ensures
            final(self).scratch_view().len() == old(self).spec_frame_size() * old(
                self,
            ).spec_channels(),
            final(self).spec_sample_rate() == old(self).spec_sample_rate(),
            final(self).spec_channels() == old(self).spec_channels(),
            final(self).spec_frame_size() == old(self).spec_frame_size(),
            final(self).scratch_view() == written@ + old(self).scratch_view().subrange(
                written@.len() as int,
                old(self).scratch_view().len() as int,
            ),
    {
        proof {
            use_type_invariant(&*self);
        }
        let n: usize = written.len();
        let mut i: usize = 0;
        while i < n
            invariant
                i <= n,
                n == written@.len(),
                n <= self.dec_buffer@.len(),
                self.dec_buffer@.len() == self.frame_size * self.channels,
                self.dec_buffer@.len() == old(self).dec_buffer@.len(),
                self.sample_rate == old(self).sample_rate,
                self.channels == old(self).channels,
                self.frame_size == old(self).frame_size,
                forall|j: int| 0 <= j < i ==> self.dec_buffer@[j] == written@[j],
                forall|j: int|
                    i <= j < self.dec_buffer@.len() ==> self.dec_buffer@[j] == old(
                        self,
                    ).dec_buffer@[j],
            decreases n - i,
        {
            self.dec_buffer[i] = written[i];
            i = i + 1;
        }
        assert(self.dec_buffer@ =~= written@ + old(self).dec_buffer@.subrange(
            n as int,
            old(self).dec_buffer@.len() as int,
        ));
    }

    /// Reads the native decoder's return value `ret` for one packet: a
    /// negative value is a failure, anything else is the number of samples
    /// per channel, and the decoded samples are the first `ret * channels`
    /// of the scratch buffer.
    pub fn decode(&self, ret: i32) -> (decoded: CoreResult<&[T]>)
        requires
            ret <= self.spec_frame_size(),
        ensures
            ret < 0 ==> decoded is Err && decoded->Err_0 == (CoreError::DecodeFailed {
                cause: DecodeFailure::Native(ret),
            }),
            ret >= 0 ==> decoded is Ok && decoded->Ok_0@ == self.scratch_view().subrange(
                0,
                ret * self.spec_channels(),
            ),
            ret >= 0 ==> ret * self.spec_channels() <= self.scratch_view().len(),
            match decoded {
                Ok(samples) => self.decoded(ret) == Ok::<Seq<T>, CoreError>(samples@),
                Err(error) => self.decoded(ret) == Err::<Seq<T>, CoreError>(error),
            },
    {
        if ret < 0 {
            return Err(CoreError::DecodeFailed { cause: DecodeFailure::Native(ret) });
        }
        proof {
            use_type_invariant(self);
        }
        assert(0 <= ret * self.channels <= self.frame_size * self.channels <= 0xffff * 0xff)
            by (nonlinear_arith)
            requires
                0 <= ret <= self.frame_size <= 0xffff,
                0 <= self.channels <= 0xff,
        ;
        let samples: usize = (ret as usize) * (self.channels as usize);
        Ok(slice_subrange(self.dec_buffer.as_slice(), 0, samples))
    }
}

/// A decoder that produced nothing gives no samples: for a return value of
/// zero the decoded samples are empty, and every value below zero is a
/// decode failure that carries it. There is no third outcome.
pub proof fn lemma_nothing_decoded<T: Copy>(context: DecodeContext<T>, ret: i32)
    requires
        ret <= 0,
    ensures
        ret == 0 ==> context.decoded(ret) == Ok::<Seq<T>, CoreError>(Seq::empty()),
        ret < 0 ==> context.decoded(ret) == Err::<Seq<T>, CoreError>(
            CoreError::DecodeFailed { cause: DecodeFailure::Native(ret) },
        ),
{
    if ret == 0 {
        assert(context.scratch_view().subrange(0, 0) =~= Seq::<T>::empty());
    }
}

/// What the output stream is opened with.
#[derive(Clone, Copy, Debug, PartialEq, Eq, Structural)]
pub struct StreamSettings {
    pub channels: u16,
    pub sample_rate: u32,
    /// Frames per buffer; the stream multiplies by the channels itself.
    pub buffer_frames: u32,
}

/// The player's side of an audio output session: it queues sample blocks
/// for the output callback and hears of the callback's failures. Once it
/// has heard of one, or has found the queue closed, it has failed for
/// good.
#[verifier::reject_recursive_types(T)]
pub struct PlaybackContext<T> {
    audio_sample_tx: tokio::sync::mpsc::Sender<Vec<T>>,
    callback_exit_rx: tokio::sync::mpsc::Receiver<()>,
    failed: bool,
}

/// The output callback's side: the queued sample blocks.
#[verifier::reject_recursive_types(T)]
pub struct SampleSource<T> {
    audio_sample_rx: tokio::sync::mpsc::Receiver<Vec<T>>,
}

/// The error callback's side: the signal that playback has failed.
pub struct FailureSignal {
    callback_exit_tx: tokio::sync::mpsc::Sender<()>,
}

/// A playback session before its stream is opened.
#[verifier::reject_recursive_types(T)]
pub struct PlaybackParts<T> {
    pub context: PlaybackContext<T>,
    pub source: SampleSource<T>,
    pub signal: FailureSignal,
    pub settings: StreamSettings,
}

/// True when the poll of the failure signal forbids an enqueue: the signal
/// has fired, or nobody is left to fire it.
pub open spec fn failure_signalled(polled: Result<(), RecvFailure>) -> bool {
    polled != Err::<(), RecvFailure>(RecvFailure::Empty)
}

/// True when a send of a sample block counts as an enqueue: the block was
/// queued, or dropped by a full queue; only a closed queue is a failure.
pub open spec fn block_accepted(status: SendStatus) -> bool {
    status != SendStatus::Closed
}

/// What an enqueue reports, given the poll of the failure signal and the
/// outcome of the send, `None` where nothing was sent: it succeeds only
/// where the poll allowed the send and the send counts as queued.
pub open spec fn enqueue_verdict(
    polled: Result<(), RecvFailure>,
    sent: Option<SendStatus>,
) -> bool {
    !failure_signalled(polled) && sent is Some && block_accepted(sent->Some_0)
}

/// Copies `min(samples.len(), data.len())` samples to the front of `data`
/// and leaves the rest of `data` as it was. Returns how many were copied.
pub fn copy_block<T: Copy>(samples: &[T], data: &mut [T]) -> (copied: usize)
    ensures
        copied == if samples@.len() <= old(data)@.len() {
            samples@.len()
        } else {
            old(data)@.len()
        },
        final(data)@ == samples@.subrange(0, copied as int) + old(data)@.subrange(
            copied as int,
            old(data)@.len() as int,
        ),
{
    let n: usize = if samples.len() <= data.len() {
        samples.len()
    } else {
        data.len()
    };
    let mut i: usize = 0;
    while i < n
        invariant
            i <= n,
            n <= samples@.len(),
            n <= data@.len(),
            data@.len() == old(data)@.len(),
            forall|j: int| 0 <= j < i ==> data@[j] == samples@[j],
            forall|j: int| i <= j < data@.len() ==> data@[j] == old(data)@[j],
        decreases n - i,
    {
        data[i] = samples[i];
        i = i + 1;
    }
    assert(data@ =~= samples@.subrange(0, n as int) + old(data)@.subrange(
        n as int,
        old(data)@.len() as int,
    ));
    n
}

impl<T: Copy> PlaybackContext<T> {
    /// Makes the two queues of a playback session and says what the output
    /// stream is to be opened with.
    pub fn new(sample_rate: u32, channels: u8, frame_size: usize) -> (parts: PlaybackParts<T>)
        requires
            frame_size <= u32::MAX,
        ensures
            parts.settings == (StreamSettings {
                channels: channels as u16,
                sample_rate,
                buffer_frames: frame_size as u32,
            }),
            !parts.context.has_failed(),
    {
        let (audio_sample_tx, audio_sample_rx) = message_channel::<Vec<T>>(SAMPLE_QUEUE_CAPACITY);
        let (callback_exit_tx, callback_exit_rx) = message_channel::<()>(1);
        PlaybackParts {
            context: PlaybackContext { audio_sample_tx, callback_exit_rx, failed: false },
            source: SampleSource { audio_sample_rx },
            signal: FailureSignal { callback_exit_tx },
            settings: StreamSettings {
                channels: channels as u16,
                sample_rate,
                buffer_frames: frame_size as u32,
            },
        }
    }

    /// True once an enqueue on this context has been refused: the failure
    /// signal had fired or was disconnected, or the queue was closed.
    pub closed spec fn has_failed(&self) -> bool {
        self.failed
    }

    /// Tells whether an enqueue on this context has been refused.
    pub fn is_failed(&self) -> (failed: bool)
        ensures
            failed == self.has_failed(),
    {
        self.failed
    }

    /// Queues one block of samples for the output callback, unless playback
    /// has failed. A context that has failed refuses without asking
    /// anything. Otherwise the failure signal is polled: where it has fired
    /// or is disconnected nothing is sent, and where it is quiet the block
    /// is sent, and counts as queued also where a full queue dropped it.
    /// The enqueue is refused, and the context has failed from then on,
    /// where the poll forbade the send or the queue was closed.
    pub fn enqueue_samples(&mut self, buffer: &[T]) -> (accepted: bool)
        ensures
            old(self).has_failed() ==> !accepted && final(self).has_failed(),
            accepted == !final(self).has_failed(),
            !old(self).has_failed() ==> exists|
                polled: Result<(), RecvFailure>,
                sent: Option<SendStatus>,
            |
                (sent is None <==> failure_signalled(polled)) && accepted
                    == #[trigger] enqueue_verdict(polled, sent),
    {
        if self.failed {
            return false;
        }
        let polled = try_recv_message(&mut self.callback_exit_rx);
        if signal_forbids(polled) {
            assert(!enqueue_verdict(polled, None));
            self.failed = true;
            return false;
        }
        let status = try_send_message(&self.audio_sample_tx, slice_to_vec(buffer));
        let accepted = send_counts(status);
        assert(accepted == enqueue_verdict(polled, Some(status)));
        self.failed = !accepted;
        accepted
    }
}

/// Decides from the poll of the failure signal whether an enqueue must be
/// refused.
pub fn signal_forbids(polled: Result<(), RecvFailure>) -> (refused: bool)
    ensures
        refused == failure_signalled(polled),
{
    match polled {
        Ok(_) => true,
        Err(RecvFailure::Disconnected) => true,
        Err(RecvFailure::Empty) => false,
    }
}

/// Decides from the outcome of a send whether the block counts as queued.
pub fn send_counts(status: SendStatus) -> (accepted: bool)
    ensures
        accepted == block_accepted(status),
{
    match status {
        SendStatus::Closed => false,
        _ => true,
    }
}

impl<T: Copy> SampleSource<T> {
    /// The output callback: takes the next queued block, if there is one,
    /// and copies as much of it as fits to the front of `data`. The rest of
    /// `data` is left as it was. Returns how many samples were copied.
    pub fn fill(&mut self, data: &mut [T]) -> (copied: usize)
        ensures
            copied <= old(data)@.len(),
            final(data)@.len() == old(data)@.len(),
            final(data)@.subrange(copied as int, old(data)@.len() as int) == old(data)@.subrange(
                copied as int,
                old(data)@.len() as int,
            ),
            exists|block: Seq<T>|
                final(data)@ == #[trigger] output_after(block, old(data)@) && copied
                    == samples_copied(block.len(), old(data)@.len()),
    {
        let polled = try_recv_message(&mut self.audio_sample_rx);
        let ghost block = polled_block(polled);
        let copied = fill_from(polled, data);
        proof {
            assert(data@ == output_after(block, old(data)@));
        }
        copied
    }
}

impl FailureSignal {
    /// The error callback: tells the player that playback has failed.
    /// Returns false when the player is gone.
    pub fn fire(&self) -> (delivered: bool) {
        send_counts(try_send_message(&self.callback_exit_tx, ()))
    }
}

/// How many samples of a block fit an output buffer with room for `room`.
pub open spec fn samples_copied(block_len: nat, room: nat) -> nat {
    if block_len <= room {
        block_len
    } else {
        room
    }
}

/// What an output buffer that held `before` holds once `block` was copied
/// to its front: as much of `block` as fits, then the rest of `before`.
pub open spec fn output_after<T>(block: Seq<T>, before: Seq<T>) -> Seq<T> {
    let copied = samples_copied(block.len(), before.len()) as int;
    block.subrange(0, copied) + before.subrange(copied, before.len() as int)
}

/// The block a poll of the sample queue handed out; an empty one where it
/// handed out none.
pub open spec fn polled_block<T>(polled: Result<Vec<T>, RecvFailure>) -> Seq<T> {
    match polled {
        Ok(samples) => samples@,
        Err(_) => Seq::empty(),
    }
}

/// Fills an output buffer from what a poll of the sample queue gave: a
/// block is copied to the front of `data` as far as it fits, and without a
/// block `data` stays as it was. Returns how many samples were copied.
pub fn fill_from<T: Copy>(polled: Result<Vec<T>, RecvFailure>, data: &mut [T]) -> (copied: usize)
    ensures
        copied == samples_copied(polled_block(polled).len(), old(data)@.len()),
        final(data)@ == output_after(polled_block(polled), old(data)@),
        polled is Err ==> copied == 0 && final(data)@ == old(data)@,
        final(data)@.len() == old(data)@.len(),
        final(data)@.subrange(copied as int, old(data)@.len() as int) == old(data)@.subrange(
            copied as int,
            old(data)@.len() as int,
        ),
{
    match polled {
        Ok(samples) => {
            let copied = copy_block(samples.as_slice(), data);
            assert(data@.subrange(copied as int, old(data)@.len() as int) =~= old(data)@.subrange(
                copied as int,
                old(data)@.len() as int,
            ));
            copied
        },
        Err(_) => {
            assert(data@ =~= output_after(Seq::<T>::empty(), old(data)@));
            assert(data@.subrange(0, data@.len() as int) =~= data@);
            0
        },
    }
}

/// Where the player stands within the frame it is working on.
#[derive(Clone, Copy, Debug, PartialEq, Eq, Structural)]
pub enum PlayStage {
    /// Between frames.
    Idle,
    /// A decoder for these parameters was asked for.
    BuildingDecoder(AudioParams),
    /// The decoder is there; an output stream for these parameters was
    /// asked for.
    BuildingPlayback(AudioParams),
    /// The packet is with the decoder.
    Decoding,
    /// This many decoded samples are being queued.
    Enqueueing(usize),
    /// Queueing failed; a fresh output stream was asked for.
    Rebuilding(usize),
    /// This many decoded samples are being queued on the fresh stream.
    Retrying(usize),
    /// The session has failed with this error, for good.
    Failed(CoreError),
}

/// What the outside reports to the player.
#[derive(Clone, Copy, Debug, PartialEq, Eq)]
pub enum PlayEvent {
    /// A frame arrived, with or without parameters.
    Frame(Option<AudioParams>),
    /// The decoder was built, or could not be.
    DecoderBuilt(CoreResult<()>),
    /// The output stream was opened (true), or could not be.
    PlaybackBuilt(bool),
    /// The native decoder returned this value.
    Decoded(i32),
    /// The samples were queued (true), or refused.
    Enqueued(bool),
}

/// What the player asks the outside to do next.
#[derive(Clone, Copy, Debug, PartialEq, Eq)]
pub enum PlayAction {
    /// Build a decoder; the one in use stays until the frame's contexts
    /// are both built.
    BuildDecoder(AudioParams),
    /// Open an output stream to go with the decoder just built.
    BuildPlayback(AudioParams),
    /// Hand the packet to the decoder in use.
    Decode,
    /// Queue this many decoded samples on the stream in use.
    Enqueue(usize),
    /// Open a fresh output stream with the parameters in use.
    RebuildPlayback(AudioParams),
    /// Queue this many decoded samples on the fresh stream.
    RetryEnqueue(usize),
    /// The frame is done.
    Finish(CoreResult<()>),
    /// The event answers nothing the player asked for; nothing changed.
    Ignored,
}

/// The state of a session's audio, as its peers see it.
#[derive(Clone, Copy, Debug, PartialEq, Eq, Structural)]
pub enum SessionState {
    /// No decoder or output stream was built yet.
    Uninitialized,
    /// Decoder and output stream are in place.
    Active,
    /// Decoder and output stream are in place and being replaced.
    Reconfiguring,
    /// The session has failed.
    Failed,
}

/// The audio player of one session: the parameters its decoder and output
/// stream were built with, once they are, and the stage of the frame at
/// hand.
#[derive(Clone, Copy, Debug, PartialEq, Eq, Structural)]
pub struct AudioPlayer {
    /// The parameters of the contexts in use; `None` before the first
    /// frame with parameters has been built for.
    pub contexts: Option<AudioParams>,
    pub stage: PlayStage,
}

impl AudioPlayer {
    /// Past decoding, the player has contexts, and the samples at hand fit
    /// their scratch buffer.
    pub open spec fn wf(&self) -> bool {
        match self.stage {
            PlayStage::Decoding => self.contexts is Some,
            PlayStage::Enqueueing(n) | PlayStage::Rebuilding(n) | PlayStage::Retrying(n) => {
                &&& self.contexts is Some
                &&& n <= self.contexts->Some_0.frame_size * self.contexts->Some_0.channels
            },
            _ => true,
        }
    }

    /// The state of the session.
    pub open spec fn session_state(&self) -> SessionState {
        match self.stage {
            PlayStage::Failed(_) => SessionState::Failed,
            PlayStage::BuildingDecoder(_) | PlayStage::BuildingPlayback(_) => if self.contexts
                is Some {
                SessionState::Reconfiguring
            } else {
                SessionState::Uninitialized
            },
            _ => if self.contexts is Some {
                SessionState::Active
            } else {
                SessionState::Uninitialized
            },
        }
    }

    /// The player after it has failed with `error`.
    pub open spec fn failed(self, error: CoreError) -> (AudioPlayer, PlayAction) {
        (
            AudioPlayer { contexts: self.contexts, stage: PlayStage::Failed(error) },
            PlayAction::Finish(Err(error)),
        )
    }

    /// The player at `stage`, asking for `action`.
    pub open spec fn at(self, stage: PlayStage, action: PlayAction) -> (AudioPlayer, PlayAction) {
        (AudioPlayer { contexts: self.contexts, stage }, action)
    }

    /// The player's answer to `event`: its next state, and what it asks
    /// for.
    pub open spec fn step(self, event: PlayEvent) -> (AudioPlayer, PlayAction) {
        match (self.stage, event) {
            (PlayStage::Failed(error), _) => (self, PlayAction::Finish(Err(error))),
            (PlayStage::Idle, PlayEvent::Frame(Some(p))) => self.at(
                PlayStage::BuildingDecoder(p),
                PlayAction::BuildDecoder(p),
            ),
            (PlayStage::Idle, PlayEvent::Frame(None)) => if self.contexts is Some {
                self.at(PlayStage::Decoding, PlayAction::Decode)
            } else {
                self.failed(CoreError::DecodeFailed { cause: DecodeFailure::NotInitialized })
            },
            (PlayStage::BuildingDecoder(p), PlayEvent::DecoderBuilt(Ok(_))) => self.at(
                PlayStage::BuildingPlayback(p),
                PlayAction::BuildPlayback(p),
            ),
            (PlayStage::BuildingDecoder(p), PlayEvent::DecoderBuilt(Err(e))) => self.failed(e),
            (PlayStage::BuildingPlayback(p), PlayEvent::PlaybackBuilt(true)) => (
                AudioPlayer { contexts: Some(p), stage: PlayStage::Decoding },
                PlayAction::Decode,
            ),
            (PlayStage::BuildingPlayback(p), PlayEvent::PlaybackBuilt(false)) => self.failed(
                CoreError::PlaybackInitFailed,
            ),
            (PlayStage::Decoding, PlayEvent::Decoded(ret)) => if ret < 0 {
                self.failed(CoreError::DecodeFailed { cause: DecodeFailure::Native(ret) })
            } else {
                let n = (ret * self.contexts->Some_0.channels) as usize;
                self.at(PlayStage::Enqueueing(n), PlayAction::Enqueue(n))
            },
            (PlayStage::Enqueueing(n), PlayEvent::Enqueued(true)) => self.at(
                PlayStage::Idle,
                PlayAction::Finish(Ok(())),
            ),
            (PlayStage::Enqueueing(n), PlayEvent::Enqueued(false)) => self.at(
                PlayStage::Rebuilding(n),
                PlayAction::RebuildPlayback(self.contexts->Some_0),
            ),
            (PlayStage::Rebuilding(n), PlayEvent::PlaybackBuilt(true)) => self.at(
                PlayStage::Retrying(n),
                PlayAction::RetryEnqueue(n),
            ),
            (PlayStage::Rebuilding(n), PlayEvent::PlaybackBuilt(false)) => self.failed(
                CoreError::PlaybackInitFailed,
            ),
            (PlayStage::Retrying(n), PlayEvent::Enqueued(true)) => self.at(
                PlayStage::Idle,
                PlayAction::Finish(Ok(())),
            ),
            (PlayStage::Retrying(n), PlayEvent::Enqueued(false)) => self.failed(
                CoreError::PlaybackUnrecoverable,
            ),
            _ => (self, PlayAction::Ignored),
        }
    }

    /// True when `event` reports a sample count the decoder in use cannot
    /// have produced: more than `frame_size` samples per channel.
    pub open spec fn overruns(&self, event: PlayEvent) -> bool {
        match (self.stage, event) {
            (PlayStage::Decoding, PlayEvent::Decoded(ret)) => self.contexts is Some && ret
                > self.contexts->Some_0.frame_size,
            _ => false,
        }
    }

    /// A player without decoder or output stream, between frames.
    pub fn new() -> (player: Self)
        ensures
            player.contexts is None,
            player.stage == PlayStage::Idle,
            player.wf(),
    {
        AudioPlayer { contexts: None, stage: PlayStage::Idle }
    }

    /// Tells the state of the session.
    pub fn state(&self) -> (state: SessionState)
        ensures
            state == self.session_state(),
    {
        match self.stage {
            PlayStage::Failed(_) => SessionState::Failed,
            PlayStage::BuildingDecoder(_) | PlayStage::BuildingPlayback(_) => {
                if self.contexts.is_some() {
                    SessionState::Reconfiguring
                } else {
                    SessionState::Uninitialized
                }
            },
            _ => {
                if self.contexts.is_some() {
                    SessionState::Active
                } else {
                    SessionState::Uninitialized
                }
            },
        }
    }

    /// Tells whether the player has the contexts its stage needs, and the
    /// samples at hand fit their scratch buffer.
    pub fn is_well_formed(&self) -> (ok: bool)
        ensures
            ok == self.wf(),
    {
        match self.stage {
            PlayStage::Decoding => self.contexts.is_some(),
            PlayStage::Enqueueing(n) | PlayStage::Rebuilding(n) | PlayStage::Retrying(n) => {
                match self.contexts {
                    Some(p) => {
                        assert(p.frame_size * p.channels <= 0xffff * 0xff) by (nonlinear_arith)
                            requires
                                p.frame_size <= 0xffff,
                                p.channels <= 0xff,
                        ;
                        n <= (p.frame_size as usize) * (p.channels as usize)
                    },
                    None => false,
                }
            },
            _ => true,
        }
    }

    /// True when `context` is the decoder of this player: it was built
    /// with the parameters in use.
    pub open spec fn pairs_with<T: Copy>(&self, context: &DecodeContext<T>) -> bool {
        self.contexts == Some(context.params())
    }

    /// Tells whether `context` is the decoder of this player. Where it is,
    /// its scratch buffer holds `frame_size * channels` samples of the
    /// parameters in use.
    pub fn decoder_fits<T: Copy>(&self, context: &DecodeContext<T>) -> (fits: bool)
        ensures
            fits == self.pairs_with(context),
            fits ==> context.scratch_view().len() == self.contexts->Some_0.frame_size
                * self.contexts->Some_0.channels,
    {
        proof {
            use_type_invariant(context);
        }
        match self.contexts {
            Some(p) => p.sample_rate == context.sample_rate() && p.channels == context.channels()
                && p.frame_size == context.frame_size(),
            None => false,
        }
    }

    /// Tells whether `event` reports more samples than the decoder in use
    /// can have produced.
    pub fn rejects(&self, event: &PlayEvent) -> (r: bool)
        ensures
            r == self.overruns(*event),
    {
        match (self.stage, *event, self.contexts) {
            (PlayStage::Decoding, PlayEvent::Decoded(ret), Some(p)) => ret > p.frame_size as i32,
            _ => false,
        }
    }

    /// Takes one event and answers with what is to be done next, as `step`
    /// says.
    pub fn play_samples(&mut self, event: PlayEvent) -> (action: PlayAction)
        requires
            old(self).wf(),
            !old(self).overruns(event),
        ensures
            (*final(self), action) == old(self).step(event),
            final(self).wf(),
    {
        let contexts = self.contexts;
        let failure: Option<CoreError> = match (self.stage, event) {
            (PlayStage::Failed(error), _) => {
                return PlayAction::Finish(Err(error));
            },
            (PlayStage::Idle, PlayEvent::Frame(Some(p))) => {
                self.stage = PlayStage::BuildingDecoder(p);
                return PlayAction::BuildDecoder(p);
            },
            (PlayStage::Idle, PlayEvent::Frame(None)) => {
                if contexts.is_some() {
                    self.stage = PlayStage::Decoding;
                    return PlayAction::Decode;
                }
                Some(CoreError::DecodeFailed { cause: DecodeFailure::NotInitialized })
            },
            (PlayStage::BuildingDecoder(p), PlayEvent::DecoderBuilt(Ok(_))) => {
                self.stage = PlayStage::BuildingPlayback(p);
                return PlayAction::BuildPlayback(p);
            },
            (PlayStage::BuildingDecoder(_), PlayEvent::DecoderBuilt(Err(e))) => Some(e),
            (PlayStage::BuildingPlayback(p), PlayEvent::PlaybackBuilt(true)) => {
                self.contexts = Some(p);
                self.stage = PlayStage::Decoding;
                return PlayAction::Decode;
            },
            (PlayStage::BuildingPlayback(_), PlayEvent::PlaybackBuilt(false)) => Some(
                CoreError::PlaybackInitFailed,
            ),
            (PlayStage::Decoding, PlayEvent::Decoded(ret)) => {
                if ret < 0 {
                    Some(CoreError::DecodeFailed { cause: DecodeFailure::Native(ret) })
                } else {
                    let p = contexts.unwrap();
                    assert(0 <= ret * p.channels <= p.frame_size * p.channels <= 0xffff * 0xff)
                        by (nonlinear_arith)
                        requires
                            0 <= ret <= p.frame_size <= 0xffff,
                            0 <= p.channels <= 0xff,
                    ;
                    let n: usize = (ret as usize) * (p.channels as usize);
                    self.stage = PlayStage::Enqueueing(n);
                    return PlayAction::Enqueue(n);
                }
            },
            (PlayStage::Enqueueing(_), PlayEvent::Enqueued(true)) => {
                self.stage = PlayStage::Idle;
                return PlayAction::Finish(Ok(()));
            },
            (PlayStage::Enqueueing(n), PlayEvent::Enqueued(false)) => {
                self.stage = PlayStage::Rebuilding(n);
                return PlayAction::RebuildPlayback(contexts.unwrap());
            },
            (PlayStage::Rebuilding(n), PlayEvent::PlaybackBuilt(true)) => {
                self.stage = PlayStage::Retrying(n);
                return PlayAction::RetryEnqueue(n);
            },
            (PlayStage::Rebuilding(_), PlayEvent::PlaybackBuilt(false)) => Some(
                CoreError::PlaybackInitFailed,
            ),
            (PlayStage::Retrying(_), PlayEvent::Enqueued(true)) => {
                self.stage = PlayStage::Idle;
                return PlayAction::Finish(Ok(()));
            },
            (PlayStage::Retrying(_), PlayEvent::Enqueued(false)) => Some(
                CoreError::PlaybackUnrecoverable,
            ),
            _ => None,
        };
        match failure {
            Some(error) => {
                self.stage = PlayStage::Failed(error);
                PlayAction::Finish(Err(error))
            },
            None => PlayAction::Ignored,
        }
    }
}

/// How many fresh output streams the player asks for while it takes
/// `events` in order, up to the end of the frame at hand.
pub open spec fn rebuilds_within_frame(player: AudioPlayer, events: Seq<PlayEvent>) -> nat
    decreases events.len(),
{
    if events.len() == 0 {
        0
    } else {
        let (next, action) = player.step(events[0]);
        let here: nat = if action is RebuildPlayback {
            1
        } else {
            0
        };
        if action is Finish {
            here
        } else {
            here + rebuilds_within_frame(next, events.subrange(1, events.len() as int))
        }
    }
}

/// Once a fresh output stream has been asked for, no event makes the
/// player ask for another before the frame is finished.
pub proof fn lemma_no_rebuild_after_rebuild(player: AudioPlayer, events: Seq<PlayEvent>)
    requires
        player.stage is Rebuilding || player.stage is Retrying,
    ensures
        rebuilds_within_frame(player, events) == 0,
    decreases events.len(),
{
    if events.len() > 0 {
        let (next, action) = player.step(events[0]);
        if !(action is Finish) {
            lemma_no_rebuild_after_rebuild(next, events.subrange(1, events.len() as int));
        }
    }
}

/// Recovery is bounded: whatever is reported while decoded samples are
/// being queued, the player asks for at most one fresh output stream
/// before the frame is finished.
pub proof fn lemma_recovery_is_bounded(player: AudioPlayer, events: Seq<PlayEvent>)
    requires
        player.stage is Enqueueing,
    ensures
        rebuilds_within_frame(player, events) <= 1,
    decreases events.len(),
{
    if events.len() > 0 {
        let (next, action) = player.step(events[0]);
        let rest = events.subrange(1, events.len() as int);
        if next.stage is Enqueueing {
            lemma_recovery_is_bounded(next, rest);
        } else if next.stage is Rebuilding {
            lemma_no_rebuild_after_rebuild(next, rest);
        }
    }
}

/// A refused enqueue, a fresh output stream and a second refusal end the
/// session with `PlaybackUnrecoverable`: the player asks for exactly one
/// fresh stream, retries once, and then has failed for good.
pub proof fn lemma_second_failure_is_fatal(player: AudioPlayer, samples: usize)
    requires
        player.wf(),
        player.stage == PlayStage::Enqueueing(samples),
    ensures
        ({
            let (rebuilding, first) = player.step(PlayEvent::Enqueued(false));
            let (retrying, second) = rebuilding.step(PlayEvent::PlaybackBuilt(true));
            let (failed, third) = retrying.step(PlayEvent::Enqueued(false));
            &&& first == PlayAction::RebuildPlayback(player.contexts->Some_0)
            &&& second == PlayAction::RetryEnqueue(samples)
            &&& third == PlayAction::Finish(Err(CoreError::PlaybackUnrecoverable))
            &&& failed.stage == PlayStage::Failed(CoreError::PlaybackUnrecoverable)
            &&& forall|event: PlayEvent| #[trigger]
                failed.step(event) == (
                    failed,
                    PlayAction::Finish(Err(CoreError::PlaybackUnrecoverable)),
                )
        }),
{
}

/// Frames without parameters never ask for a decoder or an output stream
/// to be built: with contexts in place such a frame goes straight to the
/// decoder in use.
pub proof fn lemma_parameterless_frame_reuses_contexts(player: AudioPlayer)
    requires
        player.stage == PlayStage::Idle,
        player.contexts is Some,
    ensures
        player.step(PlayEvent::Frame(None)) == (
            AudioPlayer { contexts: player.contexts, stage: PlayStage::Decoding },
            PlayAction::Decode,
        ),
{
}

/// How many decoders and output streams the player asks to have built for
/// new parameters while it takes `events` in order, up to the end of the
/// frame at hand.
pub open spec fn builds_within_frame(player: AudioPlayer, events: Seq<PlayEvent>) -> (nat, nat)
    decreases events.len(),
{
    if events.len() == 0 {
        (0, 0)
    } else {
        let (next, action) = player.step(events[0]);
        let rest = if action is Finish {
            (0nat, 0nat)
        } else {
            builds_within_frame(next, events.subrange(1, events.len() as int))
        };
        (
            rest.0 + if action is BuildDecoder {
                1nat
            } else {
                0nat
            },
            rest.1 + if action is BuildPlayback {
                1nat
            } else {
                0nat
            },
        )
    }
}

/// One frame reconstructs the contexts at most once: the player asks for
/// at most one decoder and one output stream for new parameters, and for
/// none once the frame is past that point.
pub proof fn lemma_one_reconstruction_per_frame(player: AudioPlayer, events: Seq<PlayEvent>)
    ensures
        builds_within_frame(player, events).0 <= 1,
        builds_within_frame(player, events).1 <= 1,
        !(player.stage is Idle) ==> builds_within_frame(player, events).0 == 0,
        !(player.stage is Idle) && !(player.stage is BuildingDecoder) ==> builds_within_frame(
            player,
            events,
        ).1 == 0,
    decreases events.len(),
{
    if events.len() > 0 {
        let (next, action) = player.step(events[0]);
        let rest = events.subrange(1, events.len() as int);
        lemma_one_reconstruction_per_frame(next, rest);
    }
}

/// A frame without parameters reconstructs nothing: from its arrival to
/// its end the player asks for no decoder and no output stream for new
/// parameters, whatever is reported to it.
pub proof fn lemma_parameterless_frame_reconstructs_nothing(
    player: AudioPlayer,
    events: Seq<PlayEvent>,
)
    requires
        player.stage is Idle,
        events.len() > 0,
        events[0] == PlayEvent::Frame(None),
    ensures
        builds_within_frame(player, events) == (0nat, 0nat),
{
    if events.len() > 0 {
        let (next, action) = player.step(events[0]);
        let rest = events.subrange(1, events.len() as int);
        lemma_one_reconstruction_per_frame(next, rest);
    }
}

/// A frame with parameters on an idle player reconstructs both contexts,
/// decoder first, and only the finished pair replaces the one in use.
pub proof fn lemma_parameters_reconstruct_both(player: AudioPlayer, announced: AudioParams)
    requires
        player.stage == PlayStage::Idle,
    ensures
        ({
            let (first, decoder) = player.step(PlayEvent::Frame(Some(announced)));
            let (second, playback) = first.step(PlayEvent::DecoderBuilt(Ok(())));
            let (third, decode) = second.step(PlayEvent::PlaybackBuilt(true));
            &&& decoder == PlayAction::BuildDecoder(announced)
            &&& playback == PlayAction::BuildPlayback(announced)
            &&& decode == PlayAction::Decode
            &&& first.contexts == player.contexts
            &&& second.contexts == player.contexts
            &&& third.contexts == Some(announced)
            &&& third.wf()
        }),
{
}

/// The parameters in use change only when a reconstruction is complete:
/// the one step that changes them is the opening of the output stream that
/// goes with a freshly built decoder, and it puts that pair's parameters in
/// use. Every other step, failing or not, leaves them as they were.
pub proof fn lemma_parameters_change_only_on_reconstruction(player: AudioPlayer, event: PlayEvent)
    ensures
        player.step(event).0.contexts != player.contexts ==> player.stage is BuildingPlayback
            && event == PlayEvent::PlaybackBuilt(true) && player.step(event).0.contexts == Some(
            player.stage->BuildingPlayback_0,
        ),
{
}

/// A decoder built for the parameters a frame announced is the player's
/// decoder once the reconstruction is complete, and stays it through every
/// step that does not complete another reconstruction.
pub proof fn lemma_rebuilt_decoder_pairs<T: Copy>(
    player: AudioPlayer,
    context: DecodeContext<T>,
    event: PlayEvent,
)
    ensures
        player.stage == PlayStage::BuildingPlayback(context.params()) ==> player.step(
            PlayEvent::PlaybackBuilt(true),
        ).0.pairs_with(&context),
        player.pairs_with(&context) && !(player.stage is BuildingPlayback && event
            == PlayEvent::PlaybackBuilt(true)) ==> player.step(event).0.pairs_with(&context),
{
}

/// A player together with the decoder it decodes with.
///
/// The decoder in use is the one built for the parameters in use, and its
/// scratch buffer holds `frame_size * channels` samples of them. A decoder
/// built for a frame's new parameters waits aside until the output stream
/// that goes with it is open, and only then replaces the one in use.
pub struct DecodingPlayer<T> {
    player: AudioPlayer,
    decoder: Option<DecodeContext<T>>,
    pending: Option<DecodeContext<T>>,
}

impl<T: Copy> DecodingPlayer<T> {
    /// The player.
    pub closed spec fn player(&self) -> AudioPlayer {
        self.player
    }

    /// The decoder in use, if one was built yet.
    pub closed spec fn decoder(&self) -> Option<DecodeContext<T>> {
        self.decoder
    }

    /// The decoder that waits for its output stream, if one does.
    pub closed spec fn pending(&self) -> Option<DecodeContext<T>> {
        self.pending
    }

    /// True of a decoder built for `params` whose scratch buffer holds
    /// `frame_size * channels` samples of them.
    pub open spec fn built_for(context: DecodeContext<T>, params: AudioParams) -> bool {
        &&& context.params() == params
        &&& context.scratch_view().len() == params.frame_size * params.channels
    }

    /// The player is well formed, it has a decoder exactly when it has
    /// parameters in use, that decoder was built for them, and while an
    /// output stream is awaited for new parameters the decoder built for
    /// them waits aside.
    pub open spec fn wf(&self) -> bool {
        &&& self.player().wf()
        &&& self.decoder() is Some <==> self.player().contexts is Some
        &&& self.decoder() is Some ==> Self::built_for(
            self.decoder()->Some_0,
            self.player().contexts->Some_0,
        )
        &&& self.player().stage is BuildingPlayback ==> self.pending() is Some && Self::built_for(
            self.pending()->Some_0,
            self.player().stage->BuildingPlayback_0,
        )
    }

    /// True when `built` is what `event` has to come with: the report that
    /// a decoder was built comes with that decoder, built for the
    /// parameters asked for.
    pub open spec fn brings(&self, event: PlayEvent, built: Option<DecodeContext<T>>) -> bool {
        self.player().stage is BuildingDecoder && event is DecoderBuilt && event->DecoderBuilt_0
            is Ok ==> built is Some && built->Some_0.params() == self.player().stage->BuildingDecoder_0
    }

    /// True when `event` completes a reconstruction: the output stream for
    /// a freshly built decoder is open.
    pub open spec fn completes(&self, event: PlayEvent) -> bool {
        self.player().stage is BuildingPlayback && event == PlayEvent::PlaybackBuilt(true)
    }

    /// A player without decoder, between frames.
    pub fn new() -> (paired: Self)
        ensures
            paired.wf(),
            paired.player() == (AudioPlayer { contexts: None, stage: PlayStage::Idle }),
            paired.decoder() is None,
    {
        DecodingPlayer { player: AudioPlayer::new(), decoder: None, pending: None }
    }

    /// The player as it stands.
    pub fn state(&self) -> (player: AudioPlayer)
        ensures
            player == self.player(),
    {
        self.player
    }

    /// Tells whether player and decoders stand together as `wf` says.
    pub fn is_well_formed(&self) -> (ok: bool)
        ensures
            ok == self.wf(),
    {
        if !self.player.is_well_formed() {
            return false;
        }
        let paired = match (&self.decoder, self.player.contexts) {
            (Some(context), Some(_)) => {
                proof {
                    use_type_invariant(context);
                }
                self.player.decoder_fits(context)
            },
            (None, None) => true,
            _ => false,
        };
        let waiting = match (self.player.stage, &self.pending) {
            (PlayStage::BuildingPlayback(p), Some(context)) => {
                proof {
                    use_type_invariant(context);
                }
                p.sample_rate == context.sample_rate() && p.channels == context.channels()
                    && p.frame_size == context.frame_size()
            },
            (PlayStage::BuildingPlayback(_), None) => false,
            _ => true,
        };
        paired && waiting
    }

    /// Tells whether `built` is what `event` has to come with.
    pub fn accepts(&self, event: &PlayEvent, built: &Option<DecodeContext<T>>) -> (ok: bool)
        ensures
            ok == self.brings(*event, *built),
    {
        match (self.player.stage, *event) {
            (PlayStage::BuildingDecoder(p), PlayEvent::DecoderBuilt(Ok(_))) => match built {
                Some(context) => p.sample_rate == context.sample_rate() && p.channels
                    == context.channels() && p.frame_size == context.frame_size(),
                None => false,
            },
            _ => true,
        }
    }

    /// Takes one event and answers with what is to be done next, as the
    /// player's `step` says. A decoder that comes with the event waits
    /// aside; the decoder in use changes only when a reconstruction is
    /// complete, and then to the one that waited.
    pub fn play_samples(&mut self, event: PlayEvent, built: Option<DecodeContext<T>>) -> (action:
        PlayAction)
        requires
            old(self).wf(),
            !old(self).player().overruns(event),
            old(self).brings(event, built),
        ensures
            final(self).wf(),
            (final(self).player(), action) == old(self).player().step(event),
            final(self).decoder() == if old(self).completes(event) {
                old(self).pending()
            } else {
                old(self).decoder()
            },
    {
        let stage = self.player.stage;
        let action = self.player.play_samples(event);
        match (stage, event) {
            (PlayStage::BuildingDecoder(_), PlayEvent::DecoderBuilt(Ok(_))) => {
                if let Some(context) = &built {
                    proof {
                        use_type_invariant(context);
                    }
                }
                self.pending = built;
            },
            (PlayStage::BuildingPlayback(_), PlayEvent::PlaybackBuilt(true)) => {
                self.decoder = self.pending.take();
            },
            _ => {},
        }
        action
    }

    /// The decoder in use. Where there is one, it was built for the
    /// parameters in use and its scratch buffer holds `frame_size *
    /// channels` samples of them.
    pub fn decoder_in_use(&self) -> (found: Option<&DecodeContext<T>>)
        requires
            self.wf(),
        ensures
            found is Some <==> self.player().contexts is Some,
            found is Some ==> self.decoder() == Some(*found->Some_0) && Self::built_for(
                *found->Some_0,
                self.player().contexts->Some_0,
            ),
    {
        self.decoder.as_ref()
    }

    /// Takes over what the native decoder wrote into the scratch buffer of
    /// the decoder in use; player and parameters stay as they are.
    pub fn store(&mut self, written: &[T])
        requires
            old(self).wf(),
            old(self).decoder() is Some,
            written@.len() <= old(self).decoder()->Some_0.scratch_view().len(),
        ensures
            final(self).wf(),
            final(self).player() == old(self).player(),
            final(self).pending() == old(self).pending(),
            final(self).decoder() is Some,
            final(self).decoder()->Some_0.params() == old(self).decoder()->Some_0.params(),
            final(self).decoder()->Some_0.scratch_view() == written@ + old(
                self,
            ).decoder()->Some_0.scratch_view().subrange(
                written@.len() as int,
                old(self).decoder()->Some_0.scratch_view().len() as int,
            ),
    {
        match &mut self.decoder {
            Some(context) => {
                context.store(written);
            },
            None => {},
        }
    }
}

} // verus!
