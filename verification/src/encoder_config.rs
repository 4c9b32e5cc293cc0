//! Choice and tuning of the video encoder: which native encoder a variant
//! names, which options it sets on a fresh codec context, and how the
//! codec's answer to each option is read.

use crate::error::{ConfigRejection, CoreError, CoreResult};
use vstd::prelude::*;

verus! {

/// The codec's code for an option its build does not know.
pub const AVERROR_OPTION_NOT_FOUND: i32 = -1414549496;

/// Codec identifier of H.264.
pub const AV_CODEC_ID_H264: u32 = 27;

/// Codec identifier of HEVC.
pub const AV_CODEC_ID_HEVC: u32 = 173;

/// One tuning option: a key, its value and the flags the codec's option
/// search is run with.
#[derive(Clone, Copy, Debug)]
pub struct CodecOption {
    pub key: &'static str,
    pub value: &'static str,
    pub search_flags: i32,
}

impl CodecOption {
    /// The option as key, value and flags.
    pub open spec fn view(&self) -> (Seq<char>, Seq<char>, int) {
        (self.key@, self.value@, self.search_flags as int)
    }

    /// True when the codec can be handed the option: neither its key nor
    /// its value holds a NUL.
    pub open spec fn settable(&self) -> bool {
        entry_settable(self@)
    }

    /// Tells whether the codec can be handed the option. One whose key or
    /// value holds a NUL is rejected before the codec is asked.
    pub fn validate(&self) -> (status: CoreResult<()>)
        ensures
            self.settable() ==> status == Ok::<(), CoreError>(()),
            !self.settable() ==> status == Err::<(), CoreError>(
                CoreError::ConfigurationRejected { reason: ConfigRejection::InteriorNul },
            ),
    {
        if holds_nul(self.key) || holds_nul(self.value) {
            Err(CoreError::ConfigurationRejected { reason: ConfigRejection::InteriorNul })
        } else {
            Ok(())
        }
    }
}

/// True of a tuning entry the codec can be handed: neither its key nor its
/// value holds a NUL.
pub open spec fn entry_settable(entry: (Seq<char>, Seq<char>, int)) -> bool {
    !entry.0.contains('\0') && !entry.1.contains('\0')
}

/// Tells whether `text` holds a NUL.
pub fn holds_nul(text: &str) -> (found: bool)
    ensures
        found == text@.contains('\0'),
{
    let n: usize = text.unicode_len();
    let mut i: usize = 0;
    while i < n
        invariant
            i <= n,
            n == text@.len(),
            forall|j: int| 0 <= j < i ==> text@[j] != '\0',
        decreases n - i,
    {
        if text.get_char(i) == '\0' {
            return true;
        }
        i = i + 1;
    }
    false
}

/// The encoders a session can be started with.
#[derive(Clone, Copy, Debug, PartialEq, Eq, Structural)]
pub enum FFMPEGEncoderType {
    Libx264,
    H264VideoToolbox,
    HEVCVideoToolbox,
}

/// What every encoder variant exposes: the codec it produces, the native
/// encoder that implements it, and the options it sets, in order.
pub trait FFMPEGEncoderConfig {
    /// The options of this variant, in the order they are applied.
    spec fn tuning(&self) -> Seq<(Seq<char>, Seq<char>, int)>;

    /// The name of the native encoder.
    spec fn encoder_name(&self) -> Seq<char>;

    /// The codec identifier.
    spec fn codec_id(&self) -> u32;

    /// The option to set once `applied` options have been accepted, or
    /// `None` when the tuning is complete.
    fn apply_option(&self, applied: usize) -> (next: Option<CodecOption>)
        ensures
            applied < self.tuning().len() ==> next.is_some() && next.unwrap()@
                == self.tuning()[applied as int],
            applied >= self.tuning().len() ==> next.is_none(),
    ;

    /// How many options the tuning has.
    fn option_count(&self) -> (total: usize)
        ensures
            total == self.tuning().len(),
    ;

    fn ffmpeg_encoder_name(&self) -> (name: &'static str)
        ensures
            name@ == self.encoder_name(),
    ;

    fn av_codec_id(&self) -> (id: u32)
        ensures
            id == self.codec_id(),
    ;
}

/// Software H.264 through libx264, tuned for latency.
#[derive(Clone, Copy, Debug)]
pub struct Libx264Config {}

impl Libx264Config {
    pub fn new() -> (config: Self) {
        Libx264Config {  }
    }
}

impl FFMPEGEncoderConfig for Libx264Config {
    open spec fn tuning(&self) -> Seq<(Seq<char>, Seq<char>, int)> {
        seq![
            ("profile"@, "high"@, 0int),
            ("level"@, "5.0"@, 0int),
            ("preset"@, "ultrafast"@, 0int),
            ("tune"@, "zerolatency"@, 0int),
        ]
    }

    open spec fn encoder_name(&self) -> Seq<char> {
        "libx264"@
    }

    open spec fn codec_id(&self) -> u32 {
        AV_CODEC_ID_H264
    }

    fn apply_option(&self, applied: usize) -> (next: Option<CodecOption>) {
        if applied == 0 {
            Some(CodecOption { key: "profile", value: "high", search_flags: 0 })
        } else if applied == 1 {
            Some(CodecOption { key: "level", value: "5.0", search_flags: 0 })
        } else if applied == 2 {
            Some(CodecOption { key: "preset", value: "ultrafast", search_flags: 0 })
        } else if applied == 3 {
            Some(CodecOption { key: "tune", value: "zerolatency", search_flags: 0 })
        } else {
            None
        }
    }

    fn option_count(&self) -> (total: usize) {
        4
    }

    fn ffmpeg_encoder_name(&self) -> (name: &'static str) {
        "libx264"
    }

    fn av_codec_id(&self) -> (id: u32) {
        AV_CODEC_ID_H264
    }
}

/// Hardware H.264 through VideoToolbox.
#[derive(Clone, Copy, Debug)]
pub struct H264VideoToolboxConfig {}

impl H264VideoToolboxConfig {
    pub fn new() -> (config: Self) {
        H264VideoToolboxConfig {  }
    }
}

impl FFMPEGEncoderConfig for H264VideoToolboxConfig {
    open spec fn tuning(&self) -> Seq<(Seq<char>, Seq<char>, int)> {
        seq![("profile"@, "high"@, 0int), ("level"@, "5.2"@, 0int), ("realtime"@, "1"@, 0int)]
    }

    open spec fn encoder_name(&self) -> Seq<char> {
        "h264_videotoolbox"@
    }

    open spec fn codec_id(&self) -> u32 {
        AV_CODEC_ID_H264
    }

    fn apply_option(&self, applied: usize) -> (next: Option<CodecOption>) {
        if applied == 0 {
            Some(CodecOption { key: "profile", value: "high", search_flags: 0 })
        } else if applied == 1 {
            Some(CodecOption { key: "level", value: "5.2", search_flags: 0 })
        } else if applied == 2 {
            Some(CodecOption { key: "realtime", value: "1", search_flags: 0 })
        } else {
            None
        }
    }

    fn option_count(&self) -> (total: usize) {
        3
    }

    fn ffmpeg_encoder_name(&self) -> (name: &'static str) {
        "h264_videotoolbox"
    }

    fn av_codec_id(&self) -> (id: u32) {
        AV_CODEC_ID_H264
    }
}

/// Hardware HEVC through VideoToolbox.
#[derive(Clone, Copy, Debug)]
pub struct HEVCVideoToolboxConfig {}

impl HEVCVideoToolboxConfig {
    pub fn new() -> (config: Self) {
        HEVCVideoToolboxConfig {  }
    }
}

impl FFMPEGEncoderConfig for HEVCVideoToolboxConfig {
    open spec fn tuning(&self) -> Seq<(Seq<char>, Seq<char>, int)> {
        seq![("profile"@, "main"@, 0int), ("realtime"@, "1"@, 0int)]
    }

    open spec fn encoder_name(&self) -> Seq<char> {
        "hevc_videotoolbox"@
    }

    open spec fn codec_id(&self) -> u32 {
        AV_CODEC_ID_HEVC
    }

    fn apply_option(&self, applied: usize) -> (next: Option<CodecOption>) {
        if applied == 0 {
            Some(CodecOption { key: "profile", value: "main", search_flags: 0 })
        } else if applied == 1 {
            Some(CodecOption { key: "realtime", value: "1", search_flags: 0 })
        } else {
            None
        }
    }

    fn option_count(&self) -> (total: usize) {
        2
    }

    fn ffmpeg_encoder_name(&self) -> (name: &'static str) {
        "hevc_videotoolbox"
    }

    fn av_codec_id(&self) -> (id: u32) {
        AV_CODEC_ID_HEVC
    }
}

/// The configuration of one of the three variants.
#[derive(Clone, Copy, Debug)]
pub enum EncoderConfig {
    Libx264(Libx264Config),
    H264VideoToolbox(H264VideoToolboxConfig),
    HEVCVideoToolbox(HEVCVideoToolboxConfig),
}

impl EncoderConfig {
    /// The variant this configuration was made for.
    pub open spec fn encoder_type(&self) -> FFMPEGEncoderType {
        match self {
            EncoderConfig::Libx264(_) => FFMPEGEncoderType::Libx264,
            EncoderConfig::H264VideoToolbox(_) => FFMPEGEncoderType::H264VideoToolbox,
            EncoderConfig::HEVCVideoToolbox(_) => FFMPEGEncoderType::HEVCVideoToolbox,
        }
    }
}

impl FFMPEGEncoderConfig for EncoderConfig {
    open spec fn tuning(&self) -> Seq<(Seq<char>, Seq<char>, int)> {
        match self {
            EncoderConfig::Libx264(c) => c.tuning(),
            EncoderConfig::H264VideoToolbox(c) => c.tuning(),
            EncoderConfig::HEVCVideoToolbox(c) => c.tuning(),
        }
    }

    open spec fn encoder_name(&self) -> Seq<char> {
        match self {
            EncoderConfig::Libx264(c) => c.encoder_name(),
            EncoderConfig::H264VideoToolbox(c) => c.encoder_name(),
            EncoderConfig::HEVCVideoToolbox(c) => c.encoder_name(),
        }
    }

    open spec fn codec_id(&self) -> u32 {
        match self {
            EncoderConfig::Libx264(c) => c.codec_id(),
            EncoderConfig::H264VideoToolbox(c) => c.codec_id(),
            EncoderConfig::HEVCVideoToolbox(c) => c.codec_id(),
        }
    }

    fn apply_option(&self, applied: usize) -> (next: Option<CodecOption>) {
        match self {
            EncoderConfig::Libx264(c) => c.apply_option(applied),
            EncoderConfig::H264VideoToolbox(c) => c.apply_option(applied),
            EncoderConfig::HEVCVideoToolbox(c) => c.apply_option(applied),
        }
    }

    fn option_count(&self) -> (total: usize) {
        match self {
            EncoderConfig::Libx264(c) => c.option_count(),
            EncoderConfig::H264VideoToolbox(c) => c.option_count(),
            EncoderConfig::HEVCVideoToolbox(c) => c.option_count(),
        }
    }

    fn ffmpeg_encoder_name(&self) -> (name: &'static str) {
        match self {
            EncoderConfig::Libx264(c) => c.ffmpeg_encoder_name(),
            EncoderConfig::H264VideoToolbox(c) => c.ffmpeg_encoder_name(),
            EncoderConfig::HEVCVideoToolbox(c) => c.ffmpeg_encoder_name(),
        }
    }

    fn av_codec_id(&self) -> (id: u32) {
        match self {
            EncoderConfig::Libx264(c) => c.av_codec_id(),
            EncoderConfig::H264VideoToolbox(c) => c.av_codec_id(),
            EncoderConfig::HEVCVideoToolbox(c) => c.av_codec_id(),
        }
    }
}

impl FFMPEGEncoderType {
    /// Builds the configuration of this variant.
    pub fn create_config(self) -> (config: EncoderConfig)
        ensures
            config.encoder_type() == self,
    {
        match self {
            FFMPEGEncoderType::Libx264 => EncoderConfig::Libx264(Libx264Config::new()),
            FFMPEGEncoderType::H264VideoToolbox => EncoderConfig::H264VideoToolbox(
                H264VideoToolboxConfig::new(),
            ),
            FFMPEGEncoderType::HEVCVideoToolbox => EncoderConfig::HEVCVideoToolbox(
                HEVCVideoToolboxConfig::new(),
            ),
        }
    }
}

/// Reads `libc::ERANGE` and `libc::EINVAL`, the C library's numbers for a
/// result out of range and for an invalid argument, in that order. The
/// numbers differ between targets, positive on most and negative on some.
/// On every target neither is zero, the two differ, and neither is the
/// number whose negation the codec uses for an unknown option; no more is
/// claimed of them.
#[verifier::external_body]
fn errno_numbers() -> (numbers: (i32, i32))
    ensures
        answers_apart(numbers.0, numbers.1),
{
    (libc::ERANGE, libc::EINVAL)
}

/// True of two error numbers under which the codec's answers cannot be
/// mistaken for one another: neither is zero, so neither answer is an
/// acceptance; they differ; and the negation of neither is the answer for
/// an unknown option.
pub open spec fn answers_apart(range_errno: i32, invalid_errno: i32) -> bool {
    &&& range_errno != 0
    &&& invalid_errno != 0
    &&& range_errno != invalid_errno
    &&& -range_errno != AVERROR_OPTION_NOT_FOUND
    &&& -invalid_errno != AVERROR_OPTION_NOT_FOUND
}

/// What the codec's answer `ret` to one option means, where the C library
/// numbers "out of range" as `range_errno` and "invalid argument" as
/// `invalid_errno`. The codec reports either as the negated number.
pub open spec fn option_status(ret: i32, range_errno: i32, invalid_errno: i32) -> CoreResult<()> {
    if ret == AVERROR_OPTION_NOT_FOUND {
        Err(CoreError::ConfigurationRejected { reason: ConfigRejection::OptionNotFound })
    } else if ret == -range_errno {
        Err(CoreError::ConfigurationRejected { reason: ConfigRejection::OutOfRange })
    } else if ret == -invalid_errno {
        Err(CoreError::ConfigurationRejected { reason: ConfigRejection::InvalidValue })
    } else if ret != 0 {
        Err(CoreError::ConfigurationRejected { reason: ConfigRejection::Other(ret) })
    } else {
        Ok(())
    }
}

/// Reads the codec's answer to one option against the given error numbers.
pub fn classify_option_result(ret: i32, range_errno: i32, invalid_errno: i32) -> (status:
    CoreResult<()>)
    ensures
        status == option_status(ret, range_errno, invalid_errno),
{
    if ret == AVERROR_OPTION_NOT_FOUND {
        Err(CoreError::ConfigurationRejected { reason: ConfigRejection::OptionNotFound })
    } else if range_errno != i32::MIN && ret == -range_errno {
        Err(CoreError::ConfigurationRejected { reason: ConfigRejection::OutOfRange })
    } else if invalid_errno != i32::MIN && ret == -invalid_errno {
        Err(CoreError::ConfigurationRejected { reason: ConfigRejection::InvalidValue })
    } else if ret != 0 {
        Err(CoreError::ConfigurationRejected { reason: ConfigRejection::Other(ret) })
    } else {
        Ok(())
    }
}

/// Reads the codec's answer to one option against this target's error
/// numbers. The option is accepted exactly when the codec answered zero;
/// every other answer is a rejection. An unknown option is reported as
/// such and as nothing else, and "out of range" and "invalid value" are
/// kept apart: each is reported for exactly one answer, the negation of
/// this target's number for it, as `option_status` says.
pub fn set_codec_ctx_option(ret: i32) -> (status: CoreResult<()>)
    ensures
        ret == 0 ==> status == Ok::<(), CoreError>(()),
        ret != 0 ==> status is Err && status->Err_0 is ConfigurationRejected,
        ret == AVERROR_OPTION_NOT_FOUND <==> status == Err::<(), CoreError>(
            CoreError::ConfigurationRejected { reason: ConfigRejection::OptionNotFound },
        ),
        exists|range: i32, invalid: i32|
            {
                &&& answers_apart(range, invalid)
                &&& status == #[trigger] option_status(ret, range, invalid)
                &&& ret == -range <==> status == Err::<(), CoreError>(
                    CoreError::ConfigurationRejected { reason: ConfigRejection::OutOfRange },
                )
                &&& ret == -invalid <==> status == Err::<(), CoreError>(
                    CoreError::ConfigurationRejected { reason: ConfigRejection::InvalidValue },
                )
            },
{
    let (range, invalid) = errno_numbers();
    let status = classify_option_result(ret, range, invalid);
    assert(status == option_status(ret, range, invalid));
    status
}

/// Where the tuning of a codec context stands.
#[derive(Clone, Copy, Debug, PartialEq, Eq, Structural)]
pub enum TuningProgress {
    /// This many options were accepted; more are to be set.
    Pending(usize),
    /// Every option was accepted.
    Complete,
    /// An option was refused; no further option is set.
    Rejected(CoreError),
}

/// The progress that follows from the codec's verdicts on the first options
/// of a tuning of `total` options, taken in order: the first refusal ends
/// it, and it is complete once `total` options were accepted.
pub open spec fn tuning_after(total: nat, verdicts: Seq<CoreResult<()>>) -> TuningProgress
    decreases verdicts.len(),
{
    if verdicts.len() == 0 {
        if total == 0 {
            TuningProgress::Complete
        } else {
            TuningProgress::Pending(0)
        }
    } else {
        match tuning_after(total, verdicts.drop_last()) {
            TuningProgress::Pending(n) => match verdicts.last() {
                Err(e) => TuningProgress::Rejected(e),
                Ok(_) => if n + 1 >= total {
                    TuningProgress::Complete
                } else {
                    TuningProgress::Pending((n + 1) as usize)
                },
            },
            settled => settled,
        }
    }
}

/// The tuning of `total` options before any was set.
pub fn begin_tuning(total: usize) -> (progress: TuningProgress)
    ensures
        progress == tuning_after(total as nat, Seq::empty()),
{
    if total == 0 {
        TuningProgress::Complete
    } else {
        TuningProgress::Pending(0)
    }
}

/// Moves the tuning on by the codec's verdict on the option that was just
/// set. A settled tuning stays as it is.
pub fn advance_tuning(total: usize, progress: TuningProgress, verdict: CoreResult<()>) -> (next:
    TuningProgress)
    ensures
        forall|earlier: Seq<CoreResult<()>>|
            progress == tuning_after(total as nat, earlier) ==> next == #[trigger] tuning_after(
                total as nat,
                earlier.push(verdict),
            ),
        next == match progress {
            TuningProgress::Pending(n) => match verdict {
                Err(e) => TuningProgress::Rejected(e),
                Ok(_) => if n + 1 >= total {
                    TuningProgress::Complete
                } else {
                    TuningProgress::Pending((n + 1) as usize)
                },
            },
            settled => settled,
        },
{
    assert forall|earlier: Seq<CoreResult<()>>|
        progress == tuning_after(total as nat, earlier) implies #[trigger] earlier.push(
        verdict,
    ).drop_last() == earlier && earlier.push(verdict).last() == verdict by {
        assert(earlier.push(verdict).drop_last() =~= earlier);
    }
    match progress {
        TuningProgress::Pending(n) => match verdict {
            Err(e) => TuningProgress::Rejected(e),
            Ok(_) => if n >= total || n + 1 >= total {
                TuningProgress::Complete
            } else {
                TuningProgress::Pending(n + 1)
            },
        },
        settled => settled,
    }
}

/// A tuning is complete exactly when every one of its options was accepted,
/// and is rejected with the first refusal the codec gave.
pub proof fn lemma_tuning_first_refusal(total: nat, verdicts: Seq<CoreResult<()>>)
    requires
        verdicts.len() <= total,
        total <= usize::MAX,
    ensures
        (forall|i: int| 0 <= i < verdicts.len() ==> verdicts[i].is_ok()) ==> tuning_after(
            total,
            verdicts,
        ) == if verdicts.len() == total {
            TuningProgress::Complete
        } else {
            TuningProgress::Pending(verdicts.len() as usize)
        },
        forall|k: int|
            0 <= k < verdicts.len() && verdicts[k].is_err() && (forall|i: int|
                0 <= i < k ==> verdicts[i].is_ok()) ==> tuning_after(total, verdicts)
                == TuningProgress::Rejected(verdicts[k].unwrap_err()),
    decreases verdicts.len(),
{
    if verdicts.len() > 0 {
        let init = verdicts.drop_last();
        lemma_tuning_first_refusal(total, init);
        assert(forall|i: int| 0 <= i < init.len() ==> init[i] == verdicts[i]);
        assert forall|k: int|
            0 <= k < verdicts.len() && verdicts[k].is_err() && (forall|i: int|
                0 <= i < k ==> verdicts[i].is_ok()) implies tuning_after(total, verdicts)
            == TuningProgress::Rejected(verdicts[k].unwrap_err()) by {
            if k < init.len() {
                assert(init[k] == verdicts[k]);
                assert(forall|i: int| 0 <= i < k ==> init[i].is_ok());
            } else {
                assert(forall|i: int| 0 <= i < init.len() ==> init[i].is_ok());
            }
        }
    }
}

/// What is to be done next for a tuning.
#[derive(Clone, Copy, Debug)]
pub enum TuningStep {
    /// Set this option on the codec context and report the codec's answer.
    SetOption(CodecOption),
    /// Nothing more is set; the tuning has ended with this result.
    Finished(CoreResult<()>),
}

/// Names the next step of the tuning of `config`. A pending tuning sets
/// its next option, unless the option's key or value holds a NUL: then the
/// codec is not asked and the tuning ends rejected. A settled tuning ends
/// with its result.
pub fn next_tuning_step<C: FFMPEGEncoderConfig>(config: &C, progress: TuningProgress) -> (step:
    TuningStep)
    ensures
        match progress {
            TuningProgress::Pending(applied) => if applied >= config.tuning().len() {
                step == TuningStep::Finished(Ok(()))
            } else if entry_settable(config.tuning()[applied as int]) {
                step is SetOption && step->SetOption_0@ == config.tuning()[applied as int]
            } else {
                step == TuningStep::Finished(
                    Err(CoreError::ConfigurationRejected { reason: ConfigRejection::InteriorNul }),
                )
            },
            TuningProgress::Complete => step == TuningStep::Finished(Ok(())),
            TuningProgress::Rejected(error) => step == TuningStep::Finished(Err(error)),
        },
{
    match progress {
        TuningProgress::Pending(applied) => match config.apply_option(applied) {
            None => TuningStep::Finished(Ok(())),
            Some(option) => match option.validate() {
                Ok(_) => TuningStep::SetOption(option),
                Err(error) => TuningStep::Finished(Err(error)),
            },
        },
        TuningProgress::Complete => TuningStep::Finished(Ok(())),
        TuningProgress::Rejected(error) => TuningStep::Finished(Err(error)),
    }
}

/// No option of the three variants holds a NUL, so none of their tunings
/// is rejected before the codec is asked.
pub proof fn lemma_variant_options_settable(config: EncoderConfig)
    ensures
        forall|i: int|
            0 <= i < config.tuning().len() ==> entry_settable(#[trigger] config.tuning()[i]),
{
    reveal_strlit("profile");
    reveal_strlit("high");
    reveal_strlit("main");
    reveal_strlit("level");
    reveal_strlit("5.0");
    reveal_strlit("5.2");
    reveal_strlit("preset");
    reveal_strlit("ultrafast");
    reveal_strlit("tune");
    reveal_strlit("zerolatency");
    reveal_strlit("realtime");
    reveal_strlit("1");
}

} // verus!
