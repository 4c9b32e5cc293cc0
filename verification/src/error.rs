use vstd::prelude::*;

verus! {

/// Why the codec refused a tuning option.
#[derive(Clone, Copy, Debug, PartialEq, Eq, Structural)]
pub enum ConfigRejection {
    /// The codec build does not know the option.
    OptionNotFound,
    /// The value lies outside the range the option accepts.
    OutOfRange,
    /// The value is not valid for this codec build.
    InvalidValue,
    /// Any other non-zero code of the codec, carried as it came.
    Other(i32),
    /// The option's key or value holds a NUL, so the codec cannot be
    /// handed it; the codec was not asked.
    InteriorNul,
}

/// Why a decode step failed.
#[derive(Clone, Copy, Debug, PartialEq, Eq, Structural)]
pub enum DecodeFailure {
    /// A frame without parameters arrived before any decoder was built.
    NotInitialized,
    /// The native decoder could not be created: it handed back no handle.
    NoHandle,
    /// The native decoder could not be created: it reported this code.
    CreateCode(i32),
    /// The native decoder returned this negative code for a packet.
    Native(i32),
}

/// Every failure a session can end with.
#[derive(Clone, Copy, Debug, PartialEq, Eq, Structural)]
pub enum CoreError {
    EndpointNotFound,
    ChannelSendTimeout,
    ChannelClosed,
    ConfigurationRejected { reason: ConfigRejection },
    EncoderInitFailed,
    EncodeFailed,
    CaptureInitFailed,
    CaptureFailed,
    DecodeFailed { cause: DecodeFailure },
    PlaybackInitFailed,
    PlaybackUnrecoverable,
}

pub type CoreResult<T> = Result<T, CoreError>;

} // verus!
