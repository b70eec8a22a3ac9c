use vstd::prelude::*;

verus! {

/// Every failure the engine can report.
#[derive(Debug, Clone, Copy, PartialEq, Eq, Structural)]
pub enum EngineError {
    UnsupportedFormat,
    CorruptStream,
    IoFailure,
    InvalidParameter,
    DeviceUnavailable,
    BufferFull,
}

/// The errors that end a session: a decoder, source or device fault.
pub open spec fn is_fault(e: EngineError) -> bool {
    match e {
        EngineError::UnsupportedFormat => true,
        EngineError::CorruptStream => true,
        EngineError::IoFailure => true,
        EngineError::DeviceUnavailable => true,
        EngineError::InvalidParameter => false,
        EngineError::BufferFull => false,
    }
}

impl EngineError {
    /// Whether this error ends the session it occurs in.
    pub fn is_terminal(&self) -> (r: bool)
        ensures
            r == is_fault(*self),
    {
        match self {
            EngineError::UnsupportedFormat => true,
            EngineError::CorruptStream => true,
            EngineError::IoFailure => true,
            EngineError::DeviceUnavailable => true,
            EngineError::InvalidParameter => false,
            EngineError::BufferFull => false,
        }
    }

    /// A short human-readable description.
    pub fn message(&self) -> (r: String)
        ensures
            r@ == match self {
                EngineError::UnsupportedFormat => "unsupported audio format"@,
                EngineError::CorruptStream => "corrupt audio stream"@,
                EngineError::IoFailure => "audio source could not be read"@,
                EngineError::InvalidParameter => "invalid playback parameter"@,
                EngineError::DeviceUnavailable => "output device unavailable"@,
                EngineError::BufferFull => "frame buffer is full"@,
            },
    {
        match self {
            EngineError::UnsupportedFormat => String::from_str("unsupported audio format"),
            EngineError::CorruptStream => String::from_str("corrupt audio stream"),
            EngineError::IoFailure => String::from_str("audio source could not be read"),
            EngineError::InvalidParameter => String::from_str("invalid playback parameter"),
            EngineError::DeviceUnavailable => String::from_str("output device unavailable"),
            EngineError::BufferFull => String::from_str("frame buffer is full"),
        }
    }
}

} // verus!
