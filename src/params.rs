use vstd::prelude::*;
use crate::error::EngineError;

verus! {

/// The fixed-point unit: a volume or speed of `UNIT` stands for 1.0.
pub const UNIT: u64 = 1000;

/// Volume and speed of a session, in thousandths.
#[derive(Debug, Clone, Copy, PartialEq, Eq, Structural)]
pub struct PlaybackParameters {
    pub volume_milli: u64,
    pub speed_milli: u64,
}

/// A volume is valid when it is not negative; there is no upper bound.
pub open spec fn valid_volume(v: int) -> bool {
    v >= 0
}

/// A speed is valid when it is strictly positive.
pub open spec fn valid_speed(s: int) -> bool {
    s > 0
}

impl PlaybackParameters {
    pub open spec fn wf(&self) -> bool {
        valid_speed(self.speed_milli as int)
    }

    pub open spec fn default_params_spec() -> PlaybackParameters {
        PlaybackParameters { volume_milli: UNIT, speed_milli: UNIT }
    }

    /// Unit volume and unit speed.
    pub fn default_params() -> (r: PlaybackParameters)
        ensures
            r == Self::default_params_spec(),
            r.volume_milli == UNIT,
            r.speed_milli == UNIT,
            r.wf(),
    {
        PlaybackParameters { volume_milli: UNIT, speed_milli: UNIT }
    }

    /// Checks a requested volume and speed; `InvalidParameter` when either
    /// lies outside its domain.
    pub fn new(volume_milli: i64, speed_milli: i64) -> (r: Result<PlaybackParameters, EngineError>)
        ensures
            (valid_volume(volume_milli as int) && valid_speed(speed_milli as int)) <==> r.is_ok(),
            r.is_ok() ==> r.unwrap().volume_milli == volume_milli as int
                && r.unwrap().speed_milli == speed_milli as int && r.unwrap().wf(),
            r.is_err() ==> r == Err::<PlaybackParameters, EngineError>(EngineError::InvalidParameter),
    {
        if volume_milli < 0 || speed_milli <= 0 {
            Err(EngineError::InvalidParameter)
        } else {
            Ok(PlaybackParameters { volume_milli: volume_milli as u64, speed_milli: speed_milli as u64 })
        }
    }
}

} // verus!
