use vstd::prelude::*;
use crate::error::{EngineError, is_fault};
use crate::gain::{apply_gain_chunk, gained, gained_chunk, lemma_gain_in_range};
use crate::params::{PlaybackParameters, valid_speed, valid_volume};
use crate::retime::{frames_view, lemma_retime_length, lemma_source_in_bounds, retime, retimed, source_index};
use crate::ring::RingBuffer;

verus! {

/// The lifecycle of a playback session.
#[derive(Debug, Clone, Copy, PartialEq, Eq, Structural)]
pub enum PlaybackState {
    Idle,
    Loading,
    Playing,
    Paused,
    Draining,
    Stopped,
    Failed,
}

/// What became of a chunk handed to the session.
#[derive(Debug, Clone, Copy, PartialEq, Eq, Structural)]
pub enum Offer {
    /// The transformed chunk is queued.
    Accepted,
    /// Not taken now (queue full or paused): offer it again later.
    Wait,
    /// The session takes no more frames.
    Closed,
}

pub open spec fn is_terminal(s: PlaybackState) -> bool {
    s == PlaybackState::Stopped || s == PlaybackState::Failed
}

/// States in which the output device is held.
pub open spec fn holds_device(s: PlaybackState) -> bool {
    s == PlaybackState::Playing || s == PlaybackState::Paused || s == PlaybackState::Draining
}

/// The state after `stop` with `buffered` frames queued.
pub open spec fn after_stop(s: PlaybackState, buffered: nat) -> PlaybackState {
    if s == PlaybackState::Idle || s == PlaybackState::Loading {
        PlaybackState::Stopped
    } else if holds_device(s) {
        if buffered == 0 { PlaybackState::Stopped } else { PlaybackState::Draining }
    } else {
        s
    }
}

/// The state after the source reports its end.
pub open spec fn after_end_of_stream(s: PlaybackState, buffered: nat) -> PlaybackState {
    if s == PlaybackState::Playing {
        if buffered == 0 { PlaybackState::Stopped } else { PlaybackState::Draining }
    } else {
        s
    }
}

/// How many queued frames a pull of `count` frames hands out.
pub open spec fn pulled(s: PlaybackState, buffered: nat, count: nat) -> nat {
    if s == PlaybackState::Playing || s == PlaybackState::Draining {
        if count < buffered { count } else { buffered }
    } else {
        0
    }
}

/// The state after a pull of `count` frames.
pub open spec fn after_pull(s: PlaybackState, buffered: nat, count: nat) -> PlaybackState {
    if s == PlaybackState::Draining && buffered <= count { PlaybackState::Stopped } else { s }
}

pub open spec fn after_pause(s: PlaybackState) -> PlaybackState {
    if s == PlaybackState::Playing { PlaybackState::Paused } else { s }
}

pub open spec fn after_resume(s: PlaybackState) -> PlaybackState {
    if s == PlaybackState::Paused { PlaybackState::Playing } else { s }
}

/// The state after `k` pulls of `count` frames each, from `buffered` queued.
pub open spec fn after_pulls(s: PlaybackState, buffered: nat, count: nat, k: nat) -> PlaybackState
    decreases k,
{
    if k == 0 {
        s
    } else {
        after_pulls(
            after_pull(s, buffered, count),
            (buffered - pulled(s, buffered, count)) as nat,
            count,
            (k - 1) as nat,
        )
    }
}

proof fn lemma_stopped_stays(buffered: nat, count: nat, k: nat)
    ensures
        after_pulls(PlaybackState::Stopped, buffered, count, k) == PlaybackState::Stopped,
    decreases k,
{
    if k > 0 {
        lemma_stopped_stays(buffered, count, (k - 1) as nat);
    }
}

proof fn lemma_draining_empties(buffered: nat, count: nat, k: nat)
    requires
        count >= 1,
        buffered >= 1,
        k >= buffered,
    ensures
        after_pulls(PlaybackState::Draining, buffered, count, k) == PlaybackState::Stopped,
    decreases k,
{
    if buffered <= count {
        lemma_stopped_stays(0, count, (k - 1) as nat);
    } else {
        lemma_draining_empties((buffered - count) as nat, count, (k - 1) as nat);
    }
}

/// `stop` from any state that has not ended leads to `Stopped`: at once, or
/// after at most as many pulls of at least one frame as there are frames
/// queued.
pub proof fn lemma_stop_reaches_stopped(s: PlaybackState, buffered: nat, count: nat, k: nat)
    requires
        !is_terminal(s),
        count >= 1,
        k >= buffered,
    ensures
        after_pulls(after_stop(s, buffered), buffered, count, k) == PlaybackState::Stopped,
{
    if after_stop(s, buffered) == PlaybackState::Stopped {
        lemma_stopped_stays(buffered, count, k);
    } else {
        lemma_draining_empties(buffered, count, k);
    }
}

/// No step of normal operation (stop, pause, resume, the end of the
/// source, a pull) leads to `Failed`: only a reported fault does.
pub proof fn lemma_failed_only_by_fault(s: PlaybackState, buffered: nat, count: nat)
    requires
        s != PlaybackState::Failed,
    ensures
        after_stop(s, buffered) != PlaybackState::Failed,
        after_end_of_stream(s, buffered) != PlaybackState::Failed,
        after_pull(s, buffered, count) != PlaybackState::Failed,
        after_pause(s) != PlaybackState::Failed,
        after_resume(s) != PlaybackState::Failed,
{
}

/// At unit volume and unit speed the producer queues each chunk exactly as
/// decoded.
pub proof fn lemma_unit_parameters_keep_frames(chunk: Seq<Seq<i16>>)
    ensures
        transformed(chunk, PlaybackParameters::default_params_spec()) == chunk,
{
    let g = gained_chunk(chunk, 1000);
    assert forall|i: int| 0 <= i < chunk.len() implies #[trigger] g[i] == chunk[i] by {
        assert forall|j: int| 0 <= j < chunk[i].len() implies
            #[trigger] gained(chunk[i], 1000)[j] == chunk[i][j] by {
            lemma_gain_in_range(chunk[i][j], 1000);
        }
        assert(gained(chunk[i], 1000) =~= chunk[i]);
    }
    assert(g =~= chunk);
    lemma_retime_length(g, 1000);
}

/// A frame of `channels` zero samples.
pub open spec fn silence(channels: nat) -> Seq<i16> {
    Seq::new(channels, |i: int| 0i16)
}

/// Makes a frame of silence.
pub fn silent_frame(channels: usize) -> (r: Vec<i16>)
    ensures
        r@ == silence(channels as nat),
{
    let mut out: Vec<i16> = Vec::with_capacity(channels);
    let mut i: usize = 0;
    while i < channels
        invariant
            i <= channels,
            out@ == silence(i as nat),
        decreases channels - i,
    {
        out.push(0);
        i += 1;
        assert(out@ =~= silence(i as nat));
    }
    out
}

/// Every frame of the chunk carries `channels` samples.
pub open spec fn frames_fit(chunk: Seq<Seq<i16>>, channels: nat) -> bool {
    forall|i: int| 0 <= i < chunk.len() ==> (#[trigger] chunk[i]).len() == channels
}

/// What the producer queues for a decoded chunk: the gain stage, then the
/// speed transformer.
pub open spec fn transformed(chunk: Seq<Seq<i16>>, p: PlaybackParameters) -> Seq<Seq<i16>> {
    retimed(gained_chunk(chunk, p.volume_milli as nat), p.speed_milli as nat)
}

/// The gain stage and the speed transformer keep the width of frames.
pub proof fn lemma_transformed_fits(chunk: Seq<Seq<i16>>, p: PlaybackParameters, channels: nat)
    requires
        frames_fit(chunk, channels),
        p.wf(),
    ensures
        frames_fit(transformed(chunk, p), channels),
{
    let g = gained_chunk(chunk, p.volume_milli as nat);
    assert(frames_fit(g, channels)) by {
        assert forall|i: int| 0 <= i < g.len() implies (#[trigger] g[i]).len() == channels by {
            assert(chunk[i].len() == channels);
        }
    }
    let t = transformed(chunk, p);
    assert forall|j: int| 0 <= j < t.len() implies (#[trigger] t[j]).len() == channels by {
        lemma_source_in_bounds(g.len(), p.speed_milli as nat, j as nat);
        let k = source_index(j as nat, p.speed_milli as nat) as int;
        assert(g[k].len() == channels);
    }
}

/// Checks that every frame of a chunk carries `channels` samples.
pub fn chunk_fits(chunk: &Vec<Vec<i16>>, channels: usize) -> (r: bool)
    ensures
        r == frames_fit(frames_view(chunk@), channels as nat),
{
    let mut i: usize = 0;
    while i < chunk.len()
        invariant
            i <= chunk.len(),
            forall|j: int| 0 <= j < i ==> (#[trigger] chunk@[j])@.len() == channels,
        decreases chunk.len() - i,
    {
        if chunk[i].len() != channels {
            assert(frames_view(chunk@)[i as int].len() != channels);
            return false;
        }
        i += 1;
    }
    proof {
        assert forall|j: int| 0 <= j < chunk@.len() implies
            (#[trigger] frames_view(chunk@)[j]).len() == channels by {
            assert(chunk@[j]@.len() == channels);
        }
    }
    true
}

/// One playback session: parameters, the frame queue between producer and
/// output, and the lifecycle state.
pub struct PlaybackSession {
    state: PlaybackState,
    failure: Option<EngineError>,
    params: PlaybackParameters,
    channels: usize,
    sample_rate: u32,
    buffer: RingBuffer,
    capacity: usize,
    frames_output: u64,
    device_open: bool,
}

impl PlaybackSession {
    pub closed spec fn state_of(&self) -> PlaybackState {
        self.state
    }

    pub closed spec fn failure_of(&self) -> Option<EngineError> {
        self.failure
    }

    pub closed spec fn params_of(&self) -> PlaybackParameters {
        self.params
    }

    pub closed spec fn channels_of(&self) -> nat {
        self.channels as nat
    }

    pub closed spec fn sample_rate_of(&self) -> nat {
        self.sample_rate as nat
    }

    /// The frames waiting for the output, oldest first.
    pub closed spec fn buffered(&self) -> Seq<Seq<i16>> {
        self.buffer@
    }

    pub closed spec fn capacity_of(&self) -> nat {
        self.capacity as nat
    }

    pub closed spec fn frames_output_of(&self) -> nat {
        self.frames_output as nat
    }

    pub closed spec fn device_open_of(&self) -> bool {
        self.device_open
    }

    pub closed spec fn wf(&self) -> bool {
        &&& self.buffer.wf()
        &&& self.buffer.capacity_spec() == self.capacity
        &&& self.params.wf()
        &&& frames_fit(self.buffer@, self.channels as nat)
        &&& self.device_open == holds_device(self.state)
        &&& (!holds_device(self.state) ==> self.buffer@.len() == 0)
        &&& (holds_device(self.state) ==> self.channels > 0 && self.sample_rate > 0)
        &&& (self.state == PlaybackState::Failed <==> self.failure.is_some())
        &&& (self.failure.is_some() ==> is_fault(self.failure.unwrap()))
    }

    /// A session that has not started: `Idle`, with unit volume and speed
    /// and an empty queue of `capacity` frames.
    pub fn new(capacity: usize) -> (r: PlaybackSession)
        ensures
            r.wf(),
            r.state_of() == PlaybackState::Idle,
            r.failure_of() == None::<EngineError>,
            r.params_of() == PlaybackParameters::default_params_spec(),
            r.buffered() == Seq::<Seq<i16>>::empty(),
            r.capacity_of() == capacity,
            r.frames_output_of() == 0,
            !r.device_open_of(),
    {
        PlaybackSession {
            state: PlaybackState::Idle,
            failure: None,
            params: PlaybackParameters::default_params(),
            channels: 0,
            sample_rate: 0,
            buffer: RingBuffer::new(capacity),
            capacity,
            frames_output: 0,
            device_open: false,
        }
    }

    pub fn state(&self) -> (r: PlaybackState)
        ensures
            r == self.state_of(),
    {
        self.state
    }

    pub fn failure(&self) -> (r: Option<EngineError>)
        ensures
            r == self.failure_of(),
    {
        self.failure
    }

    pub fn params(&self) -> (r: PlaybackParameters)
        ensures
            r == self.params_of(),
    {
        self.params
    }

    pub fn channels(&self) -> (r: usize)
        ensures
            r == self.channels_of(),
    {
        self.channels
    }

    pub fn sample_rate(&self) -> (r: u32)
        ensures
            r == self.sample_rate_of(),
    {
        self.sample_rate
    }

    /// How many frames are queued for the output.
    pub fn buffered_len(&self) -> (r: usize)
        requires
            self.wf(),
        ensures
            r == self.buffered().len(),
    {
        self.buffer.len()
    }

    /// How many queued frames the output has taken so far (saturating).
    pub fn frames_output(&self) -> (r: u64)
        ensures
            r == self.frames_output_of(),
    {
        self.frames_output
    }

    /// Whether the session holds the output device.
    pub fn device_open(&self) -> (r: bool)
        ensures
            r == self.device_open_of(),
    {
        self.device_open
    }

    /// Starts a session with the requested volume and speed. The values are
    /// checked first: on `InvalidParameter` nothing changes and the session
    /// never enters `Loading`.
    pub fn play(&mut self, volume_milli: i64, speed_milli: i64) -> (r: Result<(), EngineError>)
        requires
            old(self).wf(),
            old(self).state_of() == PlaybackState::Idle,
        ensures
            final(self).wf(),
            r.is_ok() <==> valid_volume(volume_milli as int) && valid_speed(speed_milli as int),
            r.is_err() ==> r == Err::<(), EngineError>(EngineError::InvalidParameter) && *final(self) == *old(self),
            r.is_ok() ==> final(self).state_of() == PlaybackState::Loading
                && final(self).params_of().volume_milli == volume_milli as int
                && final(self).params_of().speed_milli == speed_milli as int
                && final(self).buffered() == old(self).buffered()
                && final(self).capacity_of() == old(self).capacity_of()
                && final(self).frames_output_of() == old(self).frames_output_of()
                && final(self).failure_of() == old(self).failure_of(),
    {
        match PlaybackParameters::new(volume_milli, speed_milli) {
            Ok(p) => {
                self.params = p;
                self.state = PlaybackState::Loading;
                Ok(())
            },
            Err(e) => Err(e),
        }
    }

    /// Moves to `Failed` with `e` and releases the queue and the device.
    fn enter_failed(&mut self, e: EngineError)
        requires
            old(self).wf(),
            is_fault(e),
        ensures
            final(self).wf(),
            final(self).same_setup(old(self)),
            final(self).state_of() == PlaybackState::Failed,
            final(self).failure_of() == Some(e),
            final(self).buffered() == Seq::<Seq<i16>>::empty(),
            final(self).frames_output_of() == old(self).frames_output_of(),
    {
        self.state = PlaybackState::Failed;
        self.failure = Some(e);
        self.buffer = RingBuffer::new(self.capacity);
        self.device_open = false;
    }

    /// Takes the format the decoder found and the outcome of opening the
    /// output device. A format with no channels or no sample rate is
    /// `UnsupportedFormat`; a missing device is `DeviceUnavailable`; both
    /// end the session. Otherwise playback starts.
    pub fn open(&mut self, channels: usize, sample_rate: u32, device_available: bool) -> (r: Result<(), EngineError>)
        requires
            old(self).wf(),
            old(self).state_of() == PlaybackState::Loading,
        ensures
            final(self).wf(),
            final(self).capacity_of() == old(self).capacity_of(),
            final(self).params_of() == old(self).params_of(),
            final(self).frames_output_of() == old(self).frames_output_of(),
            final(self).buffered() == Seq::<Seq<i16>>::empty(),
            (channels == 0 || sample_rate == 0) ==> r == Err::<(), EngineError>(EngineError::UnsupportedFormat)
                && final(self).state_of() == PlaybackState::Failed
                && final(self).failure_of() == Some(EngineError::UnsupportedFormat),
            (channels > 0 && sample_rate > 0 && !device_available) ==>
                r == Err::<(), EngineError>(EngineError::DeviceUnavailable)
                && final(self).state_of() == PlaybackState::Failed
                && final(self).failure_of() == Some(EngineError::DeviceUnavailable),
            (channels > 0 && sample_rate > 0 && device_available) ==> r == Ok::<(), EngineError>(())
                && final(self).state_of() == PlaybackState::Playing
                && final(self).channels_of() == channels
                && final(self).sample_rate_of() == sample_rate
                && final(self).device_open_of(),
    {
        if channels == 0 || sample_rate == 0 {
            self.enter_failed(EngineError::UnsupportedFormat);
            Err(EngineError::UnsupportedFormat)
        } else if !device_available {
            self.enter_failed(EngineError::DeviceUnavailable);
            Err(EngineError::DeviceUnavailable)
        } else {
            self.channels = channels;
            self.sample_rate = sample_rate;
            self.state = PlaybackState::Playing;
            self.device_open = true;
            Ok(())
        }
    }

    /// Reports an error from the decoder, the source or the device. A
    /// fault ends a session that has not ended yet: it moves to `Failed`
    /// and releases its queue and device. Anything else changes nothing.
    pub fn fail(&mut self, e: EngineError)
        requires
            old(self).wf(),
        ensures
            final(self).wf(),
            final(self).same_setup(old(self)),
            final(self).frames_output_of() == old(self).frames_output_of(),
            (is_fault(e) && !is_terminal(old(self).state_of())) ==>
                final(self).state_of() == PlaybackState::Failed
                && final(self).failure_of() == Some(e)
                && final(self).buffered() == Seq::<Seq<i16>>::empty()
                && !final(self).device_open_of(),
            !(is_fault(e) && !is_terminal(old(self).state_of())) ==> *final(self) == *old(self),
    {
        let terminal = match self.state {
            PlaybackState::Stopped => true,
            PlaybackState::Failed => true,
            _ => false,
        };
        if e.is_terminal() && !terminal {
            self.enter_failed(e);
        }
    }

    /// Moves to `next`, holding the device exactly in the states that play:
    /// such a state is reached only from another one, and any other state
    /// only with an empty queue.
    fn move_to(&mut self, next: PlaybackState)
        requires
            old(self).wf(),
            next != PlaybackState::Failed,
            old(self).state_of() != PlaybackState::Failed,
            holds_device(next) ==> holds_device(old(self).state_of()),
            !holds_device(next) ==> old(self).buffered().len() == 0,
        ensures
            final(self).wf(),
            final(self).same_setup(old(self)),
            final(self).state_of() == next,
            final(self).buffered() == old(self).buffered(),
            final(self).failure_of() == old(self).failure_of(),
            final(self).frames_output_of() == old(self).frames_output_of(),
    {
        self.state = next;
        self.device_open = match next {
            PlaybackState::Playing => true,
            PlaybackState::Paused => true,
            PlaybackState::Draining => true,
            _ => false,
        };
    }

    /// Stops the session: what is queued is still played out (`Draining`),
    /// and with nothing queued it ends at once. Idempotent; an ended session
    /// stays as it is.
    pub fn stop(&mut self)
        requires
            old(self).wf(),
        ensures
            final(self).wf(),
            final(self).same_setup(old(self)),
            final(self).state_of() == after_stop(old(self).state_of(), old(self).buffered().len()),
            final(self).buffered() == old(self).buffered(),
            final(self).failure_of() == old(self).failure_of(),
            final(self).frames_output_of() == old(self).frames_output_of(),
    {
        let n = self.buffer.len();
        match self.state {
            PlaybackState::Idle => self.move_to(PlaybackState::Stopped),
            PlaybackState::Loading => self.move_to(PlaybackState::Stopped),
            PlaybackState::Playing | PlaybackState::Paused | PlaybackState::Draining => {
                if n == 0 {
                    self.move_to(PlaybackState::Stopped);
                } else {
                    self.move_to(PlaybackState::Draining);
                }
            },
            _ => {},
        }
    }

    /// The source has no more frames: play out what is queued, then stop.
    pub fn end_of_stream(&mut self)
        requires
            old(self).wf(),
        ensures
            final(self).wf(),
            final(self).same_setup(old(self)),
            final(self).state_of() == after_end_of_stream(old(self).state_of(), old(self).buffered().len()),
            final(self).buffered() == old(self).buffered(),
            final(self).failure_of() == old(self).failure_of(),
            final(self).frames_output_of() == old(self).frames_output_of(),
    {
        if self.state == PlaybackState::Playing {
            if self.buffer.len() == 0 {
                self.move_to(PlaybackState::Stopped);
            } else {
                self.move_to(PlaybackState::Draining);
            }
        }
    }

    /// Suspends production while playing; the output gets silence.
    pub fn pause(&mut self)
        requires
            old(self).wf(),
        ensures
            final(self).wf(),
            final(self).same_setup(old(self)),
            final(self).state_of() == after_pause(old(self).state_of()),
            final(self).buffered() == old(self).buffered(),
            final(self).failure_of() == old(self).failure_of(),
            final(self).frames_output_of() == old(self).frames_output_of(),
    {
        if self.state == PlaybackState::Playing {
            self.move_to(PlaybackState::Paused);
        }
    }

    /// Continues a paused session.
    pub fn resume(&mut self)
        requires
            old(self).wf(),
        ensures
            final(self).wf(),
            final(self).same_setup(old(self)),
            final(self).state_of() == after_resume(old(self).state_of()),
            final(self).buffered() == old(self).buffered(),
            final(self).failure_of() == old(self).failure_of(),
            final(self).frames_output_of() == old(self).frames_output_of(),
    {
        if self.state == PlaybackState::Paused {
            self.move_to(PlaybackState::Playing);
        }
    }

    /// Sets the volume for the chunks offered from now on; a negative one
    /// is `InvalidParameter` and changes nothing.
    pub fn set_volume(&mut self, volume_milli: i64) -> (r: Result<(), EngineError>)
        requires
            old(self).wf(),
        ensures
            final(self).wf(),
            r.is_ok() <==> valid_volume(volume_milli as int),
            r.is_err() ==> r == Err::<(), EngineError>(EngineError::InvalidParameter) && *final(self) == *old(self),
            r.is_ok() ==> final(self).params_of().volume_milli == volume_milli as int
                && final(self).params_of().speed_milli == old(self).params_of().speed_milli
                && final(self).state_of() == old(self).state_of()
                && final(self).buffered() == old(self).buffered()
                && final(self).failure_of() == old(self).failure_of()
                && final(self).capacity_of() == old(self).capacity_of()
                && final(self).channels_of() == old(self).channels_of()
                && final(self).frames_output_of() == old(self).frames_output_of(),
    {
        if volume_milli < 0 {
            Err(EngineError::InvalidParameter)
        } else {
            self.params = PlaybackParameters { volume_milli: volume_milli as u64, speed_milli: self.params.speed_milli };
            Ok(())
        }
    }

    /// Sets the speed for the chunks offered from now on; frames already
    /// queued keep theirs. A speed that is not positive is
    /// `InvalidParameter` and changes nothing.
    pub fn set_speed(&mut self, speed_milli: i64) -> (r: Result<(), EngineError>)
        requires
            old(self).wf(),
        ensures
            final(self).wf(),
            r.is_ok() <==> valid_speed(speed_milli as int),
            r.is_err() ==> r == Err::<(), EngineError>(EngineError::InvalidParameter) && *final(self) == *old(self),
            r.is_ok() ==> final(self).params_of().speed_milli == speed_milli as int
                && final(self).params_of().volume_milli == old(self).params_of().volume_milli
                && final(self).state_of() == old(self).state_of()
                && final(self).buffered() == old(self).buffered()
                && final(self).failure_of() == old(self).failure_of()
                && final(self).capacity_of() == old(self).capacity_of()
                && final(self).channels_of() == old(self).channels_of()
                && final(self).frames_output_of() == old(self).frames_output_of(),
    {
        if speed_milli <= 0 {
            Err(EngineError::InvalidParameter)
        } else {
            self.params = PlaybackParameters { volume_milli: self.params.volume_milli, speed_milli: speed_milli as u64 };
            Ok(())
        }
    }

    /// Hands the session a decoded chunk. While playing, a chunk whose
    /// frames do not all carry the session's channel count is a
    /// `CorruptStream` fault; otherwise the chunk goes through the gain
    /// stage and the speed transformer with the current parameters and is
    /// queued whole if it fits, or left to be offered again (`Wait`).
    /// While paused or not yet playing the answer is `Wait`, once draining
    /// or ended it is `Closed`; neither changes anything.
    pub fn offer(&mut self, chunk: &Vec<Vec<i16>>) -> (r: Result<Offer, EngineError>)
        requires
            old(self).wf(),
        ensures
            final(self).wf(),
            final(self).same_setup(old(self)),
            final(self).frames_output_of() == old(self).frames_output_of(),
            old(self).state_of() != PlaybackState::Playing ==> *final(self) == *old(self) && r == Ok::<Offer, EngineError>(
                if is_terminal(old(self).state_of()) || old(self).state_of() == PlaybackState::Draining {
                    Offer::Closed
                } else {
                    Offer::Wait
                },
            ),
            old(self).state_of() == PlaybackState::Playing && !frames_fit(frames_view(chunk@), old(self).channels_of())
                ==> r == Err::<Offer, EngineError>(EngineError::CorruptStream)
                && final(self).state_of() == PlaybackState::Failed
                && final(self).failure_of() == Some(EngineError::CorruptStream)
                && final(self).buffered() == Seq::<Seq<i16>>::empty(),
            old(self).state_of() == PlaybackState::Playing && frames_fit(frames_view(chunk@), old(self).channels_of())
                ==> {
                let t = transformed(frames_view(chunk@), old(self).params_of());
                if old(self).buffered().len() + t.len() <= old(self).capacity_of() {
                    r == Ok::<Offer, EngineError>(Offer::Accepted)
                    && final(self).state_of() == PlaybackState::Playing
                    && final(self).buffered() == old(self).buffered() + t
                    && final(self).failure_of() == old(self).failure_of()
                } else {
                    r == Ok::<Offer, EngineError>(Offer::Wait) && *final(self) == *old(self)
                }
            },
    {
        match self.state {
            PlaybackState::Playing => {},
            PlaybackState::Draining | PlaybackState::Stopped | PlaybackState::Failed => {
                return Ok(Offer::Closed);
            },
            _ => {
                return Ok(Offer::Wait);
            },
        }
        if !chunk_fits(chunk, self.channels) {
            self.enter_failed(EngineError::CorruptStream);
            return Err(EngineError::CorruptStream);
        }
        let gained = apply_gain_chunk(chunk, self.params.volume_milli);
        let out = retime(&gained, self.params.speed_milli);
        proof {
            lemma_transformed_fits(frames_view(chunk@), self.params, self.channels as nat);
            assert forall|i: int| 0 <= i < self.buffer@.len() + frames_view(out@).len() implies
                (#[trigger] (self.buffer@ + frames_view(out@))[i]).len() == self.channels by {
                if i >= self.buffer@.len() {
                    assert(frames_view(out@)[i - self.buffer@.len()].len() == self.channels);
                }
            }
        }
        match self.buffer.push(&out) {
            Ok(()) => Ok(Offer::Accepted),
            Err(_) => Ok(Offer::Wait),
        }
    }

    /// The output asks for `count` frames and always gets exactly that
    /// many at once: queued frames first (while playing or draining), then
    /// silence for the shortfall. A draining session whose queue runs dry
    /// ends in `Stopped` and releases the device.
    pub fn pull(&mut self, count: usize) -> (r: Vec<Vec<i16>>)
        requires
            old(self).wf(),
        ensures
            final(self).wf(),
            final(self).same_setup(old(self)),
            final(self).failure_of() == old(self).failure_of(),
            ({
                let k = pulled(old(self).state_of(), old(self).buffered().len(), count as nat);
                &&& r@.len() == count
                &&& frames_fit(frames_view(r@), old(self).channels_of())
                &&& frames_view(r@).take(k as int) == old(self).buffered().take(k as int)
                &&& forall|i: int| k <= i < count ==> (#[trigger] r@[i])@ == silence(old(self).channels_of())
                &&& final(self).buffered() == old(self).buffered().skip(k as int)
                &&& final(self).state_of() == after_pull(old(self).state_of(), old(self).buffered().len(), count as nat)
                &&& final(self).frames_output_of() == if old(self).frames_output_of() + k <= u64::MAX {
                    old(self).frames_output_of() + k
                } else {
                    u64::MAX as nat
                }
            }),
    {
        let ghost k = pulled(self.state, self.buffer@.len(), count as nat);
        let live = match self.state {
            PlaybackState::Playing => true,
            PlaybackState::Draining => true,
            _ => false,
        };
        let mut out: Vec<Vec<i16>> = if live { self.buffer.pop(count) } else { Vec::new() };
        assert(out@.len() == k);
        let taken = out.len();
        if taken as u64 <= u64::MAX - self.frames_output {
            self.frames_output = self.frames_output + taken as u64;
        } else {
            self.frames_output = u64::MAX;
        }
        if self.state == PlaybackState::Draining && self.buffer.len() == 0 {
            self.move_to(PlaybackState::Stopped);
        }
        let ghost head = frames_view(out@);
        proof {
            assert forall|i: int| 0 <= i < self.buffer@.len() implies
                (#[trigger] self.buffer@[i]).len() == self.channels by {
                assert(self.buffer@[i] == old(self).buffer@[i + k]);
            }
            assert forall|i: int| 0 <= i < head.len() implies (#[trigger] head[i]).len() == self.channels by {
                assert(head[i] == old(self).buffer@[i]);
            }
        }
        while out.len() < count
            invariant
                forall|i: int| 0 <= i < k ==> (#[trigger] head[i]).len() == self.channels,
                k <= out@.len() <= count,
                frames_view(out@).take(k as int) == head,
                head.len() == k,
                forall|i: int| k <= i < out@.len() ==> (#[trigger] out@[i])@ == silence(self.channels as nat),
            decreases count - out.len(),
        {
            let f = silent_frame(self.channels);
            let ghost prev = out@;
            out.push(f);
            proof {
                assert(frames_view(out@).take(k as int) =~= frames_view(prev).take(k as int));
            }
        }
        proof {
            assert(head =~= frames_view(out@).take(k as int));
            assert forall|i: int| 0 <= i < out@.len() implies
                (#[trigger] frames_view(out@)[i]).len() == self.channels by {
                if i >= k {
                    assert(out@[i]@ == silence(self.channels as nat));
                } else {
                    assert(frames_view(out@)[i] == frames_view(out@).take(k as int)[i]);
                }
            }
        }
        out
    }

    /// The parts of a session that every operation leaves alone unless it
    /// says otherwise.
    pub open spec fn same_setup(&self, other: &PlaybackSession) -> bool {
        &&& self.capacity_of() == other.capacity_of()
        &&& self.channels_of() == other.channels_of()
        &&& self.sample_rate_of() == other.sample_rate_of()
        &&& self.params_of() == other.params_of()
    }
}

} // verus!
