//! The playback engine: one output sink, one live session at a time.
//!
//! The engine decides; its caller acts. Opening the stream, decoding it and
//! driving the audio device are the caller's work. `Player` keeps what the
//! sink holds and at which volume, hands out a session token for every
//! request to play, and says for every outcome what is to be done to the
//! sink, so that only the newest request can ever put audio on it.

use crate::radios::Station;
use vstd::prelude::*;

verus! {

/// The volume, in percent, of a new engine.
pub const DEFAULT_VOLUME: u8 = 20;

/// The highest volume, in percent.
pub const MAX_VOLUME: u8 = 100;

/// The bytes to buffer before playback starts when the bitrate is unknown.
pub const DEFAULT_PREFETCH_BYTES: u64 = 256 * 1024;

/// The fixed capacity, in bytes, of the buffer between network and decoder.
pub const BUFFER_CAPACITY: usize = 512 * 1024;

/// The seconds of audio to buffer before playback starts.
pub const PREFETCH_SECONDS: u64 = 5;

/// Why an operation of the engine failed.
#[derive(Clone, Copy, Debug, PartialEq, Eq, Structural)]
pub enum PlayerError {
    /// The stream could not be opened.
    ConnectionError,
    /// The stream does not hold audio that can be decoded.
    DecodeError,
    /// The output device could not be opened.
    StreamCreationError,
    /// The lock on the sink could not be taken.
    SinkLockError,
    /// Every session token has been handed out.
    SessionsExhausted,
}

/// How the caller's attempt to open and decode a stream ended.
#[derive(Clone, Copy, Debug, PartialEq, Eq, Structural)]
pub enum StreamOutcome {
    /// The stream is open and a decoder for it stands ready.
    Ready,
    /// The connection failed.
    ConnectFailed,
    /// The stream was opened but no decoder could be set up for it.
    DecodeFailed,
}

/// What the caller has to do to the sink.
#[derive(Clone, Copy, Debug, PartialEq, Eq, Structural)]
pub enum SinkCommand {
    /// Stop what the sink plays and append the new session's audio.
    Replace,
    /// Stop what the sink plays.
    Stop,
    /// Leave the sink alone, and drop the audio at hand, if any.
    Nothing,
}

/// The engine as mathematical values.
pub struct PlayerState {
    /// The volume in percent.
    pub volume: nat,
    /// The session whose audio the sink holds, if any.
    pub playing: Option<nat>,
    /// The newest session handed out; zero before the first.
    pub newest: nat,
}

/// What holds of every engine: the volume is a percentage, and the sink
/// holds no session that was never handed out.
pub open spec fn valid(state: PlayerState) -> bool {
    &&& state.volume <= MAX_VOLUME
    &&& state.playing matches Some(session) ==> 1 <= session <= state.newest
}

/// A new engine: idle, at the default volume.
pub open spec fn initial_state() -> PlayerState {
    PlayerState { volume: DEFAULT_VOLUME as nat, playing: None, newest: 0 }
}

/// The state after a request to play: a new session is the newest one; the
/// sink is untouched.
pub open spec fn after_request(state: PlayerState) -> PlayerState {
    PlayerState { newest: state.newest + 1, ..state }
}

/// What is to be done when the attempt of `session` has ended in
/// `outcome`. A failed attempt never touches the sink. A stream that stands
/// ready replaces what plays if its session is still the newest, and is
/// dropped if a newer request has come in the meantime.
pub open spec fn verdict(state: PlayerState, session: nat, outcome: StreamOutcome) -> Result<
    SinkCommand,
    PlayerError,
> {
    match outcome {
        StreamOutcome::ConnectFailed => Err(PlayerError::ConnectionError),
        StreamOutcome::DecodeFailed => Err(PlayerError::DecodeError),
        StreamOutcome::Ready => if session == state.newest && session >= 1 {
            Ok(SinkCommand::Replace)
        } else {
            Ok(SinkCommand::Nothing)
        },
    }
}

/// The state after the attempt of `session` has ended in `outcome`: the
/// session plays exactly when the verdict is to replace; otherwise nothing
/// changes.
pub open spec fn after_outcome(
    state: PlayerState,
    session: nat,
    outcome: StreamOutcome,
) -> PlayerState {
    if verdict(state, session, outcome) == Ok::<SinkCommand, PlayerError>(SinkCommand::Replace) {
        PlayerState { playing: Some(session), ..state }
    } else {
        state
    }
}

/// The state after appending the audio of `session` has failed: if the sink
/// was given over to that session, nothing plays; otherwise nothing changes.
pub open spec fn after_append_failure(state: PlayerState, session: nat) -> PlayerState {
    if state.playing == Some(session) {
        PlayerState { playing: None, ..state }
    } else {
        state
    }
}

/// The state after a pause: nothing plays.
pub open spec fn after_pause(state: PlayerState) -> PlayerState {
    PlayerState { playing: None, ..state }
}

/// A requested volume brought into the range of percentages.
pub open spec fn clamp_percent(percent: int) -> nat {
    if percent < 0 {
        0
    } else if percent > MAX_VOLUME {
        MAX_VOLUME as nat
    } else {
        percent as nat
    }
}

/// The state after a volume request.
pub open spec fn after_volume(state: PlayerState, percent: int) -> PlayerState {
    PlayerState { volume: clamp_percent(percent), ..state }
}

/// A volume request outside the range from 0 to 100 sets the nearest bound,
/// and that bound is what a reading of the volume gives afterwards.
pub proof fn lemma_volume_clamps(state: PlayerState, percent: int)
    requires
        percent < 0 || percent > 100,
    ensures
        percent < 0 ==> after_volume(state, percent).volume == 0,
        percent > 100 ==> after_volume(state, percent).volume == 100,
{
}

/// A volume request within the range from 0 to 100 is read back unchanged.
pub proof fn lemma_volume_round_trip(state: PlayerState, percent: int)
    requires
        0 <= percent <= 100,
    ensures
        after_volume(state, percent).volume == percent,
{
}

/// A volume request touches nothing but the volume.
pub proof fn lemma_volume_keeps_playback(state: PlayerState, percent: int)
    ensures
        after_volume(state, percent).playing == state.playing,
        after_volume(state, percent).newest == state.newest,
{
}

/// Pausing twice is pausing once: after the first pause nothing plays, a
/// second pause changes nothing, and neither touches the volume.
pub proof fn lemma_pause_idempotent(state: PlayerState)
    ensures
        after_pause(state).playing is None,
        after_pause(after_pause(state)) == after_pause(state),
        after_pause(state).volume == state.volume,
        after_pause(after_pause(state)).volume == state.volume,
{
}

/// A failed attempt leaves the engine exactly as it was: what played
/// before goes on playing.
pub proof fn lemma_failure_keeps_state(state: PlayerState, session: nat, outcome: StreamOutcome)
    requires
        outcome != StreamOutcome::Ready,
    ensures
        verdict(state, session, outcome) is Err,
        after_outcome(state, session, outcome) == state,
{
}

/// Only the newest session can reach the sink: for a session that is not
/// the newest, whatever its outcome, the command is never to replace, and
/// the engine stays as it was.
pub proof fn lemma_stale_session_is_dropped(
    state: PlayerState,
    session: nat,
    outcome: StreamOutcome,
)
    requires
        session != state.newest,
    ensures
        verdict(state, session, outcome) != Ok::<SinkCommand, PlayerError>(SinkCommand::Replace),
        after_outcome(state, session, outcome) == state,
{
}

/// Of two requests made one after the other, only the second reaches the
/// sink, in whichever order the two attempts end: the first is dropped,
/// whether it ends before or after the second has taken the sink, and the
/// second replaces what plays.
pub proof fn lemma_newest_request_wins(state: PlayerState)
    requires
        valid(state),
    ensures
        ({
            let first = after_request(state);
            let second = after_request(first);
            let a = first.newest;
            let b = second.newest;
            let b_plays = after_outcome(second, b, StreamOutcome::Ready);
            &&& a != b
            &&& verdict(second, a, StreamOutcome::Ready) == Ok::<SinkCommand, PlayerError>(
                SinkCommand::Nothing,
            )
            &&& after_outcome(second, a, StreamOutcome::Ready) == second
            &&& verdict(second, b, StreamOutcome::Ready) == Ok::<SinkCommand, PlayerError>(
                SinkCommand::Replace,
            )
            &&& b_plays.playing == Some(b)
            &&& verdict(b_plays, a, StreamOutcome::Ready) == Ok::<SinkCommand, PlayerError>(
                SinkCommand::Nothing,
            )
            &&& after_outcome(b_plays, a, StreamOutcome::Ready) == b_plays
        }),
{
}

/// Every step of the engine leads from a valid state to a valid state.
pub proof fn lemma_steps_keep_valid(
    state: PlayerState,
    session: nat,
    outcome: StreamOutcome,
    percent: int,
)
    requires
        valid(state),
    ensures
        valid(initial_state()),
        valid(after_request(state)),
        valid(after_outcome(state, session, outcome)),
        valid(after_append_failure(state, session)),
        valid(after_pause(state)),
        valid(after_volume(state, percent)),
{
}

/// The number of bytes to buffer before playback starts: five seconds of
/// audio at the given bitrate in kilobits per second, and never less than
/// the default; the default when the bitrate is unknown.
pub open spec fn prefetch_bytes(bitrate: Option<u32>) -> nat {
    match bitrate {
        Some(kilobits) => {
            let estimate = (kilobits / 8) * 1024 * PREFETCH_SECONDS;
            if estimate > DEFAULT_PREFETCH_BYTES {
                estimate as nat
            } else {
                DEFAULT_PREFETCH_BYTES as nat
            }
        },
        None => DEFAULT_PREFETCH_BYTES as nat,
    }
}

/// Computes [`prefetch_bytes`].
pub fn get_prefetch_bytes(bitrate: Option<u32>) -> (bytes: u64)
    ensures
        bytes == prefetch_bytes(bitrate),
{
    match bitrate {
        Some(kilobits) => {
            let estimate: u64 = (kilobits as u64 / 8) * 1024 * PREFETCH_SECONDS;
            if estimate > DEFAULT_PREFETCH_BYTES {
                estimate
            } else {
                DEFAULT_PREFETCH_BYTES
            }
        },
        None => DEFAULT_PREFETCH_BYTES,
    }
}

/// How a stream is to be buffered and split.
#[derive(Clone, Copy, Debug, PartialEq, Eq, Structural)]
pub struct StreamPlan {
    /// The bytes to accumulate before playback starts.
    pub prefetch_bytes: u64,
    /// The hard ceiling of the buffer, whatever the bitrate.
    pub buffer_capacity: usize,
    /// The metadata interval, if the stream carries metadata.
    pub metadata_interval: Option<usize>,
}

/// The plan for a stream whose response headers gave this bitrate and this
/// metadata interval. An interval of zero means no metadata.
pub fn plan_stream(bitrate: Option<u32>, metadata_interval: Option<usize>) -> (plan: StreamPlan)
    ensures
        plan.prefetch_bytes == prefetch_bytes(bitrate),
        plan.buffer_capacity == BUFFER_CAPACITY,
        plan.metadata_interval == match metadata_interval {
            Some(n) if n > 0 => Some(n),
            _ => None::<usize>,
        },
{
    let interval = match metadata_interval {
        Some(n) => if n > 0 {
            Some(n)
        } else {
            None
        },
        None => None,
    };
    StreamPlan {
        prefetch_bytes: get_prefetch_bytes(bitrate),
        buffer_capacity: BUFFER_CAPACITY,
        metadata_interval: interval,
    }
}

/// What the caller needs to open the stream of a station.
#[derive(Debug)]
pub struct PlayRequest {
    /// The token of this request; it goes back into [`Player::finish`].
    pub session: u64,
    /// The address to open.
    pub url: String,
    /// The station's display name, which a successful play returns.
    pub name: String,
    /// Whether to ask the server for in-band metadata.
    pub request_metadata: bool,
}

/// The playback engine.
pub struct Player {
    volume: u8,
    playing: Option<u64>,
    newest: u64,
}

impl View for Player {
    type V = PlayerState;

    closed spec fn view(&self) -> PlayerState {
        PlayerState {
            volume: self.volume as nat,
            playing: match self.playing {
                Some(session) => Some(session as nat),
                None => None,
            },
            newest: self.newest as nat,
        }
    }
}

impl Player {
    #[verifier::type_invariant]
    spec fn inv(&self) -> bool {
        valid(self@)
    }

    /// A new engine, once the output device has been opened. Without a
    /// device there is no engine.
    pub fn new(device_opened: bool) -> (made: Result<Player, PlayerError>)
        ensures
            match made {
                Ok(player) => device_opened && player@ == initial_state() && valid(player@),
                Err(error) => !device_opened && error == PlayerError::StreamCreationError,
            },
    {
        if device_opened {
            Ok(Player { volume: DEFAULT_VOLUME, playing: None, newest: 0 })
        } else {
            Err(PlayerError::StreamCreationError)
        }
    }

    /// Takes a request to play `station`: hands out a new session, which
    /// supersedes every earlier one, and says what to open. The sink is not
    /// touched until the attempt has ended. The request fails, and changes
    /// nothing, only when the tokens have run out.
    pub fn play(&mut self, station: &Station) -> (result: Result<PlayRequest, PlayerError>)
        ensures
            valid(final(self)@),
            match result {
                Ok(request) => {
                    &&& old(self)@.newest < u64::MAX
                    &&& final(self)@ == after_request(old(self)@)
                    &&& request.session == final(self)@.newest
                    &&& request.url@ == station@.url
                    &&& request.name@ == station@.name
                    &&& request.request_metadata
                },
                Err(error) => {
                    &&& old(self)@.newest == u64::MAX
                    &&& final(self)@ == old(self)@
                    &&& error == PlayerError::SessionsExhausted
                },
            },
    {
        proof {
            use_type_invariant(&*self);
        }
        if self.newest == u64::MAX {
            return Err(PlayerError::SessionsExhausted);
        }
        self.newest = self.newest + 1;
        Ok(
            PlayRequest {
                session: self.newest,
                url: station.get_url().to_owned(),
                name: station.get_name().to_owned(),
                request_metadata: true,
            },
        )
    }

    /// Takes the end of the attempt that `session` stands for, and says
    /// what is to be done to the sink. Call it with the sink locked, and act
    /// on the command before the lock is released.
    pub fn finish(&mut self, session: u64, outcome: StreamOutcome) -> (result: Result<
        SinkCommand,
        PlayerError,
    >)
        ensures
            result == verdict(old(self)@, session as nat, outcome),
            final(self)@ == after_outcome(old(self)@, session as nat, outcome),
            valid(final(self)@),
    {
        proof {
            use_type_invariant(&*self);
        }
        match outcome {
            StreamOutcome::ConnectFailed => Err(PlayerError::ConnectionError),
            StreamOutcome::DecodeFailed => Err(PlayerError::DecodeError),
            StreamOutcome::Ready => {
                if session == self.newest && session >= 1 {
                    self.playing = Some(session);
                    Ok(SinkCommand::Replace)
                } else {
                    Ok(SinkCommand::Nothing)
                }
            },
        }
    }

    /// Takes the news that the audio of `session` could not be appended
    /// after the sink had been stopped for it. If the sink was given over to
    /// that session, nothing plays now and the sink is to be stopped;
    /// otherwise nothing is to be done.
    pub fn append_failed(&mut self, session: u64) -> (command: SinkCommand)
        ensures
            final(self)@ == after_append_failure(old(self)@, session as nat),
            valid(final(self)@),
            command == if old(self)@.playing == Some(session as nat) {
                SinkCommand::Stop
            } else {
                SinkCommand::Nothing
            },
    {
        proof {
            use_type_invariant(&*self);
        }
        match self.playing {
            Some(current) => {
                if current == session {
                    self.playing = None;
                    SinkCommand::Stop
                } else {
                    SinkCommand::Nothing
                }
            },
            None => SinkCommand::Nothing,
        }
    }

    /// Stops playback. The sink is to be stopped whether or not the engine
    /// thinks that something plays; the volume stays.
    pub fn pause(&mut self) -> (command: SinkCommand)
        ensures
            final(self)@ == after_pause(old(self)@),
            valid(final(self)@),
            command == SinkCommand::Stop,
    {
        proof {
            use_type_invariant(&*self);
        }
        self.playing = None;
        SinkCommand::Stop
    }

    /// The volume in percent.
    pub fn get_volume(&self) -> (percent: u8)
        ensures
            percent == self@.volume,
            percent <= MAX_VOLUME,
    {
        proof {
            use_type_invariant(self);
        }
        self.volume
    }

    /// Sets the volume to `percent`, brought into the range from 0 to 100,
    /// and returns the volume that was set: the value to apply to the sink
    /// and to announce to listeners.
    pub fn set_volume(&mut self, percent: i64) -> (applied: u8)
        ensures
            final(self)@ == after_volume(old(self)@, percent as int),
            valid(final(self)@),
            applied == clamp_percent(percent as int),
    {
        proof {
            use_type_invariant(&*self);
        }
        let applied: u8 = if percent < 0 {
            0
        } else if percent > 100 {
            MAX_VOLUME
        } else {
            percent as u8
        };
        self.volume = applied;
        applied
    }

    /// Whether audio is on the sink.
    pub fn is_playing(&self) -> (playing: bool)
        ensures
            playing == self@.playing is Some,
    {
        self.playing.is_some()
    }

    /// The session whose audio the sink holds, if any.
    pub fn current_session(&self) -> (session: Option<u64>)
        ensures
            match session {
                Some(s) => self@.playing == Some(s as nat),
                None => self@.playing is None,
            },
    {
        self.playing
    }
}

} // verus!
