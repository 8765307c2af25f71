use vstd::prelude::*;

use crate::action::{Action, ActionType};
use crate::output::{AudioOutput, Device};

verus! {

/// Volume, in percent, of a freshly created player.
pub const DEFAULT_VOLUME: u8 = 50;

/// Highest volume, in percent.
pub const MAX_VOLUME: u8 = 100;

/// Amount, in percent, by which one volume command moves the volume.
pub const VOLUME_STEP: u8 = 5;

/// One playable catalog entry: display name, file extension and duration in
/// whole seconds.
#[derive(Clone, Debug, PartialEq, Eq)]
pub struct Track {
    pub name: String,
    pub ext: String,
    pub duration_secs: u64,
}

impl Track {
    pub fn new(name: String, ext: String, duration_secs: u64) -> (r: Track)
        ensures
            r.name == name,
            r.ext == ext,
            r.duration_secs == duration_secs,
    {
        Track { name, ext, duration_secs }
    }

    /// An identical copy of this entry.
    pub fn duplicate(&self) -> (r: Track)
        ensures
            r == *self,
    {
        Track { name: self.name.clone(), ext: self.ext.clone(), duration_secs: self.duration_secs }
    }
}

/// Transport state of a player. Times are in milliseconds; `start_ms` is the
/// clock reading at which the current stream started.
#[derive(Clone, Debug, PartialEq, Eq)]
pub struct PlaybackState {
    pub track: Option<Track>,
    pub volume: u8,
    pub position_ms: u64,
    pub duration_ms: u64,
    pub start_ms: Option<u64>,
    pub finished: bool,
}

impl PlaybackState {
    pub open spec fn wf(&self) -> bool {
        &&& self.volume <= MAX_VOLUME
        &&& self.position_ms <= self.duration_ms
        &&& (self.duration_ms > 0 && self.position_ms >= self.duration_ms) ==> self.finished
    }
}

/// State of a player that has played nothing yet.
pub open spec fn idle_state() -> PlaybackState {
    PlaybackState {
        track: None,
        volume: DEFAULT_VOLUME,
        position_ms: 0,
        duration_ms: 0,
        start_ms: None,
        finished: false,
    }
}

/// Whole seconds as milliseconds, saturating at the largest `u64`.
pub open spec fn secs_to_ms(secs: u64) -> u64 {
    if secs <= u64::MAX / 1000 {
        (secs * 1000) as u64
    } else {
        u64::MAX
    }
}

/// Result of `play` on `t`, where `opened` tells whether the output could
/// open and decode it. A failed open changes nothing.
pub open spec fn play_step(s: PlaybackState, t: Track, opened: bool, now: u64) -> PlaybackState {
    if opened {
        PlaybackState {
            track: Some(t),
            position_ms: 0,
            duration_ms: secs_to_ms(t.duration_secs),
            start_ms: Some(now),
            finished: false,
            ..s
        }
    } else {
        s
    }
}

/// Time elapsed since `start`, clamped to `[0, duration]`.
pub open spec fn clamped_elapsed(start: u64, now: u64, duration: u64) -> u64 {
    if now <= start {
        0
    } else if now - start < duration {
        (now - start) as u64
    } else {
        duration
    }
}

/// Result of a tick at clock reading `now`, where `running` tells whether the
/// output reported its stream as neither paused nor run dry.
pub open spec fn tick_step(s: PlaybackState, now: u64, running: bool) -> PlaybackState {
    let position = match s.start_ms {
        Some(start) => if running {
            clamped_elapsed(start, now, s.duration_ms)
        } else {
            s.position_ms
        },
        None => s.position_ms,
    };
    PlaybackState {
        position_ms: position,
        finished: s.finished || (s.duration_ms > 0 && position >= s.duration_ms),
        ..s
    }
}

/// Result of `stop`: position back to zero, no stream start, track kept.
pub open spec fn stop_step(s: PlaybackState) -> PlaybackState {
    PlaybackState { position_ms: 0, start_ms: None, ..s }
}

/// Volume after one step up or down, clamped to `[0, MAX_VOLUME]`.
pub open spec fn volume_step(v: u8, up: bool) -> u8 {
    if up {
        if v + VOLUME_STEP >= MAX_VOLUME {
            MAX_VOLUME
        } else {
            (v + VOLUME_STEP) as u8
        }
    } else {
        if v <= VOLUME_STEP {
            0
        } else {
            (v - VOLUME_STEP) as u8
        }
    }
}

/// Result of delivering `a` to a player.
pub open spec fn player_update(s: PlaybackState, a: Action, now: u64, running: bool) -> PlaybackState {
    match a {
        Action::Tick => tick_step(s, now, running),
        Action::VolumeUp => PlaybackState { volume: volume_step(s.volume, true), ..s },
        Action::VolumeDown => PlaybackState { volume: volume_step(s.volume, false), ..s },
        _ => s,
    }
}

/// State after the first `k` ticks of a run in which the i-th tick comes at
/// clock reading `nows[i]` and the output reports `runs[i]`.
pub open spec fn after_ticks(s: PlaybackState, nows: Seq<u64>, runs: Seq<bool>, k: nat) -> PlaybackState
    decreases k,
{
    if k == 0 {
        s
    } else {
        tick_step(after_ticks(s, nows, runs, (k - 1) as nat), nows[k - 1], runs[k - 1])
    }
}

/// The clock readings never go back, and the position has not run ahead of
/// the first reading.
pub open spec fn ticks_well_timed(s: PlaybackState, nows: Seq<u64>, runs: Seq<bool>) -> bool {
    &&& runs.len() == nows.len()
    &&& forall|i: int, j: int| 0 <= i <= j < nows.len() ==> nows[i] <= nows[j]
    &&& (nows.len() > 0 && s.start_ms is Some) ==> s.start_ms->0 + s.position_ms <= nows[0]
}

proof fn lemma_tick_prefix(s: PlaybackState, nows: Seq<u64>, runs: Seq<bool>, k: nat)
    requires
        s.wf(),
        ticks_well_timed(s, nows, runs),
        k <= nows.len(),
    ensures
        after_ticks(s, nows, runs, k).wf(),
        after_ticks(s, nows, runs, k).duration_ms == s.duration_ms,
        after_ticks(s, nows, runs, k).start_ms == s.start_ms,
        (k > 0 && s.start_ms is Some) ==> s.start_ms->0 + after_ticks(s, nows, runs, k).position_ms
            <= nows[k - 1],
        k > 0 ==> after_ticks(s, nows, runs, (k - 1) as nat).position_ms <= after_ticks(
            s,
            nows,
            runs,
            k,
        ).position_ms,
        k > 0 ==> (after_ticks(s, nows, runs, (k - 1) as nat).finished ==> after_ticks(
            s,
            nows,
            runs,
            k,
        ).finished),
        k > 0 ==> after_ticks(s, nows, runs, k).finished == (s.finished || (s.duration_ms > 0
            && after_ticks(s, nows, runs, k).position_ms >= s.duration_ms)),
    decreases k,
{
    if k > 0 {
        lemma_tick_prefix(s, nows, runs, (k - 1) as nat);
        if k > 1 {
            assert(nows[k - 2] <= nows[k - 1]);
        } else {
            assert(nows[0] <= nows[k - 1]);
        }
    }
}

proof fn lemma_tick_pair(s: PlaybackState, nows: Seq<u64>, runs: Seq<bool>, i: nat, j: nat)
    requires
        s.wf(),
        ticks_well_timed(s, nows, runs),
        i <= j <= nows.len(),
    ensures
        after_ticks(s, nows, runs, i).position_ms <= after_ticks(s, nows, runs, j).position_ms,
        after_ticks(s, nows, runs, i).finished ==> after_ticks(s, nows, runs, j).finished,
    decreases j - i,
{
    if i < j {
        lemma_tick_pair(s, nows, runs, i, (j - 1) as nat);
        lemma_tick_prefix(s, nows, runs, j);
    }
}

/// Over a run of ticks with no play in between, and a clock that never goes
/// back, the position never decreases and never passes the duration; once
/// finished the player stays finished, and after each tick it is finished
/// exactly when it already was before the run or the position has reached a
/// non-zero duration. So `finished` turns from false to true at most once,
/// at the first tick whose position reaches the duration.
pub proof fn lemma_ticks_monotone(s: PlaybackState, nows: Seq<u64>, runs: Seq<bool>)
    requires
        s.wf(),
        ticks_well_timed(s, nows, runs),
    ensures
        forall|i: nat, j: nat|
            i <= j <= nows.len() ==> #[trigger] after_ticks(s, nows, runs, i).position_ms
                <= #[trigger] after_ticks(s, nows, runs, j).position_ms <= s.duration_ms,
        forall|i: nat, j: nat|
            i <= j <= nows.len() && #[trigger] after_ticks(s, nows, runs, i).finished
                ==> #[trigger] after_ticks(s, nows, runs, j).finished,
        forall|k: nat|
            1 <= k <= nows.len() ==> #[trigger] after_ticks(s, nows, runs, k).finished == (s.finished
                || (s.duration_ms > 0 && after_ticks(s, nows, runs, k).position_ms
                >= s.duration_ms)),
{
    assert forall|i: nat, j: nat| i <= j <= nows.len() implies #[trigger] after_ticks(
        s,
        nows,
        runs,
        i,
    ).position_ms <= #[trigger] after_ticks(s, nows, runs, j).position_ms <= s.duration_ms
        && (after_ticks(s, nows, runs, i).finished ==> after_ticks(s, nows, runs, j).finished) by {
        lemma_tick_pair(s, nows, runs, i, j);
        lemma_tick_prefix(s, nows, runs, j);
    }
    assert forall|k: nat| 1 <= k <= nows.len() implies #[trigger] after_ticks(
        s,
        nows,
        runs,
        k,
    ).finished == (s.finished || (s.duration_ms > 0 && after_ticks(s, nows, runs, k).position_ms
        >= s.duration_ms)) by {
        lemma_tick_prefix(s, nows, runs, k);
    }
}

/// Playing `b` right after playing `a` leaves nothing of `a`: the state is
/// the one that playing `b` alone gives, with position zero and the duration
/// of `b`; only the volume carries over.
pub proof fn lemma_play_replaces(
    s: PlaybackState,
    a: Track,
    a_opened: bool,
    a_now: u64,
    b: Track,
    b_now: u64,
)
    ensures
        play_step(play_step(s, a, a_opened, a_now), b, true, b_now) == play_step(s, b, true, b_now),
        play_step(play_step(s, a, a_opened, a_now), b, true, b_now) == (PlaybackState {
            track: Some(b),
            volume: s.volume,
            position_ms: 0,
            duration_ms: secs_to_ms(b.duration_secs),
            start_ms: Some(b_now),
            finished: false,
        }),
{
}

/// Volume after a series of steps, up where `ups[i]` holds and down elsewhere.
pub open spec fn after_volume_steps(v: u8, ups: Seq<bool>) -> u8
    decreases ups.len(),
{
    if ups.len() == 0 {
        v
    } else {
        volume_step(after_volume_steps(v, ups.drop_last()), ups.last())
    }
}

/// However many volume steps are taken, the volume stays within
/// `[0, MAX_VOLUME]`.
pub proof fn lemma_volume_in_range(v: u8, ups: Seq<bool>)
    requires
        v <= MAX_VOLUME,
    ensures
        after_volume_steps(v, ups) <= MAX_VOLUME,
    decreases ups.len(),
{
    if ups.len() > 0 {
        lemma_volume_in_range(v, ups.drop_last());
    }
}

/// The playback state machine: owns the output device and the transport
/// state, and derives the position from clock readings.
pub struct Player<O> {
    state: PlaybackState,
    output: Device<O>,
}

impl<O> View for Player<O> {
    type V = PlaybackState;

    closed spec fn view(&self) -> PlaybackState {
        self.state
    }
}

impl<O: AudioOutput> Player<O> {
    /// The (name, extension) of the track last handed to the output.
    pub closed spec fn output_requested(&self) -> Option<(Seq<char>, Seq<char>)> {
        self.output.requested()
    }

    /// The (name, extension) of the track that the output plays, if any.
    pub closed spec fn output_playing(&self) -> Option<(Seq<char>, Seq<char>)> {
        self.output.playing()
    }

    /// The volume, in percent, last handed to the output.
    pub closed spec fn output_level(&self) -> Option<u8> {
        self.output.level()
    }

    /// Whether the output is as it was in `old`.
    pub open spec fn output_kept(&self, old: &Self) -> bool {
        &&& self.output_requested() == old.output_requested()
        &&& self.output_playing() == old.output_playing()
        &&& self.output_level() == old.output_level()
    }

    /// Whether `t` was the last track handed to the output, which then plays
    /// it alone when `opened` and nothing otherwise, at the player's volume.
    pub open spec fn played(&self, t: Track, opened: bool) -> bool {
        &&& self.output_requested() == Some((t.name@, t.ext@))
        &&& if opened {
            self.output_playing() == Some((t.name@, t.ext@))
        } else {
            self.output_playing() is None
        }
        &&& self.output_level() == Some(self@.volume)
    }

    /// An idle player driving `output`, which is set to the player's volume.
    pub fn new(output: O) -> (r: Player<O>)
        ensures
            r@ == idle_state(),
            r.output_requested() is None,
            r.output_playing() is None,
            r.output_level() == Some(DEFAULT_VOLUME),
    {
        let mut output = Device::new(output);
        output.set_volume(DEFAULT_VOLUME);
        Player {
            state: PlaybackState {
                track: None,
                volume: DEFAULT_VOLUME,
                position_ms: 0,
                duration_ms: 0,
                start_ms: None,
                finished: false,
            },
            output,
        }
    }

    /// Records the outcome of opening `track` at clock reading `now_ms`.
    pub fn apply_play(&mut self, track: &Track, opened: bool, now_ms: u64)
        requires
            old(self)@.wf(),
        ensures
            final(self)@ == play_step(old(self)@, *track, opened, now_ms),
            final(self)@.wf(),
            final(self).output_kept(old(self)),
    {
        if opened {
            let duration_ms: u64 = if track.duration_secs <= u64::MAX / 1000 {
                assert(track.duration_secs * 1000 <= u64::MAX) by (nonlinear_arith)
                    requires
                        track.duration_secs <= u64::MAX / 1000,
                ;
                track.duration_secs * 1000
            } else {
                u64::MAX
            };
            self.state.track = Some(track.duplicate());
            self.state.position_ms = 0;
            self.state.duration_ms = duration_ms;
            self.state.start_ms = Some(now_ms);
            self.state.finished = false;
        }
    }

    /// Stops the current stream, then opens and starts `track` at clock
    /// reading `now_ms`, at the player's volume. Returns whether the output
    /// opened it. Either way the old stream is gone: the output then plays
    /// `track` alone, or nothing. On failure the transport state is left as
    /// it was.
    pub fn play_sample(&mut self, track: &Track, now_ms: u64) -> (opened: bool)
        requires
            old(self)@.wf(),
        ensures
            final(self)@ == play_step(old(self)@, *track, opened, now_ms),
            final(self)@.wf(),
            final(self).played(*track, opened),
    {
        self.output.stop();
        let opened = self.output.load(&track.name, &track.ext);
        self.output.set_volume(self.state.volume);
        self.apply_play(track, opened, now_ms);
        opened
    }

    /// Records a tick at clock reading `now_ms`, where `running` is what the
    /// output reported of its stream.
    pub fn apply_tick(&mut self, now_ms: u64, running: bool)
        requires
            old(self)@.wf(),
        ensures
            final(self)@ == tick_step(old(self)@, now_ms, running),
            final(self)@.wf(),
            final(self).output_kept(old(self)),
    {
        if running {
            if let Some(start) = self.state.start_ms {
                let duration = self.state.duration_ms;
                self.state.position_ms = if now_ms <= start {
                    0
                } else if now_ms - start < duration {
                    now_ms - start
                } else {
                    duration
                };
            }
        }
        if self.state.duration_ms > 0 && self.state.position_ms >= self.state.duration_ms {
            self.state.finished = true;
        }
    }

    /// Samples the output and updates the position from clock reading
    /// `now_ms`. Returns whether the output reported its stream as running.
    pub fn tick(&mut self, now_ms: u64) -> (running: bool)
        requires
            old(self)@.wf(),
        ensures
            final(self)@ == tick_step(old(self)@, now_ms, running),
            final(self)@.wf(),
            final(self).output_kept(old(self)),
    {
        let running = self.output.is_running();
        self.apply_tick(now_ms, running);
        running
    }

    /// Halts the stream and rewinds to zero, keeping the track.
    pub fn stop(&mut self)
        requires
            old(self)@.wf(),
        ensures
            final(self)@ == stop_step(old(self)@),
            final(self)@.wf(),
            final(self).output_playing() is None,
            final(self).output_requested() == old(self).output_requested(),
            final(self).output_level() == old(self).output_level(),
    {
        self.output.stop();
        self.state.position_ms = 0;
        self.state.start_ms = None;
    }

    /// Moves the volume one step up (`up`) or down, clamped, and applies it
    /// to the output.
    pub fn change_volume(&mut self, up: bool)
        requires
            old(self)@.wf(),
        ensures
            final(self)@ == (PlaybackState { volume: volume_step(old(self)@.volume, up), ..old(self)@ }),
            final(self)@.wf(),
            final(self).output_requested() == old(self).output_requested(),
            final(self).output_playing() == old(self).output_playing(),
            final(self).output_level() == Some(final(self)@.volume),
    {
        let v = self.state.volume;
        self.state.volume = if up {
            if v + VOLUME_STEP >= MAX_VOLUME {
                MAX_VOLUME
            } else {
                v + VOLUME_STEP
            }
        } else {
            if v <= VOLUME_STEP {
                0
            } else {
                v - VOLUME_STEP
            }
        };
        self.output.set_volume(self.state.volume);
    }

    /// Sets the volume to `percent`, capped at `MAX_VOLUME`, and applies it to
    /// the output.
    pub fn set_volume(&mut self, percent: u8)
        requires
            old(self)@.wf(),
        ensures
            final(self)@ == (PlaybackState {
                volume: if percent <= MAX_VOLUME { percent } else { MAX_VOLUME },
                ..old(self)@
            }),
            final(self)@.wf(),
            final(self).output_requested() == old(self).output_requested(),
            final(self).output_playing() == old(self).output_playing(),
            final(self).output_level() == Some(final(self)@.volume),
    {
        self.state.volume = if percent <= MAX_VOLUME {
            percent
        } else {
            MAX_VOLUME
        };
        self.output.set_volume(self.state.volume);
    }

    /// The action kinds a player reacts to.
    pub fn interested_actions(&self) -> (r: Vec<ActionType>)
        ensures
            r@ == seq![ActionType::Tick, ActionType::Render, ActionType::VolumeUp, ActionType::VolumeDown],
    {
        vec![ActionType::Tick, ActionType::Render, ActionType::VolumeUp, ActionType::VolumeDown]
    }

    /// Delivers `a` at clock reading `now_ms`. A player never answers with an
    /// action of its own.
    pub fn update(&mut self, a: &Action, now_ms: u64) -> (r: Option<Action>)
        requires
            old(self)@.wf(),
        ensures
            r is None,
            final(self)@.wf(),
            exists|running: bool| final(self)@ == player_update(old(self)@, *a, now_ms, running),
            final(self).output_requested() == old(self).output_requested(),
            final(self).output_playing() == old(self).output_playing(),
            (*a is VolumeUp || *a is VolumeDown) ==> final(self).output_level() == Some(final(self)@.volume),
            !(*a is VolumeUp || *a is VolumeDown) ==> final(self).output_level() == old(self).output_level(),
    {
        match a {
            Action::Tick => {
                let running = self.tick(now_ms);
                assert(final(self)@ == player_update(old(self)@, *a, now_ms, running));
            },
            Action::VolumeUp => {
                self.change_volume(true);
                assert(final(self)@ == player_update(old(self)@, *a, now_ms, true));
            },
            Action::VolumeDown => {
                self.change_volume(false);
                assert(final(self)@ == player_update(old(self)@, *a, now_ms, true));
            },
            _ => {
                assert(final(self)@ == player_update(old(self)@, *a, now_ms, true));
            },
        }
        None
    }

    /// The output device the player drives.
    pub fn output(&self) -> &O {
        self.output.backend()
    }

    pub fn volume(&self) -> (r: u8)
        ensures
            r == self@.volume,
    {
        self.state.volume
    }

    pub fn position_ms(&self) -> (r: u64)
        ensures
            r == self@.position_ms,
    {
        self.state.position_ms
    }

    pub fn duration_ms(&self) -> (r: u64)
        ensures
            r == self@.duration_ms,
    {
        self.state.duration_ms
    }

    pub fn is_finished(&self) -> (r: bool)
        ensures
            r == self@.finished,
    {
        self.state.finished
    }

    pub fn current_track(&self) -> (r: Option<Track>)
        ensures
            r == self@.track,
    {
        match &self.state.track {
            Some(t) => Some(t.duplicate()),
            None => None,
        }
    }
}

} // verus!
