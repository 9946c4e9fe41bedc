//! The player as a state machine: its states, the commands it gives its
//! backend, and each of its transitions as a function on a model.

use vstd::prelude::*;

use crate::audiotimer::TimerState;
use crate::exceptions::{PlayerError, Property};
use crate::exmetadata::MetaData;
use crate::timesync::{ActionType, EffectResult, Ramp, UNIT};

verus! {

/// Where a player stands in its life.
#[derive(Clone, Copy, Debug, PartialEq, Eq, Structural)]
pub enum PlayerState {
    /// No audio was loaded.
    Unloaded,
    /// Audio was loaded and never played.
    Loaded,
    Playing,
    Paused,
    /// Playback was stopped or ran to its end.
    Finished,
}

/// A command for the audio backend of a player. Speeds and volumes are in
/// millionths, positions in microseconds.
#[derive(Clone, Copy, Debug, PartialEq, Eq, Structural)]
pub enum BackendCommand {
    Play,
    Pause,
    Stop,
    SetVolume(i64),
    SetSpeed(i64),
    Seek(i64),
}

/// What the audio backend reports of itself.
#[derive(Clone, Copy, Debug, PartialEq, Eq, Structural)]
pub struct BackendStatus {
    /// Its position in the track, in microseconds.
    pub position: i64,
    /// Whether it has nothing left to play.
    pub empty: bool,
}

/// How a tick of the monitor ended.
#[derive(Clone, Copy, Debug, PartialEq, Eq, Structural)]
pub enum MonitorOutcome {
    /// No monitor runs for this player: nothing was done.
    Idle,
    /// Playback goes on.
    Running,
    /// Playback is over and the monitor has ended; the completion callback
    /// is due unless it was cancelled.
    Finished { invoke_callback: bool },
}

/// The time between two ticks of a player's monitor, in milliseconds.
pub const MONITOR_INTERVAL_MS: u64 = 50;

/// `x` cut to what an `i64` holds.
pub open spec fn clipped(x: int) -> i64 {
    if x > i64::MAX {
        i64::MAX
    } else if x < i64::MIN {
        i64::MIN
    } else {
        x as i64
    }
}

/// `x` microseconds rounded to hundredths of a second, halves away from 0.
pub open spec fn rounded_to_hundredths(x: int) -> int {
    if x >= 0 {
        ((x + 5_000) / 10_000) * 10_000
    } else {
        -(((-x + 5_000) / 10_000) * 10_000)
    }
}

/// The speed at which a virtual timer counts: `speed`, or 0 where `speed`
/// is negative.
pub open spec fn timer_speed(speed: i64) -> u64 {
    if speed > 0 {
        speed as u64
    } else {
        0
    }
}

/// Whether a descriptor is fit to be scheduled: its duration, if it names
/// one, is not negative.
pub open spec fn acceptable(action: ActionType) -> bool {
    action.spec_duration() matches Some(d) ==> d >= 0
}

/// The model of a player.
pub struct PlayerModel {
    pub id: u64,
    pub state: PlayerState,
    /// Whether an audio backend with a clock of its own is bound; without
    /// one the virtual timer keeps the position.
    pub live: bool,
    pub metadata: MetaData,
    /// The backend's volume, speed and pause flag, as last commanded.
    pub volume: i64,
    pub speed: i64,
    pub paused: bool,
    /// The backend's position and emptiness, as last reported.
    pub position: i64,
    pub backend_empty: bool,
    pub timer: TimerState,
    pub resume: bool,
    pub volume_locked: bool,
    pub speed_locked: bool,
    pub force_stop: bool,
    pub cancel_callback: bool,
    /// Whether the monitor loop of this player is alive.
    pub monitoring: bool,
    /// Descriptors sent to the monitor and not yet taken by it.
    pub pending: Seq<ActionType>,
    /// The ramps under way, in the order in which they were accepted.
    pub effects: Seq<Ramp>,
    pub effects_chain: Seq<ActionType>,
    /// Commands given to the backend and not yet collected.
    pub outbox: Seq<BackendCommand>,
}

impl PlayerModel {
    /// A new player with the identity `id`.
    pub open spec fn fresh(id: u64) -> PlayerModel {
        PlayerModel {
            id,
            state: PlayerState::Unloaded,
            live: false,
            metadata: MetaData::unknown(),
            volume: UNIT,
            speed: UNIT,
            paused: true,
            position: 0,
            backend_empty: false,
            timer: TimerState { elapsed: 0, running: false },
            resume: false,
            volume_locked: false,
            speed_locked: false,
            force_stop: false,
            cancel_callback: false,
            monitoring: false,
            pending: Seq::empty(),
            effects: Seq::empty(),
            effects_chain: Seq::empty(),
            outbox: Seq::empty(),
        }
    }

    pub open spec fn is_loaded(self) -> bool {
        !(self.state is Unloaded)
    }

    /// The player with `command` given to its backend.
    pub open spec fn commanded(self, command: BackendCommand) -> PlayerModel {
        PlayerModel { outbox: self.outbox.push(command), ..self }
    }

    /// The position of playback when `delta` is on the virtual timer's
    /// clock: the backend's where one is bound, else the timer's reading.
    pub open spec fn position_after(self, delta: u64) -> i64 {
        if self.live {
            self.position
        } else {
            clipped(self.timer.reading(delta) as int)
        }
    }

    /// The position of playback by what has been accounted for.
    pub open spec fn current_position(self) -> i64 {
        if self.live {
            self.position
        } else {
            clipped(self.timer.elapsed as int)
        }
    }

    /// The player after the backend's report `status`.
    pub open spec fn observed(self, status: BackendStatus) -> PlayerModel {
        PlayerModel { position: status.position, backend_empty: status.empty, ..self }
    }

    /// The outcome of `load_audio`.
    pub open spec fn load_result(
        self,
        metadata: Option<MetaData>,
        device_available: bool,
        force: bool,
    ) -> Result<(), PlayerError> {
        if self.is_loaded() {
            Err(PlayerError::AlreadyLoaded)
        } else if !device_available && !force {
            Err(PlayerError::BackendUnavailable)
        } else if metadata is None {
            Err(PlayerError::MetadataExtractionFailure)
        } else {
            Ok(())
        }
    }

    /// The player after `load_audio`: on success it holds the metadata, its
    /// backend is paused at volume 0, and its monitor is alive.
    pub open spec fn loaded(
        self,
        metadata: Option<MetaData>,
        device_available: bool,
        force: bool,
    ) -> PlayerModel {
        if self.load_result(metadata, device_available, force) is Ok {
            PlayerModel {
                state: PlayerState::Loaded,
                live: device_available,
                metadata: metadata->0,
                volume: 0,
                paused: true,
                monitoring: true,
                outbox: self.outbox.push(BackendCommand::Pause).push(BackendCommand::SetVolume(0)),
                ..self
            }
        } else {
            self
        }
    }

    /// The player with `value` written to the parameter that `action`
    /// drives, and the parameter's lock set to `locked`.
    pub open spec fn written(self, action: ActionType, value: i64, locked: bool) -> PlayerModel {
        if action.spec_drives_volume() {
            PlayerModel {
                volume: value,
                volume_locked: locked,
                outbox: self.outbox.push(BackendCommand::SetVolume(value)),
                ..self
            }
        } else {
            PlayerModel {
                speed: value,
                speed_locked: locked,
                outbox: self.outbox.push(BackendCommand::SetSpeed(value)),
                ..self
            }
        }
    }

    /// The player after the monitor has accepted `action` at `position`: the
    /// ramp is laid, and a fade in that arrives before the first play and
    /// names a first value sets the volume to it.
    pub open spec fn admitted(self, action: ActionType, position: i64) -> PlayerModel {
        let ramp = Ramp::scheduled(action, position, self.metadata.duration, self.speed);
        let seeded = if action is FadeIn && self.state is Loaded && action.spec_start_val() is Some {
            PlayerModel {
                volume: action.spec_start_val()->0,
                outbox: self.outbox.push(BackendCommand::SetVolume(action.spec_start_val()->0)),
                ..self
            }
        } else {
            self
        };
        PlayerModel { effects: seeded.effects.push(ramp), ..seeded }
    }

    /// The player after the monitor has taken the first pending descriptor,
    /// if there is one.
    pub open spec fn admitted_next(self, position: i64) -> PlayerModel {
        if self.pending.len() > 0 {
            PlayerModel { pending: self.pending.skip(1), ..self }.admitted(
                self.pending[0],
                position,
            )
        } else {
            self
        }
    }

    /// The player after the monitor has taken every pending descriptor, in
    /// order.
    pub open spec fn drained(self, position: i64) -> PlayerModel
        decreases self.pending.len(),
    {
        if self.pending.len() > 0 {
            self.admitted_next(position).drained(position)
        } else {
            self
        }
    }

    /// The player after `ramp` was evaluated at `position`, where
    /// `self.effects` holds the ramps kept so far: a ramp that is not due
    /// is kept and nothing is written; one under way is kept, its value
    /// written and its parameter locked; one that is over is dropped, its
    /// last value written and its parameter unlocked.
    pub open spec fn applied(self, ramp: Ramp, position: i64) -> PlayerModel {
        match ramp.outcome_at(position as int) {
            EffectResult::Ignored => PlayerModel { effects: self.effects.push(ramp), ..self },
            EffectResult::Value(v) => {
                let after = self.written(ramp.action, v, true);
                PlayerModel { effects: after.effects.push(ramp), ..after }
            },
            EffectResult::Completed(v) => self.written(ramp.action, v, false),
        }
    }

    /// The player after each of `ramps` was evaluated at `position`, in
    /// order.
    pub open spec fn applied_all(self, ramps: Seq<Ramp>, position: i64) -> PlayerModel
        decreases ramps.len(),
    {
        if ramps.len() > 0 {
            self.applied(ramps[0], position).applied_all(ramps.skip(1), position)
        } else {
            self
        }
    }

    /// The player after its active ramps were evaluated at `position`.
    pub open spec fn evaluated(self, position: i64) -> PlayerModel {
        PlayerModel { effects: Seq::empty(), ..self }.applied_all(self.effects, position)
    }

    /// The player after a pending resume was carried out: a paused backend
    /// is told to play.
    pub open spec fn resumed(self) -> PlayerModel {
        if self.paused && self.resume {
            PlayerModel {
                paused: false,
                resume: false,
                outbox: self.outbox.push(BackendCommand::Play),
                ..self
            }
        } else {
            self
        }
    }

    /// The player after the monitor has handled actions and effects at
    /// `position`: one pending descriptor taken, the active ramps
    /// evaluated, a pending resume carried out.
    pub open spec fn handled(self, position: i64) -> PlayerModel {
        self.admitted_next(position).evaluated(position).resumed()
    }

    /// The player after the virtual timer was advanced by `delta` of wall
    /// time at the current speed; playback past the known end of the track
    /// is marked for a forced stop. A player with a live backend is left as
    /// it is.
    pub open spec fn advanced(self, delta: u64) -> PlayerModel {
        if self.live {
            self
        } else {
            let timer = self.timer.adjusted(delta, timer_speed(self.speed));
            let overrun = self.metadata.duration matches Some(d) && timer.elapsed > d;
            PlayerModel { timer, force_stop: self.force_stop || overrun, ..self }
        }
    }

    /// Whether playback is over: the backend is empty or a stop is forced.
    pub open spec fn is_over(self) -> bool {
        self.backend_empty || self.force_stop
    }

    /// The player after the monitor has looked for the end of playback.
    pub open spec fn concluded(self) -> PlayerModel {
        if self.is_over() {
            PlayerModel { state: PlayerState::Finished, monitoring: false, ..self }
        } else {
            self
        }
    }

    /// The player after a tick of its monitor that gets the report `status`
    /// and finds `delta` on the virtual timer's clock.
    pub open spec fn ticked(self, status: BackendStatus, delta: u64) -> PlayerModel {
        if self.monitoring {
            let seen = self.observed(status);
            seen.handled(seen.current_position()).advanced(delta).concluded()
        } else {
            self
        }
    }

    /// How that tick ends.
    pub open spec fn tick_outcome(self, status: BackendStatus, delta: u64) -> MonitorOutcome {
        if !self.monitoring {
            MonitorOutcome::Idle
        } else if self.ticked(status, delta).monitoring {
            MonitorOutcome::Running
        } else {
            MonitorOutcome::Finished { invoke_callback: !self.cancel_callback }
        }
    }

    /// The player with its virtual timer counting, where no backend is
    /// bound.
    pub open spec fn counting(self) -> PlayerModel {
        if self.live {
            self
        } else {
            PlayerModel {
                timer: TimerState { elapsed: self.timer.elapsed, running: true },
                ..self
            }
        }
    }

    /// The player with its backend told to play for the first time.
    pub open spec fn begun(self) -> PlayerModel {
        PlayerModel {
            paused: false,
            outbox: self.outbox.push(BackendCommand::Play),
            ..self.counting()
        }
    }

    /// The player after `play`. The first play starts the backend and the
    /// virtual timer, takes every pending descriptor and evaluates the
    /// ramps; a later one asks the monitor to resume. Nothing changes on a
    /// player without audio or with playback over.
    pub open spec fn played(self) -> PlayerModel {
        match self.state {
            PlayerState::Unloaded => self,
            PlayerState::Finished => self,
            PlayerState::Loaded => {
                let position = self.begun().current_position();
                PlayerModel {
                    state: PlayerState::Playing,
                    ..self.begun().drained(position).evaluated(position)
                }
            },
            _ => PlayerModel { state: PlayerState::Playing, resume: true, ..self.counting() },
        }
    }

    /// The player after `pause` with `delta` on the virtual timer's clock.
    pub open spec fn paused_after(self, delta: u64) -> PlayerModel {
        if self.is_loaded() {
            PlayerModel {
                state: if self.state is Playing {
                    PlayerState::Paused
                } else {
                    self.state
                },
                paused: true,
                timer: if self.live {
                    self.timer
                } else {
                    self.timer.stopped(delta)
                },
                outbox: self.outbox.push(BackendCommand::Pause),
                ..self
            }
        } else {
            self
        }
    }

    /// The player after `stop` with `delta` on the virtual timer's clock.
    pub open spec fn stopped_after(self, delta: u64) -> PlayerModel {
        if self.is_loaded() {
            PlayerModel {
                state: PlayerState::Finished,
                timer: if self.live {
                    self.timer
                } else {
                    self.timer.stopped(delta)
                },
                force_stop: self.force_stop || !self.live,
                outbox: self.outbox.push(BackendCommand::Stop),
                ..self
            }
        } else {
            self
        }
    }

    /// The outcome of a direct write of `volume`.
    pub open spec fn volume_result(self, volume: i64) -> Result<(), PlayerError> {
        if volume < 0 || volume > UNIT {
            Err(PlayerError::InvalidParameter)
        } else if !self.is_loaded() {
            Err(PlayerError::NotLoaded)
        } else if self.volume_locked {
            Err(PlayerError::EffectConflict(Property::Volume))
        } else {
            Ok(())
        }
    }

    /// The player after a direct write of `volume`.
    pub open spec fn with_volume(self, volume: i64) -> PlayerModel {
        if self.volume_result(volume) is Ok {
            PlayerModel {
                volume,
                outbox: self.outbox.push(BackendCommand::SetVolume(volume)),
                ..self
            }
        } else {
            self
        }
    }

    /// The outcome of a direct write of `speed`.
    pub open spec fn speed_result(self, speed: i64) -> Result<(), PlayerError> {
        if speed <= 0 {
            Err(PlayerError::InvalidParameter)
        } else if !self.is_loaded() {
            Err(PlayerError::NotLoaded)
        } else if self.speed_locked {
            Err(PlayerError::EffectConflict(Property::Speed))
        } else {
            Ok(())
        }
    }

    /// The player after a direct write of `speed`.
    pub open spec fn with_speed(self, speed: i64) -> PlayerModel {
        if self.speed_result(speed) is Ok {
            PlayerModel { speed, outbox: self.outbox.push(BackendCommand::SetSpeed(speed)), ..self }
        } else {
            self
        }
    }

    /// The outcome of a seek to `position`.
    pub open spec fn seek_result(self, position: i64) -> Result<(), PlayerError> {
        if position < 0 {
            Err(PlayerError::InvalidParameter)
        } else if !self.is_loaded() {
            Err(PlayerError::NotLoaded)
        } else {
            Ok(())
        }
    }

    /// The player after a seek to `position`: a live backend is told to
    /// seek, else the virtual timer is set.
    pub open spec fn sought(self, position: i64) -> PlayerModel {
        if self.seek_result(position) is Ok {
            if self.live {
                self.commanded(BackendCommand::Seek(position))
            } else {
                PlayerModel {
                    timer: TimerState { elapsed: position as u64, running: self.timer.running },
                    ..self
                }
            }
        } else {
            self
        }
    }

    /// The outcome of the backend's answer to a seek.
    pub open spec fn seek_outcome(self, accepted: bool) -> Result<(), PlayerError> {
        if !self.is_loaded() {
            Err(PlayerError::NotLoaded)
        } else if !accepted {
            Err(PlayerError::SeekFailure)
        } else {
            Ok(())
        }
    }

    /// The player after the backend's answer to a seek: where it accepted,
    /// the position it reports is taken over.
    pub open spec fn seek_settled(self, accepted: bool, position: i64) -> PlayerModel {
        if self.seek_outcome(accepted) is Ok {
            PlayerModel { position, ..self }
        } else {
            self
        }
    }

    /// The outcome of setting the track's length to `duration`.
    pub open spec fn duration_result(self, duration: i64) -> Result<(), PlayerError> {
        if duration < 0 {
            Err(PlayerError::InvalidParameter)
        } else {
            Ok(())
        }
    }

    /// The player after setting the track's length to `duration`.
    pub open spec fn with_duration(self, duration: i64) -> PlayerModel {
        if duration >= 0 {
            PlayerModel {
                metadata: MetaData { duration: Some(duration), ..self.metadata },
                ..self
            }
        } else {
            self
        }
    }

    /// The player with the descriptors of `list` sent to its monitor, behind
    /// what is pending.
    pub open spec fn sent(self, list: Seq<ActionType>) -> PlayerModel {
        PlayerModel { pending: self.pending + list, ..self }
    }

    /// The outcome of `apply_effects`.
    pub open spec fn effects_result(self, list: Seq<ActionType>) -> Result<(), PlayerError> {
        if forall|i: int| 0 <= i < list.len() ==> acceptable(#[trigger] list[i]) {
            Ok(())
        } else {
            Err(PlayerError::InvalidParameter)
        }
    }

    /// The player after `apply_effects`: an accepted list becomes the chain
    /// and is sent to the monitor behind what is pending.
    pub open spec fn with_effects(self, list: Seq<ActionType>) -> PlayerModel {
        if self.effects_result(list) is Ok {
            PlayerModel { effects_chain: list, ..self.sent(list) }
        } else {
            self
        }
    }

    /// The playback position for the caller, when `delta` is on the virtual
    /// timer's clock.
    pub open spec fn pos_result(self, delta: u64) -> Result<i64, PlayerError> {
        if !self.is_loaded() {
            Err(PlayerError::NotLoaded)
        } else {
            Ok(clipped(rounded_to_hundredths(self.position_after(delta) as int)))
        }
    }

    /// The time left to the end of the track, when `delta` is on the virtual
    /// timer's clock.
    pub open spec fn remaining_result(self, delta: u64) -> Result<i64, PlayerError> {
        if !self.is_loaded() {
            Err(PlayerError::NotLoaded)
        } else if self.metadata.duration is None {
            Err(PlayerError::DurationUnknown)
        } else {
            Ok(
                clipped(
                    rounded_to_hundredths(self.metadata.duration->0 - self.position_after(delta)),
                ),
            )
        }
    }
}

/// Evaluating ramps touches the volume, the speed, their locks, the active
/// ramps and the commands, and nothing else.
pub proof fn lemma_applied_all_frame(m: PlayerModel, ramps: Seq<Ramp>, position: i64)
    ensures
        m.applied_all(ramps, position) == (PlayerModel {
            volume: m.applied_all(ramps, position).volume,
            speed: m.applied_all(ramps, position).speed,
            volume_locked: m.applied_all(ramps, position).volume_locked,
            speed_locked: m.applied_all(ramps, position).speed_locked,
            effects: m.applied_all(ramps, position).effects,
            outbox: m.applied_all(ramps, position).outbox,
            ..m
        }),
    decreases ramps.len(),
{
    if ramps.len() > 0 {
        lemma_applied_all_frame(m.applied(ramps[0], position), ramps.skip(1), position);
    }
}

/// A round of the monitor's work on actions and effects leaves the
/// player's identity, state, backend binding, metadata, reported position
/// and emptiness, timer, stop and cancel flags, monitor and chain as they
/// were.
pub proof fn lemma_handled_frame(m: PlayerModel, position: i64)
    ensures
        m.handled(position) == (PlayerModel {
            volume: m.handled(position).volume,
            speed: m.handled(position).speed,
            paused: m.handled(position).paused,
            resume: m.handled(position).resume,
            volume_locked: m.handled(position).volume_locked,
            speed_locked: m.handled(position).speed_locked,
            pending: m.handled(position).pending,
            effects: m.handled(position).effects,
            outbox: m.handled(position).outbox,
            ..m
        }),
{
    let taken = m.admitted_next(position);
    lemma_applied_all_frame(
        PlayerModel { effects: Seq::empty(), ..taken },
        taken.effects,
        position,
    );
}

/// Whether one of `ramps` that drives the volume (or, for `volume` false,
/// the speed) is under way at `position`.
pub open spec fn under_way(ramps: Seq<Ramp>, position: i64, volume: bool) -> bool {
    exists|i: int|
        0 <= i < ramps.len() && (#[trigger] ramps[i]).action.spec_drives_volume() == volume
            && ramps[i].outcome_at(position as int) is Value
}

/// Whether one of `ramps` that drives the volume (or, for `volume` false,
/// the speed) is over at `position`.
pub open spec fn completing(ramps: Seq<Ramp>, position: i64, volume: bool) -> bool {
    exists|i: int|
        0 <= i < ramps.len() && (#[trigger] ramps[i]).action.spec_drives_volume() == volume
            && ramps[i].outcome_at(position as int) is Completed
}

/// Whether none of `ramps` is due at `position`.
pub open spec fn none_due(ramps: Seq<Ramp>, position: i64) -> bool {
    forall|i: int| 0 <= i < ramps.len() ==> (#[trigger] ramps[i]).outcome_at(position as int) is Ignored
}

/// Evaluating ramps of which none is due keeps them all and changes
/// nothing else.
pub proof fn lemma_applied_all_not_due(m: PlayerModel, ramps: Seq<Ramp>, position: i64)
    requires
        none_due(ramps, position),
    ensures
        m.applied_all(ramps, position) == (PlayerModel { effects: m.effects + ramps, ..m }),
    decreases ramps.len(),
{
    if ramps.len() > 0 {
        let next = m.applied(ramps[0], position);
        assert forall|i: int| 0 <= i < ramps.skip(1).len() implies (#[trigger] ramps.skip(
            1,
        )[i]).outcome_at(position as int) is Ignored by {
            assert(ramps.skip(1)[i] == ramps[i + 1]);
        }
        lemma_applied_all_not_due(next, ramps.skip(1), position);
        assert(m.effects.push(ramps[0]) + ramps.skip(1) =~= m.effects + ramps);
    } else {
        assert(m.effects + ramps =~= m.effects);
    }
}

/// While none of a player's ramps is due, evaluating them leaves the
/// player as it is: no parameter is written, no lock is touched, no command
/// is given, however often it is done.
pub proof fn lemma_not_due_is_untouched(m: PlayerModel, position: i64)
    requires
        none_due(m.effects, position),
    ensures
        m.evaluated(position) == m,
        m.evaluated(position).evaluated(position) == m,
{
    lemma_applied_all_not_due(PlayerModel { effects: Seq::empty(), ..m }, m.effects, position);
    assert(Seq::<Ramp>::empty() + m.effects =~= m.effects);
}

/// How the locks stand after ramps were evaluated: a parameter with a ramp
/// under way and none that is over is locked, and one with a ramp that is
/// over and none under way is free.
pub proof fn lemma_applied_all_locks(m: PlayerModel, ramps: Seq<Ramp>, position: i64)
    ensures
        (m.volume_locked || under_way(ramps, position, true)) && !completing(
            ramps,
            position,
            true,
        ) ==> m.applied_all(ramps, position).volume_locked,
        (!m.volume_locked || completing(ramps, position, true)) && !under_way(
            ramps,
            position,
            true,
        ) ==> !m.applied_all(ramps, position).volume_locked,
        (m.speed_locked || under_way(ramps, position, false)) && !completing(
            ramps,
            position,
            false,
        ) ==> m.applied_all(ramps, position).speed_locked,
        (!m.speed_locked || completing(ramps, position, false)) && !under_way(
            ramps,
            position,
            false,
        ) ==> !m.applied_all(ramps, position).speed_locked,
    decreases ramps.len(),
{
    if ramps.len() > 0 {
        let next = m.applied(ramps[0], position);
        let rest = ramps.skip(1);
        lemma_applied_all_locks(next, rest, position);
        assert forall|volume: bool| under_way(rest, position, volume) implies under_way(
            ramps,
            position,
            volume,
        ) by {
            let i = choose|i: int|
                0 <= i < rest.len() && (#[trigger] rest[i]).action.spec_drives_volume() == volume
                    && rest[i].outcome_at(position as int) is Value;
            assert(rest[i] == ramps[i + 1]);
        }
        assert forall|volume: bool| completing(rest, position, volume) implies completing(
            ramps,
            position,
            volume,
        ) by {
            let i = choose|i: int|
                0 <= i < rest.len() && (#[trigger] rest[i]).action.spec_drives_volume() == volume
                    && rest[i].outcome_at(position as int) is Completed;
            assert(rest[i] == ramps[i + 1]);
        }
        assert forall|volume: bool| under_way(ramps, position, volume) implies under_way(
            rest,
            position,
            volume,
        ) || (ramps[0].action.spec_drives_volume() == volume && ramps[0].outcome_at(
            position as int,
        ) is Value) by {
            let i = choose|i: int|
                0 <= i < ramps.len() && (#[trigger] ramps[i]).action.spec_drives_volume() == volume
                    && ramps[i].outcome_at(position as int) is Value;
            if i > 0 {
                assert(rest[i - 1] == ramps[i]);
            }
        }
        assert forall|volume: bool| completing(ramps, position, volume) implies completing(
            rest,
            position,
            volume,
        ) || (ramps[0].action.spec_drives_volume() == volume && ramps[0].outcome_at(
            position as int,
        ) is Completed) by {
            let i = choose|i: int|
                0 <= i < ramps.len() && (#[trigger] ramps[i]).action.spec_drives_volume() == volume
                    && ramps[i].outcome_at(position as int) is Completed;
            if i > 0 {
                assert(rest[i - 1] == ramps[i]);
            }
        }
        assert(ramps[0] == ramps[0]);
    }
}

/// A direct write of the volume is refused as a conflict while a fade is
/// under way, and goes through once the fade is over. Stated of a loaded
/// player after its monitor has handled actions and effects at `position`,
/// for a volume in range: with a fade under way and none that is over the
/// write fails with `EffectConflict`; with a fade that is over and none
/// under way it succeeds and sets the volume.
pub proof fn lemma_fade_owns_volume(m: PlayerModel, position: i64, volume: i64)
    requires
        m.is_loaded(),
        0 <= volume <= UNIT,
    ensures
        under_way(m.admitted_next(position).effects, position, true) && !completing(
            m.admitted_next(position).effects,
            position,
            true,
        ) ==> m.handled(position).volume_result(volume) == Err::<(), PlayerError>(
            PlayerError::EffectConflict(Property::Volume),
        ),
        completing(m.admitted_next(position).effects, position, true) && !under_way(
            m.admitted_next(position).effects,
            position,
            true,
        ) ==> m.handled(position).volume_result(volume) == Ok::<(), PlayerError>(())
            && m.handled(position).with_volume(volume).volume == volume,
{
    let taken = m.admitted_next(position);
    lemma_applied_all_locks(
        PlayerModel { effects: Seq::empty(), ..taken },
        taken.effects,
        position,
    );
    lemma_handled_frame(m, position);
}

/// The same of the speed and the speed changes.
pub proof fn lemma_change_owns_speed(m: PlayerModel, position: i64, speed: i64)
    requires
        m.is_loaded(),
        0 < speed,
    ensures
        under_way(m.admitted_next(position).effects, position, false) && !completing(
            m.admitted_next(position).effects,
            position,
            false,
        ) ==> m.handled(position).speed_result(speed) == Err::<(), PlayerError>(
            PlayerError::EffectConflict(Property::Speed),
        ),
        completing(m.admitted_next(position).effects, position, false) && !under_way(
            m.admitted_next(position).effects,
            position,
            false,
        ) ==> m.handled(position).speed_result(speed) == Ok::<(), PlayerError>(())
            && m.handled(position).with_speed(speed).speed == speed,
{
    let taken = m.admitted_next(position);
    lemma_applied_all_locks(
        PlayerModel { effects: Seq::empty(), ..taken },
        taken.effects,
        position,
    );
    lemma_handled_frame(m, position);
}

/// Taking every pending descriptor leaves the player's identity, state,
/// backend binding, metadata and chain as they were, and nothing pending.
pub proof fn lemma_drained_frame(m: PlayerModel, position: i64)
    ensures
        m.drained(position).id == m.id,
        m.drained(position).state == m.state,
        m.drained(position).live == m.live,
        m.drained(position).metadata == m.metadata,
        m.drained(position).effects_chain == m.effects_chain,
        m.drained(position).pending.len() == 0,
    decreases m.pending.len(),
{
    if m.pending.len() > 0 {
        lemma_drained_frame(m.admitted_next(position), position);
    }
}

/// Playing keeps the player's identity, backend binding, metadata and
/// chain; a player with audio whose playback is not over is playing
/// afterwards.
pub proof fn lemma_played_frame(m: PlayerModel)
    ensures
        m.played().id == m.id,
        m.played().live == m.live,
        m.played().metadata == m.metadata,
        m.played().effects_chain == m.effects_chain,
        m.is_loaded() && !(m.state is Finished) ==> m.played().state is Playing,
        m.state is Unloaded || m.state is Finished ==> m.played() == m,
{
    if m.state is Loaded {
        let position = m.begun().current_position();
        let taken = m.begun().drained(position);
        lemma_drained_frame(m.begun(), position);
        lemma_applied_all_frame(
            PlayerModel { effects: Seq::empty(), ..taken },
            taken.effects,
            position,
        );
    }
}

/// Whether none of `ramps` is over at `position`.
pub open spec fn none_over(ramps: Seq<Ramp>, position: i64) -> bool {
    forall|i: int|
        0 <= i < ramps.len() ==> !((#[trigger] ramps[i]).outcome_at(position as int) is Completed)
}

/// Evaluating ramps adds none that is over to those kept.
pub proof fn lemma_applied_all_drops(m: PlayerModel, ramps: Seq<Ramp>, position: i64)
    requires
        none_over(m.effects, position),
    ensures
        none_over(m.applied_all(ramps, position).effects, position),
        m.applied_all(ramps, position).effects.len() <= m.effects.len() + ramps.len(),
    decreases ramps.len(),
{
    if ramps.len() > 0 {
        lemma_applied_all_drops(m.applied(ramps[0], position), ramps.skip(1), position);
    }
}

/// A ramp that is over is written once and retired: after the ramps were
/// evaluated at a position, none of those still active is over at that
/// position, and none was added.
pub proof fn lemma_completed_are_retired(m: PlayerModel, position: i64)
    ensures
        none_over(m.evaluated(position).effects, position),
        m.evaluated(position).effects.len() <= m.effects.len(),
{
    lemma_applied_all_drops(PlayerModel { effects: Seq::empty(), ..m }, m.effects, position);
}

/// The monitor ends once. A tick that finds playback over is the last to
/// do anything: it reports the end, with the callback due unless it was
/// cancelled, and every later tick finds no monitor and leaves the player
/// as it is.
pub proof fn lemma_monitor_ends_once(
    m: PlayerModel,
    status: BackendStatus,
    delta: u64,
    later_status: BackendStatus,
    later_delta: u64,
)
    requires
        m.tick_outcome(status, delta) is Finished,
    ensures
        m.tick_outcome(status, delta) == (MonitorOutcome::Finished {
            invoke_callback: !m.cancel_callback,
        }),
        m.ticked(status, delta).state is Finished,
        m.ticked(status, delta).tick_outcome(later_status, later_delta) is Idle,
        m.ticked(status, delta).ticked(later_status, later_delta) == m.ticked(status, delta),
{
    let seen = m.observed(status);
    lemma_handled_frame(seen, seen.current_position());
}

} // verus!
