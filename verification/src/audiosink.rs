//! The player: one loaded track, the commands for its backend, and the
//! scheduled effects that act on it.

use vstd::prelude::*;

use crate::audiotimer::AudioTimer;
use crate::exceptions::{PlayerError, Property};
use crate::exmetadata::MetaData;
use crate::playback::{
    acceptable, clipped, lemma_handled_frame, rounded_to_hundredths, BackendCommand,
    BackendStatus, MonitorOutcome, PlayerModel, PlayerState,
};
use crate::timesync::{ActionType, EffectResult, EffectSync, Ramp, UNIT};

verus! {

/// The ramps that `effects` stand for, in order.
pub open spec fn ramps_of(effects: Seq<EffectSync>) -> Seq<Ramp> {
    Seq::new(effects.len(), |i: int| effects[i]@)
}

/// `x` microseconds rounded to hundredths of a second and cut to an `i64`.
fn round_hundredths(x: i128) -> (r: i64)
    requires
        -0x1_0000_0000_0000_0000 <= x <= 0x1_0000_0000_0000_0000,
    ensures
        r == clipped(rounded_to_hundredths(x as int)),
{
    if x >= 0 {
        let magnitude: u128 = x as u128;
        let rounded: u128 = ((magnitude + 5_000) / 10_000) * 10_000;
        if rounded > i64::MAX as u128 {
            i64::MAX
        } else {
            rounded as i64
        }
    } else {
        let magnitude: u128 = (-x) as u128;
        let rounded: u128 = ((magnitude + 5_000) / 10_000) * 10_000;
        if rounded > 0x8000_0000_0000_0000 {
            i64::MIN
        } else {
            (-(rounded as i128)) as i64
        }
    }
}

/// A player of one track.
#[derive(Debug)]
pub struct AudioSink {
    id: u64,
    state: PlayerState,
    live: bool,
    metadata: MetaData,
    volume: i64,
    speed: i64,
    paused: bool,
    position: i64,
    backend_empty: bool,
    timer: AudioTimer,
    resume: bool,
    volume_locked: bool,
    speed_locked: bool,
    force_stop: bool,
    cancel_callback: bool,
    monitoring: bool,
    pending: Vec<ActionType>,
    effects: Vec<EffectSync>,
    effects_chain: Vec<ActionType>,
    outbox: Vec<BackendCommand>,
}

impl View for AudioSink {
    type V = PlayerModel;

    closed spec fn view(&self) -> PlayerModel {
        PlayerModel {
            id: self.id,
            state: self.state,
            live: self.live,
            metadata: self.metadata,
            volume: self.volume,
            speed: self.speed,
            paused: self.paused,
            position: self.position,
            backend_empty: self.backend_empty,
            timer: self.timer@,
            resume: self.resume,
            volume_locked: self.volume_locked,
            speed_locked: self.speed_locked,
            force_stop: self.force_stop,
            cancel_callback: self.cancel_callback,
            monitoring: self.monitoring,
            pending: self.pending@,
            effects: ramps_of(self.effects@),
            effects_chain: self.effects_chain@,
            outbox: self.outbox@,
        }
    }
}

impl AudioSink {
    /// A player without audio, known by `id`.
    pub fn new(id: u64) -> (r: Self)
        ensures
            r@ == PlayerModel::fresh(id),
    {
        let r = AudioSink {
            id,
            state: PlayerState::Unloaded,
            live: false,
            metadata: MetaData::default(),
            volume: UNIT,
            speed: UNIT,
            paused: true,
            position: 0,
            backend_empty: false,
            timer: AudioTimer::new(),
            resume: false,
            volume_locked: false,
            speed_locked: false,
            force_stop: false,
            cancel_callback: false,
            monitoring: false,
            pending: Vec::new(),
            effects: Vec::new(),
            effects_chain: Vec::new(),
            outbox: Vec::new(),
        };
        assert(ramps_of(r.effects@) =~= Seq::<Ramp>::empty());
        r
    }

    /// Gives `command` to the backend.
    fn command(&mut self, command: BackendCommand)
        ensures
            final(self)@ == old(self)@.commanded(command),
    {
        self.outbox.push(command);
    }

    /// Binds audio to the player. `metadata` is what was read from the
    /// file, `None` if that failed; `device_available` says whether an
    /// output device could be opened; `force` lets the player run on its
    /// virtual timer where none could.
    pub fn load_audio(&mut self, metadata: Option<MetaData>, device_available: bool, force: bool) -> (r:
        Result<(), PlayerError>)
        ensures
            r == old(self)@.load_result(metadata, device_available, force),
            final(self)@ == old(self)@.loaded(metadata, device_available, force),
    {
        match self.state {
            PlayerState::Unloaded => {},
            _ => {
                return Err(PlayerError::AlreadyLoaded);
            },
        }
        if !device_available && !force {
            return Err(PlayerError::BackendUnavailable);
        }
        match metadata {
            None => Err(PlayerError::MetadataExtractionFailure),
            Some(found) => {
                self.state = PlayerState::Loaded;
                self.live = device_available;
                self.metadata = found;
                self.volume = 0;
                self.paused = true;
                self.monitoring = true;
                self.command(BackendCommand::Pause);
                self.command(BackendCommand::SetVolume(0));
                Ok(())
            },
        }
    }

    /// Writes `value` to the parameter that `action` drives and sets the
    /// parameter's lock.
    fn write(&mut self, action: ActionType, value: i64, locked: bool)
        ensures
            final(self)@ == old(self)@.written(action, value, locked),
    {
        if action.drives_volume() {
            self.volume = value;
            self.volume_locked = locked;
            self.command(BackendCommand::SetVolume(value));
        } else {
            self.speed = value;
            self.speed_locked = locked;
            self.command(BackendCommand::SetSpeed(value));
        }
    }

    /// Lays the ramp of `action` at `position`.
    fn schedule(&mut self, action: ActionType, position: i64)
        ensures
            final(self)@ == old(self)@.admitted(action, position),
    {
        let effect = EffectSync::new(action, position, self.metadata.duration, self.speed);
        match action {
            ActionType::FadeIn(fade_in) => {
                match self.state {
                    PlayerState::Loaded => {
                        match fade_in.start_val {
                            Some(start_val) => {
                                self.volume = start_val;
                                self.command(BackendCommand::SetVolume(start_val));
                            },
                            None => {},
                        }
                    },
                    _ => {},
                }
            },
            _ => {},
        }
        self.keep(effect);
    }

    /// Takes the first pending descriptor, if there is one.
    fn schedule_next(&mut self, position: i64)
        ensures
            final(self)@ == old(self)@.admitted_next(position),
    {
        if self.pending.len() > 0 {
            let action = self.pending.remove(0);
            assert(self.pending@ =~= old(self).pending@.skip(1));
            self.schedule(action, position);
        }
    }

    /// Takes every pending descriptor.
    fn drain(&mut self, position: i64)
        ensures
            final(self)@ == old(self)@.drained(position),
    {
        while self.pending.len() > 0
            invariant
                self@.drained(position) == old(self)@.drained(position),
            decreases self.pending.len(),
        {
            self.schedule_next(position);
        }
    }

    /// Puts `effect` behind the active ramps.
    fn keep(&mut self, effect: EffectSync)
        ensures
            final(self)@ == (PlayerModel {
                effects: old(self)@.effects.push(effect@),
                ..old(self)@
            }),
    {
        self.effects.push(effect);
        assert(ramps_of(self.effects@) =~= ramps_of(old(self).effects@).push(effect@));
    }

    /// Evaluates `effect` at `position` and keeps it unless it is over.
    fn apply(&mut self, effect: EffectSync, position: i64)
        ensures
            final(self)@ == old(self)@.applied(effect@, position),
    {
        match effect.update(position) {
            EffectResult::Ignored => {
                self.keep(effect);
            },
            EffectResult::Value(value) => {
                self.write(effect.action(), value, true);
                self.keep(effect);
            },
            EffectResult::Completed(value) => {
                self.write(effect.action(), value, false);
            },
        }
    }

    /// Evaluates the active ramps at `position`.
    fn evaluate(&mut self, position: i64)
        ensures
            final(self)@ == old(self)@.evaluated(position),
    {
        let mut active: Vec<EffectSync> = Vec::new();
        std::mem::swap(&mut self.effects, &mut active);
        assert(ramps_of(self.effects@) =~= Seq::<Ramp>::empty());
        let ghost ramps = ramps_of(active@);
        assert(ramps.skip(0) =~= ramps);
        let mut i: usize = 0;
        while i < active.len()
            invariant
                i <= active.len(),
                ramps == ramps_of(active@),
                self@.applied_all(ramps.skip(i as int), position) == old(self)@.evaluated(
                    position,
                ),
            decreases active.len() - i,
        {
            assert(ramps.skip(i as int)[0] == active@[i as int]@);
            assert(ramps.skip(i as int).skip(1) =~= ramps.skip(i + 1));
            self.apply(active[i], position);
            i += 1;
        }
    }

    /// Carries out a pending resume.
    fn carry_out_resume(&mut self)
        ensures
            final(self)@ == old(self)@.resumed(),
    {
        if self.paused && self.resume {
            self.paused = false;
            self.resume = false;
            self.command(BackendCommand::Play);
        }
    }

    /// The position of playback by what has been accounted for: the
    /// backend's where one is bound, else what the virtual timer has
    /// accumulated.
    pub fn current_position(&self) -> (r: i64)
        ensures
            r == self@.current_position(),
    {
        if self.live {
            self.position
        } else {
            let elapsed = self.timer.accumulated();
            if elapsed > i64::MAX as u64 {
                i64::MAX
            } else {
                elapsed as i64
            }
        }
    }

    /// One round of the monitor's work on actions and effects with playback
    /// at `position`: takes one pending descriptor, evaluates the active
    /// ramps and writes what they ask for, and carries out a pending
    /// resume.
    pub fn handle_action_and_effects(&mut self, position: i64)
        ensures
            final(self)@ == old(self)@.handled(position),
    {
        self.schedule_next(position);
        self.evaluate(position);
        self.carry_out_resume();
    }

    /// Takes over what the backend reports of itself.
    pub fn observe(&mut self, status: BackendStatus)
        ensures
            final(self)@ == old(self)@.observed(status),
    {
        self.position = status.position;
        self.backend_empty = status.empty;
    }

    /// Advances the virtual timer by `delta` of wall time.
    fn advance(&mut self, delta: u64)
        ensures
            final(self)@ == old(self)@.advanced(delta),
    {
        if !self.live {
            let speed: u64 = if self.speed > 0 {
                self.speed as u64
            } else {
                0
            };
            self.timer.adjust_by(delta, speed);
            match self.metadata.duration {
                Some(duration) => {
                    if duration < 0 || self.timer.accumulated() > duration as u64 {
                        self.force_stop = true;
                    }
                },
                None => {},
            }
        }
    }

    /// Ends the monitor where playback is over.
    fn conclude(&mut self)
        ensures
            final(self)@ == old(self)@.concluded(),
    {
        if self.backend_empty || self.force_stop {
            self.state = PlayerState::Finished;
            self.monitoring = false;
        }
    }

    /// One tick of the monitor, given the backend's report and the wall
    /// time `delta` that the virtual timer's clock shows.
    pub fn tick_after(&mut self, status: BackendStatus, delta: u64) -> (r: MonitorOutcome)
        ensures
            final(self)@ == old(self)@.ticked(status, delta),
            r == old(self)@.tick_outcome(status, delta),
    {
        if !self.monitoring {
            return MonitorOutcome::Idle;
        }
        self.observe(status);
        let position = self.current_position();
        self.handle_action_and_effects(position);
        self.advance(delta);
        let cancelled = self.cancel_callback;
        proof {
            lemma_handled_frame(old(self)@.observed(status), position);
        }
        self.conclude();
        if self.monitoring {
            MonitorOutcome::Running
        } else {
            MonitorOutcome::Finished { invoke_callback: !cancelled }
        }
    }

    /// One tick of the monitor, given the backend's report. A player on its
    /// virtual timer reads the clock for the wall time to count.
    pub fn tick(&mut self, status: BackendStatus) -> (r: MonitorOutcome)
        ensures
            exists|delta: u64|
                final(self)@ == old(self)@.ticked(status, delta) && r == old(self)@.tick_outcome(
                    status,
                    delta,
                ),
            old(self)@.live ==> final(self)@ == old(self)@.ticked(status, 0) && r == old(
                self,
            )@.tick_outcome(status, 0),
    {
        let delta: u64 = if self.live {
            0
        } else {
            self.timer.on_clock()
        };
        self.tick_after(status, delta)
    }

    /// Lets the virtual timer count, where no backend is bound.
    fn count(&mut self)
        ensures
            final(self)@ == old(self)@.counting(),
    {
        if !self.live {
            self.timer.start();
        }
    }

    /// Tells the backend to play for the first time.
    fn begin(&mut self)
        ensures
            final(self)@ == old(self)@.begun(),
    {
        self.count();
        self.paused = false;
        self.command(BackendCommand::Play);
    }

    /// Enters `state`.
    fn enter(&mut self, state: PlayerState)
        ensures
            final(self)@ == (PlayerModel { state, ..old(self)@ }),
    {
        self.state = state;
    }

    /// Notes that the monitor is to resume the backend.
    fn ask_resume(&mut self)
        ensures
            final(self)@ == (PlayerModel { resume: true, ..old(self)@ }),
    {
        self.resume = true;
    }

    /// Starts or resumes playback. The first play tells the backend to
    /// play, starts the virtual timer where no backend is bound, and takes
    /// and evaluates every pending descriptor at once; a later play leaves
    /// the resuming to the monitor.
    pub fn play(&mut self) -> (r: Result<(), PlayerError>)
        ensures
            r is Ok <==> old(self)@.is_loaded(),
            r is Err ==> r == Err::<(), PlayerError>(PlayerError::NotLoaded),
            final(self)@ == old(self)@.played(),
    {
        match self.state {
            PlayerState::Unloaded => Err(PlayerError::NotLoaded),
            PlayerState::Finished => Ok(()),
            PlayerState::Loaded => {
                self.begin();
                let position = self.current_position();
                self.drain(position);
                self.evaluate(position);
                self.enter(PlayerState::Playing);
                Ok(())
            },
            _ => {
                self.count();
                self.ask_resume();
                self.enter(PlayerState::Playing);
                Ok(())
            },
        }
    }

    /// Pauses playback when `delta` is on the virtual timer's clock.
    pub fn pause_after(&mut self, delta: u64) -> (r: Result<(), PlayerError>)
        ensures
            r is Ok <==> old(self)@.is_loaded(),
            r is Err ==> r == Err::<(), PlayerError>(PlayerError::NotLoaded),
            final(self)@ == old(self)@.paused_after(delta),
    {
        match self.state {
            PlayerState::Unloaded => {
                return Err(PlayerError::NotLoaded);
            },
            PlayerState::Playing => {
                self.state = PlayerState::Paused;
            },
            _ => {},
        }
        self.paused = true;
        if !self.live {
            self.timer.stop_after(delta);
        }
        self.command(BackendCommand::Pause);
        Ok(())
    }

    /// Pauses playback: the backend is told to pause and the virtual timer
    /// stops counting.
    pub fn pause(&mut self) -> (r: Result<(), PlayerError>)
        ensures
            r is Ok <==> old(self)@.is_loaded(),
            r is Err ==> r == Err::<(), PlayerError>(PlayerError::NotLoaded),
            exists|delta: u64| final(self)@ == old(self)@.paused_after(delta),
            old(self)@.live ==> final(self)@ == old(self)@.paused_after(0),
    {
        let delta: u64 = if self.live {
            0
        } else {
            self.timer.on_clock()
        };
        self.pause_after(delta)
    }

    /// Stops playback when `delta` is on the virtual timer's clock.
    pub fn stop_after(&mut self, delta: u64) -> (r: Result<(), PlayerError>)
        ensures
            r is Ok <==> old(self)@.is_loaded(),
            r is Err ==> r == Err::<(), PlayerError>(PlayerError::NotLoaded),
            final(self)@ == old(self)@.stopped_after(delta),
    {
        match self.state {
            PlayerState::Unloaded => {
                return Err(PlayerError::NotLoaded);
            },
            _ => {},
        }
        self.state = PlayerState::Finished;
        if !self.live {
            self.timer.stop_after(delta);
            self.force_stop = true;
        }
        self.command(BackendCommand::Stop);
        Ok(())
    }

    /// Stops playback for good: the backend is told to stop, and a player
    /// on its virtual timer is marked for a forced stop.
    pub fn stop(&mut self) -> (r: Result<(), PlayerError>)
        ensures
            r is Ok <==> old(self)@.is_loaded(),
            r is Err ==> r == Err::<(), PlayerError>(PlayerError::NotLoaded),
            exists|delta: u64| final(self)@ == old(self)@.stopped_after(delta),
            old(self)@.live ==> final(self)@ == old(self)@.stopped_after(0),
    {
        let delta: u64 = if self.live {
            0
        } else {
            self.timer.on_clock()
        };
        self.stop_after(delta)
    }

    /// The backend's volume, in millionths.
    pub fn get_volume(&self) -> (r: Result<i64, PlayerError>)
        ensures
            r == if self@.is_loaded() {
                Ok::<i64, PlayerError>(self@.volume)
            } else {
                Err::<i64, PlayerError>(PlayerError::NotLoaded)
            },
    {
        match self.state {
            PlayerState::Unloaded => Err(PlayerError::NotLoaded),
            _ => Ok(self.volume),
        }
    }

    /// Writes the volume, unless a fade owns it.
    pub fn set_volume(&mut self, volume: i64) -> (r: Result<(), PlayerError>)
        ensures
            r == old(self)@.volume_result(volume),
            final(self)@ == old(self)@.with_volume(volume),
    {
        if volume < 0 || volume > UNIT {
            return Err(PlayerError::InvalidParameter);
        }
        match self.state {
            PlayerState::Unloaded => {
                return Err(PlayerError::NotLoaded);
            },
            _ => {},
        }
        if self.volume_locked {
            return Err(PlayerError::EffectConflict(Property::Volume));
        }
        self.volume = volume;
        self.command(BackendCommand::SetVolume(volume));
        Ok(())
    }

    /// The backend's speed, in millionths; normal speed for a player
    /// without audio.
    pub fn get_speed(&self) -> (r: i64)
        ensures
            r == if self@.is_loaded() {
                self@.speed
            } else {
                UNIT
            },
    {
        match self.state {
            PlayerState::Unloaded => UNIT,
            _ => self.speed,
        }
    }

    /// Writes the speed, unless a speed change owns it.
    pub fn set_speed(&mut self, speed: i64) -> (r: Result<(), PlayerError>)
        ensures
            r == old(self)@.speed_result(speed),
            final(self)@ == old(self)@.with_speed(speed),
    {
        if speed <= 0 {
            return Err(PlayerError::InvalidParameter);
        }
        match self.state {
            PlayerState::Unloaded => {
                return Err(PlayerError::NotLoaded);
            },
            _ => {},
        }
        if self.speed_locked {
            return Err(PlayerError::EffectConflict(Property::Speed));
        }
        self.speed = speed;
        self.command(BackendCommand::SetSpeed(speed));
        Ok(())
    }

    /// The position of playback when `delta` is on the virtual timer's
    /// clock.
    fn position_after(&self, delta: u64) -> (r: i64)
        ensures
            r == self@.position_after(delta),
    {
        if self.live {
            self.position
        } else {
            let elapsed = self.timer.elapsed_after(delta);
            if elapsed > i64::MAX as u64 {
                i64::MAX
            } else {
                elapsed as i64
            }
        }
    }

    /// The position of playback, rounded to hundredths of a second, when
    /// `delta` is on the virtual timer's clock.
    pub fn get_pos_after(&self, delta: u64) -> (r: Result<i64, PlayerError>)
        ensures
            r == self@.pos_result(delta),
    {
        match self.state {
            PlayerState::Unloaded => Err(PlayerError::NotLoaded),
            _ => Ok(round_hundredths(self.position_after(delta) as i128)),
        }
    }

    /// The position of playback, rounded to hundredths of a second: the
    /// backend's where one is bound, else the virtual timer's reading.
    pub fn get_pos(&self) -> (r: Result<i64, PlayerError>)
        ensures
            exists|delta: u64| r == self@.pos_result(delta),
            self@.live ==> r == self@.pos_result(0),
            r is Ok <==> self@.is_loaded(),
    {
        let delta: u64 = if self.live {
            0
        } else {
            self.timer.on_clock()
        };
        self.get_pos_after(delta)
    }

    /// Sets the length of the track.
    pub fn set_duration(&mut self, duration: i64) -> (r: Result<(), PlayerError>)
        ensures
            r == old(self)@.duration_result(duration),
            final(self)@ == old(self)@.with_duration(duration),
    {
        if duration < 0 {
            return Err(PlayerError::InvalidParameter);
        }
        self.metadata.duration = Some(duration);
        Ok(())
    }

    /// The time left to the end of the track, rounded to hundredths of a
    /// second, when `delta` is on the virtual timer's clock.
    pub fn get_remaining_time_after(&self, delta: u64) -> (r: Result<i64, PlayerError>)
        ensures
            r == self@.remaining_result(delta),
    {
        match self.state {
            PlayerState::Unloaded => {
                return Err(PlayerError::NotLoaded);
            },
            _ => {},
        }
        match self.metadata.duration {
            None => Err(PlayerError::DurationUnknown),
            Some(duration) => {
                let position = self.position_after(delta);
                Ok(round_hundredths(duration as i128 - position as i128))
            },
        }
    }

    /// The time left to the end of the track, rounded to hundredths of a
    /// second.
    pub fn get_remaining_time(&self) -> (r: Result<i64, PlayerError>)
        ensures
            exists|delta: u64| r == self@.remaining_result(delta),
            self@.live ==> r == self@.remaining_result(0),
    {
        let delta: u64 = if self.live {
            0
        } else {
            self.timer.on_clock()
        };
        self.get_remaining_time_after(delta)
    }

    /// Moves playback to `position`. A bound backend is told to seek and
    /// its answer is due to `seek_result`; without one the virtual timer is
    /// set to `position`.
    pub fn try_seek(&mut self, position: i64) -> (r: Result<(), PlayerError>)
        ensures
            r == old(self)@.seek_result(position),
            final(self)@ == old(self)@.sought(position),
    {
        if position < 0 {
            return Err(PlayerError::InvalidParameter);
        }
        match self.state {
            PlayerState::Unloaded => {
                return Err(PlayerError::NotLoaded);
            },
            _ => {},
        }
        if self.live {
            self.command(BackendCommand::Seek(position));
        } else {
            self.timer.force_elapsed(position as u64);
        }
        Ok(())
    }

    /// Takes the backend's answer to a seek: the position it reports where
    /// it accepted, a failure where it refused.
    pub fn seek_result(&mut self, accepted: bool, position: i64) -> (r: Result<(), PlayerError>)
        ensures
            r == old(self)@.seek_outcome(accepted),
            final(self)@ == old(self)@.seek_settled(accepted, position),
    {
        match self.state {
            PlayerState::Unloaded => {
                return Err(PlayerError::NotLoaded);
            },
            _ => {},
        }
        if !accepted {
            return Err(PlayerError::SeekFailure);
        }
        self.position = position;
        Ok(())
    }

    /// Cancels the completion callback.
    pub fn cancel_callback(&mut self)
        ensures
            final(self)@ == (PlayerModel { cancel_callback: true, ..old(self)@ }),
    {
        self.cancel_callback = true;
    }

    /// Whether the backend has reported that it has nothing left to play;
    /// `false` for a player without audio.
    pub fn empty(&self) -> (r: bool)
        ensures
            r == (self@.is_loaded() && self@.backend_empty),
    {
        match self.state {
            PlayerState::Unloaded => false,
            _ => self.backend_empty,
        }
    }

    /// Whether the player is playing.
    pub fn is_playing(&self) -> (r: bool)
        ensures
            r == (self@.state is Playing),
    {
        match self.state {
            PlayerState::Playing => true,
            _ => false,
        }
    }

    /// Whether every descriptor of `list` is fit to be scheduled.
    pub fn all_acceptable(list: &Vec<ActionType>) -> (r: bool)
        ensures
            r == forall|i: int| 0 <= i < list@.len() ==> acceptable(#[trigger] list@[i]),
    {
        let mut i: usize = 0;
        while i < list.len()
            invariant
                i <= list.len(),
                forall|j: int| 0 <= j < i ==> acceptable(#[trigger] list@[j]),
            decreases list.len() - i,
        {
            match list[i].duration() {
                Some(duration) => {
                    if duration < 0 {
                        return false;
                    }
                },
                None => {},
            }
            i += 1;
        }
        true
    }

    /// Sends the descriptors of `list` to the monitor, in order and as they
    /// are.
    pub fn send(&mut self, list: &Vec<ActionType>)
        ensures
            final(self)@ == old(self)@.sent(list@),
    {
        let mut i: usize = 0;
        assert(self.pending@ =~= old(self).pending@ + list@.take(0));
        while i < list.len()
            invariant
                i <= list.len(),
                self@ == (PlayerModel {
                    pending: old(self)@.pending + list@.take(i as int),
                    ..old(self)@
                }),
            decreases list.len() - i,
        {
            self.pending.push(list[i]);
            assert(self.pending@ =~= old(self).pending@ + list@.take(i + 1));
            i += 1;
        }
        assert(list@.take(list@.len() as int) =~= list@);
    }

    /// Makes `effect_list` the player's chain and sends its descriptors to
    /// the monitor. A list with a negative duration in it is refused whole.
    pub fn apply_effects(&mut self, effect_list: Vec<ActionType>) -> (r: Result<(), PlayerError>)
        ensures
            r == old(self)@.effects_result(effect_list@),
            final(self)@ == old(self)@.with_effects(effect_list@),
    {
        if !Self::all_acceptable(&effect_list) {
            return Err(PlayerError::InvalidParameter);
        }
        self.send(&effect_list);
        self.effects_chain = effect_list;
        Ok(())
    }

    /// Hands over the commands given to the backend since the last call,
    /// in order.
    pub fn take_commands(&mut self) -> (r: Vec<BackendCommand>)
        ensures
            r@ == old(self)@.outbox,
            final(self)@ == (PlayerModel { outbox: Seq::empty(), ..old(self)@ }),
    {
        let mut commands: Vec<BackendCommand> = Vec::new();
        std::mem::swap(&mut self.outbox, &mut commands);
        commands
    }

    /// The identity the player was made with.
    pub fn id(&self) -> (r: u64)
        ensures
            r == self@.id,
    {
        self.id
    }

    /// Where the player stands in its life.
    pub fn state(&self) -> (r: PlayerState)
        ensures
            r == self@.state,
    {
        self.state
    }

    /// Whether an audio backend is bound; `false` for a player that runs on
    /// its virtual timer.
    pub fn is_live(&self) -> (r: bool)
        ensures
            r == self@.live,
    {
        self.live
    }

    /// Whether the player has not played yet.
    pub fn initial_play(&self) -> (r: bool)
        ensures
            r == !(self@.state is Playing || self@.state is Paused || self@.state is Finished),
    {
        match self.state {
            PlayerState::Unloaded => true,
            PlayerState::Loaded => true,
            _ => false,
        }
    }

    /// What is known of the loaded track.
    pub fn metadata(&self) -> (r: &MetaData)
        ensures
            *r == self@.metadata,
    {
        &self.metadata
    }

    /// Whether a fade owns the volume.
    pub fn volume_locked(&self) -> (r: bool)
        ensures
            r == self@.volume_locked,
    {
        self.volume_locked
    }

    /// Whether a speed change owns the speed.
    pub fn speed_locked(&self) -> (r: bool)
        ensures
            r == self@.speed_locked,
    {
        self.speed_locked
    }

    /// Whether a stop was forced.
    pub fn force_stop(&self) -> (r: bool)
        ensures
            r == self@.force_stop,
    {
        self.force_stop
    }

    /// Whether the monitor is to resume the backend.
    pub fn resume_pending(&self) -> (r: bool)
        ensures
            r == self@.resume,
    {
        self.resume
    }

    /// Whether the backend is paused, by the commands given to it.
    pub fn backend_paused(&self) -> (r: bool)
        ensures
            r == self@.paused,
    {
        self.paused
    }

    /// Whether the completion callback was cancelled.
    pub fn callback_cancelled(&self) -> (r: bool)
        ensures
            r == self@.cancel_callback,
    {
        self.cancel_callback
    }

    /// Whether the monitor of this player is alive.
    pub fn is_monitored(&self) -> (r: bool)
        ensures
            r == self@.monitoring,
    {
        self.monitoring
    }

    /// The chain that was last applied.
    pub fn effects_chain(&self) -> (r: &Vec<ActionType>)
        ensures
            r@ == self@.effects_chain,
    {
        &self.effects_chain
    }

    /// The descriptors that the monitor has yet to take.
    pub fn pending_actions(&self) -> (r: &Vec<ActionType>)
        ensures
            r@ == self@.pending,
    {
        &self.pending
    }

    /// The ramps under way.
    pub fn active_effects(&self) -> (r: &Vec<EffectSync>)
        ensures
            ramps_of(r@) == self@.effects,
    {
        &self.effects
    }

    /// Whether playback is over for the channel that holds the player: it
    /// is not playing, and its backend is empty or a stop was forced.
    pub fn is_spent(&self) -> (r: bool)
        ensures
            r == (!(self@.state is Playing) && self@.is_over()),
    {
        !self.is_playing() && (self.backend_empty || self.force_stop)
    }
}

} // verus!
