use rpaudio::audiosink::AudioSink;
use rpaudio::exceptions::{PlayerError, Property};
use rpaudio::exmetadata::MetaData;
use rpaudio::playback::{BackendCommand, BackendStatus, MonitorOutcome, PlayerState};
use rpaudio::timesync::{ActionType, ChangeSpeed, FadeIn, FadeOut, UNIT};

fn track(duration: Option<i64>) -> MetaData {
    let mut metadata = MetaData::default();
    metadata.duration = duration;
    metadata
}

fn live_player(id: u64, duration: Option<i64>) -> AudioSink {
    let mut player = AudioSink::new(id);
    assert_eq!(player.load_audio(Some(track(duration)), true, false), Ok(()));
    player.take_commands();
    player
}

fn virtual_player(id: u64, duration: Option<i64>) -> AudioSink {
    let mut player = AudioSink::new(id);
    assert_eq!(player.load_audio(Some(track(duration)), false, true), Ok(()));
    player.take_commands();
    player
}

fn at(position: i64) -> BackendStatus {
    BackendStatus { position, empty: false }
}

fn fade_in(duration: i64, start: i64, end: i64) -> ActionType {
    ActionType::FadeIn(FadeIn::new(Some(duration), Some(start), Some(end), None))
}

#[test]
fn new_player_has_no_audio() {
    let player = AudioSink::new(7);
    assert_eq!(player.id(), 7);
    assert_eq!(player.state(), PlayerState::Unloaded);
    assert!(!player.is_playing());
    assert!(!player.empty());
    assert!(player.initial_play());
    assert!(!player.is_monitored());
    assert!(!player.is_live());
    assert_eq!(player.get_speed(), UNIT);
    assert_eq!(player.get_volume(), Err(PlayerError::NotLoaded));
    assert_eq!(player.get_pos(), Err(PlayerError::NotLoaded));
    assert_eq!(player.get_remaining_time(), Err(PlayerError::NotLoaded));
    assert!(player.metadata().title.is_none());
    assert!(player.metadata().duration.is_none());
    assert!(player.effects_chain().is_empty());
    assert!(player.active_effects().is_empty());
    assert!(player.pending_actions().is_empty());
}

#[test]
fn load_binds_a_paused_silent_backend() {
    let mut player = AudioSink::new(1);
    let mut metadata = track(Some(20_000_000));
    metadata.title = Some(String::from("Song"));
    assert_eq!(player.load_audio(Some(metadata), true, false), Ok(()));
    assert_eq!(player.state(), PlayerState::Loaded);
    assert!(player.is_live());
    assert!(player.is_monitored());
    assert!(player.backend_paused());
    assert!(player.initial_play());
    assert_eq!(player.get_volume(), Ok(0));
    assert_eq!(player.get_speed(), UNIT);
    assert_eq!(player.metadata().title, Some(String::from("Song")));
    assert_eq!(player.metadata().duration, Some(20_000_000));
    assert_eq!(
        player.take_commands(),
        vec![BackendCommand::Pause, BackendCommand::SetVolume(0)]
    );
    assert!(player.take_commands().is_empty());
}

#[test]
fn load_fails_when_already_loaded() {
    let mut player = live_player(1, None);
    assert_eq!(
        player.load_audio(Some(track(Some(5))), true, false),
        Err(PlayerError::AlreadyLoaded)
    );
    assert_eq!(player.load_audio(None, false, false), Err(PlayerError::AlreadyLoaded));
    assert_eq!(player.metadata().duration, None);
    assert!(player.take_commands().is_empty());
}

#[test]
fn load_fails_without_a_device_unless_forced() {
    let mut player = AudioSink::new(1);
    assert_eq!(
        player.load_audio(Some(track(None)), false, false),
        Err(PlayerError::BackendUnavailable)
    );
    assert_eq!(player.state(), PlayerState::Unloaded);
    assert_eq!(player.load_audio(Some(track(None)), false, true), Ok(()));
    assert_eq!(player.state(), PlayerState::Loaded);
    assert!(!player.is_live());
}

#[test]
fn load_fails_without_metadata() {
    let mut player = AudioSink::new(1);
    assert_eq!(
        player.load_audio(None, true, false),
        Err(PlayerError::MetadataExtractionFailure)
    );
    assert_eq!(player.state(), PlayerState::Unloaded);
    assert!(!player.is_monitored());
    assert!(player.take_commands().is_empty());
}

#[test]
fn commands_need_audio() {
    let mut player = AudioSink::new(1);
    assert_eq!(player.play(), Err(PlayerError::NotLoaded));
    assert_eq!(player.pause(), Err(PlayerError::NotLoaded));
    assert_eq!(player.stop(), Err(PlayerError::NotLoaded));
    assert_eq!(player.set_volume(500_000), Err(PlayerError::NotLoaded));
    assert_eq!(player.set_speed(UNIT), Err(PlayerError::NotLoaded));
    assert_eq!(player.try_seek(1), Err(PlayerError::NotLoaded));
    assert_eq!(player.seek_result(true, 1), Err(PlayerError::NotLoaded));
    assert_eq!(player.state(), PlayerState::Unloaded);
    assert!(player.take_commands().is_empty());
    assert_eq!(player.tick(at(0)), MonitorOutcome::Idle);
}

#[test]
fn first_play_starts_the_backend() {
    let mut player = live_player(1, None);
    assert_eq!(player.play(), Ok(()));
    assert!(player.is_playing());
    assert_eq!(player.state(), PlayerState::Playing);
    assert!(!player.initial_play());
    assert!(!player.backend_paused());
    assert!(!player.resume_pending());
    assert_eq!(player.take_commands(), vec![BackendCommand::Play]);
}

#[test]
fn later_play_leaves_resuming_to_the_monitor() {
    let mut player = live_player(1, None);
    player.play().unwrap();
    assert_eq!(player.pause(), Ok(()));
    assert_eq!(player.state(), PlayerState::Paused);
    assert!(player.backend_paused());
    assert!(!player.is_playing());
    assert_eq!(player.take_commands(), vec![BackendCommand::Play, BackendCommand::Pause]);
    assert_eq!(player.play(), Ok(()));
    assert!(player.is_playing());
    assert!(player.resume_pending());
    assert!(player.backend_paused());
    assert!(player.take_commands().is_empty());
    assert_eq!(player.tick(at(1_000)), MonitorOutcome::Running);
    assert!(!player.resume_pending());
    assert!(!player.backend_paused());
    assert_eq!(player.take_commands(), vec![BackendCommand::Play]);
    assert_eq!(player.tick(at(2_000)), MonitorOutcome::Running);
    assert!(player.take_commands().is_empty());
}

#[test]
fn pause_before_play_keeps_the_player_loaded() {
    let mut player = live_player(1, None);
    assert_eq!(player.pause(), Ok(()));
    assert_eq!(player.state(), PlayerState::Loaded);
    assert!(player.initial_play());
    assert_eq!(player.take_commands(), vec![BackendCommand::Pause]);
}

#[test]
fn set_volume_checks_range_then_audio_then_lock() {
    let mut player = AudioSink::new(1);
    assert_eq!(player.set_volume(-1), Err(PlayerError::InvalidParameter));
    assert_eq!(player.set_volume(UNIT + 1), Err(PlayerError::InvalidParameter));
    let mut player = live_player(1, None);
    assert_eq!(player.set_volume(-1), Err(PlayerError::InvalidParameter));
    assert_eq!(player.set_volume(UNIT + 1), Err(PlayerError::InvalidParameter));
    assert_eq!(player.get_volume(), Ok(0));
    assert_eq!(player.set_volume(0), Ok(()));
    assert_eq!(player.set_volume(UNIT), Ok(()));
    assert_eq!(player.set_volume(250_000), Ok(()));
    assert_eq!(player.get_volume(), Ok(250_000));
    assert_eq!(
        player.take_commands(),
        vec![
            BackendCommand::SetVolume(0),
            BackendCommand::SetVolume(UNIT),
            BackendCommand::SetVolume(250_000)
        ]
    );
}

#[test]
fn set_speed_checks_range_then_audio_then_lock() {
    let mut player = live_player(1, None);
    assert_eq!(player.set_speed(0), Err(PlayerError::InvalidParameter));
    assert_eq!(player.set_speed(-UNIT), Err(PlayerError::InvalidParameter));
    assert_eq!(player.get_speed(), UNIT);
    assert_eq!(player.set_speed(1), Ok(()));
    assert_eq!(player.set_speed(2_500_000), Ok(()));
    assert_eq!(player.get_speed(), 2_500_000);
    assert_eq!(
        player.take_commands(),
        vec![BackendCommand::SetSpeed(1), BackendCommand::SetSpeed(2_500_000)]
    );
}

#[test]
fn set_volume_conflicts_with_an_active_fade() {
    let mut player = live_player(1, Some(20_000_000));
    assert_eq!(player.apply_effects(vec![fade_in(5_000_000, 0, UNIT)]), Ok(()));
    assert_eq!(player.play(), Ok(()));
    assert!(player.volume_locked());
    assert_eq!(player.active_effects().len(), 1);
    assert_eq!(
        player.take_commands(),
        vec![
            BackendCommand::Play,
            BackendCommand::SetVolume(0),
            BackendCommand::SetVolume(0)
        ]
    );
    assert_eq!(
        player.set_volume(500_000),
        Err(PlayerError::EffectConflict(Property::Volume))
    );
    assert_eq!(player.tick(at(2_500_000)), MonitorOutcome::Running);
    assert_eq!(player.get_volume(), Ok(500_000));
    assert_eq!(player.take_commands(), vec![BackendCommand::SetVolume(500_000)]);
    assert_eq!(
        player.set_volume(100_000),
        Err(PlayerError::EffectConflict(Property::Volume))
    );
    assert_eq!(player.get_volume(), Ok(500_000));
    assert_eq!(player.set_speed(2 * UNIT), Ok(()));
    player.take_commands();
    assert_eq!(player.tick(at(5_000_000)), MonitorOutcome::Running);
    assert!(!player.volume_locked());
    assert!(player.active_effects().is_empty());
    assert_eq!(player.get_volume(), Ok(UNIT));
    assert_eq!(player.take_commands(), vec![BackendCommand::SetVolume(UNIT)]);
    assert_eq!(player.set_volume(300_000), Ok(()));
    assert_eq!(player.get_volume(), Ok(300_000));
    assert_eq!(player.tick(at(6_000_000)), MonitorOutcome::Running);
    assert_eq!(player.get_volume(), Ok(300_000));
}

#[test]
fn set_speed_conflicts_with_an_active_speed_change() {
    let mut player = live_player(1, Some(20_000_000));
    player.play().unwrap();
    let change = ActionType::ChangeSpeed(ChangeSpeed::new(
        Some(4_000_000),
        None,
        Some(2_000_000),
        None,
    ));
    assert_eq!(player.apply_effects(vec![change]), Ok(()));
    player.take_commands();
    assert_eq!(player.tick(at(1_000_000)), MonitorOutcome::Running);
    assert!(player.speed_locked());
    assert_eq!(player.get_speed(), UNIT);
    assert_eq!(player.set_speed(UNIT), Err(PlayerError::EffectConflict(Property::Speed)));
    assert_eq!(player.set_volume(UNIT), Ok(()));
    player.take_commands();
    assert_eq!(player.tick(at(3_000_000)), MonitorOutcome::Running);
    assert_eq!(player.get_speed(), 1_500_000);
    assert_eq!(player.take_commands(), vec![BackendCommand::SetSpeed(1_500_000)]);
    assert_eq!(player.tick(at(5_000_000)), MonitorOutcome::Running);
    assert!(!player.speed_locked());
    assert_eq!(player.get_speed(), 2_000_000);
    assert_eq!(player.set_speed(UNIT), Ok(()));
}

#[test]
fn effect_that_is_not_due_touches_nothing() {
    let mut player = live_player(1, Some(60_000_000));
    player.play().unwrap();
    player.set_volume(700_000).unwrap();
    let later = ActionType::FadeOut(FadeOut::new(Some(5_000_000), None, None, None));
    assert_eq!(player.apply_effects(vec![later]), Ok(()));
    player.take_commands();
    assert_eq!(player.tick(at(1_000_000)), MonitorOutcome::Running);
    assert_eq!(player.active_effects().len(), 1);
    assert_eq!(player.active_effects()[0].start_position(), 55_000_000);
    for position in [2_000_000, 2_000_000, 30_000_000, 54_999_999] {
        assert_eq!(player.tick(at(position)), MonitorOutcome::Running);
        assert_eq!(player.get_volume(), Ok(700_000));
        assert!(!player.volume_locked());
        assert!(player.take_commands().is_empty());
        assert_eq!(player.active_effects().len(), 1);
    }
    assert_eq!(player.set_volume(900_000), Ok(()));
    player.take_commands();
    assert_eq!(player.tick(at(57_500_000)), MonitorOutcome::Running);
    assert_eq!(player.get_volume(), Ok(500_000));
    assert!(player.volume_locked());
}

#[test]
fn monitor_takes_one_action_per_tick_in_order() {
    let mut player = live_player(1, Some(60_000_000));
    player.play().unwrap();
    let first = fade_in(1_000_000, 0, UNIT);
    let second = ActionType::ChangeSpeed(ChangeSpeed::new(Some(1_000_000), None, None, None));
    assert_eq!(player.apply_effects(vec![first, second]), Ok(()));
    assert_eq!(player.effects_chain(), &vec![first, second]);
    assert_eq!(player.pending_actions(), &vec![first, second]);
    assert_eq!(player.tick(at(0)), MonitorOutcome::Running);
    assert_eq!(player.pending_actions(), &vec![second]);
    assert_eq!(player.active_effects().len(), 1);
    assert_eq!(player.active_effects()[0].action(), first);
    assert_eq!(player.tick(at(100_000)), MonitorOutcome::Running);
    assert!(player.pending_actions().is_empty());
    assert_eq!(player.active_effects().len(), 2);
    assert_eq!(player.active_effects()[1].action(), second);
    assert_eq!(player.active_effects()[1].start_position(), 100_000);
}

#[test]
fn first_play_takes_every_pending_action() {
    let mut player = live_player(1, Some(60_000_000));
    let a = fade_in(2_000_000, 200_000, UNIT);
    let b = ActionType::ChangeSpeed(ChangeSpeed::new(
        Some(2_000_000),
        Some(UNIT),
        Some(2 * UNIT),
        None,
    ));
    assert_eq!(player.apply_effects(vec![a, b]), Ok(()));
    assert_eq!(player.play(), Ok(()));
    assert!(player.pending_actions().is_empty());
    assert_eq!(player.active_effects().len(), 2);
    assert_eq!(player.get_volume(), Ok(200_000));
    assert!(player.volume_locked());
    assert!(player.speed_locked());
    assert_eq!(
        player.take_commands(),
        vec![
            BackendCommand::Play,
            BackendCommand::SetVolume(200_000),
            BackendCommand::SetVolume(200_000),
            BackendCommand::SetSpeed(UNIT)
        ]
    );
}

#[test]
fn fade_in_before_first_play_seeds_the_volume() {
    let mut player = live_player(1, None);
    let seeded = ActionType::FadeIn(FadeIn::new(Some(1_000_000), Some(400_000), None, Some(9_000_000)));
    player.apply_effects(vec![seeded]).unwrap();
    assert_eq!(player.tick(at(0)), MonitorOutcome::Running);
    assert_eq!(player.get_volume(), Ok(400_000));
    assert!(!player.volume_locked());
    assert_eq!(player.take_commands(), vec![BackendCommand::SetVolume(400_000)]);
    let mut playing = live_player(2, None);
    playing.play().unwrap();
    playing.take_commands();
    playing.apply_effects(vec![seeded]).unwrap();
    assert_eq!(playing.tick(at(0)), MonitorOutcome::Running);
    assert_eq!(playing.get_volume(), Ok(0));
    assert!(playing.take_commands().is_empty());
}

#[test]
fn apply_effects_refuses_a_negative_duration() {
    let mut player = live_player(1, None);
    let good = fade_in(1_000_000, 0, UNIT);
    let bad = ActionType::FadeOut(FadeOut::new(Some(-1), None, None, None));
    assert!(AudioSink::all_acceptable(&vec![good]));
    assert!(!AudioSink::all_acceptable(&vec![good, bad]));
    assert!(AudioSink::all_acceptable(&vec![]));
    assert_eq!(player.apply_effects(vec![good, bad]), Err(PlayerError::InvalidParameter));
    assert!(player.effects_chain().is_empty());
    assert!(player.pending_actions().is_empty());
    assert_eq!(player.apply_effects(vec![good]), Ok(()));
    assert_eq!(player.apply_effects(vec![bad]), Err(PlayerError::InvalidParameter));
    assert_eq!(player.effects_chain(), &vec![good]);
    assert_eq!(player.apply_effects(vec![good, good]), Ok(()));
    assert_eq!(player.effects_chain(), &vec![good, good]);
    assert_eq!(player.pending_actions(), &vec![good, good, good]);
}

#[test]
fn send_passes_descriptors_as_they_are() {
    let mut player = live_player(1, None);
    let bad = ActionType::FadeOut(FadeOut::new(Some(-1), None, None, None));
    player.send(&vec![bad]);
    assert_eq!(player.pending_actions(), &vec![bad]);
    assert!(player.effects_chain().is_empty());
}

#[test]
fn monitor_ends_when_the_backend_is_empty() {
    let mut player = live_player(1, None);
    player.play().unwrap();
    assert_eq!(player.tick(at(1_000)), MonitorOutcome::Running);
    assert!(!player.empty());
    assert!(!player.is_spent());
    let done = BackendStatus { position: 2_000, empty: true };
    assert_eq!(player.tick(done), MonitorOutcome::Finished { invoke_callback: true });
    assert_eq!(player.state(), PlayerState::Finished);
    assert!(!player.is_playing());
    assert!(player.empty());
    assert!(player.is_spent());
    assert!(!player.is_monitored());
    assert_eq!(player.tick(done), MonitorOutcome::Idle);
    assert_eq!(player.tick(at(0)), MonitorOutcome::Idle);
    assert!(player.empty());
}

#[test]
fn cancelled_callback_is_not_invoked() {
    let mut player = live_player(1, None);
    player.play().unwrap();
    assert!(!player.callback_cancelled());
    player.cancel_callback();
    assert!(player.callback_cancelled());
    let done = BackendStatus { position: 0, empty: true };
    assert_eq!(player.tick(done), MonitorOutcome::Finished { invoke_callback: false });
}

#[test]
fn stop_finishes_and_the_monitor_follows() {
    let mut player = live_player(1, None);
    player.play().unwrap();
    player.take_commands();
    assert_eq!(player.stop(), Ok(()));
    assert_eq!(player.state(), PlayerState::Finished);
    assert!(!player.force_stop());
    assert!(player.is_monitored());
    assert_eq!(player.take_commands(), vec![BackendCommand::Stop]);
    assert_eq!(player.play(), Ok(()));
    assert_eq!(player.state(), PlayerState::Finished);
    assert_eq!(player.pause(), Ok(()));
    assert_eq!(player.state(), PlayerState::Finished);
    assert_eq!(player.tick(at(5)), MonitorOutcome::Running);
    let done = BackendStatus { position: 5, empty: true };
    assert_eq!(player.tick(done), MonitorOutcome::Finished { invoke_callback: true });
}

#[test]
fn positions_are_rounded_to_hundredths() {
    let mut player = live_player(1, Some(20_000_000));
    assert_eq!(player.get_pos(), Ok(0));
    player.observe(at(1_234_567));
    assert_eq!(player.current_position(), 1_234_567);
    assert_eq!(player.get_pos(), Ok(1_230_000));
    assert_eq!(player.get_pos_after(77), Ok(1_230_000));
    assert_eq!(player.get_remaining_time(), Ok(18_770_000));
    player.observe(at(1_235_000));
    assert_eq!(player.get_pos(), Ok(1_240_000));
    player.observe(at(4_999));
    assert_eq!(player.get_pos(), Ok(0));
    player.observe(at(5_000));
    assert_eq!(player.get_pos(), Ok(10_000));
    player.observe(at(-1_235_000));
    assert_eq!(player.get_pos(), Ok(-1_240_000));
    player.observe(at(20_234_567));
    assert_eq!(player.get_remaining_time(), Ok(-230_000));
    player.observe(at(i64::MAX));
    assert_eq!(player.get_pos(), Ok(i64::MAX));
    player.observe(at(i64::MIN));
    assert_eq!(player.get_pos(), Ok(i64::MIN));
    assert_eq!(player.get_remaining_time(), Ok(i64::MAX));
}

#[test]
fn remaining_time_needs_a_known_length() {
    let mut player = live_player(1, None);
    assert_eq!(player.get_remaining_time(), Err(PlayerError::DurationUnknown));
    assert_eq!(player.get_remaining_time_after(3), Err(PlayerError::DurationUnknown));
    assert_eq!(player.set_duration(-1), Err(PlayerError::InvalidParameter));
    assert_eq!(player.metadata().duration, None);
    assert_eq!(player.set_duration(3_000_000), Ok(()));
    assert_eq!(player.metadata().duration, Some(3_000_000));
    player.observe(at(1_000_000));
    assert_eq!(player.get_remaining_time(), Ok(2_000_000));
    let mut unloaded = AudioSink::new(2);
    assert_eq!(unloaded.set_duration(0), Ok(()));
    assert_eq!(unloaded.metadata().duration, Some(0));
}

#[test]
fn seek_on_a_live_backend_is_a_command_with_an_answer() {
    let mut player = live_player(1, Some(20_000_000));
    assert_eq!(player.try_seek(-1), Err(PlayerError::InvalidParameter));
    assert!(player.take_commands().is_empty());
    assert_eq!(player.try_seek(0), Ok(()));
    assert_eq!(player.try_seek(7_000_000), Ok(()));
    assert_eq!(
        player.take_commands(),
        vec![BackendCommand::Seek(0), BackendCommand::Seek(7_000_000)]
    );
    assert_eq!(player.current_position(), 0);
    assert_eq!(player.seek_result(false, 7_000_000), Err(PlayerError::SeekFailure));
    assert_eq!(player.current_position(), 0);
    assert_eq!(player.seek_result(true, 7_000_000), Ok(()));
    assert_eq!(player.current_position(), 7_000_000);
    assert_eq!(player.get_pos(), Ok(7_000_000));
}

#[test]
fn virtual_player_keeps_time_by_its_timer() {
    let mut player = virtual_player(1, Some(1_000_000));
    assert_eq!(player.current_position(), 0);
    assert_eq!(player.tick_after(at(9_999), 500_000), MonitorOutcome::Running);
    assert_eq!(player.current_position(), 0);
    assert_eq!(player.play(), Ok(()));
    assert_eq!(player.take_commands(), vec![BackendCommand::Play]);
    assert_eq!(player.tick_after(at(9_999), 400_000), MonitorOutcome::Running);
    assert_eq!(player.current_position(), 400_000);
    assert_eq!(player.get_pos_after(0), Ok(400_000));
    assert_eq!(player.get_pos_after(104_999), Ok(500_000));
    assert_eq!(player.get_remaining_time_after(0), Ok(600_000));
    assert!(player.get_pos().unwrap() >= 400_000);
    assert_eq!(player.set_speed(2 * UNIT), Ok(()));
    assert_eq!(player.tick_after(at(0), 300_000), MonitorOutcome::Running);
    assert_eq!(player.current_position(), 1_000_000);
    assert!(!player.force_stop());
    assert_eq!(
        player.tick_after(at(0), 1),
        MonitorOutcome::Finished { invoke_callback: true }
    );
    assert_eq!(player.current_position(), 1_000_002);
    assert!(player.force_stop());
    assert_eq!(player.state(), PlayerState::Finished);
    assert_eq!(player.tick_after(at(0), 1_000), MonitorOutcome::Idle);
    assert_eq!(player.current_position(), 1_000_002);
}

#[test]
fn virtual_player_pauses_seeks_and_stops() {
    let mut player = virtual_player(1, None);
    player.play().unwrap();
    assert_eq!(player.pause_after(250_000), Ok(()));
    assert_eq!(player.current_position(), 250_000);
    assert_eq!(player.tick_after(at(0), 900_000), MonitorOutcome::Running);
    assert_eq!(player.current_position(), 250_000);
    assert_eq!(player.play(), Ok(()));
    assert_eq!(player.tick_after(at(0), 50_000), MonitorOutcome::Running);
    assert_eq!(player.current_position(), 300_000);
    assert_eq!(player.try_seek(5_000_000), Ok(()));
    assert_eq!(player.current_position(), 5_000_000);
    assert_eq!(player.try_seek(-5), Err(PlayerError::InvalidParameter));
    player.take_commands();
    assert_eq!(player.stop_after(10), Ok(()));
    assert_eq!(player.current_position(), 5_000_010);
    assert!(player.force_stop());
    assert_eq!(player.state(), PlayerState::Finished);
    assert_eq!(player.take_commands(), vec![BackendCommand::Stop]);
    assert_eq!(
        player.tick_after(at(0), 10),
        MonitorOutcome::Finished { invoke_callback: true }
    );
}

#[test]
fn virtual_player_reads_the_clock() {
    let mut player = virtual_player(1, Some(3_600_000_000));
    player.play().unwrap();
    assert_eq!(player.tick(at(0)), MonitorOutcome::Running);
    let before = player.current_position();
    assert_eq!(player.pause(), Ok(()));
    assert!(player.current_position() >= before);
    let paused_at = player.current_position();
    assert_eq!(player.tick(at(0)), MonitorOutcome::Running);
    assert_eq!(player.current_position(), paused_at);
    assert_eq!(player.stop(), Ok(()));
    assert_eq!(player.current_position(), paused_at);
    assert_eq!(player.tick(at(0)), MonitorOutcome::Finished { invoke_callback: true });
}

#[test]
fn virtual_timer_stands_still_at_negative_speed() {
    let mut player = virtual_player(1, None);
    player.play().unwrap();
    let reverse = ActionType::ChangeSpeed(ChangeSpeed::new(Some(0), None, Some(-UNIT), None));
    player.send(&vec![reverse]);
    assert_eq!(player.tick_after(at(0), 100), MonitorOutcome::Running);
    assert_eq!(player.get_speed(), -UNIT);
    assert_eq!(player.current_position(), 0);
    assert_eq!(player.tick_after(at(0), 100_000), MonitorOutcome::Running);
    assert_eq!(player.current_position(), 0);
}

#[test]
fn resume_unpauses_a_backend_paused_during_a_fade() {
    let mut player = live_player(1, Some(20_000_000));
    player.apply_effects(vec![fade_in(4_000_000, 0, UNIT)]).unwrap();
    player.play().unwrap();
    assert_eq!(player.tick(at(1_000_000)), MonitorOutcome::Running);
    assert_eq!(player.get_volume(), Ok(250_000));
    player.pause().unwrap();
    player.take_commands();
    assert_eq!(player.tick(at(1_000_000)), MonitorOutcome::Running);
    assert!(player.backend_paused());
    assert_eq!(player.take_commands(), vec![BackendCommand::SetVolume(250_000)]);
    player.play().unwrap();
    assert!(player.resume_pending());
    assert_eq!(player.tick(at(1_000_000)), MonitorOutcome::Running);
    assert!(!player.resume_pending());
    assert!(!player.backend_paused());
    assert_eq!(
        player.take_commands(),
        vec![BackendCommand::SetVolume(250_000), BackendCommand::Play]
    );
    assert_eq!(player.tick(at(3_000_000)), MonitorOutcome::Running);
    assert_eq!(player.get_volume(), Ok(750_000));
    assert!(player.volume_locked());
}
