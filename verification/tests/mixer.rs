use rpaudio::audioqueue::AudioChannel;
use rpaudio::audiosink::AudioSink;
use rpaudio::exceptions::PlayerError;
use rpaudio::exmetadata::MetaData;
use rpaudio::mixer::ChannelManager;
use rpaudio::playback::{BackendCommand, PlayerState};

fn loaded(id: u64) -> AudioSink {
    let mut player = AudioSink::new(id);
    assert_eq!(player.load_audio(Some(MetaData::default()), true, false), Ok(()));
    player.take_commands();
    player
}

fn channel_with(volume: i64, players: Vec<u64>) -> AudioChannel {
    let mut channel = AudioChannel::new();
    channel.set_volume(volume);
    for id in players {
        channel.push(loaded(id));
    }
    channel
}

fn name(text: &str) -> String {
    String::from(text)
}

#[test]
fn new_mixer_has_no_channels() {
    let mixer = ChannelManager::new();
    assert_eq!(mixer.len(), 0);
    assert!(!mixer.has_channel(name("music")));
    assert!(mixer.channel(name("music")).is_none());
}

#[test]
fn add_channel_registers_and_overwrites() {
    let mut mixer = ChannelManager::new();
    assert!(mixer.add_channel(name("music"), channel_with(1, vec![1])).is_none());
    assert!(mixer.add_channel(name("speech"), channel_with(2, vec![])).is_none());
    assert_eq!(mixer.len(), 2);
    assert!(mixer.has_channel(name("music")));
    assert!(mixer.has_channel(name("speech")));
    assert!(!mixer.has_channel(name("Music")));
    assert_eq!(mixer.channel(name("music")).unwrap().volume(), 1);
    assert_eq!(mixer.channel(name("speech")).unwrap().volume(), 2);
    let replaced = mixer.add_channel(name("music"), channel_with(3, vec![7, 8])).unwrap();
    assert_eq!(replaced.volume(), 1);
    assert_eq!(replaced.queue_len(), 1);
    assert_eq!(mixer.len(), 2);
    assert_eq!(mixer.channel(name("music")).unwrap().volume(), 3);
    assert_eq!(mixer.channel(name("music")).unwrap().queue_len(), 2);
    assert_eq!(mixer.channel(name("speech")).unwrap().volume(), 2);
}

#[test]
fn drop_channel_fails_for_an_unknown_name() {
    let mut mixer = ChannelManager::new();
    assert_eq!(mixer.drop_channel(name("music")).err(), Some(PlayerError::ChannelNotFound));
    mixer.add_channel(name("music"), channel_with(1, vec![]));
    assert_eq!(mixer.drop_channel(name("musi")).err(), Some(PlayerError::ChannelNotFound));
    assert_eq!(mixer.len(), 1);
    assert!(mixer.has_channel(name("music")));
}

#[test]
fn drop_channel_shuts_the_channel_down() {
    let mut mixer = ChannelManager::new();
    mixer.add_channel(name("a"), channel_with(1, vec![1, 2, 3]));
    mixer.add_channel(name("b"), channel_with(2, vec![4]));
    mixer.add_channel(name("c"), channel_with(3, vec![]));
    mixer.start_all();
    {
        let channel = mixer.channel_mut(name("a")).unwrap();
        assert!(channel.tick().is_none());
        assert_eq!(channel.current_audio().unwrap().id(), 1);
        channel.current_audio_mut().unwrap().take_commands();
    }
    let mut dropped = mixer.drop_channel(name("a")).unwrap();
    assert!(mixer.channel(name("a")).is_none());
    assert!(!mixer.has_channel(name("a")));
    assert_eq!(mixer.len(), 2);
    assert!(dropped.queue_contents().is_empty());
    assert_eq!(dropped.volume(), 1);
    let player = dropped.current_audio_mut().unwrap();
    assert_eq!(player.id(), 1);
    assert_eq!(player.state(), PlayerState::Finished);
    assert_eq!(player.take_commands(), vec![BackendCommand::Pause, BackendCommand::Stop]);
    assert_eq!(mixer.channel(name("b")).unwrap().queue_len(), 1);
    assert_eq!(mixer.channel(name("c")).unwrap().volume(), 3);
    assert_eq!(mixer.drop_channel(name("a")).err(), Some(PlayerError::ChannelNotFound));
    let last = mixer.drop_channel(name("c")).unwrap();
    assert!(last.current_audio().is_none());
    assert_eq!(mixer.len(), 1);
    assert!(mixer.has_channel(name("b")));
}

#[test]
fn start_all_and_stop_all_reach_every_channel() {
    let mut mixer = ChannelManager::new();
    mixer.start_all();
    assert_eq!(mixer.len(), 0);
    let names = ["a", "b", "c", "d"];
    for (i, n) in names.iter().enumerate() {
        let mut channel = channel_with(i as i64, vec![i as u64]);
        channel.set_auto_consume(i % 2 == 0);
        mixer.add_channel(name(n), channel);
    }
    mixer.start_all();
    for (i, n) in names.iter().enumerate() {
        let channel = mixer.channel(name(n)).unwrap();
        assert!(channel.auto_consume());
        assert_eq!(channel.volume(), i as i64);
        assert_eq!(channel.queue_len(), 1);
        assert!(channel.current_audio().is_none());
    }
    mixer.stop_all();
    for n in names.iter() {
        assert!(!mixer.channel(name(n)).unwrap().auto_consume());
    }
    assert_eq!(mixer.len(), 4);
}

#[test]
fn channel_mut_changes_the_registered_channel() {
    let mut mixer = ChannelManager::new();
    mixer.add_channel(name("a"), channel_with(1, vec![]));
    mixer.add_channel(name("b"), channel_with(2, vec![]));
    assert!(mixer.channel_mut(name("zzz")).is_none());
    mixer.channel_mut(name("b")).unwrap().push(loaded(11));
    mixer.channel_mut(name("b")).unwrap().set_volume(77);
    assert_eq!(mixer.channel(name("b")).unwrap().queue_len(), 1);
    assert_eq!(mixer.channel(name("b")).unwrap().volume(), 77);
    assert_eq!(mixer.channel(name("a")).unwrap().queue_len(), 0);
    assert_eq!(mixer.channel(name("a")).unwrap().volume(), 1);
    assert_eq!(mixer.len(), 2);
}

#[test]
fn channels_advance_independently() {
    let mut mixer = ChannelManager::new();
    mixer.add_channel(name("a"), channel_with(1, vec![1, 2]));
    mixer.add_channel(name("b"), channel_with(2, vec![3]));
    mixer.start_all();
    assert!(mixer.channel_mut(name("a")).unwrap().tick().is_none());
    assert_eq!(mixer.channel(name("a")).unwrap().current_audio().unwrap().id(), 1);
    assert!(mixer.channel(name("b")).unwrap().current_audio().is_none());
    assert_eq!(mixer.channel(name("b")).unwrap().queue_len(), 1);
}
