//! A channel: a queue of players that plays one at a time and moves on by
//! itself.

use vstd::prelude::*;

use crate::audiosink::AudioSink;
use crate::playback::{lemma_played_frame, PlayerModel};
use crate::timesync::{ActionType, UNIT};

verus! {

/// The time between two ticks of a channel's consumer, in milliseconds.
pub const CONSUMER_INTERVAL_MS: u64 = 3;

/// The models of `players`, in order.
pub open spec fn models_of(players: Seq<AudioSink>) -> Seq<PlayerModel> {
    Seq::new(players.len(), |i: int| players[i]@)
}

/// The model of `player`, if there is one.
pub open spec fn model_of(player: Option<AudioSink>) -> Option<PlayerModel> {
    match player {
        Some(p) => Some(p@),
        None => None,
    }
}

/// The model of a channel.
pub struct ChannelModel {
    /// The players that wait, the next one first.
    pub queue: Seq<PlayerModel>,
    /// The player that was started, if any.
    pub current: Option<PlayerModel>,
    pub auto_consume: bool,
    /// The chain sent to each player that the channel starts.
    pub effects_chain: Seq<ActionType>,
    /// The volume given to each player that the channel starts.
    pub volume: i64,
}

impl ChannelModel {
    /// A new channel: nothing waits, nothing plays, it does not consume by
    /// itself, it has no chain and full volume.
    pub open spec fn fresh() -> ChannelModel {
        ChannelModel {
            queue: Seq::empty(),
            current: None,
            auto_consume: false,
            effects_chain: Seq::empty(),
            volume: UNIT,
        }
    }

    /// `player` made ready to start on this channel: given the channel's
    /// volume, unless that write is refused, and sent the channel's chain.
    pub open spec fn readied(self, player: PlayerModel) -> PlayerModel {
        player.with_volume(self.volume).sent(self.effects_chain)
    }

    /// Whether a tick starts the first waiting player.
    pub open spec fn starts_next(self) -> bool {
        self.auto_consume && self.current is None && self.queue.len() > 0
    }

    /// The channel after the first half of a tick. Where it consumes by
    /// itself, plays nothing and has a player waiting, the first in the
    /// queue leaves it, is made ready and played, and becomes the current
    /// one; a player that cannot play, having no audio, is not kept.
    pub open spec fn started(self) -> ChannelModel {
        if self.starts_next() {
            let next = self.readied(self.queue[0]);
            ChannelModel {
                queue: self.queue.skip(1),
                current: if next.is_loaded() {
                    Some(next.played())
                } else {
                    None
                },
                ..self
            }
        } else {
            self
        }
    }

    /// The player that the first half of a tick refuses, if any.
    pub open spec fn refused(self) -> Option<PlayerModel> {
        if self.starts_next() && !self.readied(self.queue[0]).is_loaded() {
            Some(self.readied(self.queue[0]))
        } else {
            None
        }
    }

    /// Whether a tick retires the current player: the channel consumes by
    /// itself and the player is not playing and is over.
    pub open spec fn retires_current(self) -> bool {
        &&& self.auto_consume
        &&& self.current matches Some(p)
        &&& !(p.state is Playing)
        &&& p.is_over()
    }

    /// The channel after the second half of a tick: a current player that
    /// is spent leaves the channel.
    pub open spec fn cleared(self) -> ChannelModel {
        if self.retires_current() {
            ChannelModel { current: None, ..self }
        } else {
            self
        }
    }

    /// The player that the second half of a tick retires, stopped with
    /// `delta` on its virtual timer's clock, if any.
    pub open spec fn retired(self, delta: u64) -> Option<PlayerModel> {
        if self.retires_current() {
            Some(self.current->0.stopped_after(delta))
        } else {
            None
        }
    }

    /// The channel shut down: its current player paused and stopped, with
    /// `pause_delta` and `stop_delta` on its virtual timer's clock, and its
    /// queue cleared.
    pub open spec fn shut_down(self, pause_delta: u64, stop_delta: u64) -> ChannelModel {
        ChannelModel {
            queue: Seq::empty(),
            current: match self.current {
                Some(p) => Some(p.paused_after(pause_delta).stopped_after(stop_delta)),
                None => None,
            },
            ..self
        }
    }

    /// The place in the queue of the first waiting player with the
    /// identity `id`, if there is one.
    pub open spec fn place_of(self, id: u64) -> Option<int> {
        if exists|i: int| 0 <= i < self.queue.len() && (#[trigger] self.queue[i]).id == id {
            Some(
                choose|i: int|
                    0 <= i < self.queue.len() && (#[trigger] self.queue[i]).id == id && forall|
                        j: int,
                    |
                        0 <= j < i ==> (#[trigger] self.queue[j]).id != id,
            )
        } else {
            None
        }
    }

    /// The channel after a tick of its consumer.
    pub open spec fn ticked(self) -> ChannelModel {
        self.started().cleared()
    }

    /// The player that leaves the channel in a tick, if any: one that was
    /// refused at its start, else one that was retired.
    pub open spec fn released(self, delta: u64) -> Option<PlayerModel> {
        if self.refused() is Some {
            self.refused()
        } else {
            self.started().retired(delta)
        }
    }
}

/// A queue of players of which at most one plays.
#[derive(Debug)]
pub struct AudioChannel {
    queue: Vec<AudioSink>,
    auto_consume: bool,
    currently_playing: Option<AudioSink>,
    effects_chain: Vec<ActionType>,
    channel_volume: i64,
}

impl View for AudioChannel {
    type V = ChannelModel;

    closed spec fn view(&self) -> ChannelModel {
        ChannelModel {
            queue: models_of(self.queue@),
            current: model_of(self.currently_playing),
            auto_consume: self.auto_consume,
            effects_chain: self.effects_chain@,
            volume: self.channel_volume,
        }
    }
}

impl AudioChannel {
    /// An empty channel.
    pub fn new() -> (r: Self)
        ensures
            r@ == ChannelModel::fresh(),
    {
        let r = AudioChannel {
            queue: Vec::new(),
            auto_consume: false,
            currently_playing: None,
            effects_chain: Vec::new(),
            channel_volume: UNIT,
        };
        assert(models_of(r.queue@) =~= Seq::<PlayerModel>::empty());
        r
    }

    /// Puts `sink` at the back of the queue.
    pub fn push(&mut self, sink: AudioSink)
        ensures
            final(self)@ == (ChannelModel { queue: old(self)@.queue.push(sink@), ..old(self)@ }),
    {
        self.queue.push(sink);
        assert(models_of(self.queue@) =~= models_of(old(self).queue@).push(sink@));
    }

    /// Takes the player at the back of the queue, past the consumer.
    pub fn pop(&mut self) -> (r: Option<AudioSink>)
        ensures
            old(self)@.queue.len() == 0 ==> r is None && final(self)@ == old(self)@,
            old(self)@.queue.len() > 0 ==> model_of(r) == Some(old(self)@.queue.last())
                && final(self)@ == (ChannelModel {
                queue: old(self)@.queue.drop_last(),
                ..old(self)@
            }),
    {
        let r = self.queue.pop();
        if r.is_some() {
            assert(models_of(self.queue@) =~= models_of(old(self).queue@).drop_last());
        }
        r
    }

    /// Sets the volume for the players that the channel starts.
    pub fn set_volume(&mut self, volume: i64)
        ensures
            final(self)@ == (ChannelModel { volume, ..old(self)@ }),
    {
        self.channel_volume = volume;
    }

    /// Lets the channel consume its queue by itself, or not.
    pub fn set_auto_consume(&mut self, value: bool)
        ensures
            final(self)@ == (ChannelModel { auto_consume: value, ..old(self)@ }),
    {
        self.auto_consume = value;
    }

    /// Whether the channel consumes its queue by itself.
    pub fn auto_consume(&self) -> (r: bool)
        ensures
            r == self@.auto_consume,
    {
        self.auto_consume
    }

    /// The volume for the players that the channel starts.
    pub fn volume(&self) -> (r: i64)
        ensures
            r == self@.volume,
    {
        self.channel_volume
    }

    /// The player that was started, if any.
    pub fn current_audio(&self) -> (r: Option<&AudioSink>)
        ensures
            match r {
                Some(p) => self@.current == Some(p@),
                None => self@.current is None,
            },
    {
        self.currently_playing.as_ref()
    }

    /// The players that wait, the next one first.
    pub fn queue_contents(&self) -> (r: &Vec<AudioSink>)
        ensures
            models_of(r@) == self@.queue,
    {
        &self.queue
    }

    /// Whether the channel has a current player that is playing.
    pub fn is_playing(&self) -> (r: bool)
        ensures
            r == (self@.current matches Some(p) && p.state is Playing),
    {
        match &self.currently_playing {
            Some(sink) => sink.is_playing(),
            None => false,
        }
    }

    /// The chain sent to each player that the channel starts.
    pub fn effects(&self) -> (r: &Vec<ActionType>)
        ensures
            r@ == self@.effects_chain,
    {
        &self.effects_chain
    }

    /// Sets the chain sent to each player that the channel starts from now
    /// on.
    pub fn set_effects_chain(&mut self, effect_list: Vec<ActionType>)
        ensures
            final(self)@ == (ChannelModel { effects_chain: effect_list@, ..old(self)@ }),
    {
        self.effects_chain = effect_list;
    }

    /// Sets the channel's volume and writes it to the current player,
    /// unless that write is refused.
    pub fn channel_volume(&mut self, volume: i64)
        ensures
            final(self)@ == (ChannelModel {
                volume,
                current: match old(self)@.current {
                    Some(p) => Some(p.with_volume(volume)),
                    None => None,
                },
                ..old(self)@
            }),
    {
        self.channel_volume = volume;
        match &mut self.currently_playing {
            Some(sink) => {
                let _ = sink.set_volume(volume);
            },
            None => {},
        }
    }

    /// Takes the player at the back of the queue, gives it the channel's
    /// volume unless that write is refused, plays it and hands it over.
    pub fn consume(&mut self) -> (r: Option<AudioSink>)
        ensures
            old(self)@.queue.len() == 0 ==> r is None && final(self)@ == old(self)@,
            old(self)@.queue.len() > 0 ==> model_of(r) == Some(
                old(self)@.queue.last().with_volume(old(self)@.volume).played(),
            ) && final(self)@ == (ChannelModel {
                queue: old(self)@.queue.drop_last(),
                ..old(self)@
            }),
    {
        match self.pop() {
            Some(mut sink) => {
                let _ = sink.set_volume(self.channel_volume);
                let _ = sink.play();
                Some(sink)
            },
            None => None,
        }
    }

    /// Stops the current player and hands it over; the channel is left
    /// without one.
    pub fn drop_current_audio(&mut self) -> (r: Option<AudioSink>)
        ensures
            final(self)@ == (ChannelModel { current: None, ..old(self)@ }),
            r is Some <==> old(self)@.current is Some,
            r is Some ==> exists|delta: u64|
                model_of(r) == Some(old(self)@.current->0.stopped_after(delta)),
            r is Some && old(self)@.current->0.live ==> model_of(r) == Some(
                old(self)@.current->0.stopped_after(0),
            ),
    {
        match self.currently_playing.take() {
            Some(mut sink) => {
                let _ = sink.stop();
                Some(sink)
            },
            None => None,
        }
    }

    /// The first half of a tick: starts the first waiting player where the
    /// channel consumes by itself and plays nothing. A player that cannot
    /// play is handed back.
    fn start_next(&mut self) -> (r: Option<AudioSink>)
        ensures
            final(self)@ == old(self)@.started(),
            model_of(r) == old(self)@.refused(),
    {
        if self.auto_consume && self.currently_playing.is_none() && self.queue.len() > 0 {
            let mut next = self.queue.remove(0);
            assert(models_of(self.queue@) =~= models_of(old(self).queue@).skip(1));
            let _ = next.set_volume(self.channel_volume);
            next.send(&self.effects_chain);
            match next.play() {
                Ok(()) => {
                    self.currently_playing = Some(next);
                    None
                },
                Err(_) => Some(next),
            }
        } else {
            None
        }
    }

    /// The second half of a tick: a current player that is spent is
    /// stopped and handed back.
    fn clear_spent(&mut self) -> (r: Option<AudioSink>)
        ensures
            final(self)@ == old(self)@.cleared(),
            exists|delta: u64| model_of(r) == old(self)@.retired(delta),
            !(old(self)@.current matches Some(p) && !p.live) ==> model_of(r) == old(
                self,
            )@.retired(0),
    {
        let spent = self.auto_consume && match &self.currently_playing {
            Some(sink) => sink.is_spent(),
            None => false,
        };
        if spent {
            let mut done = self.currently_playing.take().unwrap();
            let ghost before = done@;
            let _ = done.stop();
            proof {
                let delta = choose|delta: u64| done@ == before.stopped_after(delta);
                assert(model_of(Some(done)) == old(self)@.retired(delta));
            }
            Some(done)
        } else {
            assert(model_of(None) == old(self)@.retired(0));
            None
        }
    }

    /// One tick of the consumer. Hands back the player that leaves the
    /// channel in it, if any.
    pub fn tick(&mut self) -> (r: Option<AudioSink>)
        ensures
            final(self)@ == old(self)@.ticked(),
            exists|delta: u64| model_of(r) == old(self)@.released(delta),
            !(old(self)@.started().current matches Some(p) && !p.live) ==> model_of(r) == old(
                self,
            )@.released(0),
    {
        let refused = self.start_next();
        let retired = self.clear_spent();
        match refused {
            Some(sink) => {
                assert(model_of(Some(sink)) == old(self)@.released(0));
                Some(sink)
            },
            None => {
                proof {
                    let delta = choose|delta: u64|
                        model_of(retired) == old(self)@.started().retired(delta);
                    assert(model_of(retired) == old(self)@.released(delta));
                }
                retired
            },
        }
    }

    /// The current player, to command it.
    pub fn current_audio_mut(&mut self) -> (r: Option<&mut AudioSink>)
        ensures
            match r {
                Some(p) => old(self)@.current == Some(p@) && final(self)@ == (ChannelModel {
                    current: Some(final(p)@),
                    ..old(self)@
                }),
                None => old(self)@.current is None && final(self)@ == old(self)@,
            },
    {
        match &mut self.currently_playing {
            Some(p) => Some(p),
            None => None,
        }
    }

    /// The waiting player at `index`, to command it.
    pub fn queued_mut(&mut self, index: usize) -> (r: &mut AudioSink)
        requires
            index < old(self)@.queue.len(),
        ensures
            r@ == old(self)@.queue[index as int],
            final(self)@ == (ChannelModel {
                queue: old(self)@.queue.update(index as int, final(r)@),
                ..old(self)@
            }),
    {
        proof {
            let waiting = self.queue@;
            assert forall|put: AudioSink|
                models_of(#[trigger] waiting.update(index as int, put)) == models_of(
                    waiting,
                ).update(index as int, put@) by {
                assert(models_of(waiting.update(index as int, put)) =~= models_of(waiting).update(
                    index as int,
                    put@,
                ));
            }
        }
        &mut self.queue[index]
    }

    /// The place in the queue of the first waiting player with the
    /// identity `id`, if there is one.
    pub fn index_of(&self, id: u64) -> (r: Option<usize>)
        ensures
            match r {
                Some(i) => self@.place_of(id) == Some(i as int) && i < self@.queue.len()
                    && self@.queue[i as int].id == id,
                None => self@.place_of(id) is None,
            },
    {
        let mut i: usize = 0;
        while i < self.queue.len()
            invariant
                i <= self.queue.len(),
                forall|j: int| 0 <= j < i ==> (#[trigger] self@.queue[j]).id != id,
            decreases self.queue.len() - i,
        {
            if self.queue[i].id() == id {
                proof {
                    let found = self@.place_of(id)->0;
                    assert(self@.queue[i as int].id == id);
                    assert(found == i) by {
                        if found < i {
                            assert(self@.queue[found].id != id);
                        }
                    }
                }
                return Some(i);
            }
            i += 1;
        }
        None
    }

    /// The player with the identity `id`, to command it: the current one
    /// if it has that identity, else the first such in the queue.
    pub fn player_mut(&mut self, id: u64) -> (r: Option<&mut AudioSink>)
        ensures
            match r {
                Some(p) => p@.id == id && if old(self)@.current matches Some(c) && c.id == id {
                    old(self)@.current == Some(p@) && final(self)@ == (ChannelModel {
                        current: Some(final(p)@),
                        ..old(self)@
                    })
                } else {
                    old(self)@.place_of(id) matches Some(i) && p@ == old(self)@.queue[i]
                        && final(self)@ == (ChannelModel {
                        queue: old(self)@.queue.update(i, final(p)@),
                        ..old(self)@
                    })
                },
                None => !(old(self)@.current matches Some(c) && c.id == id) && old(
                    self,
                )@.place_of(id) is None && final(self)@ == old(self)@,
            },
    {
        let is_current = match &self.currently_playing {
            Some(sink) => sink.id() == id,
            None => false,
        };
        if is_current {
            self.current_audio_mut()
        } else {
            match self.index_of(id) {
                Some(i) => Some(self.queued_mut(i)),
                None => None,
            }
        }
    }

    /// How many players wait.
    pub fn queue_len(&self) -> (r: usize)
        ensures
            r == self@.queue.len(),
    {
        self.queue.len()
    }

    /// Shuts the channel down: pauses and stops its current player and
    /// clears its queue.
    pub fn shut_down(&mut self)
        ensures
            exists|pause_delta: u64, stop_delta: u64|
                final(self)@ == old(self)@.shut_down(pause_delta, stop_delta),
            final(self)@.queue.len() == 0,
            final(self)@.current is Some <==> old(self)@.current is Some,
            !(old(self)@.current matches Some(p) && !p.live) ==> final(self)@ == old(
                self,
            )@.shut_down(0, 0),
    {
        match &mut self.currently_playing {
            Some(sink) => {
                let ghost before = sink@;
                let _ = sink.pause();
                let ghost between = sink@;
                let _ = sink.stop();
                proof {
                    let pause_delta = choose|delta: u64| between == before.paused_after(delta);
                    let stop_delta = choose|delta: u64| sink@ == between.stopped_after(delta);
                    assert(model_of(Some(*sink)) == old(self)@.shut_down(
                        pause_delta,
                        stop_delta,
                    ).current);
                }
            },
            None => {},
        }
        self.queue.clear();
        assert(models_of(self.queue@) =~= Seq::<PlayerModel>::empty());
        assert(old(self)@.current is None ==> self@ == old(self)@.shut_down(0, 0));
    }
}

/// A channel plays its queue front to back. A tick that starts a player
/// takes the one at the front and leaves the others waiting in their order;
/// if that player has audio and its playback is not over, it is the current
/// one afterwards and is playing.
pub proof fn lemma_channel_fifo(c: ChannelModel)
    requires
        c.starts_next(),
    ensures
        c.ticked().queue == c.queue.skip(1),
        c.queue[0].is_loaded() && !(c.queue[0].state is Finished) ==> {
            &&& c.ticked().current is Some
            &&& c.ticked().current->0.id == c.queue[0].id
            &&& c.ticked().current->0.state is Playing
        },
{
    lemma_played_frame(c.readied(c.queue[0]));
}

/// A channel that does not start a player in a tick leaves its queue as it
/// is: one that does not consume by itself, one that has a current player,
/// and one with nothing waiting.
pub proof fn lemma_channel_waits(c: ChannelModel)
    requires
        !c.starts_next(),
    ensures
        c.ticked().queue == c.queue,
{
}

/// The chain that was set on a channel is the chain that is read back:
/// the same descriptors in the same order.
pub proof fn lemma_chain_round_trip(c: ChannelModel, list: Seq<ActionType>)
    ensures
        (ChannelModel { effects_chain: list, ..c }).effects_chain == list,
{
}

} // verus!
