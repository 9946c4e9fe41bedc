//! The mixer: channels under unique names, started and stopped together.

use vstd::prelude::*;

use crate::audioqueue::{AudioChannel, ChannelModel};
use crate::exceptions::PlayerError;

verus! {

/// A channel under its name.
#[derive(Debug)]
struct Registered {
    name: String,
    channel: AudioChannel,
}

/// Whether one of `entries` has the name `name`.
spec fn holds(entries: Seq<Registered>, name: Seq<char>) -> bool {
    exists|i: int| 0 <= i < entries.len() && #[trigger] entries[i].name@ == name
}

/// The place in `entries` of one with the name `name`.
spec fn place_of(entries: Seq<Registered>, name: Seq<char>) -> int {
    choose|i: int| 0 <= i < entries.len() && #[trigger] entries[i].name@ == name
}

/// Whether no two of `entries` share a name.
spec fn distinct(entries: Seq<Registered>) -> bool {
    forall|i: int, j: int|
        0 <= i < entries.len() && 0 <= j < entries.len() && i != j ==> #[trigger] entries[i].name@
            != #[trigger] entries[j].name@
}

/// The channels of `entries` by their names.
spec fn by_name(entries: Seq<Registered>) -> Map<Seq<char>, ChannelModel> {
    Map::new(
        |name: Seq<char>| holds(entries, name),
        |name: Seq<char>| entries[place_of(entries, name)].channel@,
    )
}

/// Among distinct names, the place of a name is where it stands.
proof fn lemma_place(entries: Seq<Registered>, i: int)
    requires
        distinct(entries),
        0 <= i < entries.len(),
    ensures
        holds(entries, entries[i].name@),
        place_of(entries, entries[i].name@) == i,
{
    let name = entries[i].name@;
    assert(holds(entries, name));
    let p = place_of(entries, name);
    assert(0 <= p < entries.len() && entries[p].name@ == name);
}

/// Among distinct names, the map by name holds each entry's channel under
/// the entry's name, and no other name.
proof fn lemma_by_name(entries: Seq<Registered>)
    requires
        distinct(entries),
    ensures
        forall|i: int|
            0 <= i < entries.len() ==> by_name(entries).contains_key(#[trigger] entries[i].name@)
                && by_name(entries)[entries[i].name@] == entries[i].channel@,
        forall|name: Seq<char>| #[trigger]
            by_name(entries).contains_key(name) ==> 0 <= place_of(entries, name) < entries.len()
                && entries[place_of(entries, name)].name@ == name,
{
    assert forall|i: int| 0 <= i < entries.len() implies by_name(entries).contains_key(
        #[trigger] entries[i].name@,
    ) && by_name(entries)[entries[i].name@] == entries[i].channel@ by {
        lemma_place(entries, i);
    }
}

/// `channel` set to consume by itself, or not.
pub open spec fn switched(channel: ChannelModel, on: bool) -> ChannelModel {
    ChannelModel { auto_consume: on, ..channel }
}

/// A registry of channels by name.
#[derive(Debug)]
pub struct ChannelManager {
    channels: Vec<Registered>,
}

impl View for ChannelManager {
    type V = Map<Seq<char>, ChannelModel>;

    closed spec fn view(&self) -> Map<Seq<char>, ChannelModel> {
        by_name(self.channels@)
    }
}

impl ChannelManager {
    /// Whether the registry is sound: no two of its channels share a name.
    /// Every mixer made and changed by this module is.
    pub closed spec fn wf(&self) -> bool {
        distinct(self.channels@)
    }

    /// A mixer without channels.
    pub fn new() -> (r: Self)
        ensures
            r.wf(),
            r@ == Map::<Seq<char>, ChannelModel>::empty(),
    {
        let r = ChannelManager { channels: Vec::new() };
        assert(r@ =~= Map::<Seq<char>, ChannelModel>::empty());
        r
    }

    /// The place of the channel named `name`, if there is one.
    fn find(&self, name: &String) -> (r: Option<usize>)
        requires
            self.wf(),
        ensures
            match r {
                Some(i) => i < self.channels@.len() && self.channels@[i as int].name@ == name@
                    && place_of(self.channels@, name@) == i,
                None => !holds(self.channels@, name@),
            },
    {
        let mut i: usize = 0;
        while i < self.channels.len()
            invariant
                i <= self.channels.len(),
                distinct(self.channels@),
                forall|j: int| 0 <= j < i ==> self.channels@[j].name@ != name@,
            decreases self.channels.len() - i,
        {
            if self.channels[i].name == *name {
                proof {
                    lemma_place(self.channels@, i as int);
                }
                return Some(i);
            }
            i += 1;
        }
        None
    }

    /// Whether a channel is registered under `name`.
    pub fn has_channel(&self, name: String) -> (r: bool)
        requires
            self.wf(),
        ensures
            r == self@.contains_key(name@),
    {
        self.find(&name).is_some()
    }

    /// The channel registered under `name`, if there is one.
    pub fn channel(&self, name: String) -> (r: Option<&AudioChannel>)
        requires
            self.wf(),
        ensures
            match r {
                Some(c) => self@.contains_key(name@) && self@[name@] == c@,
                None => !self@.contains_key(name@),
            },
    {
        match self.find(&name) {
            Some(i) => Some(&self.channels[i].channel),
            None => None,
        }
    }

    /// Registers `channel` under `name`. A channel that stood under that
    /// name leaves the mixer and is handed back.
    pub fn add_channel(&mut self, name: String, channel: AudioChannel) -> (r: Option<AudioChannel>)
        requires
            old(self).wf(),
        ensures
            final(self).wf(),
            final(self)@ == old(self)@.insert(name@, channel@),
            match r {
                Some(c) => old(self)@.contains_key(name@) && c@ == old(self)@[name@],
                None => !old(self)@.contains_key(name@),
            },
    {
        proof {
            lemma_by_name(self.channels@);
        }
        let found = self.find(&name);
        let ghost before = self.channels@;
        let ghost key = name@;
        let entry = Registered { name, channel };
        match found {
            Some(i) => {
                let mut entry = entry;
                let ghost put = entry;
                let mut rest = self.channels.split_off(i);
                let replaced = rest.remove(0);
                self.channels.push(entry);
                self.channels.append(&mut rest);
                proof {
                    assert(self.channels@ =~= before.update(i as int, put));
                    lemma_update(before, i as int, put);
                }
                Some(replaced.channel)
            },
            None => {
                self.channels.push(entry);
                proof {
                    assert(distinct(self.channels@));
                    lemma_by_name(self.channels@);
                    assert(self@ =~= old(self)@.insert(key, channel@)) by {
                        assert forall|k: Seq<char>| #[trigger]
                            self@.contains_key(k) <==> old(self)@.insert(
                                key,
                                channel@,
                            ).contains_key(k) by {
                            if old(self)@.contains_key(k) {
                                let p = place_of(before, k);
                                assert(self.channels@[p].name@ == k);
                            }
                            if k == key {
                                assert(self.channels@[before.len() as int].name@ == k);
                            }
                        }
                        assert forall|k: Seq<char>| #[trigger] self@.contains_key(k) implies self@[k]
                            == old(self)@.insert(key, channel@)[k] by {
                            let p = place_of(self.channels@, k);
                            if k != key {
                                assert(before[p].name@ == k);
                            }
                        }
                    }
                }
                None
            },
        }
    }

    /// The channel registered under `name`, to command it.
    pub fn channel_mut(&mut self, name: String) -> (r: Option<&mut AudioChannel>)
        requires
            old(self).wf(),
        ensures
            final(self).wf(),
            match r {
                Some(c) => old(self)@.contains_key(name@) && c@ == old(self)@[name@]
                    && final(self)@ == old(self)@.insert(name@, final(c)@),
                None => !old(self)@.contains_key(name@) && final(self)@ == old(self)@,
            },
    {
        match self.find(&name) {
            Some(i) => {
                proof {
                    let before = self.channels@;
                    lemma_by_name(before);
                    assert forall|put: Registered| put.name == before[i as int].name implies distinct(
                        #[trigger] before.update(i as int, put),
                    ) && by_name(before.update(i as int, put)) == by_name(before).insert(
                        name@,
                        put.channel@,
                    ) by {
                        lemma_update(before, i as int, put);
                    }
                }
                Some(&mut self.channels[i].channel)
            },
            None => None,
        }
    }

    /// Takes the channel registered under `name` out of the mixer, shuts it
    /// down and hands it over: its current player is paused and stopped
    /// and its queue is cleared.
    pub fn drop_channel(&mut self, name: String) -> (r: Result<AudioChannel, PlayerError>)
        requires
            old(self).wf(),
        ensures
            final(self).wf(),
            match r {
                Ok(c) => {
                    &&& old(self)@.contains_key(name@)
                    &&& final(self)@ == old(self)@.remove(name@)
                    &&& !final(self)@.contains_key(name@)
                    &&& exists|pause_delta: u64, stop_delta: u64|
                        c@ == old(self)@[name@].shut_down(pause_delta, stop_delta)
                    &&& !(old(self)@[name@].current matches Some(p) && !p.live) ==> c@ == old(
                        self,
                    )@[name@].shut_down(0, 0)
                    &&& c@.queue.len() == 0
                },
                Err(e) => {
                    &&& !old(self)@.contains_key(name@)
                    &&& e == PlayerError::ChannelNotFound
                    &&& final(self)@ == old(self)@
                },
            },
    {
        match self.find(&name) {
            Some(i) => {
                let ghost before = self.channels@;
                let entry = self.channels.remove(i);
                proof {
                    lemma_remove(before, i as int);
                }
                let mut channel = entry.channel;
                let ghost registered = channel@;
                channel.shut_down();
                proof {
                    let (pause_delta, stop_delta) = choose|pause_delta: u64, stop_delta: u64|
                        channel@ == registered.shut_down(pause_delta, stop_delta);
                    assert(channel@ == old(self)@[name@].shut_down(pause_delta, stop_delta));
                }
                Ok(channel)
            },
            None => Err(PlayerError::ChannelNotFound),
        }
    }

    /// Sets every channel to consume by itself, or not.
    fn switch_all(&mut self, on: bool)
        requires
            old(self).wf(),
        ensures
            final(self).wf(),
            final(self)@ == all_switched(old(self)@, on),
    {
        let ghost before = self.channels@;
        let mut i: usize = 0;
        while i < self.channels.len()
            invariant
                i <= self.channels.len(),
                self.channels@.len() == before.len(),
                forall|j: int| 0 <= j < before.len() ==> #[trigger] self.channels@[j].name
                    == before[j].name,
                forall|j: int| 0 <= j < i ==> #[trigger] self.channels@[j].channel@ == switched(
                    before[j].channel@,
                    on,
                ),
                forall|j: int| i <= j < before.len() ==> #[trigger] self.channels@[j].channel
                    == before[j].channel,
            decreases self.channels.len() - i,
        {
            self.channels[i].channel.set_auto_consume(on);
            i += 1;
        }
        proof {
            let after = self.channels@;
            assert(distinct(after)) by {
                assert forall|a: int, b: int|
                    0 <= a < after.len() && 0 <= b < after.len() && a != b implies #[trigger] after[a].name@
                    != #[trigger] after[b].name@ by {
                    assert(after[a].name == before[a].name);
                    assert(after[b].name == before[b].name);
                }
            }
            lemma_by_name(before);
            lemma_by_name(after);
            assert forall|name: Seq<char>| #[trigger]
                by_name(after).contains_key(name) <==> by_name(before).contains_key(name) by {
                if by_name(after).contains_key(name) {
                    let p = place_of(after, name);
                    assert(after[p].name == before[p].name);
                    assert(before[p].name@ == name);
                }
                if by_name(before).contains_key(name) {
                    let p = place_of(before, name);
                    assert(after[p].name == before[p].name);
                    assert(after[p].name@ == name);
                }
            }
            assert(self@.dom() =~= old(self)@.dom());
            assert forall|name: Seq<char>| #[trigger] self@.contains_key(name) implies self@[name]
                == switched(old(self)@[name], on) by {
                let p = place_of(after, name);
                assert(after[p].name == before[p].name);
                lemma_place(before, p);
            }
            assert(self@ =~= all_switched(old(self)@, on));
        }
    }

    /// Sets every channel to consume its queue by itself.
    pub fn start_all(&mut self)
        requires
            old(self).wf(),
        ensures
            final(self).wf(),
            final(self)@ == all_switched(old(self)@, true),
            forall|name: Seq<char>| #[trigger]
                final(self)@.contains_key(name) ==> final(self)@[name].auto_consume,
    {
        self.switch_all(true);
    }

    /// Sets every channel to leave its queue alone.
    pub fn stop_all(&mut self)
        requires
            old(self).wf(),
        ensures
            final(self).wf(),
            final(self)@ == all_switched(old(self)@, false),
            forall|name: Seq<char>| #[trigger]
                final(self)@.contains_key(name) ==> !final(self)@[name].auto_consume,
    {
        self.switch_all(false);
    }

    /// How many channels are registered.
    pub fn len(&self) -> (r: usize)
        requires
            self.wf(),
        ensures
            r == self@.dom().len(),
            self@.dom().finite(),
    {
        proof {
            lemma_count(self.channels@);
        }
        self.channels.len()
    }
}

/// Putting another channel under a name that stands in the registry
/// changes the map by name at that name only.
proof fn lemma_update(entries: Seq<Registered>, i: int, put: Registered)
    requires
        distinct(entries),
        0 <= i < entries.len(),
        put.name@ == entries[i].name@,
    ensures
        distinct(entries.update(i, put)),
        by_name(entries.update(i, put)) == by_name(entries).insert(put.name@, put.channel@),
{
    let after = entries.update(i, put);
    let key = put.name@;
    assert(distinct(after));
    lemma_by_name(entries);
    lemma_by_name(after);
    assert forall|k: Seq<char>| #[trigger]
        by_name(after).contains_key(k) <==> by_name(entries).insert(key, put.channel@).contains_key(
            k,
        ) by {
        if by_name(after).contains_key(k) {
            let p = place_of(after, k);
            assert(entries[p].name@ == k);
        }
        if by_name(entries).contains_key(k) {
            let p = place_of(entries, k);
            assert(after[p].name@ == k);
        }
        if k == key {
            assert(after[i].name@ == k);
        }
    }
    assert forall|k: Seq<char>| #[trigger] by_name(after).contains_key(k) implies by_name(after)[k]
        == by_name(entries).insert(key, put.channel@)[k] by {
        let p = place_of(after, k);
        if k != key {
            assert(entries[p].name@ == k);
        } else {
            lemma_place(after, i);
        }
    }
    assert(by_name(after) =~= by_name(entries).insert(key, put.channel@));
}

/// Taking an entry out of the registry takes its name out of the map by
/// name and leaves the rest.
proof fn lemma_remove(entries: Seq<Registered>, i: int)
    requires
        distinct(entries),
        0 <= i < entries.len(),
    ensures
        distinct(entries.remove(i)),
        by_name(entries.remove(i)) == by_name(entries).remove(entries[i].name@),
        by_name(entries).contains_key(entries[i].name@),
        by_name(entries)[entries[i].name@] == entries[i].channel@,
{
    let after = entries.remove(i);
    let key = entries[i].name@;
    assert forall|a: int, b: int|
        0 <= a < after.len() && 0 <= b < after.len() && a != b implies #[trigger] after[a].name@
        != #[trigger] after[b].name@ by {
        let a0 = if a < i {
            a
        } else {
            a + 1
        };
        let b0 = if b < i {
            b
        } else {
            b + 1
        };
        assert(after[a] == entries[a0]);
        assert(after[b] == entries[b0]);
    }
    lemma_by_name(entries);
    lemma_by_name(after);
    assert forall|k: Seq<char>| #[trigger]
        by_name(after).contains_key(k) <==> by_name(entries).remove(key).contains_key(k) by {
        if by_name(after).contains_key(k) {
            let p = place_of(after, k);
            let p0 = if p < i {
                p
            } else {
                p + 1
            };
            assert(after[p] == entries[p0]);
            assert(entries[p0].name@ == k);
        }
        if by_name(entries).contains_key(k) && k != key {
            let p = place_of(entries, k);
            let p1 = if p < i {
                p
            } else {
                p - 1
            };
            assert(after[p1] == entries[p]);
            assert(after[p1].name@ == k);
        }
    }
    assert forall|k: Seq<char>| #[trigger] by_name(after).contains_key(k) implies by_name(after)[k]
        == by_name(entries).remove(key)[k] by {
        let p = place_of(after, k);
        let p0 = if p < i {
            p
        } else {
            p + 1
        };
        assert(after[p] == entries[p0]);
        lemma_place(entries, p0);
    }
    assert(by_name(after) =~= by_name(entries).remove(key));
}

/// Among distinct names there are as many names as entries.
proof fn lemma_count(entries: Seq<Registered>)
    requires
        distinct(entries),
    ensures
        by_name(entries).dom().finite(),
        by_name(entries).dom().len() == entries.len(),
    decreases entries.len(),
{
    if entries.len() == 0 {
        assert(by_name(entries).dom() =~= Set::<Seq<char>>::empty());
    } else {
        let last = entries.len() - 1;
        let rest = entries.remove(last);
        lemma_remove(entries, last);
        lemma_count(rest);
        assert(by_name(entries).dom() =~= by_name(rest).dom().insert(entries[last].name@));
    }
}

/// A mixer's channels by name after every one of them was set to consume
/// by itself, or not.
pub open spec fn all_switched(
    channels: Map<Seq<char>, ChannelModel>,
    on: bool,
) -> Map<Seq<char>, ChannelModel> {
    Map::new(
        |name: Seq<char>| channels.contains_key(name),
        |name: Seq<char>| switched(channels[name], on),
    )
}

/// After all channels were started, every registered channel consumes by
/// itself; after a channel was dropped, no channel stands under its name,
/// the dropped channel has an empty queue, and the other channels stand as
/// they did.
pub proof fn lemma_mixer_bulk(
    channels: Map<Seq<char>, ChannelModel>,
    name: Seq<char>,
    pause_delta: u64,
    stop_delta: u64,
)
    ensures
        forall|other: Seq<char>| #[trigger]
            channels.contains_key(other) ==> all_switched(channels, true)[other].auto_consume,
        all_switched(channels, true).dom() == channels.dom(),
        !channels.remove(name).contains_key(name),
        channels.contains_key(name) ==> channels[name].shut_down(
            pause_delta,
            stop_delta,
        ).queue.len() == 0,
        forall|other: Seq<char>|
            other != name && channels.contains_key(other) ==> #[trigger] channels.remove(
                name,
            ).contains_key(other) && channels.remove(name)[other] == channels[other],
{
    assert(all_switched(channels, true).dom() =~= channels.dom());
}

} // verus!
