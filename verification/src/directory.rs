//! The rooms of a process: one relay handle for each room key, made when the
//! key is first asked for and kept from then on.
//!
//! The directory does not look inside a handle. Every operation that can
//! change it takes `&mut self`, so callers that share a directory reach it one
//! at a time.

use vstd::prelude::*;

verus! {

/// A room key with the relay that backs the room.
pub struct RoomEntry<R> {
    room_key: String,
    relay: R,
}

/// A directory entry as contracts see it.
pub struct RoomView<R> {
    pub room_key: Seq<char>,
    pub relay: R,
}

impl<R> View for RoomEntry<R> {
    type V = RoomView<R>;

    closed spec fn view(&self) -> RoomView<R> {
        RoomView { room_key: self.room_key@, relay: self.relay }
    }
}

/// Whether slot `at` holds the room of `room_key`.
pub open spec fn room_at<R>(rooms: Seq<RoomView<R>>, room_key: Seq<char>, at: int) -> bool {
    0 <= at < rooms.len() && rooms[at].room_key == room_key
}

/// Whether some slot holds the room of `room_key`.
pub open spec fn has_room<R>(rooms: Seq<RoomView<R>>, room_key: Seq<char>) -> bool {
    exists|at: int| room_at(rooms, room_key, at)
}

/// Whether no two slots hold the same room key: no room has two relays.
pub open spec fn keys_distinct<R>(rooms: Seq<RoomView<R>>) -> bool {
    forall|one: int, other: int|
        0 <= one < other < rooms.len() ==> (#[trigger] rooms[one]).room_key != (
        #[trigger] rooms[other]).room_key
}

/// Whether `after` is `before` with rooms added behind it, none changed.
pub open spec fn grown_from<R>(after: Seq<RoomView<R>>, before: Seq<RoomView<R>>) -> bool {
    &&& before.len() <= after.len()
    &&& forall|at: int| 0 <= at < before.len() ==> #[trigger] after[at] == before[at]
}

/// What asking for the room of `room_key` does. A key that has a slot
/// resolves to it, and nothing changes. A key that has none gets a new slot
/// behind the others, with the relay that was made for it.
pub open spec fn resolved<R>(
    before: Seq<RoomView<R>>,
    after: Seq<RoomView<R>>,
    room_key: Seq<char>,
    slot: int,
) -> bool {
    if has_room(before, room_key) {
        after == before && room_at(before, room_key, slot)
    } else {
        &&& slot == before.len()
        &&& after.len() == before.len() + 1
        &&& after.drop_last() == before
        &&& after.last().room_key == room_key
    }
}

/// The rooms of a process, in the order in which they were first asked for.
pub struct RoomDirectory<R> {
    rooms: Vec<RoomEntry<R>>,
}

impl<R> View for RoomDirectory<R> {
    type V = Seq<RoomView<R>>;

    closed spec fn view(&self) -> Seq<RoomView<R>> {
        self.rooms@.map_values(|entry: RoomEntry<R>| entry@)
    }
}

impl<R> RoomDirectory<R> {
    #[verifier::type_invariant]
    spec fn one_relay_per_room(self) -> bool {
        keys_distinct(self@)
    }

    /// A directory without rooms.
    pub fn new() -> (directory: Self)
        ensures
            directory@ == Seq::<RoomView<R>>::empty(),
    {
        let directory = RoomDirectory { rooms: Vec::new() };
        assert(directory@ =~= Seq::<RoomView<R>>::empty());
        directory
    }

    /// The number of rooms.
    pub fn len(&self) -> (count: usize)
        ensures
            count == self@.len(),
    {
        self.rooms.len()
    }

    /// The slot of the room of `room_key`, if the room exists. No room key
    /// has two slots. The rooms are looked at in turn.
    pub fn find(&self, room_key: &String) -> (slot: Option<usize>)
        ensures
            keys_distinct(self@),
            match slot {
                Some(at) => room_at(self@, room_key@, at as int),
                None => !has_room(self@, room_key@),
            },
    {
        proof {
            use_type_invariant(&*self);
        }
        let mut at: usize = 0;
        while at < self.rooms.len()
            invariant
                at <= self.rooms.len(),
                keys_distinct(self@),
                forall|before: int| 0 <= before < at ==> !room_at(self@, room_key@, before),
            decreases self.rooms.len() - at,
        {
            if self.rooms[at].room_key == *room_key {
                return Some(at);
            }
            at += 1;
        }
        None
    }

    /// The relay in a slot.
    pub fn relay(&self, slot: usize) -> (relay: &R)
        requires
            slot < self@.len(),
        ensures
            *relay == self@[slot as int].relay,
    {
        &self.rooms[slot].relay
    }

    /// The key of the room in a slot.
    pub fn room_key(&self, slot: usize) -> (room_key: &String)
        requires
            slot < self@.len(),
        ensures
            room_key@ == self@[slot as int].room_key,
    {
        &self.rooms[slot].room_key
    }

    /// The slot of the room of `room_key`. Where the room does not exist
    /// yet, `make` is called once for its relay and the room is added;
    /// where it exists, `make` is not called and nothing changes.
    pub fn get_or_create<F: FnOnce() -> R>(&mut self, room_key: String, make: F) -> (slot: usize)
        requires
            make.requires(()),
        ensures
            keys_distinct(old(self)@),
            keys_distinct(final(self)@),
            resolved(old(self)@, final(self)@, room_key@, slot as int),
            !has_room(old(self)@, room_key@) ==> make.ensures((), final(self)@.last().relay),
    {
        proof {
            use_type_invariant(&*self);
        }
        match self.find(&room_key) {
            Some(at) => at,
            None => {
                let slot = self.rooms.len();
                let relay = make();
                let entry = RoomEntry { room_key, relay };
                let mut rooms = Vec::new();
                std::mem::swap(&mut rooms, &mut self.rooms);
                rooms.push(entry);
                proof {
                    let grown = rooms@.map_values(|entry: RoomEntry<R>| entry@);
                    assert(grown =~= old(self)@.push(entry@));
                    assert forall|one: int, other: int|
                        0 <= one < other < grown.len() implies (#[trigger] grown[one]).room_key != (
                    #[trigger] grown[other]).room_key by {
                        if other < old(self)@.len() {
                        } else {
                            assert(!room_at(old(self)@, room_key@, one));
                        }
                    }
                }
                self.rooms = rooms;
                proof {
                    assert(self@ =~= old(self)@.push(entry@));
                    assert(self@.drop_last() =~= old(self)@);
                }
                slot
            },
        }
    }
}

/// Asking twice for the same room resolves to the same slot and the same
/// relay, and the second time nothing is made.
pub proof fn lemma_same_key_same_relay<R>(
    start: Seq<RoomView<R>>,
    once: Seq<RoomView<R>>,
    twice: Seq<RoomView<R>>,
    room_key: Seq<char>,
    first_slot: int,
    second_slot: int,
)
    requires
        keys_distinct(once),
        resolved(start, once, room_key, first_slot),
        resolved(once, twice, room_key, second_slot),
    ensures
        second_slot == first_slot,
        twice == once,
        room_at(twice, room_key, second_slot),
        twice[second_slot].relay == once[first_slot].relay,
{
    lemma_resolved_has_room(start, once, room_key, first_slot);
    assert(has_room(once, room_key));
}

/// After a room has been asked for, it exists, in the slot that was given.
pub proof fn lemma_resolved_has_room<R>(
    before: Seq<RoomView<R>>,
    after: Seq<RoomView<R>>,
    room_key: Seq<char>,
    slot: int,
)
    requires
        resolved(before, after, room_key, slot),
    ensures
        room_at(after, room_key, slot),
        has_room(after, room_key),
{
    if !has_room(before, room_key) {
        assert(after.last() == after[slot]);
    }
    assert(room_at(after, room_key, slot));
}

/// Asking for a room never changes or removes the rooms that exist.
pub proof fn lemma_resolving_keeps_rooms<R>(
    before: Seq<RoomView<R>>,
    after: Seq<RoomView<R>>,
    room_key: Seq<char>,
    slot: int,
)
    requires
        resolved(before, after, room_key, slot),
    ensures
        grown_from(after, before),
{
    if !has_room(before, room_key) {
        assert forall|at: int| 0 <= at < before.len() implies #[trigger] after[at] == before[at] by {
            assert(after.drop_last()[at] == after[at]);
        }
    }
}

/// A room that exists keeps its slot and its relay, whatever rooms are asked
/// for in between: in a directory grown from one in which the room had a
/// slot, the room resolves to that slot and to the relay it had.
pub proof fn lemma_room_keeps_its_relay<R>(
    earlier: Seq<RoomView<R>>,
    before: Seq<RoomView<R>>,
    after: Seq<RoomView<R>>,
    room_key: Seq<char>,
    earlier_slot: int,
    slot: int,
)
    requires
        room_at(earlier, room_key, earlier_slot),
        grown_from(before, earlier),
        keys_distinct(before),
        resolved(before, after, room_key, slot),
    ensures
        slot == earlier_slot,
        after == before,
        after[slot].relay == earlier[earlier_slot].relay,
{
    assert(before[earlier_slot] == earlier[earlier_slot]);
    assert(room_at(before, room_key, earlier_slot));
}

/// Growth of a directory carries over: what has grown from a directory that
/// has grown from another has grown from that one.
pub proof fn lemma_grown_from_is_transitive<R>(
    first: Seq<RoomView<R>>,
    second: Seq<RoomView<R>>,
    third: Seq<RoomView<R>>,
)
    requires
        grown_from(second, first),
        grown_from(third, second),
    ensures
        grown_from(third, first),
{
    assert forall|at: int| 0 <= at < first.len() implies #[trigger] third[at] == first[at] by {
        assert(second[at] == first[at]);
        assert(third[at] == second[at]);
    }
}

} // verus!
