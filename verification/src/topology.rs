//! What a coordinator reports about its household, and which of the reported
//! devices a request asks for.

use vstd::prelude::*;
use crate::names::{is_named_from, named_from, names_of, same_name};

verus! {

/// One device of the coordinator's reported zone groups.
#[derive(Debug)]
pub struct TopologyEntry {
    /// The room name that the device is configured with.
    pub name: String,
    /// Where the device's description can be fetched.
    pub location: String,
}

/// A topology entry as plain values.
pub struct EntryView {
    pub name: Seq<char>,
    pub location: Seq<char>,
}

impl View for TopologyEntry {
    type V = EntryView;

    open spec fn view(&self) -> EntryView {
        EntryView { name: self.name@, location: self.location@ }
    }
}

impl TopologyEntry {
    /// A second entry with the same name and location.
    pub fn duplicate(&self) -> (copy: TopologyEntry)
        ensures
            copy@ == self@,
    {
        TopologyEntry { name: self.name.clone(), location: self.location.clone() }
    }
}

/// The entries of `entries` as plain values, in order.
pub open spec fn entries_of(entries: Seq<TopologyEntry>) -> Seq<EntryView> {
    Seq::new(entries.len(), |i: int| entries[i]@)
}

/// The groups of `groups` as plain values, in order.
pub open spec fn groups_of(groups: Seq<Vec<TopologyEntry>>) -> Seq<Seq<EntryView>> {
    Seq::new(groups.len(), |i: int| entries_of(groups[i]@))
}

/// All entries of all groups: the groups in the order given, each group's
/// entries in their own order.
pub open spec fn flattened(groups: Seq<Seq<EntryView>>) -> Seq<EntryView>
    decreases groups.len(),
{
    if groups.len() == 0 {
        Seq::empty()
    } else {
        flattened(groups.drop_last()) + groups.last()
    }
}

/// Whether a request for `rooms` asks for `entry` as a member: its name
/// matches one of the rooms after the first. The first room names the
/// coordinator and is never searched for.
pub open spec fn is_member(rooms: Seq<Seq<char>>, entry: EntryView) -> bool {
    named_from(rooms, 1, entry.name)
}

/// The entries that a request for `rooms` asks for as members, in the order
/// of `entries`.
pub open spec fn members_among(entries: Seq<EntryView>, rooms: Seq<Seq<char>>) -> Seq<EntryView>
    decreases entries.len(),
{
    if entries.len() == 0 {
        Seq::empty()
    } else {
        let before = members_among(entries.drop_last(), rooms);
        if is_member(rooms, entries.last()) {
            before.push(entries.last())
        } else {
            before
        }
    }
}

/// Lays the reported zone groups out as one list of entries.
pub fn flatten_groups(groups: &Vec<Vec<TopologyEntry>>) -> (flat: Vec<TopologyEntry>)
    ensures
        entries_of(flat@) == flattened(groups_of(groups@)),
{
    let mut flat: Vec<TopologyEntry> = Vec::new();
    let mut g: usize = 0;
    assert(groups_of(groups@).take(0) =~= Seq::empty());
    assert(entries_of(flat@) =~= Seq::empty());
    while g < groups.len()
        invariant
            g <= groups.len(),
            entries_of(flat@) == flattened(groups_of(groups@).take(g as int)),
        decreases groups.len() - g,
    {
        let group = &groups[g];
        let ghost before = entries_of(flat@);
        let mut k: usize = 0;
        while k < group.len()
            invariant
                k <= group.len(),
                entries_of(flat@) =~= before + entries_of(group@).take(k as int),
            decreases group.len() - k,
        {
            let ghost so_far = entries_of(flat@);
            flat.push(group[k].duplicate());
            proof {
                let part = entries_of(group@);
                assert(entries_of(flat@) =~= so_far.push(group@[k as int]@));
                assert(part.take(k + 1) =~= part.take(k as int).push(part[k as int]));
            }
            k += 1;
        }
        proof {
            let all = groups_of(groups@);
            assert(entries_of(group@).take(k as int) =~= entries_of(group@));
            assert(all.take(g + 1).drop_last() =~= all.take(g as int));
            assert(all.take(g + 1).last() == entries_of(group@));
        }
        g += 1;
    }
    assert(groups_of(groups@).take(g as int) =~= groups_of(groups@));
    flat
}

/// Keeps the entries whose name matches, ignoring ASCII case, one of the
/// requested rooms after the first, in their order. With fewer than two
/// rooms nothing is kept.
pub fn select_members(entries: &Vec<TopologyEntry>, rooms: &Vec<String>) -> (members: Vec<
    TopologyEntry,
>)
    ensures
        entries_of(members@) == members_among(entries_of(entries@), names_of(rooms@)),
{
    let mut members: Vec<TopologyEntry> = Vec::new();
    let mut i: usize = 0;
    assert(entries_of(entries@).take(0) =~= Seq::empty());
    assert(entries_of(members@) =~= Seq::empty());
    while i < entries.len()
        invariant
            i <= entries.len(),
            entries_of(members@) == members_among(
                entries_of(entries@).take(i as int),
                names_of(rooms@),
            ),
        decreases entries.len() - i,
    {
        let ghost kept = entries_of(members@);
        proof {
            let all = entries_of(entries@);
            assert(all.take(i + 1).drop_last() =~= all.take(i as int));
            assert(all.take(i + 1).last() == entries@[i as int]@);
        }
        if is_named_from(rooms, 1, entries[i].name.as_str()) {
            members.push(entries[i].duplicate());
            assert(entries_of(members@) =~= kept.push(entries@[i as int]@));
        }
        i += 1;
    }
    assert(entries_of(entries@).take(i as int) =~= entries_of(entries@));
    members
}

/// Every selected member is one of the entries and is asked for by a room
/// after the first; and every entry that is asked for is selected.
pub proof fn lemma_members_are_the_requested(entries: Seq<EntryView>, rooms: Seq<Seq<char>>)
    ensures
        forall|e: EntryView| #[trigger]
            members_among(entries, rooms).contains(e) <==> (entries.contains(e) && is_member(
                rooms,
                e,
            )),
    decreases entries.len(),
{
    let members = members_among(entries, rooms);
    if entries.len() == 0 {
        assert forall|e: EntryView| #[trigger]
            members.contains(e) <==> (entries.contains(e) && is_member(rooms, e)) by {}
    } else {
        let head = entries.drop_last();
        let last = entries.last();
        lemma_members_are_the_requested(head, rooms);
        let before = members_among(head, rooms);
        assert forall|e: EntryView| #[trigger]
            members.contains(e) <==> (entries.contains(e) && is_member(rooms, e)) by {
            assert(before.contains(e) <==> (head.contains(e) && is_member(rooms, e)));
            if members.contains(e) {
                let j = choose|j: int| 0 <= j < members.len() && members[j] == e;
                if is_member(rooms, last) && j == before.len() {
                    assert(entries[entries.len() - 1] == e);
                } else {
                    assert(before[j] == e);
                    assert(before.contains(e));
                    let k = choose|k: int| 0 <= k < head.len() && head[k] == e;
                    assert(entries[k] == e);
                }
            }
            if entries.contains(e) && is_member(rooms, e) {
                let k = choose|k: int| 0 <= k < entries.len() && entries[k] == e;
                if k == entries.len() - 1 {
                    assert(members[before.len() as int] == e);
                } else {
                    assert(head[k] == e);
                    assert(head.contains(e));
                    let j = choose|j: int| 0 <= j < before.len() && before[j] == e;
                    assert(members[j] == e);
                }
            }
        }
    }
}

/// With at most one requested room the group is the coordinator alone: no
/// entry is selected, whatever the topology holds.
pub proof fn lemma_no_tail_no_members(entries: Seq<EntryView>, rooms: Seq<Seq<char>>)
    requires
        rooms.len() <= 1,
    ensures
        members_among(entries, rooms) == Seq::<EntryView>::empty(),
    decreases entries.len(),
{
    if entries.len() > 0 {
        lemma_no_tail_no_members(entries.drop_last(), rooms);
    }
}

/// The first room takes no part in the search for members: two requests
/// that differ in their first room alone select the same members.
pub proof fn lemma_first_room_takes_no_part(
    entries: Seq<EntryView>,
    rooms: Seq<Seq<char>>,
    others: Seq<Seq<char>>,
)
    requires
        rooms.len() == others.len(),
        forall|i: int| 1 <= i < rooms.len() ==> rooms[i] == others[i],
    ensures
        members_among(entries, rooms) == members_among(entries, others),
    decreases entries.len(),
{
    if entries.len() > 0 {
        lemma_first_room_takes_no_part(entries.drop_last(), rooms, others);
        let name = entries.last().name;
        if named_from(rooms, 1, name) {
            let i = choose|i: int| 1 <= i < rooms.len() && same_name(#[trigger] rooms[i], name);
            assert(same_name(others[i], name));
        }
        if named_from(others, 1, name) {
            let i = choose|i: int| 1 <= i < others.len() && same_name(#[trigger] others[i], name);
            assert(same_name(rooms[i], name));
        }
    }
}

/// The first room is not searched for: when no later room repeats its name,
/// no selected member carries the coordinator's name.
pub proof fn lemma_coordinator_not_searched(entries: Seq<EntryView>, rooms: Seq<Seq<char>>)
    requires
        rooms.len() >= 1,
        !named_from(rooms, 1, rooms[0]),
    ensures
        forall|e: EntryView| #[trigger]
            members_among(entries, rooms).contains(e) ==> e.name != rooms[0],
{
    lemma_members_are_the_requested(entries, rooms);
}

} // verus!
