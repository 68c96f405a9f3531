//! How a history falls into turns, and the orders it can be told in.

use crate::json;
use crate::json::Json;
use crate::protocol::attach::{HistoryEntry, HistoryEntryView, ReplayOrder};
use crate::room::state::{RoomEntry, RoomEntryView};
use crate::text::same_text;
use vstd::multiset::Multiset;
use vstd::prelude::*;

verus! {

/// What an item of a history means for turns.
#[derive(Debug, Clone, Copy, PartialEq, Eq, Structural)]
pub enum Mark {
    /// A turn starts with it.
    Start,
    /// The turn that is open ends with it.
    End,
    Inside,
}

/// The mark of an item by its method.
pub open spec fn mark_of(method: Option<Seq<char>>) -> Mark {
    if method == Some("amux/turn_started"@) {
        Mark::Start
    } else if method == Some("amux/turn_complete"@) {
        Mark::End
    } else {
        Mark::Inside
    }
}

/// The mark of an item by its method.
pub fn mark_for(method: Option<&str>) -> (mark: Mark)
    ensures
        mark == mark_of(method.deep_view()),
{
    match method {
        Some(method) => if same_text(method, "amux/turn_started") {
            Mark::Start
        } else if same_text(method, "amux/turn_complete") {
            Mark::End
        } else {
            Mark::Inside
        },
        None => Mark::Inside,
    }
}

/// An item of a history.
pub trait Marked: DeepView + Sized {
    /// The mark of an item, over its model.
    spec fn mark_of_view(view: Self::V) -> Mark;

    /// The mark of this item.
    fn mark(&self) -> (mark: Mark)
        ensures
            mark == Self::mark_of_view(self.deep_view()),
    ;
}

impl Marked for HistoryEntry {
    open spec fn mark_of_view(view: HistoryEntryView) -> Mark {
        mark_of(Some(view.method))
    }

    fn mark(&self) -> (mark: Mark) {
        mark_for(Some(&self.method))
    }
}

/// The method of a recorded frame, where it has one.
pub open spec fn frame_method(frame: Seq<u8>) -> Option<Seq<char>> {
    match json::json_document(frame) {
        Some(document) => document.get_str("method"@),
        None => None,
    }
}

/// The method of a recorded frame, where it has one.
pub fn replay_entry_method(entry: &RoomEntry) -> (method: Option<String>)
    ensures
        method.deep_view() == frame_method(entry.deep_view().entry.frame),
{
    match Json::parse(&entry.entry.frame) {
        Ok(document) => match document.get_str("method") {
            Some(method) => Some(method.to_owned()),
            None => None,
        },
        Err(_) => None,
    }
}

impl Marked for RoomEntry {
    open spec fn mark_of_view(view: RoomEntryView) -> Mark {
        mark_of(frame_method(view.entry.frame))
    }

    fn mark(&self) -> (mark: Mark) {
        match replay_entry_method(self) {
            Some(method) => mark_for(Some(&method)),
            None => mark_for(None),
        }
    }
}

/// A history taken apart: what belongs to no turn, the turns that are over, and
/// the one that is open.
#[verifier::ext_equal]
pub struct Split<T> {
    pub ambient: Seq<T>,
    pub turns: Seq<Seq<T>>,
    pub open: Option<Seq<T>>,
}

impl<T> Split<T> {
    /// The turns, the open one last.
    pub open spec fn all_turns(self) -> Seq<Seq<T>> {
        match self.open {
            Some(turn) => self.turns.push(turn),
            None => self.turns,
        }
    }

    /// One more item.
    pub open spec fn take_in(self, item: T, mark: Mark) -> Split<T> {
        match (mark, self.open) {
            (Mark::Start, _) => Split {
                turns: self.all_turns(),
                open: Some(seq![item]),
                ..self
            },
            (Mark::End, Some(turn)) => Split {
                turns: self.turns.push(turn.push(item)),
                open: None,
                ..self
            },
            (Mark::Inside, Some(turn)) => Split { open: Some(turn.push(item)), ..self },
            (_, None) => Split { ambient: self.ambient.push(item), ..self },
        }
    }
}

/// A history taken apart.
pub open spec fn split_turns<T: Marked>(items: Seq<T::V>) -> Split<T::V>
    decreases items.len(),
{
    if items.len() == 0 {
        Split { ambient: Seq::empty(), turns: Seq::empty(), open: None }
    } else {
        split_turns::<T>(items.drop_last()).take_in(items.last(), T::mark_of_view(items.last()))
    }
}

/// Some lists, one after the other.
pub open spec fn flat<T>(lists: Seq<Seq<T>>) -> Seq<T>
    decreases lists.len(),
{
    if lists.len() == 0 {
        Seq::empty()
    } else {
        flat(lists.drop_last()) + lists.last()
    }
}

/// The history with the newest turn first. What belongs to no turn comes before
/// all turns; within a turn the order stays.
pub open spec fn newest_first<T: Marked>(items: Seq<T::V>) -> Seq<T::V> {
    let split = split_turns::<T>(items);
    split.ambient + flat(split.all_turns().reverse())
}

/// The history as it is streamed: first one turn that is sent at once, then the
/// pages that follow.
pub open spec fn streamed<T: Marked>(items: Seq<T::V>, order: ReplayOrder) -> (
    Seq<T::V>,
    Seq<Seq<T::V>>,
) {
    let split = split_turns::<T>(items);
    let turns = split.all_turns();
    let ambient = if split.ambient.len() == 0 {
        Seq::empty()
    } else {
        seq![split.ambient]
    };
    match order {
        ReplayOrder::Chronological => (Seq::empty(), ambient + turns),
        ReplayOrder::NewestTurnFirst => if turns.len() == 0 {
            (Seq::empty(), ambient)
        } else {
            (turns.last(), turns.drop_last().reverse() + ambient)
        },
    }
}

/// Takes a history apart: what belongs to no turn, and the turns.
pub fn separate<T: Marked>(items: Vec<T>) -> (parts: (Vec<T>, Vec<Vec<T>>))
    ensures
        parts.0.deep_view() == split_turns::<T>(items.deep_view()).ambient,
        parts.1.deep_view() == split_turns::<T>(items.deep_view()).all_turns(),
{
    let ghost all = items.deep_view();
    let mut items = items;
    let mut ambient: Vec<T> = Vec::new();
    let mut turns: Vec<Vec<T>> = Vec::new();
    let mut open: Option<Vec<T>> = None;
    let count: usize = items.len();
    let mut done: usize = 0;
    assert(all.take(0) =~= Seq::empty());
    assert(all.skip(0) =~= all);
    assert(ambient.deep_view() =~= Seq::empty());
    assert(turns.deep_view() =~= Seq::empty());
    while done < count
        invariant
            done <= count,
            all.len() == count,
            items.deep_view() == all.skip(done as int),
            ambient.deep_view() == split_turns::<T>(all.take(done as int)).ambient,
            turns.deep_view() == split_turns::<T>(all.take(done as int)).turns,
            open.deep_view() == split_turns::<T>(all.take(done as int)).open,
        decreases count - done,
    {
        let ghost rest = items.deep_view();
        let ghost queue = items@;
        assert(rest.len() == items@.len());
        let item = items.remove(0);
        assert forall|i: int| 0 <= i < items@.len() implies items.deep_view()[i] == all.skip(
            done + 1,
        )[i] by {
            assert(items@[i] == queue[i + 1]);
            assert(rest[i + 1] == all.skip(done as int)[i + 1]);
        }
        assert(items.deep_view() =~= all.skip(done + 1));
        assert(rest[0] == item.deep_view());
        assert(rest[0] == all[done as int]);
        assert(all.take(done + 1).drop_last() =~= all.take(done as int));
        let ghost view = item.deep_view();
        let ghost turns_before = turns.deep_view();
        let ghost ambient_before = ambient.deep_view();
        match item.mark() {
            Mark::Start => {
                if let Some(turn) = open {
                    let ghost turn_view = turn.deep_view();
                    turns.push(turn);
                    assert(turns.deep_view() =~= turns_before.push(turn_view));
                }
                let mut turn: Vec<T> = Vec::new();
                turn.push(item);
                assert(turn.deep_view() =~= seq![view]);
                open = Some(turn);
            },
            Mark::End => {
                if let Some(turn) = open {
                    let ghost turn_view = turn.deep_view();
                    let mut turn = turn;
                    turn.push(item);
                    assert(turn.deep_view() =~= turn_view.push(view));
                    turns.push(turn);
                    assert(turns.deep_view() =~= turns_before.push(turn_view.push(view)));
                } else {
                    ambient.push(item);
                    assert(ambient.deep_view() =~= ambient_before.push(view));
                }
                open = None;
            },
            Mark::Inside => {
                if let Some(turn) = open {
                    let ghost turn_view = turn.deep_view();
                    let mut turn = turn;
                    turn.push(item);
                    assert(turn.deep_view() =~= turn_view.push(view));
                    open = Some(turn);
                } else {
                    ambient.push(item);
                    assert(ambient.deep_view() =~= ambient_before.push(view));
                    open = None;
                }
            },
        }
        done += 1;
    }
    assert(all.take(count as int) =~= all);
    let ghost turns_before = turns.deep_view();
    if let Some(turn) = open {
        let ghost turn_view = turn.deep_view();
        turns.push(turn);
        assert(turns.deep_view() =~= turns_before.push(turn_view));
    }
    (ambient, turns)
}

fn reversed<T: DeepView>(lists: Vec<Vec<T>>) -> (backwards: Vec<Vec<T>>)
    ensures
        backwards.deep_view() == lists.deep_view().reverse(),
{
    let ghost all = lists.deep_view();
    let mut lists = lists;
    let mut backwards: Vec<Vec<T>> = Vec::new();
    while lists.len() > 0
        invariant
            lists.deep_view().len() <= all.len(),
            lists.deep_view() == all.take(lists@.len() as int),
            lists@.len() <= all.len(),
            backwards.deep_view() == all.skip(lists@.len() as int).reverse(),
        decreases lists@.len(),
    {
        let ghost before = lists.deep_view();
        let ghost kept = backwards.deep_view();
        let ghost count = lists@.len();
        let list = lists.pop().unwrap();
        assert(lists.deep_view() =~= all.take(count - 1));
        assert(before[count - 1] == list.deep_view());
        let ghost view = list.deep_view();
        backwards.push(list);
        assert(backwards.deep_view() =~= kept.push(view));
        assert(all.skip(count - 1).reverse() =~= all.skip(count as int).reverse().push(
            all[count - 1],
        ));
    }
    assert(all.skip(0) =~= all);
    backwards
}

proof fn lemma_flat_step<T>(lists: Seq<Seq<T>>, at: int)
    requires
        0 <= at < lists.len(),
    ensures
        flat(lists.take(at + 1)) == flat(lists.take(at)) + lists[at],
{
    assert(lists.take(at + 1).drop_last() =~= lists.take(at));
}

fn append_all<T: DeepView>(front: Vec<T>, lists: Vec<Vec<T>>) -> (joined: Vec<T>)
    ensures
        joined.deep_view() == front.deep_view() + flat(lists.deep_view()),
{
    let ghost start = front.deep_view();
    let ghost all = lists.deep_view();
    let mut joined = front;
    let mut lists = lists;
    let count: usize = lists.len();
    let mut done: usize = 0;
    assert(all.take(0) =~= Seq::empty());
    assert(all.skip(0) =~= all);
    assert(start + flat(all.take(0)) =~= start);
    while done < count
        invariant
            done <= count,
            all.len() == count,
            lists.deep_view() == all.skip(done as int),
            joined.deep_view() == start + flat(all.take(done as int)),
        decreases count - done,
    {
        let ghost rest = lists.deep_view();
        let ghost queue = lists@;
        assert(rest.len() == lists@.len());
        let mut list = lists.remove(0);
        assert forall|i: int| 0 <= i < lists@.len() implies lists.deep_view()[i] == all.skip(
            done + 1,
        )[i] by {
            assert(lists@[i] == queue[i + 1]);
            assert(rest[i + 1] == all.skip(done as int)[i + 1]);
        }
        assert(lists.deep_view() =~= all.skip(done + 1));
        assert(rest[0] == list.deep_view());
        assert(rest[0] == all[done as int]);
        let ghost before = joined.deep_view();
        let ghost view = list.deep_view();
        joined.append(&mut list);
        assert(joined.deep_view() =~= before + view);
        proof {
            lemma_flat_step(all, done as int);
        }
        assert(start + flat(all.take(done + 1)) =~= (start + flat(all.take(done as int))) + view);
        done += 1;
    }
    assert(all.take(count as int) =~= all);
    joined
}

/// The history with the newest turn first.
pub fn newest_turn_first_history<T: Marked>(history: Vec<T>) -> (ordered: Vec<T>)
    ensures
        ordered.deep_view() == newest_first::<T>(history.deep_view()),
{
    let (ambient, turns) = separate(history);
    append_all(ambient, reversed(turns))
}

/// The history in the order that is asked for.
pub open spec fn in_order<T: Marked>(items: Seq<T::V>, order: ReplayOrder) -> Seq<T::V> {
    match order {
        ReplayOrder::Chronological => items,
        ReplayOrder::NewestTurnFirst => newest_first::<T>(items),
    }
}

/// The history in the order that is asked for.
pub fn apply_history_replay_order<T: Marked>(history: Vec<T>, replay_order: ReplayOrder) -> (
ordered: Vec<T>)
    ensures
        ordered.deep_view() == in_order::<T>(history.deep_view(), replay_order),
{
    match replay_order {
        ReplayOrder::Chronological => history,
        ReplayOrder::NewestTurnFirst => newest_turn_first_history(history),
    }
}

/// The history as it is streamed: what is sent at once, and the pages that
/// follow.
pub fn streaming_replay_segments<T: Marked>(entries: Vec<T>, replay_order: ReplayOrder) -> (parts: (
    Vec<T>,
    Vec<Vec<T>>,
))
    ensures
        (parts.0.deep_view(), parts.1.deep_view()) == streamed::<T>(
            entries.deep_view(),
            replay_order,
        ),
{
    let (ambient, turns) = separate(entries);
    let ghost all = turns.deep_view();
    let ghost loose = ambient.deep_view();
    match replay_order {
        ReplayOrder::Chronological => {
            let mut pages: Vec<Vec<T>> = Vec::new();
            let none: Vec<T> = Vec::new();
            assert(none.deep_view() =~= Seq::empty());
            if ambient.len() > 0 {
                pages.push(ambient);
                assert(pages.deep_view() =~= seq![loose]);
            } else {
                assert(pages.deep_view() =~= Seq::empty());
            }
            let ghost front = pages.deep_view();
            let mut turns = turns;
            pages.append(&mut turns);
            assert(pages.deep_view() =~= front + all);
            (none, pages)
        },
        ReplayOrder::NewestTurnFirst => {
            let mut turns = turns;
            let latest = match turns.pop() {
                Some(turn) => {
                    assert(all.last() == turn.deep_view());
                    assert(turns.deep_view() =~= all.drop_last());
                    turn
                },
                None => {
                    let none: Vec<T> = Vec::new();
                    assert(none.deep_view() =~= Seq::empty());
                    assert(turns.deep_view() =~= Seq::empty());
                    assert(turns.deep_view().reverse() =~= Seq::empty());
                    none
                },
            };
            let mut pages = reversed(turns);
            let ghost front = pages.deep_view();
            if ambient.len() > 0 {
                pages.push(ambient);
                assert(pages.deep_view() =~= front + seq![loose]);
            } else {
                assert(pages.deep_view() =~= front + Seq::<Seq<T::V>>::empty());
            }
            assert(all.len() == 0 ==> front =~= Seq::empty());
            assert(all.len() == 0 ==> pages.deep_view() =~= if loose.len() == 0 {
                Seq::empty()
            } else {
                seq![loose]
            });
            (latest, pages)
        },
    }
}

/// How many items some lists hold.
pub open spec fn total<T>(lists: Seq<Seq<T>>) -> nat
    decreases lists.len(),
{
    if lists.len() == 0 {
        0
    } else {
        total(lists.drop_last()) + lists.last().len()
    }
}

/// What some lists hold, whatever its order.
pub open spec fn held<T>(lists: Seq<Seq<T>>) -> Multiset<T>
    decreases lists.len(),
{
    if lists.len() == 0 {
        Multiset::empty()
    } else {
        held(lists.drop_last()).add(lists.last().to_multiset())
    }
}

proof fn lemma_multiset_push<T>(items: Seq<T>, item: T)
    ensures
        items.push(item).to_multiset() =~= items.to_multiset().add(Multiset::singleton(item)),
{
    broadcast use vstd::seq_lib::group_to_multiset_ensures;

    items.to_multiset_ensures();
}

proof fn lemma_flat_held<T>(lists: Seq<Seq<T>>)
    ensures
        flat(lists).to_multiset() =~= held(lists),
        flat(lists).len() == total(lists),
    decreases lists.len(),
{
    broadcast use vstd::seq_lib::group_to_multiset_ensures;

    if lists.len() > 0 {
        lemma_flat_held(lists.drop_last());
        vstd::seq_lib::lemma_multiset_commutative(flat(lists.drop_last()), lists.last());
    } else {
        assert(flat(lists).to_multiset() =~= Multiset::empty());
    }
}

proof fn lemma_held_join<T>(front: Seq<Seq<T>>, back: Seq<Seq<T>>)
    ensures
        held(front + back) =~= held(front).add(held(back)),
        total(front + back) == total(front) + total(back),
    decreases back.len(),
{
    if back.len() > 0 {
        assert((front + back).drop_last() =~= front + back.drop_last());
        lemma_held_join(front, back.drop_last());
    } else {
        assert(front + back =~= front);
    }
}

proof fn lemma_held_one<T>(list: Seq<T>)
    ensures
        held(seq![list]) =~= list.to_multiset(),
        total(seq![list]) == list.len(),
{
    reveal_with_fuel(held, 2);
    reveal_with_fuel(total, 2);
    assert(seq![list].drop_last() =~= Seq::empty());
}

proof fn lemma_held_reverse<T>(lists: Seq<Seq<T>>)
    ensures
        held(lists.reverse()) =~= held(lists),
        total(lists.reverse()) == total(lists),
    decreases lists.len(),
{
    if lists.len() > 0 {
        lemma_held_reverse(lists.drop_last());
        assert(lists.reverse() =~= seq![lists.last()] + lists.drop_last().reverse());
        lemma_held_join(seq![lists.last()], lists.drop_last().reverse());
        lemma_held_one(lists.last());
    } else {
        assert(lists.reverse() =~= lists);
    }
}

proof fn lemma_take_in<T>(split: Split<T>, item: T, mark: Mark)
    ensures
        ({
            let after = split.take_in(item, mark);
            &&& after.ambient.to_multiset().add(held(after.all_turns()))
                =~= split.ambient.to_multiset().add(held(split.all_turns())).add(
                Multiset::singleton(item),
            )
            &&& after.ambient.len() + total(after.all_turns()) == split.ambient.len() + total(
                split.all_turns(),
            ) + 1
        }),
{
    let after = split.take_in(item, mark);
    lemma_multiset_push(split.ambient, item);
    match (mark, split.open) {
        (Mark::Start, _) => {
            assert(after.all_turns().drop_last() =~= split.all_turns());
            lemma_multiset_push(Seq::empty(), item);
            assert(Seq::empty().push(item) =~= seq![item]);
            Seq::<T>::empty().to_multiset_ensures();
            assert(Seq::<T>::empty().to_multiset() =~= Multiset::empty());
        },
        (Mark::End, Some(turn)) => {
            assert(after.all_turns().drop_last() =~= split.turns);
            assert(split.all_turns().drop_last() =~= split.turns);
            lemma_multiset_push(turn, item);
        },
        (Mark::Inside, Some(turn)) => {
            assert(after.all_turns().drop_last() =~= split.turns);
            assert(split.all_turns().drop_last() =~= split.turns);
            lemma_multiset_push(turn, item);
        },
        (_, None) => {},
    }
}

proof fn lemma_split_holds<T: Marked>(items: Seq<T::V>)
    ensures
        ({
            let split = split_turns::<T>(items);
            &&& split.ambient.to_multiset().add(held(split.all_turns())) =~= items.to_multiset()
            &&& split.ambient.len() + total(split.all_turns()) == items.len()
        }),
    decreases items.len(),
{
    broadcast use vstd::seq_lib::group_to_multiset_ensures;

    if items.len() > 0 {
        let front = items.drop_last();
        lemma_split_holds::<T>(front);
        lemma_take_in(split_turns::<T>(front), items.last(), T::mark_of_view(items.last()));
        lemma_multiset_push(front, items.last());
        assert(front.push(items.last()) =~= items);
    } else {
        let split = split_turns::<T>(items);
        assert(split.ambient.to_multiset() =~= Multiset::empty());
        assert(items.to_multiset() =~= Multiset::empty());
    }
}

/// Telling the newest turn first loses nothing and adds nothing.
pub proof fn law_newest_first_keeps_all<T: Marked>(items: Seq<T::V>)
    ensures
        newest_first::<T>(items).to_multiset() == items.to_multiset(),
        newest_first::<T>(items).len() == items.len(),
{
    let split = split_turns::<T>(items);
    let turns = split.all_turns();
    lemma_split_holds::<T>(items);
    lemma_held_reverse(turns);
    lemma_flat_held(turns.reverse());
    vstd::seq_lib::lemma_multiset_commutative(split.ambient, flat(turns.reverse()));
    assert(newest_first::<T>(items).to_multiset() =~= items.to_multiset());
}

/// Streaming a history loses nothing and adds nothing, in either order.
pub proof fn law_streamed_keeps_all<T: Marked>(items: Seq<T::V>, order: ReplayOrder)
    ensures
        ({
            let (latest, pages) = streamed::<T>(items, order);
            &&& latest.to_multiset().add(held(pages)) == items.to_multiset()
            &&& latest.len() + total(pages) == items.len()
        }),
{
    broadcast use vstd::seq_lib::group_to_multiset_ensures;

    let split = split_turns::<T>(items);
    let turns = split.all_turns();
    let ambient = if split.ambient.len() == 0 {
        Seq::empty()
    } else {
        seq![split.ambient]
    };
    lemma_split_holds::<T>(items);
    lemma_held_one(split.ambient);
    assert(held(ambient) =~= split.ambient.to_multiset());
    assert(total(ambient) == split.ambient.len());
    assert(Seq::<T::V>::empty().to_multiset() =~= Multiset::empty());
    match order {
        ReplayOrder::Chronological => {
            lemma_held_join(ambient, turns);
        },
        ReplayOrder::NewestTurnFirst => {
            if turns.len() > 0 {
                lemma_held_reverse(turns.drop_last());
                lemma_held_join(turns.drop_last().reverse(), ambient);
            }
        },
    }
    let (latest, pages) = streamed::<T>(items, order);
    assert(latest.to_multiset().add(held(pages)) =~= items.to_multiset());
}

/// The items at the positions that are kept, in their order.
pub open spec fn chosen<V>(items: Seq<V>, keep: spec_fn(int) -> bool) -> Seq<V>
    decreases items.len(),
{
    if items.len() == 0 {
        Seq::empty()
    } else if keep(items.len() - 1) {
        chosen(items.drop_last(), keep).push(items.last())
    } else {
        chosen(items.drop_last(), keep)
    }
}

/// Whether a turn that started at `start` is still open when the item at `at`
/// comes: no item between the two ended it.
pub open spec fn still_open<T: Marked>(items: Seq<T::V>, start: int, at: int) -> bool {
    &&& 0 <= start < items.len()
    &&& T::mark_of_view(items[start]) == Mark::Start
    &&& forall|k: int|
        start < k < at ==> T::mark_of_view(#[trigger] items[k]) != Mark::End
}

/// Whether the item at `at` belongs to a turn: a turn starts with it, or one that
/// started before is still open.
pub open spec fn in_turn<T: Marked>(items: Seq<T::V>, at: int) -> bool {
    exists|start: int| start <= at && #[trigger] still_open::<T>(items, start, at)
}

/// Whether some items are one turn: they begin with its start, there is no other
/// start among them, and where there is an end, it is the last of them.
pub open spec fn one_turn<T: Marked>(items: Seq<T::V>) -> bool {
    &&& items.len() > 0
    &&& T::mark_of_view(items[0]) == Mark::Start
    &&& forall|k: int| 0 < k < items.len() ==> T::mark_of_view(#[trigger] items[k]) != Mark::Start
    &&& forall|k: int|
        0 <= k < items.len() - 1 ==> T::mark_of_view(#[trigger] items[k]) != Mark::End
}

/// What belongs to no turn.
pub open spec fn outside<T: Marked>(items: Seq<T::V>) -> Seq<T::V> {
    chosen(items, |at: int| !in_turn::<T>(items, at))
}

/// What belongs to a turn.
pub open spec fn inside<T: Marked>(items: Seq<T::V>) -> Seq<T::V> {
    chosen(items, |at: int| in_turn::<T>(items, at))
}

/// How many pages come before those of the turns: one where something belongs to
/// no turn.
pub open spec fn lead<T: Marked>(items: Seq<T::V>) -> int {
    if outside::<T>(items).len() > 0 {
        1
    } else {
        0
    }
}

proof fn lemma_chosen_alike<V>(items: Seq<V>, a: spec_fn(int) -> bool, b: spec_fn(int) -> bool)
    requires
        forall|at: int| 0 <= at < items.len() ==> a(at) == #[trigger] b(at),
    ensures
        chosen(items, a) == chosen(items, b),
    decreases items.len(),
{
    if items.len() > 0 {
        assert(a(items.len() - 1) == b(items.len() - 1));
        lemma_chosen_alike(items.drop_last(), a, b);
    }
}

proof fn lemma_front_turns<T: Marked>(items: Seq<T::V>, at: int)
    requires
        0 <= at < items.len() - 1,
    ensures
        in_turn::<T>(items, at) == in_turn::<T>(items.drop_last(), at),
{
    let front = items.drop_last();
    if in_turn::<T>(items, at) {
        let start = choose|start: int| start <= at && #[trigger] still_open::<T>(items, start, at);
        assert(still_open::<T>(front, start, at));
    }
    if in_turn::<T>(front, at) {
        let start = choose|start: int| start <= at && #[trigger] still_open::<T>(front, start, at);
        assert forall|k: int| start < k < at implies T::mark_of_view(#[trigger] items[k])
            != Mark::End by {
            assert(front[k] == items[k]);
        }
        assert(items[start] == front[start]);
        assert(still_open::<T>(items, start, at));
    }
}

proof fn lemma_flat_is_flatten<V>(lists: Seq<Seq<V>>)
    ensures
        flat(lists) == lists.flatten(),
    decreases lists.len(),
{
    lists.lemma_flatten_and_flatten_alt_are_equivalent();
    lemma_flat_alt(lists);
}

proof fn lemma_flat_alt<V>(lists: Seq<Seq<V>>)
    ensures
        flat(lists) == lists.flatten_alt(),
    decreases lists.len(),
{
    if lists.len() > 0 {
        lemma_flat_alt(lists.drop_last());
    }
}

proof fn lemma_split<T: Marked>(items: Seq<T::V>)
    ensures
        ({
            let split = split_turns::<T>(items);
            &&& split.ambient == outside::<T>(items)
            &&& flat(split.all_turns()) == inside::<T>(items)
            &&& forall|i: int| 0 <= i < split.turns.len() ==> one_turn::<T>(#[trigger] split.turns[i])
            &&& split.open matches Some(turn) ==> one_turn::<T>(turn) && forall|k: int|
                0 <= k < turn.len() ==> T::mark_of_view(#[trigger] turn[k]) != Mark::End
            &&& split.open is Some <==> exists|start: int| #[trigger]
                still_open::<T>(items, start, items.len() as int)
        }),
    decreases items.len(),
{
    let split = split_turns::<T>(items);
    let n = items.len() as int;
    if n == 0 {
        assert(split.ambient =~= outside::<T>(items));
        assert(flat(split.all_turns()) =~= inside::<T>(items));
    } else {
        let front = items.drop_last();
        let last = items.last();
        let mark = T::mark_of_view(last);
        let before = split_turns::<T>(front);
        lemma_split::<T>(front);
        assert forall|at: int| 0 <= at < front.len() implies in_turn::<T>(front, at)
            == #[trigger] in_turn::<T>(items, at) by {
            lemma_front_turns::<T>(items, at);
        }
        lemma_chosen_alike(
            front,
            |at: int| in_turn::<T>(front, at),
            |at: int| in_turn::<T>(items, at),
        );
        lemma_chosen_alike(
            front,
            |at: int| !in_turn::<T>(front, at),
            |at: int| !in_turn::<T>(items, at),
        );
        // Whether the last item belongs to a turn.
        if mark == Mark::Start {
            assert(still_open::<T>(items, n - 1, n - 1));
            assert(still_open::<T>(items, n - 1, n));
        }
        if before.open is Some {
            let start = choose|start: int| #[trigger] still_open::<T>(front, start, n - 1);
            assert forall|k: int| start < k < n - 1 implies T::mark_of_view(#[trigger] items[k])
                != Mark::End by {
                assert(front[k] == items[k]);
            }
            assert(items[start] == front[start]);
            assert(still_open::<T>(items, start, n - 1));
            if mark != Mark::End {
                assert(still_open::<T>(items, start, n));
            }
        }
        if in_turn::<T>(items, n - 1) && mark != Mark::Start {
            let start = choose|start: int|
                start <= n - 1 && #[trigger] still_open::<T>(items, start, n - 1);
            assert(start < n - 1);
            assert(still_open::<T>(front, start, n - 1));
        }
        if exists|start: int| #[trigger] still_open::<T>(items, start, n) {
            let start = choose|start: int| #[trigger] still_open::<T>(items, start, n);
            if start < n - 1 {
                assert(still_open::<T>(front, start, n - 1));
                assert(items[n - 1] == last);
            }
        }
        // What taking in the last item does to the turns.
        match (mark, before.open) {
            (Mark::Start, _) => {
                assert(split.all_turns().drop_last() =~= before.all_turns());
                assert(flat(split.all_turns()) =~= flat(before.all_turns()).push(last));
                assert forall|i: int| 0 <= i < split.turns.len() implies one_turn::<T>(
                    #[trigger] split.turns[i],
                ) by {
                    if i < before.turns.len() {
                        assert(split.turns[i] == before.turns[i]);
                    }
                }
            },
            (Mark::End, Some(turn)) => {
                assert(split.all_turns().drop_last() =~= before.turns);
                assert(before.all_turns().drop_last() =~= before.turns);
                assert(flat(split.all_turns()) =~= flat(before.all_turns()).push(last));
                let done = turn.push(last);
                assert forall|k: int| 0 <= k < done.len() - 1 implies T::mark_of_view(
                    #[trigger] done[k],
                ) != Mark::End by {
                    assert(done[k] == turn[k]);
                }
                assert forall|k: int| 0 < k < done.len() implies T::mark_of_view(
                    #[trigger] done[k],
                ) != Mark::Start by {
                    if k < turn.len() {
                        assert(done[k] == turn[k]);
                    }
                }
                assert(done[0] == turn[0]);
                assert forall|i: int| 0 <= i < split.turns.len() implies one_turn::<T>(
                    #[trigger] split.turns[i],
                ) by {
                    if i < before.turns.len() {
                        assert(split.turns[i] == before.turns[i]);
                    }
                }
            },
            (Mark::Inside, Some(turn)) => {
                assert(split.all_turns().drop_last() =~= before.turns);
                assert(before.all_turns().drop_last() =~= before.turns);
                assert(flat(split.all_turns()) =~= flat(before.all_turns()).push(last));
                let longer = turn.push(last);
                assert forall|k: int| 0 <= k < longer.len() implies T::mark_of_view(
                    #[trigger] longer[k],
                ) != Mark::End by {
                    if k < turn.len() {
                        assert(longer[k] == turn[k]);
                    }
                }
                assert forall|k: int| 0 < k < longer.len() implies T::mark_of_view(
                    #[trigger] longer[k],
                ) != Mark::Start by {
                    if k < turn.len() {
                        assert(longer[k] == turn[k]);
                    }
                }
                assert(longer[0] == turn[0]);
            },
            (_, None) => {},
        }
    }
}

/// In order of recording, what belongs to no turn comes first, on a page of its
/// own, and then the turns, each on a page of its own: joined, their pages are
/// what belongs to turns, in the order in which it was recorded.
pub proof fn law_turns_are_streamed_in_order<T: Marked>(items: Seq<T::V>)
    ensures
        ({
            let (latest, pages) = streamed::<T>(items, ReplayOrder::Chronological);
            let first = lead::<T>(items);
            &&& latest.len() == 0
            &&& pages.len() >= first
            &&& pages.take(first).flatten() == outside::<T>(items)
            &&& pages.skip(first).flatten() == inside::<T>(items)
            &&& forall|i: int| first <= i < pages.len() ==> one_turn::<T>(#[trigger] pages[i])
        }),
{
    let split = split_turns::<T>(items);
    let turns = split.all_turns();
    lemma_split::<T>(items);
    let pages = streamed::<T>(items, ReplayOrder::Chronological).1;
    let first = lead::<T>(items);
    assert(pages.skip(first) =~= turns);
    lemma_flat_is_flatten(turns);
    if first == 1 {
        assert(pages.take(1) =~= seq![split.ambient]);
        seq![split.ambient].lemma_flatten_one_element();
    } else {
        assert(pages.take(0) =~= Seq::empty());
        assert(outside::<T>(items) =~= Seq::empty());
        assert(pages.take(0).flatten() =~= Seq::empty());
    }
    assert forall|i: int| first <= i < pages.len() implies one_turn::<T>(#[trigger] pages[i]) by {
        assert(pages[i] == turns[i - first]);
        if i - first < split.turns.len() {
            assert(turns[i - first] == split.turns[i - first]);
        }
    }
}

/// With the newest turn first, the pages are those of the other order: the last
/// turn at once, the earlier ones from the newest to the oldest, and what belongs
/// to no turn at the end. Without any turn, both orders are the same.
pub proof fn law_newest_turn_is_streamed_first<T: Marked>(items: Seq<T::V>)
    ensures
        ({
            let (_, recorded) = streamed::<T>(items, ReplayOrder::Chronological);
            let (latest, pages) = streamed::<T>(items, ReplayOrder::NewestTurnFirst);
            let first = lead::<T>(items);
            let turns = recorded.skip(first);
            &&& turns.len() == 0 ==> latest.len() == 0 && pages == recorded
            &&& turns.len() > 0 ==> latest == turns.last() && pages.len() == recorded.len() - 1
            &&& turns.len() > 0 ==> forall|i: int|
                0 <= i < turns.len() - 1 ==> #[trigger] pages[i] == turns[turns.len() - 2 - i]
            &&& turns.len() > 0 && first == 1 ==> pages.last() == recorded[0]
        }),
{
    let split = split_turns::<T>(items);
    let turns = split.all_turns();
    lemma_split::<T>(items);
    let recorded = streamed::<T>(items, ReplayOrder::Chronological).1;
    let first = lead::<T>(items);
    assert(recorded.skip(first) =~= turns);
    let (latest, pages) = streamed::<T>(items, ReplayOrder::NewestTurnFirst);
    if turns.len() == 0 {
        assert(pages =~= recorded);
    }
}

/// A history in one piece: in order of recording it is as it was recorded; with
/// the newest turn first, what belongs to no turn is followed by the turns from
/// the newest to the oldest, each in the order of its own frames.
pub proof fn law_history_is_ordered<T: Marked>(items: Seq<T::V>)
    ensures
        in_order::<T>(items, ReplayOrder::Chronological) == items,
        in_order::<T>(items, ReplayOrder::NewestTurnFirst) == outside::<T>(items) + streamed::<T>(
            items,
            ReplayOrder::Chronological,
        ).1.skip(lead::<T>(items)).reverse().flatten(),
{
    let split = split_turns::<T>(items);
    let turns = split.all_turns();
    lemma_split::<T>(items);
    let recorded = streamed::<T>(items, ReplayOrder::Chronological).1;
    assert(recorded.skip(lead::<T>(items)) =~= turns);
    lemma_flat_is_flatten(turns.reverse());
}

/// A turn starts with `amux/turn_started` and ends with `amux/turn_complete`, and
/// nothing else marks one.
pub proof fn law_turns_are_marked_by_their_frames(method: Option<Seq<char>>)
    ensures
        mark_of(method) == Mark::Start <==> method == Some("amux/turn_started"@),
        mark_of(method) == Mark::End <==> method == Some("amux/turn_complete"@),
{
    crate::protocol::names::lemma_names();
}

} // verus!
