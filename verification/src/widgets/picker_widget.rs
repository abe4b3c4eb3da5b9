//! The selection list: an ordered list of entries with one of them selected,
//! moved by Up and Down with wraparound.

use vstd::prelude::*;
use vstd::arithmetic::div_mod::{
    lemma_add_mod_noop,
    lemma_mod_add_multiples_vanish,
    lemma_mod_pos_bound,
    lemma_mod_self_0,
    lemma_small_mod,
};
use crate::error::Failure;
use crate::event::{Event, KeyCode};
use crate::draw::{draw_views, Draw, DrawView};
use crate::layout::{band, inset, Rect};
use crate::style::{Borders, Style};
use crate::widgets::picker_item_widget::{
    callback_view,
    CallbackFunction,
    EventHandler,
    PickerItem,
    PickerItemView,
};

verus! {

/// A titled list of entries and the position of the selected one.
#[derive(Debug)]
pub struct Picker {
    pub(crate) items: Vec<PickerItem>,
    pub(crate) index: usize,
    pub(crate) title: String,
    pub focussed: bool,
}

/// A selection list as a plain value.
pub struct PickerView {
    pub items: Seq<PickerItemView>,
    pub index: nat,
    pub title: Seq<char>,
    pub focussed: bool,
}

/// The entries of a list as plain values, in order.
pub open spec fn item_views(items: Seq<PickerItem>) -> Seq<PickerItemView> {
    Seq::new(items.len(), |i: int| items[i]@)
}

impl View for Picker {
    type V = PickerView;

    closed spec fn view(&self) -> PickerView {
        PickerView {
            items: item_views(self.items@),
            index: self.index as nat,
            title: self.title@,
            focussed: self.focussed,
        }
    }
}

/// One step of navigation.
#[derive(Clone, Copy, PartialEq, Eq, Structural, Debug)]
pub enum Move {
    Increment,
    Decrement,
}

impl PickerView {
    /// The invariant of a list that has entries: the index names one of
    /// them, and that entry is the only one flagged as selected.
    pub open spec fn single_selected(self) -> bool {
        self.items.len() > 0 ==> {
            &&& self.index < self.items.len()
            &&& forall|i: int|
                0 <= i < self.items.len() ==> ((#[trigger] self.items[i]).selected <==> i
                    == self.index)
        }
    }

    /// Whether every entry is drawn as its flag says: the selected one
    /// bordered and highlighted, the others without border.
    pub open spec fn shown_as_flagged(self) -> bool {
        forall|i: int| 0 <= i < self.items.len() ==> (#[trigger] self.items[i]).shown_as_flagged()
    }

    /// The list with the index set to `index` and every entry marked anew:
    /// selected, bordered and highlighted at `index`, plain elsewhere.
    pub open spec fn selected_to(self, index: nat) -> PickerView {
        PickerView {
            index,
            items: Seq::new(self.items.len(), |i: int| self.items[i].marked(i == index)),
            ..self
        }
    }

    /// The index after one step down: the next position, and the first after
    /// the last.
    pub open spec fn next_index(self) -> nat
        recommends
            self.items.len() > 0,
    {
        ((self.index as int + 1) % (self.items.len() as int)) as nat
    }

    /// The index after one step up: the position before, and the last before
    /// the first.
    pub open spec fn previous_index(self) -> nat
        recommends
            self.items.len() > 0,
    {
        ((self.index as int + self.items.len() - 1) % (self.items.len() as int)) as nat
    }

    /// The list after one step down. An empty list stays as it is.
    pub open spec fn incremented(self) -> PickerView {
        if self.items.len() == 0 {
            self
        } else {
            self.selected_to(self.next_index())
        }
    }

    /// The list after one step up. An empty list stays as it is.
    pub open spec fn decremented(self) -> PickerView {
        if self.items.len() == 0 {
            self
        } else {
            self.selected_to(self.previous_index())
        }
    }

    /// The list after one step of navigation.
    pub open spec fn moved(self, step: Move) -> PickerView {
        match step {
            Move::Increment => self.incremented(),
            Move::Decrement => self.decremented(),
        }
    }

    /// The list after the steps of `steps`, first to last.
    pub open spec fn navigated(self, steps: Seq<Move>) -> PickerView
        decreases steps.len(),
    {
        if steps.len() == 0 {
            self
        } else {
            self.navigated(steps.drop_last()).moved(steps.last())
        }
    }

    /// The list after `count` steps down.
    pub open spec fn incremented_times(self, count: nat) -> PickerView
        decreases count,
    {
        if count == 0 {
            self
        } else {
            self.incremented_times((count - 1) as nat).incremented()
        }
    }

    /// The list after `event`: one step up for a press of Up, one step down
    /// for a press of Down, unchanged for everything else.
    pub open spec fn handled(self, event: Event) -> PickerView {
        match event.pressed() {
            Some(KeyCode::Up) => self.decremented(),
            Some(KeyCode::Down) => self.incremented(),
            _ => self,
        }
    }

    /// The list after `event` was delivered to its entry at `position`. A
    /// position past the end names no entry, and nothing changes.
    pub open spec fn entry_handled(
        self,
        position: nat,
        event: Event,
        parent_focussed: Option<bool>,
    ) -> PickerView {
        if position < self.items.len() {
            PickerView {
                items: self.items.update(
                    position as int,
                    self.items[position as int].handled(event, parent_focussed),
                ),
                ..self
            }
        } else {
            self
        }
    }

    /// The action that `event` fires when delivered to the entry at
    /// `position`.
    pub open spec fn entry_fired(
        self,
        position: nat,
        event: Event,
        parent_focussed: Option<bool>,
    ) -> Option<Seq<char>> {
        if position < self.items.len() {
            self.items[position as int].fired(event, parent_focussed)
        } else {
            None
        }
    }

    /// What the list paints into `area`: a titled border round the area,
    /// and then each entry in its band of the border's inside, in list
    /// order.
    pub open spec fn drawn(self, area: Rect) -> Seq<DrawView> {
        seq![
            DrawView::Block {
                area,
                borders: Borders::All,
                style: Style::plain(),
                title: self.title,
            },
        ] + Seq::new(
            self.items.len(),
            |i: int| self.items[i].drawn(band(inset(area), self.items.len(), i as nat)),
        )
    }
}

/// Stepping on from a reduced index: `((i mod n) + k) mod n = (i + k) mod n`.
proof fn lemma_step_mod(i: int, k: int, n: int)
    requires
        0 <= i,
        0 <= k < n,
    ensures
        ((i % n) + k) % n == (i + k) % n,
{
    lemma_add_mod_noop(i, k, n);
    lemma_small_mod(k as nat, n as nat);
}

/// One step of navigation on a list that has entries leaves the index on an
/// entry, that entry as the only one selected, every entry drawn as its flag
/// says, and the number of entries as it was.
pub proof fn lemma_move_selects_one(list: PickerView, step: Move)
    requires
        list.items.len() > 0,
    ensures
        list.moved(step).items.len() == list.items.len(),
        list.moved(step).index < list.items.len(),
        list.moved(step).single_selected(),
        list.moved(step).shown_as_flagged(),
{
    let len = list.items.len() as int;
    lemma_mod_pos_bound(list.index as int + 1, len);
    lemma_mod_pos_bound(list.index as int + len - 1, len);
}

/// After any sequence of steps up and down, a list that has entries and
/// started with exactly its indexed entry selected still has its index on
/// an entry, and that entry is the only one selected. After at least one
/// step the same holds whatever the list was before.
pub proof fn lemma_navigation_keeps_single_selection(list: PickerView, steps: Seq<Move>)
    requires
        list.items.len() > 0,
        list.single_selected() || steps.len() > 0,
    ensures
        list.navigated(steps).items.len() == list.items.len(),
        list.navigated(steps).index < list.items.len(),
        list.navigated(steps).single_selected(),
    decreases steps.len(),
{
    if steps.len() > 0 {
        let before = list.navigated(steps.drop_last());
        if steps.len() > 1 {
            lemma_navigation_keeps_single_selection(list, steps.drop_last());
        }
        lemma_move_selects_one(before, steps.last());
    }
}

/// Wraparound: one step down from the last entry selects the first, and one
/// step up from the first entry selects the last.
pub proof fn lemma_wraparound(list: PickerView)
    requires
        list.items.len() > 0,
    ensures
        list.index == list.items.len() - 1 ==> list.incremented().index == 0,
        list.index == 0 ==> list.decremented().index == list.items.len() - 1,
        list.index < list.items.len() - 1 ==> list.incremented().index == list.index + 1,
        0 < list.index < list.items.len() ==> list.decremented().index == list.index - 1,
{
    let len = list.items.len() as int;
    let at = list.index as int;
    if at == len - 1 {
        lemma_mod_self_0(len);
    }
    if at < len - 1 {
        lemma_small_mod((at + 1) as nat, len as nat);
    }
    if at == 0 {
        lemma_small_mod((len - 1) as nat, len as nat);
    }
    if 0 < at < len {
        lemma_mod_add_multiples_vanish(at - 1, len);
        lemma_small_mod((at - 1) as nat, len as nat);
    }
}

/// After `count` steps down the index has moved on by `count` positions,
/// counted round the list.
pub proof fn lemma_incremented_times(list: PickerView, count: nat)
    requires
        list.items.len() > 0,
        list.index < list.items.len(),
    ensures
        list.incremented_times(count).items.len() == list.items.len(),
        list.incremented_times(count).index == (list.index + count) as int % (list.items.len() as int),
    decreases count,
{
    let len = list.items.len() as int;
    if count == 0 {
        lemma_small_mod(list.index, len as nat);
    } else {
        lemma_incremented_times(list, (count - 1) as nat);
        if len > 1 {
            lemma_step_mod(list.index + count - 1, 1, len);
        } else {
        }
    }
}

/// Round trip: as many steps down as the list has entries bring the index
/// back to where it started, on a list whose index names an entry.
pub proof fn lemma_round_trip(list: PickerView)
    requires
        list.items.len() > 0,
        list.index < list.items.len(),
    ensures
        list.incremented_times(list.items.len()).index == list.index,
{
    let len = list.items.len() as int;
    lemma_incremented_times(list, list.items.len());
    lemma_mod_add_multiples_vanish(list.index as int, len);
    lemma_small_mod(list.index, len as nat);
}

/// A step up undoes a step down, and a step down undoes a step up, as far as
/// the index goes, on a list whose index names an entry.
pub proof fn lemma_steps_cancel(list: PickerView)
    requires
        list.items.len() > 0,
        list.index < list.items.len(),
    ensures
        list.incremented().decremented().index == list.index,
        list.decremented().incremented().index == list.index,
{
    lemma_wraparound(list);
    lemma_move_selects_one(list, Move::Increment);
    lemma_move_selects_one(list, Move::Decrement);
    lemma_wraparound(list.incremented());
    lemma_wraparound(list.decremented());
}

impl Picker {
    /// A list of `items` under `title`, with the selection index at `index`,
    /// or at 0 where none is given. The entries are taken as they are:
    /// `update_selection` brings their flags in line with the index.
    pub fn new(items: Vec<PickerItem>, title: String, index: Option<usize>, focussed: bool) -> (picker:
        Picker)
        ensures
            picker@ == (PickerView {
                items: item_views(items@),
                index: match index {
                    Some(i) => i as nat,
                    None => 0,
                },
                title: title@,
                focussed,
            }),
    {
        let index = match index {
            Some(i) => i,
            None => 0,
        };
        Picker { items, index, title, focussed }
    }

    /// The title shown in the list's border.
    pub fn get_title(&self) -> (title: Result<&str, Failure>)
        ensures
            title is Ok,
            title->Ok_0@ == self@.title,
    {
        Ok(self.title.as_str())
    }

    /// Whether the list has the focus.
    pub fn is_focussed(&self) -> (focussed: bool)
        ensures
            focussed == self@.focussed,
    {
        self.focussed
    }

    /// Gives the list the focus or takes it away. Navigation never does.
    pub fn set_focus(&mut self, focussed: bool)
        ensures
            final(self)@ == (PickerView { focussed, ..old(self)@ }),
    {
        self.focussed = focussed;
    }

    /// The position of the selected entry.
    pub fn index(&self) -> (index: usize)
        ensures
            index == self@.index,
    {
        self.index
    }

    /// The number of entries.
    pub fn len(&self) -> (len: usize)
        ensures
            len == self@.items.len(),
    {
        self.items.len()
    }

    /// The entry at `position`, if there is one.
    pub fn item(&self, position: usize) -> (item: Option<&PickerItem>)
        ensures
            position < self@.items.len() ==> item is Some && item->Some_0@
                == self@.items[position as int],
            position >= self@.items.len() ==> item is None,
    {
        if position < self.items.len() {
            Some(&self.items[position])
        } else {
            None
        }
    }

    /// Moves the selection one entry down, from the last entry to the first,
    /// and recomputes every entry's flag and visual state. Nothing happens on
    /// an empty list.
    pub fn increment_index(&mut self) -> (done: Result<(), Failure>)
        ensures
            done is Ok,
            final(self)@ == old(self)@.incremented(),
            old(self)@.items.len() > 0 ==> final(self)@.single_selected(),
            final(self)@.items.len() > 0 ==> final(self)@.shown_as_flagged(),
    {
        let len = self.items.len();
        if len == 0 {
            return Ok(());
        }
        let at = self.index % len;
        proof {
            if len > 1 {
                lemma_step_mod(self.index as int, 1, len as int);
                if at == len - 1 {
                    lemma_mod_self_0(len as int);
                } else {
                    lemma_small_mod((at + 1) as nat, len as nat);
                }
            }
        }
        self.index = if at == len - 1 {
            0
        } else {
            at + 1
        };
        self.update_selection()
    }

    /// Moves the selection one entry up, from the first entry to the last,
    /// and recomputes every entry's flag and visual state. Nothing happens on
    /// an empty list.
    pub fn decrement_index(&mut self) -> (done: Result<(), Failure>)
        ensures
            done is Ok,
            final(self)@ == old(self)@.decremented(),
            old(self)@.items.len() > 0 ==> final(self)@.single_selected(),
            final(self)@.items.len() > 0 ==> final(self)@.shown_as_flagged(),
    {
        let len = self.items.len();
        if len == 0 {
            return Ok(());
        }
        let at = self.index % len;
        proof {
            lemma_step_mod(self.index as int, len - 1, len as int);
            if at == 0 {
                lemma_small_mod((len - 1) as nat, len as nat);
            } else {
                lemma_add_mod_noop(at - 1, len as int, len as int);
                lemma_mod_self_0(len as int);
                lemma_small_mod((at - 1) as nat, len as nat);
            }
        }
        self.index = if at == 0 {
            len - 1
        } else {
            at - 1
        };
        self.update_selection()
    }

    /// Recomputes every entry's flag and visual state from the index: the
    /// entry at the index is selected, bordered and highlighted, every other
    /// entry plain.
    pub fn update_selection(&mut self) -> (done: Result<(), Failure>)
        ensures
            done is Ok,
            final(self)@ == old(self)@.selected_to(old(self)@.index),
            old(self)@.index < old(self)@.items.len() ==> final(self)@.single_selected(),
            final(self)@.shown_as_flagged(),
    {
        let len = self.items.len();
        let mut i: usize = 0;
        while i < len
            invariant
                i <= len,
                self.items@.len() == len,
                len == old(self).items@.len(),
                self.index == old(self).index,
                self.title == old(self).title,
                self.focussed == old(self).focussed,
                forall|j: int|
                    0 <= j < i ==> (#[trigger] self.items@[j])@ == old(self).items@[j]@.marked(
                        j == self.index,
                    ),
                forall|j: int| i <= j < len ==> #[trigger] self.items@[j] == old(self).items@[j],
            decreases len - i,
        {
            let selected = i == self.index;
            self.items[i].mark(selected);
            i += 1;
        }
        assert(self@.items =~= old(self)@.selected_to(old(self)@.index).items);
        Ok(())
    }

    /// What the list paints into `area`: its border with its title, and its
    /// entries in equal bands inside the border.
    pub fn render_ref(&self, area: Rect) -> (draws: Vec<Draw>)
        ensures
            draw_views(draws@) == self@.drawn(area),
    {
        let mut draws: Vec<Draw> = Vec::new();
        draws.push(
            Draw::Block {
                area,
                borders: Borders::All,
                style: Style::new(),
                title: self.title.clone(),
            },
        );
        let len = self.items.len();
        if len == 0 {
            assert(draw_views(draws@) =~= self@.drawn(area));
            return draws;
        }
        let items_area = area.inner();
        let mut i: usize = 0;
        while i < len
            invariant
                i <= len,
                len == self.items@.len(),
                len > 0,
                items_area == inset(area),
                draws@.len() == i + 1,
                forall|j: int| 0 <= j <= i ==> (#[trigger] draws@[j])@ == self@.drawn(area)[j],
            decreases len - i,
        {
            let item_area = items_area.band(len, i);
            draws.push(self.items[i].render_ref(item_area));
            i += 1;
        }
        assert(draw_views(draws@) =~= self@.drawn(area));
        draws
    }

    /// Delivers `event` to the entry at `position`, and returns the action
    /// that the entry fires. `parent_focussed` is the focus flag of the list
    /// that the entry looks up to, `None` where that list is gone.
    pub fn deliver(&mut self, position: usize, event: &Event, parent_focussed: Option<bool>) -> (fired:
        CallbackFunction)
        ensures
            final(self)@ == old(self)@.entry_handled(position as nat, *event, parent_focussed),
            callback_view(fired) == old(self)@.entry_fired(
                position as nat,
                *event,
                parent_focussed,
            ),
    {
        if position < self.items.len() {
            let fired = self.items[position].handle_event(event, parent_focussed);
            assert(self@.items =~= old(self)@.entry_handled(
                position as nat,
                *event,
                parent_focussed,
            ).items);
            fired
        } else {
            None
        }
    }
}

impl EventHandler for Picker {
    open spec fn after_event(
        before: PickerView,
        event: Event,
        parent_focussed: Option<bool>,
    ) -> PickerView {
        before.handled(event)
    }

    open spec fn firing(before: PickerView, event: Event, parent_focussed: Option<bool>) -> Option<
        Seq<char>,
    > {
        None
    }

    /// Delivers `event` to the list: Up moves the selection up, Down moves it
    /// down, every other event is ignored. A list looks up to no other list
    /// and fires nothing.
    fn handle_event(&mut self, event: &Event, parent_focussed: Option<bool>) -> (fired:
        CallbackFunction) {
        match event.pressed_key() {
            Some(KeyCode::Up) => {
                let _ = self.decrement_index();
            },
            Some(KeyCode::Down) => {
                let _ = self.increment_index();
            },
            _ => {},
        }
        None
    }
}

} // verus!
