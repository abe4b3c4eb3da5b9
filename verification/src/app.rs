//! The dispatcher: owner of the visible widgets and of the registry of event
//! receivers.
//!
//! One tick delivers one input event to every receiver that was registered
//! when the tick began and is still live when its turn comes. A receiver that
//! fires an action pauses the tick: the caller carries the action out and
//! hands back what it read, and the tick goes on from where it stopped.

use vstd::prelude::*;
use crate::error::{Failure, FailureView};
use crate::event::Event;
use crate::draw::{append_draws, draw_views, Draw, DrawView};
use crate::handle::{Handle, Receiver};
use crate::layout::{band, Rect};
use crate::style::{Borders, Style};
use crate::listing::{
    entry_views,
    file_items,
    sheet_items,
    sheet_picker_items,
    strings_view,
    xlsx_entries,
    xlsx_picker_items,
    Entry,
    EntryView,
};
use crate::widgets::picker_item_widget::{callback_view, Callback, CallbackFunction, EventHandler};
use crate::widgets::picker_widget::{
    item_views,
    lemma_move_selects_one,
    Move,
    Picker,
    PickerView,
};

verus! {

/// Where a paused tick goes on: the event being delivered, the position in
/// the registry of the next receiver, and the position at which the tick
/// ends.
#[derive(Clone, Copy, PartialEq, Eq, Structural, Debug)]
pub struct Pending {
    pub event: Event,
    pub next: usize,
    pub end: usize,
}

/// What the caller of a tick does next.
#[derive(Debug, PartialEq, Eq)]
pub enum Step {
    /// The event has been delivered to every receiver.
    Done,
    /// An entry fired this action: read what its path names, and hand the
    /// result to `complete`.
    Read(Callback),
}

/// A step with its path as a sequence of characters.
pub enum StepView {
    Done,
    Read(Seq<char>),
}

impl View for Step {
    type V = StepView;

    open spec fn view(&self) -> StepView {
        match self {
            Step::Done => StepView::Done,
            Step::Read(action) => StepView::Read(action@),
        }
    }
}

/// The dispatcher and render root.
#[derive(Debug)]
pub struct App {
    exit: bool,
    event_queue: Vec<Receiver>,
    widgets: Vec<Picker>,
    generation: u64,
    pending: Option<Pending>,
}

/// The dispatcher as a plain value.
pub struct AppView {
    pub exit: bool,
    pub event_queue: Seq<Receiver>,
    pub widgets: Seq<PickerView>,
    pub generation: u64,
    pub pending: Option<Pending>,
}

/// Lists as plain values, in order.
pub open spec fn picker_views(widgets: Seq<Picker>) -> Seq<PickerView> {
    Seq::new(widgets.len(), |i: int| widgets[i]@)
}

/// What a read handed back, with its texts as sequences of characters.
pub open spec fn outcome_view(outcome: Result<Vec<String>, Failure>) -> Result<
    Seq<Seq<char>>,
    FailureView,
> {
    match outcome {
        Ok(names) => Ok(strings_view(names@)),
        Err(failure) => Err(failure@),
    }
}

/// The result of `complete` as a plain value.
pub open spec fn step_view(step: Result<Step, Failure>) -> Result<StepView, FailureView> {
    match step {
        Ok(s) => Ok(s@),
        Err(failure) => Err(failure@),
    }
}

impl View for App {
    type V = AppView;

    closed spec fn view(&self) -> AppView {
        AppView {
            exit: self.exit,
            event_queue: self.event_queue@,
            widgets: picker_views(self.widgets@),
            generation: self.generation,
            pending: self.pending,
        }
    }
}

impl AppView {
    /// Whether `handle` still names a widget: it is of the current
    /// generation and its position is filled. The widget set is the only
    /// owner of its widgets, so a handle that does not resolve names a widget
    /// without an owner.
    pub open spec fn resolves(self, handle: Handle) -> bool {
        handle.generation == self.generation && handle.widget < self.widgets.len()
    }

    /// The focus flag of the list that `handle` names, `None` where the
    /// handle does not resolve.
    pub open spec fn focus_of(self, handle: Handle) -> Option<bool> {
        if self.resolves(handle) {
            Some(self.widgets[handle.widget as int].focussed)
        } else {
            None
        }
    }

    /// Whether `receiver` still has an owner: its list is in the widget set
    /// and, where it names an entry, the list has an entry at that position.
    pub open spec fn live(self, receiver: Receiver) -> bool {
        &&& self.resolves(receiver.target)
        &&& match receiver.item {
            Some(position) => position < self.widgets[receiver.target.widget as int].items.len(),
            None => true,
        }
    }

    /// The test of `live` as a function value.
    pub open spec fn live_test(self) -> spec_fn(Receiver) -> bool {
        |receiver: Receiver| self.live(receiver)
    }

    /// The state after `event` was delivered to `receiver`. A receiver that
    /// is not live gets nothing. A list moves its selection. An entry looks
    /// up its parent's focus and is activated if the event calls for it.
    pub open spec fn delivered(self, receiver: Receiver, event: Event) -> AppView {
        if !self.live(receiver) {
            self
        } else {
            let at = receiver.target.widget as int;
            let list = self.widgets[at];
            match receiver.item {
                None => AppView { widgets: self.widgets.update(at, list.handled(event)), ..self },
                Some(position) => AppView {
                    widgets: self.widgets.update(
                        at,
                        list.entry_handled(
                            position as nat,
                            event,
                            self.focus_of(list.items[position as int].parent),
                        ),
                    ),
                    ..self
                },
            }
        }
    }

    /// The action that `receiver` fires when `event` is delivered to it.
    pub open spec fn fired(self, receiver: Receiver, event: Event) -> Option<Seq<char>> {
        if !self.live(receiver) {
            None
        } else {
            let list = self.widgets[receiver.target.widget as int];
            match receiver.item {
                None => None,
                Some(position) => list.entry_fired(
                    position as nat,
                    event,
                    self.focus_of(list.items[position as int].parent),
                ),
            }
        }
    }

    /// The state with every receiver that is not live taken out of the
    /// registry; the others keep their order.
    pub open spec fn pruned(self) -> AppView {
        AppView { event_queue: self.event_queue.filter(self.live_test()), ..self }
    }

    /// The state and the step after `event` was delivered to the receivers
    /// at the positions from `next` up to `end` of the registry, one after
    /// the other. Delivery stops behind the first receiver that fires an
    /// action, with the place noted in `pending`. When no receiver is left,
    /// the registry is pruned and nothing is pending.
    pub open spec fn dispatched(self, event: Event, next: usize, end: usize) -> (AppView, StepView)
        decreases end - next,
    {
        if next >= end || next >= self.event_queue.len() {
            (AppView { pending: None, ..self.pruned() }, StepView::Done)
        } else {
            let receiver = self.event_queue[next as int];
            let after = self.delivered(receiver, event);
            match self.fired(receiver, event) {
                Some(path) => (
                    AppView {
                        pending: Some(Pending { event, next: (next + 1) as usize, end }),
                        ..after
                    },
                    StepView::Read(path),
                ),
                None => after.dispatched(event, (next + 1) as usize, end),
            }
        }
    }

    /// The state and the step after one tick on `event`. The quit key sets
    /// the exit flag and reaches no receiver. Every other event is delivered
    /// to the receivers that are registered when the tick begins.
    pub open spec fn propagated(self, event: Event) -> (AppView, StepView) {
        if event.quits() {
            (AppView { exit: true, pending: None, ..self }, StepView::Done)
        } else {
            self.dispatched(event, 0, self.event_queue.len() as usize)
        }
    }

    /// What the first `count` widgets paint when `area` is divided among
    /// all of them: each one into its band, in the order of the widget set.
    pub open spec fn drawn_upto(self, area: Rect, count: nat) -> Seq<DrawView>
        recommends
            count <= self.widgets.len(),
        decreases count,
    {
        if count == 0 {
            Seq::empty()
        } else {
            self.drawn_upto(area, (count - 1) as nat) + self.widgets[count - 1].drawn(
                band(area, self.widgets.len(), (count - 1) as nat),
            )
        }
    }

    /// What the dispatcher paints into `area`: an empty bordered box where
    /// there is no widget, else every widget in its band.
    pub open spec fn drawn(self, area: Rect) -> Seq<DrawView> {
        if self.widgets.len() == 0 {
            seq![
                DrawView::Block {
                    area,
                    borders: Borders::All,
                    style: Style::plain(),
                    title: Seq::empty(),
                },
            ]
        } else {
            self.drawn_upto(area, self.widgets.len())
        }
    }

    /// Whether every list of the widget set that has entries has its index
    /// on one of them, and that entry as the only one selected.
    pub open spec fn single_selected(self) -> bool {
        forall|i: int| 0 <= i < self.widgets.len() ==> (#[trigger] self.widgets[i]).single_selected()
    }

    /// The state with the focus flag of the list that `handle` names set to
    /// `focussed`. A handle that does not resolve changes nothing.
    pub open spec fn focus_set(self, handle: Handle, focussed: bool) -> AppView {
        if self.resolves(handle) {
            AppView {
                widgets: self.widgets.update(
                    handle.widget as int,
                    PickerView { focussed, ..self.widgets[handle.widget as int] },
                ),
                ..self
            }
        } else {
            self
        }
    }

    /// The dispatcher before anything was added to it.
    pub open spec fn empty() -> AppView {
        AppView {
            exit: false,
            event_queue: Seq::empty(),
            widgets: Seq::empty(),
            generation: 0,
            pending: None,
        }
    }

    /// The handle that the next list pushed onto the widget set will have.
    pub open spec fn next_handle(self) -> Handle {
        Handle { generation: self.generation, widget: self.widgets.len() as usize }
    }

    /// The handle of the one list of the next generation.
    pub open spec fn successor_handle(self) -> Handle {
        Handle { generation: (self.generation + 1) as u64, widget: 0 }
    }

    /// The registry with the entries of the list at `handle` and then the
    /// list itself added behind what is there.
    pub open spec fn with_receivers(self, handle: Handle, entries: nat) -> Seq<Receiver> {
        self.event_queue + Seq::new(
            entries,
            |i: int| Receiver { target: handle, item: Some(i as usize) },
        ).push(Receiver { target: handle, item: None })
    }

    /// The file list for the entries of a directory: titled `test`,
    /// focussed, one entry per spreadsheet, the first one selected.
    pub open spec fn file_list(self, entries: Seq<EntryView>) -> PickerView {
        PickerView {
            items: file_items(xlsx_entries(entries), self.next_handle()),
            index: 0,
            title: "test"@,
            focussed: true,
        }
    }

    /// The state after the file list for `entries` was added to the widget
    /// set and registered, its entries first and then the list.
    pub open spec fn initialised(self, entries: Seq<EntryView>) -> AppView {
        AppView {
            widgets: self.widgets.push(self.file_list(entries)),
            event_queue: self.with_receivers(self.next_handle(), xlsx_entries(entries).len()),
            ..self
        }
    }

    /// The sheet list for the names of a workbook's sheets: titled
    /// `Pick worksheet`, focussed, one entry per sheet, the first one
    /// selected, every entry marked by the list.
    pub open spec fn sheet_list(self, names: Seq<Seq<char>>) -> PickerView {
        PickerView {
            items: sheet_items(names, self.successor_handle()),
            index: 0,
            title: "Pick worksheet"@,
            focussed: true,
        }.selected_to(0)
    }

    /// The state after the sheet list for `names` replaced the widget set:
    /// the set holds the new list and nothing else, a new generation has
    /// begun, and the new entries and the new list are registered behind the
    /// receivers that were there.
    pub open spec fn reconfigured(self, names: Seq<Seq<char>>) -> AppView
        recommends
            self.generation < u64::MAX,
    {
        AppView {
            widgets: seq![self.sheet_list(names)],
            generation: (self.generation + 1) as u64,
            event_queue: self.with_receivers(self.successor_handle(), names.len()),
            ..self
        }
    }

    /// The state and the result after the caller handed back what it read
    /// for the action that paused a tick. With no tick paused nothing
    /// happens. A failed read ends the tick and leaves widgets and registry
    /// as they were. So does a successful read when no generation is left. In
    /// every other case the sheet list replaces the widget set, and the tick
    /// goes on behind the receiver that fired.
    pub open spec fn completed(self, outcome: Result<Seq<Seq<char>>, FailureView>) -> (
        AppView,
        Result<StepView, FailureView>,
    ) {
        match self.pending {
            None => (self, Ok(StepView::Done)),
            Some(pending) => match outcome {
                Err(failure) => (AppView { pending: None, ..self }, Err(failure)),
                Ok(names) => if self.generation == u64::MAX {
                    (AppView { pending: None, ..self }, Err(FailureView::Exhausted))
                } else {
                    let (state, step) = self.reconfigured(names).dispatched(
                        pending.event,
                        pending.next,
                        pending.end,
                    );
                    (state, Ok(step))
                },
            },
        }
    }
}

/// A receiver without an owner is left out of dispatch: delivering an event
/// to it changes nothing and fires nothing.
pub proof fn lemma_dead_receiver_gets_nothing(app: AppView, receiver: Receiver, event: Event)
    requires
        !app.live(receiver),
    ensures
        app.delivered(receiver, event) == app,
        app.fired(receiver, event) is None,
{
}

/// Pruning keeps exactly the live receivers: every receiver left in the
/// registry is live, and every live receiver that was registered is still
/// there.
pub proof fn lemma_pruned_keeps_live_only(app: AppView)
    ensures
        forall|i: int|
            0 <= i < app.pruned().event_queue.len() ==> app.pruned().live(
                #[trigger] app.pruned().event_queue[i],
            ),
        forall|i: int|
            0 <= i < app.event_queue.len() && app.live(app.event_queue[i])
                ==> app.pruned().event_queue.contains(#[trigger] app.event_queue[i]),
        app.pruned().widgets == app.widgets,
{
    let test = app.live_test();
    assert forall|i: int| 0 <= i < app.pruned().event_queue.len() implies app.pruned().live(
        #[trigger] app.pruned().event_queue[i],
    ) by {
        app.event_queue.lemma_filter_pred(test, i);
    }
    assert forall|i: int|
        0 <= i < app.event_queue.len() && app.live(
            app.event_queue[i],
        ) implies app.pruned().event_queue.contains(#[trigger] app.event_queue[i]) by {
        app.event_queue.lemma_filter_contains(test, i);
    }
}

/// When a tick has run to its end, no receiver without an owner is left in
/// the registry.
pub proof fn lemma_tick_removes_dead(app: AppView, event: Event, next: usize, end: usize)
    requires
        app.dispatched(event, next, end).1 == StepView::Done,
    ensures
        forall|i: int|
            0 <= i < app.dispatched(event, next, end).0.event_queue.len() ==> app.dispatched(
                event,
                next,
                end,
            ).0.live(#[trigger] app.dispatched(event, next, end).0.event_queue[i]),
    decreases end - next,
{
    if next >= end || next >= app.event_queue.len() {
        lemma_pruned_keeps_live_only(app);
    } else {
        let receiver = app.event_queue[next as int];
        if app.fired(receiver, event) is None {
            lemma_tick_removes_dead(
                app.delivered(receiver, event),
                event,
                (next + 1) as usize,
                end,
            );
        }
    }
}

/// Delivering an event to a receiver keeps every list's selection in order:
/// a list moves its selection to one of its entries, and an entry never
/// changes its own flag.
pub proof fn lemma_delivery_keeps_single_selection(app: AppView, receiver: Receiver, event: Event)
    requires
        app.single_selected(),
    ensures
        app.delivered(receiver, event).single_selected(),
        app.delivered(receiver, event).widgets.len() == app.widgets.len(),
        app.delivered(receiver, event).event_queue == app.event_queue,
        app.delivered(receiver, event).generation == app.generation,
{
    if app.live(receiver) {
        let at = receiver.target.widget as int;
        let list = app.widgets[at];
        assert(list.single_selected());
        match receiver.item {
            None => {
                if list.items.len() > 0 {
                    lemma_move_selects_one(list, Move::Increment);
                    lemma_move_selects_one(list, Move::Decrement);
                }
            },
            Some(position) => {},
        }
        let after = app.delivered(receiver, event);
        assert forall|i: int| 0 <= i < after.widgets.len() implies (
        #[trigger] after.widgets[i]).single_selected() by {
            if i != at {
                assert(after.widgets[i] == app.widgets[i]);
            }
        }
    }
}

/// A tick keeps every list's selection in order, whether it runs to its end
/// or pauses.
pub proof fn lemma_tick_keeps_single_selection(app: AppView, event: Event, next: usize, end: usize)
    requires
        app.single_selected(),
    ensures
        app.dispatched(event, next, end).0.single_selected(),
    decreases end - next,
{
    if next >= end || next >= app.event_queue.len() {
    } else {
        let receiver = app.event_queue[next as int];
        lemma_delivery_keeps_single_selection(app, receiver, event);
        if app.fired(receiver, event) is None {
            lemma_tick_keeps_single_selection(
                app.delivered(receiver, event),
                event,
                (next + 1) as usize,
                end,
            );
        }
    }
}

/// Showing a directory keeps every list's selection in order: a file list
/// that has entries has its first entry selected and no other.
pub proof fn lemma_init_keeps_single_selection(app: AppView, entries: Seq<EntryView>)
    requires
        app.single_selected(),
    ensures
        app.initialised(entries).single_selected(),
        app.initialised(entries).widgets.len() == app.widgets.len() + 1,
        app.file_list(entries).items.len() == xlsx_entries(entries).len(),
{
    let shown = app.initialised(entries);
    assert forall|i: int| 0 <= i < shown.widgets.len() implies (
    #[trigger] shown.widgets[i]).single_selected() by {
        if i < app.widgets.len() {
            assert(shown.widgets[i] == app.widgets[i]);
        }
    }
}

/// Replacing the widget set by a sheet list, and resuming the paused tick
/// behind it, keep every list's selection in order: the set then holds one
/// list, with one entry per name, and if it has entries the first one is
/// selected, bordered and highlighted, and no other is.
pub proof fn lemma_reconfiguration_keeps_single_selection(app: AppView, names: Seq<Seq<char>>)
    ensures
        app.reconfigured(names).single_selected(),
        app.reconfigured(names).widgets == seq![app.sheet_list(names)],
        app.single_selected() ==> app.completed(Ok(names)).0.single_selected(),
        app.sheet_list(names).items.len() == names.len(),
        app.sheet_list(names).shown_as_flagged(),
        forall|i: int|
            0 <= i < names.len() ==> (#[trigger] app.sheet_list(names).items[i]).text == names[i],
        names.len() > 0 ==> app.sheet_list(names).index == 0 && app.sheet_list(
            names,
        ).items[0].selected,
{
    let swapped = app.reconfigured(names);
    assert(swapped.single_selected());
    if app.pending is Some && app.generation < u64::MAX {
        let pending = app.pending->Some_0;
        lemma_tick_keeps_single_selection(swapped, pending.event, pending.next, pending.end);
    }
}

/// Once the widget set is replaced, no receiver of an earlier generation is
/// live: the superseded list and its entries get no further event.
pub proof fn lemma_reconfigured_supersedes(app: AppView, names: Seq<Seq<char>>, receiver: Receiver)
    requires
        app.generation < u64::MAX,
        receiver.target.generation <= app.generation,
    ensures
        !app.reconfigured(names).live(receiver),
        app.reconfigured(names).widgets.len() == 1,
{
}

/// The quit key reaches no receiver: the tick sets the exit flag and leaves
/// widgets and registry as they were.
pub proof fn lemma_quit_bypasses_dispatch(app: AppView, event: Event)
    requires
        event.quits(),
    ensures
        app.propagated(event).0.exit,
        app.propagated(event).0.widgets == app.widgets,
        app.propagated(event).0.event_queue == app.event_queue,
        app.propagated(event).1 == StepView::Done,
{
}

/// A receiver fires an action only if it is a live entry that is selected
/// and whose parent list is in the widget set and has the focus, and only on
/// a press of Enter.
pub proof fn lemma_fired_needs_selection_and_focus(app: AppView, receiver: Receiver, event: Event)
    requires
        app.fired(receiver, event) is Some,
    ensures
        app.live(receiver),
        receiver.item is Some,
        event.pressed() == Some(crate::event::KeyCode::Enter),
        ({
            let item = app.widgets[receiver.target.widget as int].items[receiver.item->Some_0 as int];
            &&& item.selected
            &&& app.focus_of(item.parent) == Some(true)
            &&& app.fired(receiver, event) == item.callback
        }),
{
}

/// A failed read leaves the widget set and the registry as they were.
pub proof fn lemma_failed_read_changes_nothing(app: AppView, failure: FailureView)
    ensures
        app.completed(Err(failure)).0.widgets == app.widgets,
        app.completed(Err(failure)).0.event_queue == app.event_queue,
        app.completed(Err(failure)).0.exit == app.exit,
        app.pending is Some ==> app.completed(Err(failure)).1 == Err::<StepView, FailureView>(
            failure,
        ),
{
}

impl App {
    /// A dispatcher without widgets and without receivers.
    pub fn new() -> (app: App)
        ensures
            app@ == AppView::empty(),
    {
        let app = App {
            exit: false,
            event_queue: Vec::new(),
            widgets: Vec::new(),
            generation: 0,
            pending: None,
        };
        assert(app@.widgets =~= Seq::empty());
        app
    }

    /// A dispatcher without widgets and without receivers whose widget
    /// sets are counted from `generation` on.
    pub fn starting_at(generation: u64) -> (app: App)
        ensures
            app@ == (AppView { generation, ..AppView::empty() }),
    {
        let app = App {
            exit: false,
            event_queue: Vec::new(),
            widgets: Vec::new(),
            generation,
            pending: None,
        };
        assert(app@.widgets =~= Seq::empty());
        app
    }

    /// Whether the quit key has been pressed.
    pub fn should_exit(&self) -> (exit: bool)
        ensures
            exit == self@.exit,
    {
        self.exit
    }

    /// The top-level widgets, in the order in which they are drawn.
    pub fn widgets(&self) -> (widgets: &Vec<Picker>)
        ensures
            picker_views(widgets@) == self@.widgets,
    {
        &self.widgets
    }

    /// The registered receivers, in the order of registration.
    pub fn receivers(&self) -> (receivers: &Vec<Receiver>)
        ensures
            receivers@ == self@.event_queue,
    {
        &self.event_queue
    }

    /// Where the paused tick goes on, if one is paused.
    pub fn pending(&self) -> (pending: Option<Pending>)
        ensures
            pending == self@.pending,
    {
        self.pending
    }

    /// Registers `receiver` behind the receivers that are there. The same
    /// receiver may be registered more than once; each registration gets
    /// every event.
    pub fn add_event_handler(&mut self, receiver: Receiver) -> (done: Result<(), Failure>)
        ensures
            done is Ok,
            final(self)@ == (AppView {
                event_queue: old(self)@.event_queue.push(receiver),
                ..old(self)@
            }),
    {
        self.event_queue.push(receiver);
        Ok(())
    }

    /// Sets the exit flag.
    fn exit(&mut self)
        ensures
            final(self)@ == (AppView { exit: true, ..old(self)@ }),
    {
        self.exit = true;
    }

    /// The focus flag of the list that `handle` names, `None` where the list
    /// is gone.
    pub fn parent_focus(&self, handle: Handle) -> (focus: Option<bool>)
        ensures
            focus == self@.focus_of(handle),
    {
        if handle.generation == self.generation && handle.widget < self.widgets.len() {
            Some(self.widgets[handle.widget].is_focussed())
        } else {
            None
        }
    }

    /// Gives the list that `handle` names the focus, or takes it away, and
    /// says whether the list was found. Only a list with the focus lets its
    /// selected entry be activated.
    pub fn set_focus(&mut self, handle: Handle, focussed: bool) -> (found: bool)
        ensures
            found == old(self)@.resolves(handle),
            final(self)@ == old(self)@.focus_set(handle, focussed),
            old(self)@.single_selected() ==> final(self)@.single_selected(),
    {
        if handle.generation == self.generation && handle.widget < self.widgets.len() {
            self.widgets[handle.widget].set_focus(focussed);
            assert(self@.widgets =~= old(self)@.focus_set(handle, focussed).widgets);
            proof {
                if old(self)@.single_selected() {
                    assert forall|i: int| 0 <= i < self@.widgets.len() implies (
                    #[trigger] self@.widgets[i]).single_selected() by {
                        assert(old(self)@.widgets[i].single_selected());
                    }
                }
            }
            true
        } else {
            false
        }
    }

    /// Whether `receiver` still has an owner.
    pub fn is_live(&self, receiver: Receiver) -> (live: bool)
        ensures
            live == self@.live(receiver),
    {
        if receiver.target.generation == self.generation && receiver.target.widget
            < self.widgets.len() {
            match receiver.item {
                Some(position) => position < self.widgets[receiver.target.widget].len(),
                None => true,
            }
        } else {
            false
        }
    }

    /// Registers the entries of the list at `handle`, in order, and then the
    /// list itself.
    fn register_list(&mut self, handle: Handle, entries: usize)
        ensures
            final(self)@ == (AppView {
                event_queue: old(self)@.with_receivers(handle, entries as nat),
                ..old(self)@
            }),
    {
        let mut i: usize = 0;
        while i < entries
            invariant
                i <= entries,
                self@ == (AppView {
                    event_queue: old(self)@.event_queue + Seq::new(
                        i as nat,
                        |k: int| Receiver { target: handle, item: Some(k as usize) },
                    ),
                    ..old(self)@
                }),
            decreases entries - i,
        {
            self.event_queue.push(Receiver::entry(handle, i));
            i += 1;
            assert(self@.event_queue =~= old(self)@.event_queue + Seq::new(
                i as nat,
                |k: int| Receiver { target: handle, item: Some(k as usize) },
            ));
        }
        self.event_queue.push(Receiver::list(handle));
        assert(self@.event_queue =~= old(self)@.with_receivers(handle, entries as nat));
    }

    /// Builds the file list for the entries of a directory, adds it to the
    /// widget set and registers its entries and the list itself.
    fn file_picker(&mut self, entries: &Vec<Entry>)
        ensures
            final(self)@ == old(self)@.initialised(entry_views(entries@)),
    {
        let handle = Handle { generation: self.generation, widget: self.widgets.len() };
        let items = xlsx_picker_items(entries, handle);
        let count = items.len();
        assert(count == item_views(items@).len());
        let picker = Picker::new(items, "test".to_owned(), Some(0), true);
        self.widgets.push(picker);
        assert(self@.widgets =~= old(self)@.widgets.push(
            old(self)@.file_list(entry_views(entries@)),
        ));
        self.register_list(handle, count);
    }

    /// Shows the spreadsheets among the entries of a directory: the file
    /// list joins the widget set, and its entries and the list itself are
    /// registered as receivers.
    pub fn init(&mut self, entries: &Vec<Entry>) -> (done: Result<(), Failure>)
        ensures
            done is Ok,
            final(self)@ == old(self)@.initialised(entry_views(entries@)),
            old(self)@.single_selected() ==> final(self)@.single_selected(),
    {
        proof {
            if self@.single_selected() {
                lemma_init_keeps_single_selection(self@, entry_views(entries@));
            }
        }
        self.file_picker(entries);
        Ok(())
    }

    /// What the dispatcher paints into `area`: the area is divided into
    /// bands of equal height, one per widget, and each widget paints into its
    /// band, in the order of the widget set. Without a widget an empty
    /// bordered box fills the area.
    pub fn render(&self, area: Rect) -> (draws: Vec<Draw>)
        ensures
            draw_views(draws@) == self@.drawn(area),
    {
        let mut draws: Vec<Draw> = Vec::new();
        let len = self.widgets.len();
        if len == 0 {
            draws.push(
                Draw::Block {
                    area,
                    borders: Borders::All,
                    style: Style::new(),
                    title: String::new(),
                },
            );
            assert(draw_views(draws@) =~= self@.drawn(area));
            return draws;
        }
        let mut i: usize = 0;
        assert(draw_views(draws@) =~= self@.drawn_upto(area, 0));
        while i < len
            invariant
                i <= len,
                len == self.widgets@.len(),
                len > 0,
                draw_views(draws@) == self@.drawn_upto(area, i as nat),
            decreases len - i,
        {
            let widget_area = area.band(len, i);
            let more = self.widgets[i].render_ref(widget_area);
            append_draws(&mut draws, more);
            i += 1;
        }
        draws
    }

    /// Delivers `event` to `receiver` and returns the action that it fires.
    fn deliver(&mut self, receiver: Receiver, event: &Event) -> (fired: CallbackFunction)
        ensures
            final(self)@ == old(self)@.delivered(receiver, *event),
            callback_view(fired) == old(self)@.fired(receiver, *event),
    {
        if !self.is_live(receiver) {
            return None;
        }
        let at = receiver.target.widget;
        match receiver.item {
            None => {
                let _ = self.widgets[at].handle_event(event, None);
                assert(self@.widgets =~= old(self)@.delivered(receiver, *event).widgets);
                None
            },
            Some(position) => {
                let parent = match self.widgets[at].item(position) {
                    Some(item) => item.parent(),
                    None => receiver.target,
                };
                let focus = self.parent_focus(parent);
                let fired = self.widgets[at].deliver(position, event, focus);
                assert(self@.widgets =~= old(self)@.delivered(receiver, *event).widgets);
                fired
            },
        }
    }

    /// Takes every receiver that is not live out of the registry.
    fn prune(&mut self)
        ensures
            final(self)@ == old(self)@.pruned(),
    {
        let ghost all = self.event_queue@;
        let ghost test = self@.live_test();
        let mut kept: Vec<Receiver> = Vec::new();
        let mut i: usize = 0;
        proof {
            reveal_with_fuel(Seq::filter, 1);
            assert(all.take(0) =~= Seq::empty());
            assert(kept@ =~= all.take(0).filter(test));
        }
        while i < self.event_queue.len()
            invariant
                i <= self.event_queue.len(),
                self@ == old(self)@,
                all == self.event_queue@,
                test == self@.live_test(),
                kept@ == all.take(i as int).filter(test),
            decreases self.event_queue.len() - i,
        {
            let receiver = self.event_queue[i];
            let live = self.is_live(receiver);
            if live {
                kept.push(receiver);
            }
            proof {
                reveal_with_fuel(Seq::filter, 1);
                assert(all.take(i + 1).drop_last() =~= all.take(i as int));
                assert(all.take(i + 1).last() == receiver);
                assert(test(receiver) == live);
            }
            i += 1;
        }
        proof {
            assert(all.take(self.event_queue.len() as int) =~= all);
        }
        self.event_queue = kept;
    }

    /// Delivers `event` to the receivers from position `next` up to `end`,
    /// and stops behind the first that fires an action.
    fn advance(&mut self, event: Event, next: usize, end: usize) -> (step: Step)
        ensures
            (final(self)@, step@) == old(self)@.dispatched(event, next, end),
    {
        let mut i: usize = next;
        while i < end && i < self.event_queue.len()
            invariant
                self@.dispatched(event, i, end) == old(self)@.dispatched(event, next, end),
            decreases end - i,
        {
            let receiver = self.event_queue[i];
            let ghost before = self@;
            let fired = self.deliver(receiver, &event);
            match fired {
                Some(action) => {
                    self.pending = Some(Pending { event, next: i + 1, end });
                    return Step::Read(action);
                },
                None => {},
            }
            i += 1;
        }
        self.prune();
        self.pending = None;
        Step::Done
    }

    /// One tick: delivers `event`. The quit key sets the exit flag and
    /// reaches no receiver. Every other event goes to each receiver that is
    /// registered now and is live when its turn comes. When an entry fires
    /// its action, the tick pauses and the action is returned; `complete`
    /// resumes it. When every receiver has had its turn, the receivers that
    /// are no longer live leave the registry. A tick that was paused before is
    /// given up.
    pub fn propagate_events(&mut self, event: Event) -> (step: Step)
        ensures
            (final(self)@, step@) == old(self)@.propagated(event),
            old(self)@.single_selected() ==> final(self)@.single_selected(),
    {
        proof {
            if self@.single_selected() {
                lemma_tick_keeps_single_selection(self@, event, 0, self@.event_queue.len() as usize);
            }
        }
        if event.is_quit() {
            self.exit();
            self.pending = None;
            return Step::Done;
        }
        let end = self.event_queue.len();
        self.advance(event, 0, end)
    }

    /// Replaces the widget set by the sheet list for `names`, and registers
    /// the new entries and the new list.
    fn reconfigure(&mut self, names: &Vec<String>)
        requires
            old(self)@.generation < u64::MAX,
        ensures
            final(self)@ == old(self)@.reconfigured(strings_view(names@)),
    {
        let handle = Handle { generation: self.generation + 1, widget: 0 };
        let items = sheet_picker_items(names, handle);
        let count = items.len();
        assert(count == item_views(items@).len());
        let mut picker = Picker::new(items, "Pick worksheet".to_owned(), Some(0), true);
        let _ = picker.update_selection();
        self.register_list(handle, count);
        self.generation = self.generation + 1;
        self.widgets.clear();
        self.widgets.push(picker);
        assert(self@.widgets =~= seq![old(self)@.sheet_list(strings_view(names@))]);
    }

    /// Resumes the paused tick with what the caller read for the action
    /// that paused it: the names of the workbook's sheets, or the failure.
    /// A failure leaves widgets and registry untouched and is returned. On
    /// success the sheet list replaces the widget set, and the tick goes on.
    pub fn complete(&mut self, outcome: Result<Vec<String>, Failure>) -> (step: Result<Step, Failure>)
        ensures
            (final(self)@, step_view(step)) == old(self)@.completed(outcome_view(outcome)),
            outcome is Err ==> final(self)@.widgets == old(self)@.widgets && final(
                self)@.event_queue == old(self)@.event_queue,
            old(self)@.single_selected() ==> final(self)@.single_selected(),
    {
        proof {
            if self@.single_selected() && outcome is Ok {
                lemma_reconfiguration_keeps_single_selection(self@, strings_view(outcome->Ok_0@));
            }
        }
        let pending = match self.pending {
            Some(pending) => pending,
            None => {
                return Ok(Step::Done);
            },
        };
        match outcome {
            Err(failure) => {
                self.pending = None;
                Err(failure)
            },
            Ok(names) => {
                if self.generation == u64::MAX {
                    self.pending = None;
                    Err(Failure::Exhausted)
                } else {
                    self.reconfigure(&names);
                    Ok(self.advance(pending.event, pending.next, pending.end))
                }
            },
        }
    }
}

impl Default for App {
    fn default() -> (app: App)
        ensures
            app@ == AppView::empty(),
    {
        App::new()
    }
}

} // verus!
