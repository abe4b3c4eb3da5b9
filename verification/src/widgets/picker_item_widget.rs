//! The leaf item: one selectable entry of a selection list.

use vstd::prelude::*;
use crate::error::Failure;
use crate::event::{Event, KeyCode};
use crate::handle::Handle;
use crate::draw::{Draw, DrawView};
use crate::layout::Rect;
use crate::style::{Borders, Color, Style};

verus! {

/// What an entry does when it is activated: open the file at `path` and show
/// what it holds in place of the current widgets.
#[derive(Debug, PartialEq, Eq)]
pub struct Callback {
    pub path: String,
}

impl View for Callback {
    type V = Seq<char>;

    open spec fn view(&self) -> Seq<char> {
        self.path@
    }
}

impl Clone for Callback {
    fn clone(&self) -> (copy: Callback)
        ensures
            copy@ == self@,
    {
        Callback { path: self.path.clone() }
    }
}

/// The action attached to an entry, if it has one.
pub type CallbackFunction = Option<Callback>;

/// An optional action by its path.
pub open spec fn callback_view(callback: CallbackFunction) -> Option<Seq<char>> {
    match callback {
        Some(action) => Some(action@),
        None => None,
    }
}

/// One selectable entry of a selection list.
#[derive(Debug)]
pub struct PickerItem {
    pub text: String,
    pub selected: bool,
    parent: Handle,
    borders: Borders,
    style: Style,
    callback: CallbackFunction,
}

/// An entry as a plain value.
pub struct PickerItemView {
    pub text: Seq<char>,
    pub selected: bool,
    pub parent: Handle,
    pub borders: Borders,
    pub style: Style,
    pub callback: Option<Seq<char>>,
}

impl View for PickerItem {
    type V = PickerItemView;

    closed spec fn view(&self) -> PickerItemView {
        PickerItemView {
            text: self.text@,
            selected: self.selected,
            parent: self.parent,
            borders: self.borders,
            style: self.style,
            callback: callback_view(self.callback),
        }
    }
}

impl PickerItemView {
    /// The borders that go with a selection flag: all for the selected
    /// entry, none for the others.
    pub open spec fn borders_for(selected: bool) -> Borders {
        if selected {
            Borders::All
        } else {
            Borders::Hidden
        }
    }

    /// Whether the entry's visual state is the one its selection flag calls
    /// for: bordered and highlighted if it is selected; if not, without
    /// border, and either cleared or as it was made.
    pub open spec fn shown_as_flagged(self) -> bool {
        if self.selected {
            self.borders == Borders::All && self.style == Style::highlighted()
        } else {
            self.borders == Borders::Hidden && (self.style == Style::cleared() || self.style
                == Style::plain())
        }
    }

    /// The entry as its list leaves it after recomputing the selection:
    /// flagged `selected`, bordered and highlighted if so, plain if not.
    pub open spec fn marked(self, selected: bool) -> PickerItemView {
        PickerItemView {
            selected,
            borders: Self::borders_for(selected),
            style: if selected {
                Style::highlighted()
            } else {
                Style::cleared()
            },
            ..self
        }
    }

    /// What the entry paints into `area`: its text in a box with its
    /// borders and style.
    pub open spec fn drawn(self, area: Rect) -> DrawView {
        DrawView::Paragraph { area, borders: self.borders, style: self.style, text: self.text }
    }

    /// Whether `event` activates the entry: it is a press of Enter, the entry
    /// is selected, and its parent list was found and has the focus.
    /// `parent_focussed` is the focus flag of the parent, `None` where the
    /// parent is gone.
    pub open spec fn activates(self, event: Event, parent_focussed: Option<bool>) -> bool {
        &&& event.pressed() == Some(KeyCode::Enter)
        &&& self.selected
        &&& parent_focussed == Some(true)
    }

    /// The entry after `event`: marked as activated if the event activates
    /// it, unchanged if not.
    pub open spec fn handled(self, event: Event, parent_focussed: Option<bool>) -> PickerItemView {
        if self.activates(event, parent_focussed) {
            PickerItemView { text: "yeet"@, style: Style::activated(), ..self }
        } else {
            self
        }
    }

    /// The action that `event` fires: the entry's own, if the event
    /// activates it and it has one.
    pub open spec fn fired(self, event: Event, parent_focussed: Option<bool>) -> Option<
        Seq<char>,
    > {
        if self.activates(event, parent_focussed) {
            self.callback
        } else {
            None
        }
    }
}

/// An entry fires its action on exactly one condition: the event is a press
/// of Enter, the entry is selected, its parent list was found and has the
/// focus, and the entry has an action. On every other event, and whenever
/// the entry is not selected or its parent is gone or without focus, nothing
/// fires and the entry stays as it is.
pub proof fn lemma_fires_iff_selected_and_focussed(
    item: PickerItemView,
    event: Event,
    parent_focussed: Option<bool>,
)
    ensures
        item.fired(event, parent_focussed) is Some <==> {
            &&& event.pressed() == Some(KeyCode::Enter)
            &&& item.selected
            &&& parent_focussed == Some(true)
            &&& item.callback is Some
        },
        item.fired(event, parent_focussed) is Some ==> item.fired(event, parent_focussed)
            == item.callback,
        !(item.selected && parent_focussed == Some(true)) ==> item.handled(event, parent_focussed)
            == item,
        event.pressed() != Some(KeyCode::Enter) ==> item.handled(event, parent_focussed) == item,
{
}

impl PickerItem {
    /// A new entry. Its visual state follows from `selected`: bordered and
    /// highlighted if set, plain if not.
    pub fn new(input_text: &str, selected: bool, parent: Handle, callback: CallbackFunction) -> (item:
        PickerItem)
        ensures
            item@ == (PickerItemView {
                text: input_text@,
                selected,
                parent,
                borders: PickerItemView::borders_for(selected),
                style: if selected {
                    Style::highlighted()
                } else {
                    Style::plain()
                },
                callback: callback_view(callback),
            }),
            item@.shown_as_flagged(),
    {
        let mut style = Style::new();
        let mut borders = Borders::Hidden;
        if selected {
            style = Style::new().bg(Color::Red);
            borders = Borders::All;
        }
        PickerItem { text: input_text.to_owned(), selected, parent, borders, style, callback }
    }

    /// Replaces the style and nothing else.
    pub fn set_style(&mut self, new_style: Style) -> (done: Result<(), Failure>)
        ensures
            done is Ok,
            final(self)@ == (PickerItemView { style: new_style, ..old(self)@ }),
    {
        self.style = new_style;
        Ok(())
    }

    /// Replaces the borders and nothing else.
    pub fn set_borders(&mut self, new_borders: Borders) -> (done: Result<(), Failure>)
        ensures
            done is Ok,
            final(self)@ == (PickerItemView { borders: new_borders, ..old(self)@ }),
    {
        self.borders = new_borders;
        Ok(())
    }

    /// Replaces the action and nothing else.
    pub fn set_callback(&mut self, new_callback: CallbackFunction)
        ensures
            final(self)@ == (PickerItemView {
                callback: callback_view(new_callback),
                ..old(self)@
            }),
    {
        self.callback = new_callback;
    }

    /// Sets the selection flag and the visual state that goes with it.
    pub fn mark(&mut self, selected: bool)
        ensures
            final(self)@ == old(self)@.marked(selected),
    {
        self.selected = selected;
        if selected {
            self.style = Style::new().bg(Color::Red);
            self.borders = Borders::All;
        } else {
            self.style = Style::new().bg(Color::Reset);
            self.borders = Borders::Hidden;
        }
    }

    /// The text that the entry shows.
    pub fn text(&self) -> (text: &str)
        ensures
            text@ == self@.text,
    {
        self.text.as_str()
    }

    /// Whether the entry is the selected one of its list.
    pub fn is_selected(&self) -> (selected: bool)
        ensures
            selected == self@.selected,
    {
        self.selected
    }

    /// The list that the entry looks up to learn whether it has the focus.
    pub fn parent(&self) -> (parent: Handle)
        ensures
            parent == self@.parent,
    {
        self.parent
    }

    /// The entry's action, if it has one.
    pub fn callback(&self) -> (callback: &CallbackFunction)
        ensures
            callback_view(*callback) == self@.callback,
    {
        &self.callback
    }

    /// The entry's borders.
    pub fn borders(&self) -> (borders: Borders)
        ensures
            borders == self@.borders,
    {
        self.borders
    }

    /// The entry's style.
    pub fn style(&self) -> (style: Style)
        ensures
            style == self@.style,
    {
        self.style
    }

    /// What the entry paints into `area`.
    pub fn render_ref(&self, area: Rect) -> (draw: Draw)
        ensures
            draw@ == self@.drawn(area),
    {
        Draw::Paragraph { area, borders: self.borders, style: self.style, text: self.text.clone() }
    }
}

/// Something that input events are delivered to.
pub trait EventHandler: View + Sized {
    /// The receiver after `event`, as a plain value. `parent_focussed` is
    /// the focus flag of the list that the receiver looks up to, `None`
    /// where that list is gone.
    spec fn after_event(before: Self::V, event: Event, parent_focussed: Option<bool>) -> Self::V;

    /// The action that the receiver fires on `event`, by its path.
    spec fn firing(before: Self::V, event: Event, parent_focussed: Option<bool>) -> Option<
        Seq<char>,
    >;

    /// Delivers `event` and returns the action that the receiver fires,
    /// for the caller to carry out.
    fn handle_event(&mut self, event: &Event, parent_focussed: Option<bool>) -> (fired:
        CallbackFunction)
        ensures
            final(self)@ == Self::after_event(old(self)@, *event, parent_focussed),
            callback_view(fired) == Self::firing(old(self)@, *event, parent_focussed),
    ;
}

impl EventHandler for PickerItem {
    open spec fn after_event(
        before: PickerItemView,
        event: Event,
        parent_focussed: Option<bool>,
    ) -> PickerItemView {
        before.handled(event, parent_focussed)
    }

    open spec fn firing(
        before: PickerItemView,
        event: Event,
        parent_focussed: Option<bool>,
    ) -> Option<Seq<char>> {
        before.fired(event, parent_focussed)
    }

    /// Delivers `event` to the entry. `parent_focussed` is the focus flag of
    /// the parent list, `None` where the parent could not be found. Only a
    /// press of Enter on a selected entry of a focussed list has an effect:
    /// the entry takes the text and style of an activated entry, and its
    /// action, if it has one, is returned for the caller to carry out.
    fn handle_event(&mut self, event: &Event, parent_focussed: Option<bool>) -> (fired:
        CallbackFunction)
    {
        let enter = match event.pressed_key() {
            Some(KeyCode::Enter) => true,
            _ => false,
        };
        let focussed = match parent_focussed {
            Some(flag) => flag,
            None => false,
        };
        if enter && self.selected && focussed {
            self.text = "yeet".to_owned();
            self.style = Style::new().bg(Color::Green);
            match &self.callback {
                Some(action) => Some(action.clone()),
                None => None,
            }
        } else {
            None
        }
    }
}

} // verus!
