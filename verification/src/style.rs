//! The visual state of a widget: which borders it draws and in which colour.

use vstd::prelude::*;

verus! {

/// A background colour.
#[derive(Clone, Copy, PartialEq, Eq, Structural, Debug)]
pub enum Color {
    Reset,
    Red,
    Green,
    DarkGray,
}

/// How a widget is painted. `bg` is `None` where the widget sets no
/// background of its own.
#[derive(Clone, Copy, PartialEq, Eq, Structural, Debug)]
pub struct Style {
    pub bg: Option<Color>,
}

/// Which sides of a widget carry a border line.
#[derive(Clone, Copy, PartialEq, Eq, Structural, Debug)]
pub enum Borders {
    Hidden,
    All,
}

impl Style {
    /// The style that sets nothing.
    pub open spec fn plain() -> Style {
        Style { bg: None }
    }

    /// The style with background `color`.
    pub open spec fn on(color: Color) -> Style {
        Style { bg: Some(color) }
    }

    /// The style of a selected entry.
    pub open spec fn highlighted() -> Style {
        Style::on(Color::Red)
    }

    /// The style of an entry that lost or never had the selection, once its
    /// list has recomputed it.
    pub open spec fn cleared() -> Style {
        Style::on(Color::Reset)
    }

    /// The style of an entry that was activated.
    pub open spec fn activated() -> Style {
        Style::on(Color::Green)
    }

    /// The style that sets nothing.
    pub fn new() -> (style: Style)
        ensures
            style == Style::plain(),
    {
        Style { bg: None }
    }

    /// This style with its background replaced by `color`.
    pub fn bg(self, color: Color) -> (style: Style)
        ensures
            style == Style::on(color),
    {
        Style { bg: Some(color) }
    }
}

impl Default for Style {
    fn default() -> (style: Style)
        ensures
            style == Style::plain(),
    {
        Style { bg: None }
    }
}

} // verus!
