//! The text box: a line of text in a coloured, bordered box.

use vstd::prelude::*;
use crate::draw::{Draw, DrawView};
use crate::layout::Rect;
use crate::style::{Borders, Color, Style};

verus! {

/// A text in a box.
#[derive(Debug)]
pub struct TextBox {
    pub(crate) border: Borders,
    pub(crate) color: Color,
    pub(crate) text: String,
}

/// A text box as a plain value.
pub struct TextBoxView {
    pub border: Borders,
    pub color: Color,
    pub text: Seq<char>,
}

impl View for TextBox {
    type V = TextBoxView;

    closed spec fn view(&self) -> TextBoxView {
        TextBoxView { border: self.border, color: self.color, text: self.text@ }
    }
}

impl TextBoxView {
    /// What the box paints into `area`: its text on its colour inside its
    /// border.
    pub open spec fn drawn(self, area: Rect) -> DrawView {
        DrawView::Paragraph {
            area,
            borders: self.border,
            style: Style::on(self.color),
            text: self.text,
        }
    }
}

impl TextBox {
    /// A box with the given border, colour and text.
    pub fn new(border: Borders, color: Color, text: String) -> (text_box: TextBox)
        ensures
            text_box@ == (TextBoxView { border, color, text: text@ }),
    {
        TextBox { border, color, text }
    }

    /// The box with its text replaced.
    pub fn set_text(self, text: String) -> (text_box: TextBox)
        ensures
            text_box@ == (TextBoxView { text: text@, ..self@ }),
    {
        let mut text_box = self;
        text_box.text = text;
        text_box
    }

    /// What the box paints into `area`.
    pub fn render_ref(&self, area: Rect) -> (draw: Draw)
        ensures
            draw@ == self@.drawn(area),
    {
        Draw::Paragraph {
            area,
            borders: self.border,
            style: Style::new().bg(self.color),
            text: self.text.clone(),
        }
    }
}

impl Default for TextBox {
    /// An empty box with a border on every side, on dark gray.
    fn default() -> (text_box: TextBox)
        ensures
            text_box@ == (TextBoxView {
                border: Borders::All,
                color: Color::DarkGray,
                text: Seq::empty(),
            }),
    {
        TextBox { border: Borders::All, color: Color::DarkGray, text: String::new() }
    }
}

} // verus!
