//! What a widget asks the screen to show: the library computes where each
//! box and text goes, and the caller paints them.

use vstd::prelude::*;
use crate::layout::Rect;
use crate::style::{Borders, Style};

verus! {

/// One thing to paint.
#[derive(Debug, PartialEq, Eq)]
pub enum Draw {
    /// A box over `area` with the given borders and style, and `title` in
    /// its top border. An empty title shows nothing.
    Block { area: Rect, borders: Borders, style: Style, title: String },
    /// `text` inside a box over `area` with the given borders and style.
    Paragraph { area: Rect, borders: Borders, style: Style, text: String },
}

/// One thing to paint, with its text as a sequence of characters.
pub enum DrawView {
    Block { area: Rect, borders: Borders, style: Style, title: Seq<char> },
    Paragraph { area: Rect, borders: Borders, style: Style, text: Seq<char> },
}

impl View for Draw {
    type V = DrawView;

    open spec fn view(&self) -> DrawView {
        match self {
            Draw::Block { area, borders, style, title } => DrawView::Block {
                area: *area,
                borders: *borders,
                style: *style,
                title: title@,
            },
            Draw::Paragraph { area, borders, style, text } => DrawView::Paragraph {
                area: *area,
                borders: *borders,
                style: *style,
                text: text@,
            },
        }
    }
}

/// Things to paint as plain values, in the order in which they are painted.
pub open spec fn draw_views(draws: Seq<Draw>) -> Seq<DrawView> {
    Seq::new(draws.len(), |i: int| draws[i]@)
}

/// Moves the things of `more` behind those of `draws`, in order.
pub fn append_draws(draws: &mut Vec<Draw>, more: Vec<Draw>)
    ensures
        draw_views(final(draws)@) == draw_views(old(draws)@) + draw_views(more@),
{
    let mut more = more;
    let ghost added = more@;
    draws.append(&mut more);
    assert(draw_views(draws@) =~= draw_views(old(draws)@) + draw_views(added));
}

} // verus!
