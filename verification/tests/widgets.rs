use calamine::{Data, Range};
use sheet_picker::draw::Draw;
use sheet_picker::layout::Rect;
use sheet_picker::style::{Borders, Color, Style};
use sheet_picker::widgets::textbox_widget::TextBox;
use sheet_picker::widgets::xlsx_table::{fit_text, width_of, Cell, Place, XlsxTableWidget};

fn sample_range() -> Range<Data> {
    let mut range = Range::new((0, 0), (2, 3));
    range.set_value((0, 0), Data::String("name".to_string()));
    range.set_value((0, 1), Data::String("a longer heading".to_string()));
    range.set_value((0, 2), Data::String("ok".to_string()));
    range.set_value((1, 0), Data::String("x".to_string()));
    range.set_value((1, 1), Data::Int(7));
    range.set_value((1, 2), Data::Bool(true));
    range.set_value((2, 0), Data::Float(2.5));
    range.set_value((2, 2), Data::DateTimeIso("2024-01-01".to_string()));
    range
}

#[test]
fn text_box_default_is_empty_on_dark_gray() {
    let text_box = TextBox::default();
    assert_eq!(
        text_box.render_ref(Rect::new(0, 0, 5, 3)),
        Draw::Paragraph {
            area: Rect { x: 0, y: 0, width: 5, height: 3 },
            borders: Borders::All,
            style: Style { bg: Some(Color::DarkGray) },
            text: String::new(),
        }
    );
}

#[test]
fn text_box_set_text_keeps_border_and_colour() {
    let text_box = TextBox::new(Borders::Hidden, Color::Green, "old".to_string());
    let text_box = text_box.set_text("new".to_string());
    assert_eq!(
        text_box.render_ref(Rect::new(1, 2, 9, 3)),
        Draw::Paragraph {
            area: Rect { x: 1, y: 2, width: 9, height: 3 },
            borders: Borders::Hidden,
            style: Style { bg: Some(Color::Green) },
            text: "new".to_string(),
        }
    );
}

#[test]
fn cell_widths_follow_the_kind() {
    assert_eq!(width_of(&Cell::Text("abc".to_string())), 3);
    assert_eq!(width_of(&Cell::Text("é".to_string())), 2);
    assert_eq!(width_of(&Cell::Text(String::new())), 0);
    assert_eq!(width_of(&Cell::Int(-5)), 8);
    assert_eq!(width_of(&Cell::Real), 8);
    assert_eq!(width_of(&Cell::Bool(false)), 8);
    assert_eq!(width_of(&Cell::Other), 0);
}

#[test]
fn columns_are_as_wide_as_their_widest_cell() {
    let table = XlsxTableWidget::new(sample_range());
    assert_eq!(table.column_widths(), &vec![8, 16, 8, 0]);
    assert_eq!(table.range().height(), 3);
}

#[test]
fn empty_range_has_no_columns() {
    let table = XlsxTableWidget::new(Range::empty());
    assert!(table.column_widths().is_empty());
    assert!(table.render_ref(Rect::new(0, 0, 80, 24)).is_empty());
}

#[test]
fn table_places_cells_row_by_row() {
    let table = XlsxTableWidget::new(sample_range());
    let places = table.render_ref(Rect::new(2, 1, 80, 9));
    assert_eq!(
        places,
        vec![
            Place { row: 0, col: 0, x: 2, y: 1, width: 8 },
            Place { row: 0, col: 1, x: 11, y: 1, width: 16 },
            Place { row: 0, col: 2, x: 28, y: 1, width: 8 },
            Place { row: 0, col: 3, x: 37, y: 1, width: 0 },
            Place { row: 1, col: 0, x: 2, y: 5, width: 8 },
            Place { row: 1, col: 1, x: 11, y: 5, width: 16 },
            Place { row: 1, col: 2, x: 28, y: 5, width: 8 },
            Place { row: 1, col: 3, x: 37, y: 5, width: 0 },
        ]
    );
}

#[test]
fn table_row_ends_at_the_right_edge() {
    let table = XlsxTableWidget::new(sample_range());
    let places = table.render_ref(Rect::new(0, 0, 20, 4));
    assert_eq!(
        places,
        vec![
            Place { row: 0, col: 0, x: 0, y: 0, width: 8 },
            Place { row: 0, col: 1, x: 9, y: 0, width: 16 },
        ]
    );
    assert!(table.render_ref(Rect::new(0, 0, 20, 3)).is_empty());
}

#[test]
fn table_stops_at_the_last_row_of_the_grid() {
    let table = XlsxTableWidget::new(sample_range());
    let places = table.render_ref(Rect::new(0, 65533, 9, 12));
    assert_eq!(places, vec![Place { row: 0, col: 0, x: 0, y: 65533, width: 8 }]);
}

#[test]
fn short_text_is_filled_up_with_spaces() {
    assert_eq!(fit_text("ab", 5), "ab   ");
    assert_eq!(fit_text("", 3), "   ");
    assert_eq!(fit_text("abc", 3), "abc");
    assert_eq!(fit_text("", 0), "");
}

#[test]
fn long_text_is_cut_to_the_column() {
    assert_eq!(fit_text("abcdef", 4), "abcd");
    assert_eq!(fit_text("abcdef", 0), "");
    assert_eq!(fit_text("h\u{e9}llo", 3), "h\u{e9}");
}

#[test]
fn text_is_measured_in_bytes_and_filled_in_characters() {
    assert_eq!(fit_text("\u{e9}", 2), "\u{e9} ");
    assert_eq!(fit_text("\u{e9}\u{e9}", 4), "\u{e9}\u{e9}  ");
}
