use sheet_picker::app::App;
use sheet_picker::draw::Draw;
use sheet_picker::handle::Handle;
use sheet_picker::layout::Rect;
use sheet_picker::listing::Entry;
use sheet_picker::style::{Borders, Color, Style};
use sheet_picker::widgets::picker_item_widget::PickerItem;
use sheet_picker::widgets::picker_widget::Picker;

#[test]
fn bands_divide_the_height_evenly() {
    let area = Rect::new(2, 3, 40, 10);
    assert_eq!(area.band(3, 0), Rect { x: 2, y: 3, width: 40, height: 3 });
    assert_eq!(area.band(3, 1), Rect { x: 2, y: 6, width: 40, height: 3 });
    assert_eq!(area.band(3, 2), Rect { x: 2, y: 9, width: 40, height: 3 });
    assert_eq!(area.band(1, 0), area);
}

#[test]
fn more_bands_than_rows_have_no_height() {
    let area = Rect::new(0, 5, 8, 2);
    assert_eq!(area.band(3, 2), Rect { x: 0, y: 5, width: 8, height: 0 });
    assert_eq!(area.band(70000, 69999), Rect { x: 0, y: 5, width: 8, height: 0 });
}

#[test]
fn band_start_stops_at_the_last_row_of_the_grid() {
    let area = Rect::new(0, 65530, 8, 20);
    assert_eq!(area.band(2, 0), Rect { x: 0, y: 65530, width: 8, height: 10 });
    assert_eq!(area.band(2, 1), Rect { x: 0, y: 65535, width: 8, height: 10 });
    assert_eq!(area.band(2, 70000), Rect { x: 0, y: 65535, width: 8, height: 10 });
}

#[test]
fn list_paints_border_then_items_in_bands() {
    let parent = Handle { generation: 0, widget: 0 };
    let items = vec![
        PickerItem::new("Item 1", true, parent, None),
        PickerItem::new("Item 2", false, parent, None),
    ];
    let picker = Picker::new(items, "Pick".to_string(), Some(0), true);
    let draws = picker.render_ref(Rect::new(0, 0, 20, 10));
    assert_eq!(
        draws,
        vec![
            Draw::Block {
                area: Rect { x: 0, y: 0, width: 20, height: 10 },
                borders: Borders::All,
                style: Style { bg: None },
                title: "Pick".to_string(),
            },
            Draw::Paragraph {
                area: Rect { x: 1, y: 1, width: 18, height: 4 },
                borders: Borders::All,
                style: Style { bg: Some(Color::Red) },
                text: "Item 1".to_string(),
            },
            Draw::Paragraph {
                area: Rect { x: 1, y: 5, width: 18, height: 4 },
                borders: Borders::Hidden,
                style: Style { bg: None },
                text: "Item 2".to_string(),
            },
        ]
    );
}

#[test]
fn list_too_small_for_its_border_paints_items_into_nothing() {
    let parent = Handle { generation: 0, widget: 0 };
    let items = vec![PickerItem::new("Item 1", true, parent, None)];
    let picker = Picker::new(items, "Pick".to_string(), Some(0), true);
    let draws = picker.render_ref(Rect::new(4, 4, 20, 1));
    assert_eq!(draws.len(), 2);
    assert_eq!(
        draws[1],
        Draw::Paragraph {
            area: Rect { x: 0, y: 0, width: 0, height: 0 },
            borders: Borders::All,
            style: Style { bg: Some(Color::Red) },
            text: "Item 1".to_string(),
        }
    );
}

#[test]
fn empty_list_paints_its_border_only() {
    let picker = Picker::new(vec![], "Nothing".to_string(), None, true);
    let draws = picker.render_ref(Rect::new(0, 0, 20, 10));
    assert_eq!(
        draws,
        vec![Draw::Block {
            area: Rect { x: 0, y: 0, width: 20, height: 10 },
            borders: Borders::All,
            style: Style { bg: None },
            title: "Nothing".to_string(),
        }]
    );
}

#[test]
fn item_paints_its_text_in_its_own_style() {
    let parent = Handle { generation: 0, widget: 0 };
    let item = PickerItem::new("x", false, parent, None);
    assert_eq!(
        item.render_ref(Rect::new(1, 2, 3, 4)),
        Draw::Paragraph {
            area: Rect { x: 1, y: 2, width: 3, height: 4 },
            borders: Borders::Hidden,
            style: Style { bg: None },
            text: "x".to_string(),
        }
    );
}

#[test]
fn dispatcher_without_widgets_paints_a_placeholder() {
    let app = App::new();
    assert_eq!(
        app.render(Rect::new(0, 0, 30, 12)),
        vec![Draw::Block {
            area: Rect { x: 0, y: 0, width: 30, height: 12 },
            borders: Borders::All,
            style: Style { bg: None },
            title: String::new(),
        }]
    );
}

#[test]
fn dispatcher_gives_each_widget_its_band() {
    let mut app = App::new();
    let entry = |n: &str| Entry { path: n.to_string(), name: n.to_string() };
    app.init(&vec![entry("a.xlsx")]).unwrap();
    app.init(&vec![entry("b.xlsx"), entry("c.xlsx")]).unwrap();
    let draws = app.render(Rect::new(0, 0, 30, 12));
    assert_eq!(draws.len(), 5);
    assert_eq!(
        draws[0],
        Draw::Block {
            area: Rect { x: 0, y: 0, width: 30, height: 6 },
            borders: Borders::All,
            style: Style { bg: None },
            title: "test".to_string(),
        }
    );
    assert_eq!(
        draws[1],
        Draw::Paragraph {
            area: Rect { x: 1, y: 1, width: 28, height: 4 },
            borders: Borders::All,
            style: Style { bg: Some(Color::Red) },
            text: "a.xlsx".to_string(),
        }
    );
    assert_eq!(
        draws[2],
        Draw::Block {
            area: Rect { x: 0, y: 6, width: 30, height: 6 },
            borders: Borders::All,
            style: Style { bg: None },
            title: "test".to_string(),
        }
    );
    assert_eq!(
        draws[4],
        Draw::Paragraph {
            area: Rect { x: 1, y: 9, width: 28, height: 2 },
            borders: Borders::Hidden,
            style: Style { bg: None },
            text: "c.xlsx".to_string(),
        }
    );
}
