use sheet_picker::app::{App, Pending, Step};
use sheet_picker::error::Failure;
use sheet_picker::event::{Event, KeyCode, KeyEvent, KeyEventKind};
use sheet_picker::handle::{Handle, Receiver};
use sheet_picker::listing::Entry;
use sheet_picker::style::{Borders, Color, Style};
use sheet_picker::widgets::picker_item_widget::Callback;

fn texts(names: &[&str]) -> Vec<String> {
    names.iter().map(|n| n.to_string()).collect()
}

fn entries(names: &[&str]) -> Vec<Entry> {
    names.iter().map(|n| Entry { path: format!("/work/{}", n), name: n.to_string() }).collect()
}

fn file_browser() -> App {
    let mut app = App::new();
    app.init(&entries(&["a.xlsx", "b.xlsx", "c.txt"])).unwrap();
    app
}

fn item_texts(app: &App, widget: usize) -> Vec<String> {
    let list = &app.widgets()[widget];
    (0..list.len()).map(|i| list.item(i).unwrap().text.clone()).collect()
}

#[test]
fn file_list_holds_the_two_spreadsheets() {
    let app = file_browser();
    assert_eq!(app.widgets().len(), 1);
    let list = &app.widgets()[0];
    assert_eq!(list.get_title().unwrap(), "test");
    assert!(list.is_focussed());
    assert_eq!(list.index(), 0);
    assert_eq!(item_texts(&app, 0), texts(&["a.xlsx", "b.xlsx"]));
    assert!(list.item(0).unwrap().selected);
    assert!(!list.item(1).unwrap().selected);
    let home = Handle { generation: 0, widget: 0 };
    assert_eq!(
        app.receivers(),
        &vec![Receiver::entry(home, 0), Receiver::entry(home, 1), Receiver::list(home)]
    );
    assert!(!app.should_exit());
    assert_eq!(app.pending(), None);
}

#[test]
fn failed_open_leaves_the_file_list_in_place() {
    let mut app = file_browser();
    let step = app.propagate_events(Event::press(KeyCode::Enter));
    assert_eq!(step, Step::Read(Callback { path: "/work/a.xlsx".to_string() }));
    let receivers = app.receivers().clone();
    let outcome = app.complete(Err(Failure::Data("not a workbook".to_string())));
    assert_eq!(outcome, Err(Failure::Data("not a workbook".to_string())));
    assert_eq!(app.widgets().len(), 1);
    assert_eq!(app.widgets()[0].get_title().unwrap(), "test");
    assert_eq!(item_texts(&app, 0), texts(&["yeet", "b.xlsx"]));
    assert_eq!(app.widgets()[0].index(), 0);
    assert_eq!(app.receivers(), &receivers);
    assert_eq!(app.pending(), None);
    assert!(!app.should_exit());
    assert_eq!(app.propagate_events(Event::press(KeyCode::Down)), Step::Done);
    assert_eq!(app.widgets()[0].index(), 1);
}

#[test]
fn valid_open_shows_the_sheet_list() {
    let mut app = file_browser();
    let step = app.propagate_events(Event::press(KeyCode::Enter));
    assert_eq!(step, Step::Read(Callback { path: "/work/a.xlsx".to_string() }));
    assert_eq!(
        app.pending(),
        Some(Pending { event: Event::press(KeyCode::Enter), next: 1, end: 3 })
    );
    let outcome = app.complete(Ok(texts(&["Sheet1", "Sheet2", "Totals"])));
    assert_eq!(outcome, Ok(Step::Done));
    assert_eq!(app.pending(), None);
    assert_eq!(app.widgets().len(), 1);
    let list = &app.widgets()[0];
    assert_eq!(list.get_title().unwrap(), "Pick worksheet");
    assert!(list.is_focussed());
    assert_eq!(list.index(), 0);
    assert_eq!(item_texts(&app, 0), texts(&["Sheet1", "Sheet2", "Totals"]));
    let first = list.item(0).unwrap();
    assert!(first.selected);
    assert_eq!(first.borders(), Borders::All);
    assert_eq!(first.style(), Style { bg: Some(Color::Red) });
    for i in 1..3 {
        let other = list.item(i).unwrap();
        assert!(!other.selected);
        assert_eq!(other.borders(), Borders::Hidden);
        assert_eq!(other.style(), Style { bg: Some(Color::Reset) });
        assert!(other.callback().is_none());
    }
}

#[test]
fn superseded_receivers_leave_the_registry() {
    let mut app = file_browser();
    app.propagate_events(Event::press(KeyCode::Enter));
    app.complete(Ok(texts(&["Sheet1", "Sheet2"]))).unwrap();
    let sheets = Handle { generation: 1, widget: 0 };
    assert_eq!(
        app.receivers(),
        &vec![Receiver::entry(sheets, 0), Receiver::entry(sheets, 1), Receiver::list(sheets)]
    );
    for receiver in app.receivers() {
        assert!(app.is_live(*receiver));
    }
    assert!(!app.is_live(Receiver::list(Handle { generation: 0, widget: 0 })));
    assert_eq!(app.parent_focus(Handle { generation: 0, widget: 0 }), None);
    assert_eq!(app.parent_focus(sheets), Some(true));
}

#[test]
fn new_receivers_get_the_next_event_not_the_current_one() {
    let mut app = file_browser();
    app.propagate_events(Event::press(KeyCode::Enter));
    app.complete(Ok(texts(&["Sheet1", "Sheet2"]))).unwrap();
    assert_eq!(item_texts(&app, 0), texts(&["Sheet1", "Sheet2"]));
    assert_eq!(app.propagate_events(Event::press(KeyCode::Down)), Step::Done);
    assert_eq!(app.widgets()[0].index(), 1);
    assert_eq!(app.propagate_events(Event::press(KeyCode::Enter)), Step::Done);
    assert_eq!(item_texts(&app, 0), texts(&["Sheet1", "yeet"]));
}

#[test]
fn ownerless_receiver_gets_nothing_and_is_pruned() {
    let mut app = file_browser();
    let gone = Receiver::list(Handle { generation: 7, widget: 0 });
    let past_end = Receiver::entry(Handle { generation: 0, widget: 0 }, 5);
    let no_widget = Receiver::entry(Handle { generation: 0, widget: 3 }, 0);
    app.add_event_handler(gone).unwrap();
    app.add_event_handler(past_end).unwrap();
    app.add_event_handler(no_widget).unwrap();
    assert_eq!(app.receivers().len(), 6);
    assert!(!app.is_live(gone));
    assert!(!app.is_live(past_end));
    assert!(!app.is_live(no_widget));
    assert_eq!(app.propagate_events(Event::press(KeyCode::Down)), Step::Done);
    assert_eq!(app.widgets()[0].index(), 1);
    let home = Handle { generation: 0, widget: 0 };
    assert_eq!(
        app.receivers(),
        &vec![Receiver::entry(home, 0), Receiver::entry(home, 1), Receiver::list(home)]
    );
}

#[test]
fn receiver_registered_twice_gets_the_event_twice() {
    let mut app = file_browser();
    app.add_event_handler(Receiver::list(Handle { generation: 0, widget: 0 })).unwrap();
    app.init(&entries(&["x.xlsx", "y.xlsx", "z.xlsx"])).unwrap();
    assert_eq!(app.propagate_events(Event::press(KeyCode::Down)), Step::Done);
    assert_eq!(app.widgets()[0].index(), 0);
    assert_eq!(app.widgets()[1].index(), 1);
    assert_eq!(app.receivers().len(), 8);
}

#[test]
fn quit_key_sets_the_exit_flag_and_reaches_no_receiver() {
    let mut app = file_browser();
    app.add_event_handler(Receiver::list(Handle { generation: 9, widget: 0 })).unwrap();
    assert_eq!(app.propagate_events(Event::press(KeyCode::Char('q'))), Step::Done);
    assert!(app.should_exit());
    assert_eq!(app.receivers().len(), 4);
    assert_eq!(app.widgets()[0].index(), 0);
    assert_eq!(item_texts(&app, 0), texts(&["a.xlsx", "b.xlsx"]));
}

#[test]
fn releases_and_other_events_change_nothing() {
    let mut app = file_browser();
    let release = Event::Key(KeyEvent { code: KeyCode::Enter, kind: KeyEventKind::Release });
    assert_eq!(app.propagate_events(release), Step::Done);
    assert_eq!(app.propagate_events(Event::Other), Step::Done);
    let quit_release = Event::Key(KeyEvent { code: KeyCode::Char('q'), kind: KeyEventKind::Release });
    assert_eq!(app.propagate_events(quit_release), Step::Done);
    assert!(!app.should_exit());
    assert_eq!(item_texts(&app, 0), texts(&["a.xlsx", "b.xlsx"]));
}

#[test]
fn enter_opens_the_entry_that_navigation_selected() {
    let mut app = file_browser();
    assert_eq!(app.propagate_events(Event::press(KeyCode::Down)), Step::Done);
    let step = app.propagate_events(Event::press(KeyCode::Enter));
    assert_eq!(step, Step::Read(Callback { path: "/work/b.xlsx".to_string() }));
    assert_eq!(item_texts(&app, 0), texts(&["a.xlsx", "yeet"]));
}

#[test]
fn enter_without_receivers_does_nothing() {
    let mut app = App::default();
    assert_eq!(app.propagate_events(Event::press(KeyCode::Enter)), Step::Done);
    assert!(app.widgets().is_empty());
    assert!(app.receivers().is_empty());
}

#[test]
fn complete_without_a_paused_tick_does_nothing() {
    let mut app = file_browser();
    assert_eq!(app.complete(Ok(texts(&["Sheet1"]))), Ok(Step::Done));
    assert_eq!(app.complete(Err(Failure::Exhausted)), Ok(Step::Done));
    assert_eq!(app.widgets()[0].get_title().unwrap(), "test");
    assert_eq!(app.receivers().len(), 3);
}

#[test]
fn workbook_without_sheets_shows_an_empty_list() {
    let mut app = file_browser();
    app.propagate_events(Event::press(KeyCode::Enter));
    assert_eq!(app.complete(Ok(vec![])), Ok(Step::Done));
    assert_eq!(app.widgets().len(), 1);
    assert_eq!(app.widgets()[0].len(), 0);
    assert_eq!(app.receivers(), &vec![Receiver::list(Handle { generation: 1, widget: 0 })]);
    assert_eq!(app.propagate_events(Event::press(KeyCode::Down)), Step::Done);
    assert_eq!(app.widgets()[0].index(), 0);
}

#[test]
fn failure_messages_read_as_text() {
    assert_eq!(Failure::Data("bad zip".to_string()).message(), "bad zip");
    assert_eq!(Failure::Exhausted.message(), "Too many reconfigurations");
}

#[test]
fn last_generation_cannot_be_replaced() {
    let mut app = App::starting_at(u64::MAX);
    app.init(&entries(&["a.xlsx"])).unwrap();
    let step = app.propagate_events(Event::press(KeyCode::Enter));
    assert_eq!(step, Step::Read(Callback { path: "/work/a.xlsx".to_string() }));
    assert_eq!(app.complete(Ok(texts(&["Sheet1"]))), Err(Failure::Exhausted));
    assert_eq!(app.widgets().len(), 1);
    assert_eq!(app.widgets()[0].get_title().unwrap(), "test");
    assert_eq!(app.receivers().len(), 2);
    assert_eq!(app.pending(), None);
}

#[test]
fn generation_before_the_last_can_be_replaced_once() {
    let mut app = App::starting_at(u64::MAX - 1);
    app.init(&entries(&["a.xlsx"])).unwrap();
    app.propagate_events(Event::press(KeyCode::Enter));
    assert_eq!(app.complete(Ok(texts(&["Sheet1"]))), Ok(Step::Done));
    assert_eq!(
        app.receivers(),
        &vec![
            Receiver::entry(Handle { generation: u64::MAX, widget: 0 }, 0),
            Receiver::list(Handle { generation: u64::MAX, widget: 0 }),
        ]
    );
}

#[test]
fn second_list_of_a_directory_gets_its_own_handle() {
    let mut app = file_browser();
    app.init(&entries(&["x.xlsx"])).unwrap();
    let second = Handle { generation: 0, widget: 1 };
    assert_eq!(app.receivers()[3], Receiver::entry(second, 0));
    assert_eq!(app.receivers()[4], Receiver::list(second));
    assert_eq!(app.widgets()[1].item(0).unwrap().parent(), second);
    let step = app.propagate_events(Event::press(KeyCode::Enter));
    assert_eq!(step, Step::Read(Callback { path: "/work/a.xlsx".to_string() }));
    let step = app.complete(Err(Failure::Data("broken".to_string())));
    assert_eq!(step, Err(Failure::Data("broken".to_string())));
    assert_eq!(app.widgets()[1].item(0).unwrap().text, "x.xlsx");
}

#[test]
fn tick_goes_on_behind_the_entry_that_fired() {
    let mut app = file_browser();
    app.init(&entries(&["x.xlsx"])).unwrap();
    let step = app.propagate_events(Event::press(KeyCode::Enter));
    assert_eq!(step, Step::Read(Callback { path: "/work/a.xlsx".to_string() }));
    assert_eq!(
        app.pending(),
        Some(Pending { event: Event::press(KeyCode::Enter), next: 1, end: 5 })
    );
    assert_eq!(app.complete(Ok(texts(&["S1", "S2"]))), Ok(Step::Done));
    assert_eq!(app.widgets().len(), 1);
    assert_eq!(item_texts(&app, 0), texts(&["S1", "S2"]));
    assert_eq!(app.receivers().len(), 3);
}

#[test]
fn enter_on_a_list_without_focus_fires_nothing() {
    let mut app = file_browser();
    let home = Handle { generation: 0, widget: 0 };
    assert!(app.set_focus(home, false));
    assert_eq!(app.parent_focus(home), Some(false));
    assert_eq!(app.propagate_events(Event::press(KeyCode::Enter)), Step::Done);
    assert_eq!(item_texts(&app, 0), texts(&["a.xlsx", "b.xlsx"]));
    assert_eq!(app.propagate_events(Event::press(KeyCode::Down)), Step::Done);
    assert_eq!(app.widgets()[0].index(), 1);
    assert!(app.set_focus(home, true));
    let step = app.propagate_events(Event::press(KeyCode::Enter));
    assert_eq!(step, Step::Read(Callback { path: "/work/b.xlsx".to_string() }));
}

#[test]
fn focus_of_a_missing_list_cannot_be_set() {
    let mut app = file_browser();
    assert!(!app.set_focus(Handle { generation: 0, widget: 1 }, false));
    assert!(!app.set_focus(Handle { generation: 1, widget: 0 }, false));
    assert_eq!(app.parent_focus(Handle { generation: 0, widget: 0 }), Some(true));
}
