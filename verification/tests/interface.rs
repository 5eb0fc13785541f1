use gtfs_board::date::Date;
use gtfs_board::display::{DisplayStop, Station};
use gtfs_board::handler::{is_scrollable, scroll_for, scroll_nav, KeyCode, KeyEvent, KeyHandler, KeyModifiers, Scroll};
use gtfs_board::time::{Duration, Instant, Time};
use gtfs_board::ui::app::{create_block, App, Highlight, Request};
use gtfs_board::ui::block::{SelectableBlock, UIBlock};
use gtfs_board::ui::board::Board;
use gtfs_board::ui::menu::{get_modified_duration, step_for, DateSelection, Search, StationList, Step, TimeSelection};
use gtfs_board::ui::trip::Trip;
use gtfs_board::ui::widget::{Cursor, WidgetData, WidgetState};

fn now() -> Instant {
    Instant::new(Date::from_ymd(2024, 1, 8).unwrap(), Time::from_hms(8, 0, 0).unwrap())
}

fn plain() -> KeyModifiers {
    KeyModifiers { shift: false, control: false, alt: false }
}

fn key(code: KeyCode) -> KeyEvent {
    KeyEvent { code, modifiers: plain(), at: now() }
}

fn with_shift(code: KeyCode) -> KeyEvent {
    KeyEvent { code, modifiers: KeyModifiers { shift: true, control: false, alt: false }, at: now() }
}

fn with_control(code: KeyCode) -> KeyEvent {
    KeyEvent { code, modifiers: KeyModifiers { shift: false, control: true, alt: false }, at: now() }
}

fn station(id: &str) -> Station {
    Station { stop_id: id.to_string(), name: format!("Station {}", id) }
}

fn stations(count: usize) -> WidgetData<Station, String, Cursor> {
    let mut data: WidgetData<Station, String, Cursor> = WidgetData::new(String::new());
    data.set_items((0..count).map(|i| station(&i.to_string())).collect());
    data
}

#[test]
fn selectable_block_next_goes_round_the_ring() {
    assert_eq!(SelectableBlock::SEARCH.next(), SelectableBlock::STATION);
    assert_eq!(SelectableBlock::STATION.next(), SelectableBlock::DATE);
    assert_eq!(SelectableBlock::DATE.next(), SelectableBlock::TIME);
    assert_eq!(SelectableBlock::TIME.next(), SelectableBlock::BOARD);
    assert_eq!(SelectableBlock::BOARD.next(), SelectableBlock::TRIP);
    assert_eq!(SelectableBlock::TRIP.next(), SelectableBlock::SEARCH);
}

#[test]
fn selectable_block_prev_goes_round_the_ring() {
    assert_eq!(SelectableBlock::SEARCH.prev(), SelectableBlock::TRIP);
    assert_eq!(SelectableBlock::STATION.prev(), SelectableBlock::SEARCH);
    assert_eq!(SelectableBlock::DATE.prev(), SelectableBlock::STATION);
    assert_eq!(SelectableBlock::TIME.prev(), SelectableBlock::DATE);
    assert_eq!(SelectableBlock::BOARD.prev(), SelectableBlock::TIME);
    assert_eq!(SelectableBlock::TRIP.prev(), SelectableBlock::BOARD);
}

#[test]
fn selectable_block_right_goes_to_the_next_column() {
    assert_eq!(SelectableBlock::SEARCH.right(), SelectableBlock::BOARD);
    assert_eq!(SelectableBlock::STATION.right(), SelectableBlock::BOARD);
    assert_eq!(SelectableBlock::DATE.right(), SelectableBlock::BOARD);
    assert_eq!(SelectableBlock::TIME.right(), SelectableBlock::BOARD);
    assert_eq!(SelectableBlock::BOARD.right(), SelectableBlock::TRIP);
    assert_eq!(SelectableBlock::TRIP.right(), SelectableBlock::SEARCH);
}

#[test]
fn selectable_block_left_goes_to_the_column_before() {
    assert_eq!(SelectableBlock::SEARCH.left(), SelectableBlock::TRIP);
    assert_eq!(SelectableBlock::STATION.left(), SelectableBlock::TRIP);
    assert_eq!(SelectableBlock::DATE.left(), SelectableBlock::TRIP);
    assert_eq!(SelectableBlock::TIME.left(), SelectableBlock::TRIP);
    assert_eq!(SelectableBlock::BOARD.left(), SelectableBlock::SEARCH);
    assert_eq!(SelectableBlock::TRIP.left(), SelectableBlock::BOARD);
}

#[test]
fn selectable_block_prev_undoes_next() {
    for block in [
        SelectableBlock::SEARCH,
        SelectableBlock::STATION,
        SelectableBlock::DATE,
        SelectableBlock::TIME,
        SelectableBlock::BOARD,
        SelectableBlock::TRIP,
    ] {
        assert_eq!(block.next().prev(), block);
        assert_eq!(block.prev().next(), block);
    }
}

#[test]
fn ui_block_next_and_prev_go_round_the_ring() {
    assert_eq!(UIBlock::SEARCH.next(), UIBlock::STATION);
    assert_eq!(UIBlock::STATION.next(), UIBlock::DATE);
    assert_eq!(UIBlock::DATE.next(), UIBlock::TIME);
    assert_eq!(UIBlock::TIME.next(), UIBlock::BOARD);
    assert_eq!(UIBlock::BOARD.next(), UIBlock::TRIP);
    assert_eq!(UIBlock::TRIP.next(), UIBlock::SEARCH);
    assert_eq!(UIBlock::SEARCH.prev(), UIBlock::TRIP);
    assert_eq!(UIBlock::STATION.prev(), UIBlock::SEARCH);
    assert_eq!(UIBlock::DATE.prev(), UIBlock::STATION);
    assert_eq!(UIBlock::TIME.prev(), UIBlock::DATE);
    assert_eq!(UIBlock::BOARD.prev(), UIBlock::TIME);
    assert_eq!(UIBlock::TRIP.prev(), UIBlock::BOARD);
}

#[test]
fn ui_block_left_and_right_go_from_column_to_column() {
    assert_eq!(UIBlock::SEARCH.right(), UIBlock::BOARD);
    assert_eq!(UIBlock::STATION.right(), UIBlock::BOARD);
    assert_eq!(UIBlock::DATE.right(), UIBlock::BOARD);
    assert_eq!(UIBlock::TIME.right(), UIBlock::BOARD);
    assert_eq!(UIBlock::BOARD.right(), UIBlock::TRIP);
    assert_eq!(UIBlock::TRIP.right(), UIBlock::SEARCH);
    assert_eq!(UIBlock::SEARCH.left(), UIBlock::TRIP);
    assert_eq!(UIBlock::STATION.left(), UIBlock::TRIP);
    assert_eq!(UIBlock::DATE.left(), UIBlock::TRIP);
    assert_eq!(UIBlock::TIME.left(), UIBlock::TRIP);
    assert_eq!(UIBlock::BOARD.left(), UIBlock::SEARCH);
    assert_eq!(UIBlock::TRIP.left(), UIBlock::BOARD);
}

#[test]
fn cursor_starts_off_the_list() {
    let mut cursor = Cursor::default();
    assert_eq!(cursor.selected(), None);
    cursor.select(Some(3));
    assert_eq!(cursor.selected(), Some(3));
    cursor.select(None);
    assert_eq!(cursor.selected(), None);
}

#[test]
fn widget_data_starts_empty_and_changed() {
    let data: WidgetData<Station, String, Cursor> = WidgetData::new("key".to_string());
    assert!(data.items.is_empty());
    assert_eq!(data.state.selected(), None);
    assert!(data.changed);
    assert_eq!(data.key, "key");
    assert!(data.get_selected_item().is_none());
}

#[test]
fn widget_data_set_items_takes_the_cursor_off() {
    let mut data = stations(3);
    data.next();
    assert_eq!(data.state.selected(), Some(0));
    data.changed = false;
    data.set_items(vec![station("a"), station("b")]);
    assert_eq!(data.items.len(), 2);
    assert_eq!(data.items[1].stop_id, "b");
    assert_eq!(data.state.selected(), None);
    assert!(!data.changed);
}

#[test]
fn widget_data_next_steps_down_and_round() {
    let mut data = stations(3);
    data.next();
    assert_eq!(data.state.selected(), Some(0));
    data.next();
    assert_eq!(data.state.selected(), Some(1));
    data.next();
    assert_eq!(data.state.selected(), Some(2));
    data.next();
    assert_eq!(data.state.selected(), Some(0));
    data.state.select(Some(17));
    data.next();
    assert_eq!(data.state.selected(), Some(0));
}

#[test]
fn widget_data_prev_steps_up_and_round() {
    let mut data = stations(3);
    data.prev();
    assert_eq!(data.state.selected(), Some(0));
    data.prev();
    assert_eq!(data.state.selected(), Some(2));
    data.prev();
    assert_eq!(data.state.selected(), Some(1));
    data.prev();
    assert_eq!(data.state.selected(), Some(0));
}

#[test]
fn widget_data_steps_on_an_empty_list_with_the_cursor_off() {
    let mut data = stations(0);
    assert!(data.is_steppable());
    data.next();
    assert_eq!(data.state.selected(), Some(0));
    assert!(!data.is_steppable());
    assert!(data.get_selected_item().is_none());
}

#[test]
fn widget_data_start_and_end_go_to_the_ends() {
    let mut data = stations(4);
    data.end();
    assert_eq!(data.state.selected(), Some(3));
    data.start();
    assert_eq!(data.state.selected(), Some(0));
    let mut single = stations(1);
    single.end();
    assert_eq!(single.state.selected(), Some(0));
}

#[test]
fn widget_data_gives_the_item_under_the_cursor() {
    let mut data = stations(3);
    assert!(data.get_selected_item().is_none());
    data.state.select(Some(2));
    assert_eq!(data.get_selected_item().unwrap().stop_id, "2");
    data.state.select(Some(3));
    assert!(data.get_selected_item().is_none());
}

#[test]
fn widget_data_update_takes_the_key_of_the_item_under_the_cursor() {
    let mut data = stations(3);
    data.changed = false;
    data.update();
    assert_eq!(data.key, "");
    assert!(!data.changed);
    data.state.select(Some(1));
    data.update();
    assert_eq!(data.key, "1");
    assert!(data.changed);
    assert_eq!(data.state.selected(), Some(1));
}

#[test]
fn scroll_for_reads_the_keys_of_a_list() {
    assert_eq!(scroll_for(&KeyCode::Char('j')), Scroll::Down);
    assert_eq!(scroll_for(&KeyCode::Down), Scroll::Down);
    assert_eq!(scroll_for(&KeyCode::Char('k')), Scroll::Up);
    assert_eq!(scroll_for(&KeyCode::Up), Scroll::Up);
    assert_eq!(scroll_for(&KeyCode::Home), Scroll::First);
    assert_eq!(scroll_for(&KeyCode::End), Scroll::Last);
    assert_eq!(scroll_for(&KeyCode::Enter), Scroll::Choose);
    assert_eq!(scroll_for(&KeyCode::Char('x')), Scroll::Stay);
    assert_eq!(scroll_for(&KeyCode::Left), Scroll::Stay);
    assert_eq!(scroll_for(&KeyCode::Other), Scroll::Stay);
}

#[test]
fn scroll_nav_moves_the_cursor() {
    let mut data = stations(3);
    scroll_nav(&mut data, &KeyCode::Char('j'));
    assert_eq!(data.state.selected(), Some(0));
    scroll_nav(&mut data, &KeyCode::Down);
    assert_eq!(data.state.selected(), Some(1));
    scroll_nav(&mut data, &KeyCode::End);
    assert_eq!(data.state.selected(), Some(2));
    scroll_nav(&mut data, &KeyCode::Char('k'));
    assert_eq!(data.state.selected(), Some(1));
    scroll_nav(&mut data, &KeyCode::Up);
    assert_eq!(data.state.selected(), Some(0));
    scroll_nav(&mut data, &KeyCode::Up);
    assert_eq!(data.state.selected(), Some(2));
    scroll_nav(&mut data, &KeyCode::Home);
    assert_eq!(data.state.selected(), Some(0));
    scroll_nav(&mut data, &KeyCode::Char('z'));
    assert_eq!(data.state.selected(), Some(0));
}

#[test]
fn scroll_nav_chooses_under_enter() {
    let mut data = stations(3);
    data.changed = false;
    scroll_nav(&mut data, &KeyCode::Enter);
    assert_eq!(data.key, "");
    assert!(!data.changed);
    scroll_nav(&mut data, &KeyCode::End);
    assert!(!data.changed);
    scroll_nav(&mut data, &KeyCode::Enter);
    assert_eq!(data.key, "2");
    assert!(data.changed);
}

#[test]
fn scrolling_needs_an_item_where_the_cursor_is_on_the_list() {
    let mut data = stations(0);
    assert!(is_scrollable(&data, &KeyCode::Down));
    assert!(is_scrollable(&data, &KeyCode::Home));
    assert!(is_scrollable(&data, &KeyCode::Enter));
    assert!(!is_scrollable(&data, &KeyCode::End));
    data.start();
    assert!(!is_scrollable(&data, &KeyCode::Down));
    assert!(!is_scrollable(&data, &KeyCode::Char('k')));
    assert!(is_scrollable(&data, &KeyCode::Char('x')));
    assert!(is_scrollable(&stations(1), &KeyCode::End));
}

#[test]
fn search_edits_its_text() {
    let mut search = Search::default();
    assert_eq!(search.input, "");
    assert!(search.changed);
    search.changed = false;
    search.handle_key(&key(KeyCode::Char('B')));
    search.handle_key(&key(KeyCode::Char('e')));
    search.handle_key(&key(KeyCode::Char('r')));
    search.handle_key(&key(KeyCode::Char(' ')));
    assert_eq!(search.input, "Ber ");
    search.handle_key(&key(KeyCode::Backspace));
    assert_eq!(search.input, "Ber");
    search.handle_key(&key(KeyCode::Char('\u{fc}')));
    assert_eq!(search.input, "Ber\u{fc}");
    search.handle_key(&key(KeyCode::Backspace));
    assert_eq!(search.input, "Ber");
    search.handle_key(&key(KeyCode::Left));
    assert_eq!(search.input, "Ber");
    assert!(!search.changed);
    search.handle_key(&key(KeyCode::Enter));
    assert!(search.changed);
    assert_eq!(search.input, "Ber");
}

#[test]
fn search_is_emptied_by_control_u() {
    let mut search = Search::default();
    search.handle_key(&key(KeyCode::Char('u')));
    search.handle_key(&key(KeyCode::Char('l')));
    assert_eq!(search.input, "ul");
    search.handle_key(&with_control(KeyCode::Char('m')));
    assert_eq!(search.input, "ulm");
    search.handle_key(&with_control(KeyCode::Char('u')));
    assert_eq!(search.input, "");
    search.handle_key(&key(KeyCode::Backspace));
    assert_eq!(search.input, "");
}

#[test]
fn search_input_takes_plain_letters() {
    let mut search = Search::default();
    search.changed = false;
    search.input_add('a');
    search.input_add('Z');
    search.input_add('1');
    search.input_add(' ');
    search.input_add('\u{e4}');
    search.input_add('[');
    search.input_add('`');
    search.input_add('{');
    search.input_add('@');
    assert_eq!(search.input, "aZ");
    assert!(!search.changed);
    search.input_remove();
    assert_eq!(search.input, "a");
    search.input_remove();
    search.input_remove();
    assert_eq!(search.input, "");
    search.input_add('q');
    search.input_clear();
    assert_eq!(search.input, "");
    assert!(search.changed);
    search.changed = false;
    search.notify_input_change();
    assert!(search.changed);
}

#[test]
fn step_for_reads_the_keys_of_a_choice() {
    assert_eq!(step_for(&KeyCode::Left, 't'), Step::Back);
    assert_eq!(step_for(&KeyCode::Char('h'), 't'), Step::Back);
    assert_eq!(step_for(&KeyCode::Right, 't'), Step::Forth);
    assert_eq!(step_for(&KeyCode::Char('l'), 't'), Step::Forth);
    assert_eq!(step_for(&KeyCode::Char('t'), 't'), Step::Present);
    assert_eq!(step_for(&KeyCode::Char('n'), 't'), Step::Stay);
    assert_eq!(step_for(&KeyCode::Char('n'), 'n'), Step::Present);
    assert_eq!(step_for(&KeyCode::Enter, 'n'), Step::Stay);
}

#[test]
fn date_selection_steps_by_a_day() {
    let mut choice = DateSelection::new(Date::from_ymd(2024, 3, 1).unwrap());
    choice.handle_key(&key(KeyCode::Left));
    assert_eq!(choice.date, Date::from_ymd(2024, 2, 29).unwrap());
    choice.handle_key(&key(KeyCode::Char('h')));
    assert_eq!(choice.date, Date::from_ymd(2024, 2, 28).unwrap());
    choice.handle_key(&key(KeyCode::Right));
    choice.handle_key(&key(KeyCode::Char('l')));
    choice.handle_key(&key(KeyCode::Char('l')));
    assert_eq!(choice.date, Date::from_ymd(2024, 3, 2).unwrap());
    choice.handle_key(&key(KeyCode::Char('x')));
    assert_eq!(choice.date, Date::from_ymd(2024, 3, 2).unwrap());
    choice.handle_key(&key(KeyCode::Char('t')));
    assert_eq!(choice.date, Date::from_ymd(2024, 1, 8).unwrap());
}

#[test]
fn date_selection_stays_at_the_ends_of_the_calendar() {
    let first = Date::from_ymd(gtfs_board::date::MIN_YEAR, 1, 1).unwrap();
    let mut choice = DateSelection::new(first);
    choice.handle_key(&key(KeyCode::Left));
    assert_eq!(choice.date, first);
    let last = Date::from_ymd(gtfs_board::date::MAX_YEAR, 12, 31).unwrap();
    let mut choice = DateSelection::new(last);
    choice.handle_key(&key(KeyCode::Right));
    assert_eq!(choice.date, last);
}

#[test]
fn time_selection_steps_by_an_hour_or_five_minutes() {
    let mut choice = TimeSelection::new(Time::from_hms(23, 30, 15).unwrap());
    choice.handle_key(&key(KeyCode::Right));
    assert_eq!(choice.time, Time::from_hms(0, 30, 15).unwrap());
    choice.handle_key(&key(KeyCode::Char('h')));
    assert_eq!(choice.time, Time::from_hms(23, 30, 15).unwrap());
    choice.handle_key(&with_shift(KeyCode::Right));
    assert_eq!(choice.time, Time::from_hms(23, 35, 15).unwrap());
    choice.handle_key(&with_shift(KeyCode::Left));
    choice.handle_key(&with_shift(KeyCode::Left));
    assert_eq!(choice.time, Time::from_hms(23, 25, 15).unwrap());
    choice.handle_key(&key(KeyCode::Char('t')));
    assert_eq!(choice.time, Time::from_hms(23, 25, 15).unwrap());
    choice.handle_key(&key(KeyCode::Char('n')));
    assert_eq!(choice.time, Time::from_hms(8, 0, 0).unwrap());
    assert_eq!(get_modified_duration(&plain()), Duration::seconds(3600));
    assert_eq!(with_shift(KeyCode::Left).modifiers.shift, true);
    assert_eq!(get_modified_duration(&with_shift(KeyCode::Left).modifiers), Duration::seconds(300));
}

#[test]
fn lists_scroll_under_their_keys() {
    let mut list = StationList::default();
    assert!(list.data.changed);
    assert_eq!(list.data.key, "");
    list.data.set_items(vec![station("a"), station("b")]);
    assert!(list.can_handle(&key(KeyCode::End)));
    list.handle_key(&key(KeyCode::End));
    list.handle_key(&key(KeyCode::Enter));
    assert_eq!(list.data.key, "b");
    let mut board = Board::default();
    assert_eq!(board.data.key, 0);
    assert!(!board.can_handle(&key(KeyCode::End)));
    board.data.set_items(vec![DisplayStop {
        arr_time: "08:00".to_string(),
        dep_time: "08:05".to_string(),
        trip_id: 42,
        short_name: "ICE 42".to_string(),
        head_sign: "Hamburg".to_string(),
    }]);
    board.handle_key(&key(KeyCode::Char('j')));
    board.handle_key(&key(KeyCode::Enter));
    assert_eq!(board.data.key, 42);
    let mut trip = Trip::default();
    assert_eq!(trip.data.key, 0);
    trip.handle_key(&key(KeyCode::Home));
    assert_eq!(trip.data.state.selected(), Some(0));
    assert!(!trip.can_handle(&key(KeyCode::Down)));
}

#[test]
fn create_block_goes_by_hover_and_focus() {
    assert_eq!(create_block(true, true), Highlight::Focused);
    assert_eq!(create_block(true, false), Highlight::Hovered);
    assert_eq!(create_block(false, true), Highlight::Plain);
    assert_eq!(create_block(false, false), Highlight::Plain);
}

#[test]
fn app_starts_on_the_search_block() {
    let app = App::new(now());
    assert_eq!(app.block_hover, SelectableBlock::SEARCH);
    assert_eq!(app.block_focused, None);
    assert_eq!(app.search, Search { input: String::new(), changed: true });
    assert_eq!(app.date_selection.date, now().date);
    assert_eq!(app.time_selection.time, now().time);
    assert_eq!(app.selected_instant(), now());
    assert!(app.station_list.data.items.is_empty());
    assert!(app.board.data.items.is_empty());
    assert!(app.trip.data.items.is_empty());
    assert_eq!(app.highlight_of(SelectableBlock::SEARCH), Highlight::Hovered);
    assert_eq!(app.highlight_of(SelectableBlock::BOARD), Highlight::Plain);
}

#[test]
fn app_moves_from_block_to_block_while_none_has_the_focus() {
    let mut app = App::new(now());
    app.handle_key(&key(KeyCode::Down));
    assert_eq!(app.block_hover, SelectableBlock::STATION);
    app.handle_key(&key(KeyCode::Char('j')));
    assert_eq!(app.block_hover, SelectableBlock::DATE);
    app.handle_key(&key(KeyCode::Up));
    app.handle_key(&key(KeyCode::Char('k')));
    app.handle_key(&key(KeyCode::Char('k')));
    assert_eq!(app.block_hover, SelectableBlock::TRIP);
    app.handle_key(&key(KeyCode::Left));
    assert_eq!(app.block_hover, SelectableBlock::BOARD);
    app.handle_key(&key(KeyCode::Char('h')));
    assert_eq!(app.block_hover, SelectableBlock::SEARCH);
    app.handle_key(&key(KeyCode::Right));
    assert_eq!(app.block_hover, SelectableBlock::BOARD);
    app.handle_key(&key(KeyCode::Char('l')));
    assert_eq!(app.block_hover, SelectableBlock::TRIP);
    app.handle_key(&key(KeyCode::Char('x')));
    assert_eq!(app.block_hover, SelectableBlock::TRIP);
    assert_eq!(app.block_focused, None);
    app.handle_key(&key(KeyCode::Enter));
    assert_eq!(app.block_focused, Some(SelectableBlock::TRIP));
    assert_eq!(app.highlight_of(SelectableBlock::TRIP), Highlight::Focused);
}

#[test]
fn app_hands_keys_to_the_block_that_has_the_focus() {
    let mut app = App::new(now());
    assert!(app.process(&key(KeyCode::Enter)));
    assert_eq!(app.block_focused, Some(SelectableBlock::SEARCH));
    assert!(app.process(&key(KeyCode::Char('j'))));
    assert!(app.process(&key(KeyCode::Char('a'))));
    assert_eq!(app.search.input, "ja");
    assert_eq!(app.block_hover, SelectableBlock::SEARCH);
    assert!(app.process(&key(KeyCode::Esc)));
    assert_eq!(app.block_focused, None);
    assert!(app.process(&key(KeyCode::Char('j'))));
    assert!(app.process(&key(KeyCode::Char('j'))));
    assert_eq!(app.block_hover, SelectableBlock::DATE);
    assert!(app.process(&key(KeyCode::Enter)));
    assert!(app.process(&key(KeyCode::Right)));
    assert_eq!(app.date_selection.date, Date::from_ymd(2024, 1, 9).unwrap());
    assert!(app.process(&key(KeyCode::Esc)));
    assert!(app.process(&key(KeyCode::Down)));
    assert!(app.process(&key(KeyCode::Enter)));
    assert_eq!(app.block_focused, Some(SelectableBlock::TIME));
    assert!(app.process(&with_shift(KeyCode::Left)));
    assert_eq!(app.time_selection.time, Time::from_hms(7, 55, 0).unwrap());
    assert_eq!(app.search.input, "ja");
}

#[test]
fn app_ends_under_q() {
    let mut app = App::new(now());
    assert!(app.is_processable(&key(KeyCode::Char('q'))));
    assert!(!app.process(&key(KeyCode::Char('q'))));
    assert!(app.process(&key(KeyCode::Enter)));
    assert!(!app.process(&key(KeyCode::Char('q'))));
    assert_eq!(app.search.input, "");
}

#[test]
fn app_tells_whether_the_focused_block_can_take_a_key() {
    let mut app = App::new(now());
    app.block_hover = SelectableBlock::BOARD;
    app.block_focused = Some(SelectableBlock::BOARD);
    assert!(!app.is_processable(&key(KeyCode::End)));
    assert!(!app.focus_can_handle(&key(KeyCode::End)));
    assert!(app.is_processable(&key(KeyCode::Esc)));
    assert!(app.is_processable(&key(KeyCode::Home)));
    assert!(app.process(&key(KeyCode::Home)));
    assert_eq!(app.board.data.state.selected(), Some(0));
    assert!(!app.is_processable(&key(KeyCode::Down)));
    app.block_focused = None;
    assert!(app.is_processable(&key(KeyCode::Down)));
}

#[test]
fn app_asks_for_stations_then_for_the_board() {
    let mut app = App::new(now());
    assert_eq!(app.pending(), Request::Stations { input: String::new() });
    app.put_stations(vec![station("8011160"), station("8000105")]);
    assert!(!app.search.changed);
    assert_eq!(app.station_list.data.items.len(), 2);
    assert_eq!(app.pending(), Request::Board { stop_id: String::new(), reference: now() });
    app.put_board(Vec::new());
    assert_eq!(app.pending(), Request::Nothing);
    app.block_hover = SelectableBlock::STATION;
    app.block_focused = Some(SelectableBlock::STATION);
    app.key_handler(&key(KeyCode::End));
    app.key_handler(&key(KeyCode::Enter));
    assert_eq!(
        app.pending(),
        Request::Board { stop_id: "8000105".to_string(), reference: now() }
    );
    app.put_board(vec![DisplayStop {
        arr_time: "08:00".to_string(),
        dep_time: "08:05".to_string(),
        trip_id: 42,
        short_name: "ICE 42".to_string(),
        head_sign: "Hamburg".to_string(),
    }]);
    assert_eq!(app.board.data.items.len(), 1);
    assert_eq!(app.board.data.state.selected(), None);
    assert_eq!(app.pending(), Request::Nothing);
    app.search.notify_input_change();
    assert_eq!(app.pending(), Request::Stations { input: String::new() });
}
