use nordvpn_tui::app::{Action, App, InputMode, Key, ViewMode};

fn names(list: &[&str]) -> Vec<String> {
    list.iter().map(|s| s.to_string()).collect()
}

fn engine(countries: &[&str]) -> App {
    App::init(names(countries), false)
}

#[test]
fn init_starts_in_countries_normal_mode() {
    let app = engine(&["Germany", "France"]);
    assert_eq!(app.view_mode, ViewMode::Countries);
    assert_eq!(app.input_mode, InputMode::Normal);
    assert_eq!(app.countries.source, names(&["Germany", "France"]));
    assert_eq!(app.countries.filtered, names(&["Germany", "France"]));
    assert_eq!(app.countries.index, 0);
    assert!(!app.connected);
    assert!(!app.exit);
    assert_eq!(app.search_string, "");
}

#[test]
fn init_keeps_reported_connection_status() {
    let app = App::init(names(&["Germany"]), true);
    assert!(app.connected);
}

#[test]
fn down_twice_selects_third_country() {
    let mut app = engine(&["Germany", "France", "Poland"]);
    app.handle_key_event(Key::Down);
    app.handle_key_event(Key::Down);
    assert_eq!(app.countries.index, 2);
    assert_eq!(app.countries.filtered[app.countries.index], "Poland");
}

#[test]
fn down_clamps_at_last_and_up_clamps_at_zero() {
    let mut app = engine(&["Germany", "France"]);
    for _ in 0..5 {
        app.handle_key_event(Key::Down);
    }
    assert_eq!(app.countries.index, 1);
    for _ in 0..5 {
        app.handle_key_event(Key::Up);
    }
    assert_eq!(app.countries.index, 0);
}

#[test]
fn j_and_k_move_like_down_and_up() {
    let mut app = engine(&["Germany", "France", "Poland"]);
    app.handle_key_event(Key::Char('j'));
    app.handle_key_event(Key::Char('j'));
    app.handle_key_event(Key::Char('k'));
    assert_eq!(app.countries.index, 1);
}

#[test]
fn search_ger_filters_to_germany() {
    let mut app = engine(&["Germany", "France"]);
    app.handle_key_event(Key::Char('/'));
    assert_eq!(app.input_mode, InputMode::Search);
    app.handle_key_event(Key::Char('g'));
    app.handle_key_event(Key::Char('e'));
    app.handle_key_event(Key::Char('r'));
    assert_eq!(app.countries.filtered, names(&["Germany"]));
    assert_eq!(app.countries.index, 0);
    assert_eq!(app.search_string, "ger");
}

#[test]
fn search_is_case_insensitive() {
    let mut app = engine(&["Germany", "france"]);
    app.handle_key_event(Key::Char('i'));
    app.handle_key_event(Key::Char('F'));
    assert_eq!(app.countries.filtered, names(&["france"]));
}

#[test]
fn search_never_destroys_the_source() {
    let mut app = engine(&["Germany", "France", "Poland"]);
    app.handle_key_event(Key::Char('/'));
    app.handle_key_event(Key::Char('x'));
    assert_eq!(app.countries.filtered, names(&[]));
    assert_eq!(app.countries.source, names(&["Germany", "France", "Poland"]));
    app.handle_key_event(Key::Backspace);
    assert_eq!(app.countries.filtered, names(&["Germany", "France", "Poland"]));
}

#[test]
fn filtering_same_input_twice_gives_identical_output() {
    let mut one = engine(&["Germany", "France", "Poland"]);
    let mut two = engine(&["Germany", "France", "Poland"]);
    for app in [&mut one, &mut two] {
        app.handle_key_event(Key::Char('/'));
        app.handle_key_event(Key::Char('l'));
        app.handle_key_event(Key::Char('a'));
    }
    assert_eq!(one.countries.filtered, two.countries.filtered);
    assert_eq!(one.countries.filtered, names(&["Poland"]));
}

#[test]
fn escape_leaves_search_mode_keeping_filter_and_index() {
    let mut app = engine(&["Germany", "France", "Georgia"]);
    app.handle_key_event(Key::Char('/'));
    app.handle_key_event(Key::Char('g'));
    app.handle_key_event(Key::Esc);
    assert_eq!(app.input_mode, InputMode::Normal);
    assert_eq!(app.countries.filtered, names(&["Germany", "Georgia"]));
    assert_eq!(app.search_string, "g");
}

#[test]
fn enter_on_germany_requests_its_cities() {
    let mut app = engine(&["Germany", "France", "Poland"]);
    let act = app.handle_key_event(Key::Enter);
    assert_eq!(act, Action::FetchCities("Germany".to_string()));
    assert_eq!(app.view_mode, ViewMode::Countries);
    app.set_cities("Germany".to_string(), "Berlin Munich");
    assert_eq!(app.view_mode, ViewMode::Cities);
    assert_eq!(app.cities.source, names(&["Berlin", "Munich"]));
    assert_eq!(app.cities.filtered, names(&["Berlin", "Munich"]));
    assert_eq!(app.cities.index, 0);
    assert_eq!(app.search_string, "");
}

#[test]
fn enter_with_empty_filter_does_nothing() {
    let mut app = engine(&[]);
    let act = app.handle_key_event(Key::Enter);
    assert_eq!(act, Action::Stay);
    assert_eq!(app.view_mode, ViewMode::Countries);
}

#[test]
fn failed_connect_stays_in_cities_and_keeps_connected_flag() {
    let mut app = engine(&["Germany"]);
    app.set_cities("Germany".to_string(), "Berlin Munich");
    let act = app.handle_key_event(Key::Enter);
    assert_eq!(act, Action::Connect("Berlin".to_string()));
    app.connect(false, "The specified server is not available.");
    assert_eq!(app.view_mode, ViewMode::Cities);
    assert!(!app.connected);
    assert_eq!(app.cities.index, 0);
    assert_eq!(app.connection_output, "The specified server is not available.");
}

#[test]
fn successful_connect_shows_connection_view_with_the_report() {
    let mut app = engine(&["Germany"]);
    app.set_cities("Germany".to_string(), "Berlin Munich");
    let act = app.handle_key_event(Key::Enter);
    assert_eq!(act, Action::Connect("Berlin".to_string()));
    app.connect(true, "Connected to Berlin");
    assert!(app.connected);
    assert_eq!(app.view_mode, ViewMode::Connection);
    assert_eq!(app.connection_output, "Connected to Berlin");
}

#[test]
fn big_g_jumps_last_then_chord_jumps_first() {
    let mut app = engine(&["Germany"]);
    app.set_cities(
        "Germany".to_string(),
        "Berlin Munich Hamburg Cologne Frankfurt",
    );
    app.handle_key_event(Key::Char('G'));
    assert_eq!(app.cities.index, 4);
    app.handle_key_event(Key::Char('g'));
    app.handle_key_event(Key::Char('g'));
    assert_eq!(app.cities.index, 0);
}

#[test]
fn single_g_then_j_moves_down_and_clears_the_chord() {
    let mut app = engine(&["Germany", "France", "Poland"]);
    app.handle_key_event(Key::Char('g'));
    assert!(app.awaiting_second_g);
    app.handle_key_event(Key::Char('j'));
    assert!(!app.awaiting_second_g);
    assert_eq!(app.countries.index, 1);
    app.handle_key_event(Key::Char('g'));
    assert!(app.awaiting_second_g);
    app.handle_key_event(Key::Char('g'));
    assert_eq!(app.countries.index, 0);
    assert!(!app.awaiting_second_g);
}

#[test]
fn h_from_cities_returns_to_countries_with_fresh_list() {
    let mut app = engine(&["Germany", "France"]);
    app.set_cities("Germany".to_string(), "Berlin Munich");
    app.handle_key_event(Key::Down);
    let act = app.handle_key_event(Key::Char('h'));
    assert_eq!(act, Action::FetchCountries);
    assert_eq!(app.view_mode, ViewMode::Cities);
    app.set_countries("Germany France Poland");
    assert_eq!(app.view_mode, ViewMode::Countries);
    assert_eq!(app.countries.source, names(&["Germany", "France", "Poland"]));
    assert_eq!(app.cities.index, 0);
    assert_eq!(app.countries.index, 0);
    assert_eq!(app.search_string, "");
}

#[test]
fn h_in_countries_is_a_no_op() {
    let mut app = engine(&["Germany", "France"]);
    app.handle_key_event(Key::Down);
    let act = app.handle_key_event(Key::Char('h'));
    assert_eq!(act, Action::Stay);
    assert_eq!(app.view_mode, ViewMode::Countries);
    assert_eq!(app.countries.index, 1);
}

#[test]
fn h_from_connection_refetches_cities_of_the_chosen_country() {
    let mut app = engine(&["Germany", "France"]);
    app.set_cities("Germany".to_string(), "Berlin Munich");
    app.handle_key_event(Key::Enter);
    app.connect(true, "Connected to Berlin");
    let act = app.handle_key_event(Key::Char('h'));
    assert_eq!(act, Action::FetchCities("Germany".to_string()));
    app.set_cities("Germany".to_string(), "Berlin Munich Hamburg");
    assert_eq!(app.view_mode, ViewMode::Cities);
    assert_eq!(app.cities.source, names(&["Berlin", "Munich", "Hamburg"]));
}

#[test]
fn enter_in_connection_returns_to_a_fresh_countries_view() {
    let mut app = engine(&["Germany", "France"]);
    app.set_cities("Germany".to_string(), "Berlin");
    app.handle_key_event(Key::Enter);
    app.connect(true, "Connected to Berlin");
    let act = app.handle_key_event(Key::Enter);
    assert_eq!(act, Action::FetchCountries);
    app.set_countries("Germany France");
    assert_eq!(app.view_mode, ViewMode::Countries);
    assert_eq!(app.countries.index, 0);
    assert_eq!(app.cities.index, 0);
    assert_eq!(app.connection_output, "");
}

#[test]
fn search_enter_in_countries_commits_and_forwards() {
    let mut app = engine(&["Germany", "France"]);
    app.handle_key_event(Key::Char('/'));
    app.handle_key_event(Key::Char('f'));
    assert_eq!(app.countries.filtered, names(&["France"]));
    let act = app.handle_key_event(Key::Enter);
    assert_eq!(act, Action::FetchCities("France".to_string()));
    assert_eq!(app.input_mode, InputMode::Normal);
    assert_eq!(app.search_string, "");
    assert_eq!(app.countries.filtered, names(&["Germany", "France"]));
}

#[test]
fn search_enter_in_cities_only_leaves_search_mode() {
    let mut app = engine(&["Germany"]);
    app.set_cities("Germany".to_string(), "Berlin Munich");
    app.handle_key_event(Key::Char('/'));
    app.handle_key_event(Key::Char('m'));
    assert_eq!(app.cities.filtered, names(&["Munich"]));
    let act = app.handle_key_event(Key::Enter);
    assert_eq!(act, Action::Stay);
    assert_eq!(app.input_mode, InputMode::Normal);
    assert_eq!(app.view_mode, ViewMode::Cities);
    assert_eq!(app.search_string, "");
    assert_eq!(app.cities.filtered, names(&["Berlin", "Munich"]));
}

#[test]
fn quit_keys_raise_the_exit_flag() {
    let mut app = engine(&["Germany"]);
    app.handle_key_event(Key::Char('q'));
    assert!(app.exit);
    let mut other = engine(&["Germany"]);
    other.handle_key_event(Key::Esc);
    assert!(other.exit);
}

#[test]
fn big_g_on_empty_list_keeps_index_zero() {
    let mut app = engine(&[]);
    app.handle_key_event(Key::Char('G'));
    assert_eq!(app.countries.index, 0);
    app.handle_key_event(Key::Down);
    assert_eq!(app.countries.index, 0);
}

#[test]
fn other_keys_in_normal_mode_change_nothing_but_the_chord() {
    let mut app = engine(&["Germany", "France"]);
    app.handle_key_event(Key::Char('g'));
    assert!(app.awaiting_second_g);
    let act = app.handle_key_event(Key::Char('z'));
    assert_eq!(act, Action::Stay);
    assert!(!app.awaiting_second_g);
    assert_eq!(app.countries.index, 0);
    assert_eq!(app.view_mode, ViewMode::Countries);
}

#[test]
fn search_in_connection_view_only_edits_the_buffer() {
    let mut app = engine(&["Germany", "France"]);
    app.set_cities("Germany".to_string(), "Berlin");
    app.handle_key_event(Key::Enter);
    app.connect(true, "Connected to Berlin");
    app.handle_key_event(Key::Char('/'));
    app.handle_key_event(Key::Char('a'));
    assert_eq!(app.search_string, "a");
    assert_eq!(app.countries.filtered, names(&["Germany", "France"]));
    assert_eq!(app.cities.filtered, names(&["Berlin"]));
    let act = app.handle_key_event(Key::Enter);
    assert_eq!(act, Action::Stay);
    assert_eq!(app.input_mode, InputMode::Normal);
    assert_eq!(app.search_string, "");
    assert_eq!(app.view_mode, ViewMode::Connection);
}

#[test]
fn input_modes_have_their_labels() {
    assert_eq!(InputMode::Normal.label(), "Normal");
    assert_eq!(InputMode::Search.label(), "Search");
}

#[test]
fn multiline_connect_report_is_joined_with_newlines() {
    let mut app = engine(&["Germany"]);
    app.set_cities("Germany".to_string(), "Berlin");
    app.handle_key_event(Key::Enter);
    app.connect(true, "Connecting to Berlin...\r\nConnected to Berlin\n");
    assert_eq!(
        app.connection_output,
        "Connecting to Berlin...\nConnected to Berlin"
    );
}
