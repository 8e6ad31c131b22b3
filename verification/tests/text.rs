use nordvpn_tui::app::App;
use nordvpn_tui::cli::Cli;
use nordvpn_tui::data::Country;
use nordvpn_tui::gateway::display_text;

#[test]
fn listing_splits_on_any_whitespace_run() {
    let mut app = App::init(Vec::new(), false);
    app.set_countries("  Germany\n France\t\tPoland \r\n");
    assert_eq!(
        app.countries.source,
        vec![
            "Germany".to_string(),
            "France".to_string(),
            "Poland".to_string()
        ]
    );
}

#[test]
fn empty_listing_gives_no_names() {
    let mut app = App::init(vec!["Germany".to_string()], false);
    app.set_countries("   \n\t ");
    assert_eq!(app.countries.source, Vec::<String>::new());
    assert_eq!(app.countries.index, 0);
}

#[test]
fn display_text_joins_lines_and_drops_carriage_returns() {
    assert_eq!(display_text("a\r\nb\nc"), "a\nb\nc");
}

#[test]
fn display_text_drops_one_trailing_newline() {
    assert_eq!(display_text("Connected to Berlin\n"), "Connected to Berlin");
    assert_eq!(display_text(""), "");
    assert_eq!(display_text("\n"), "");
}

#[test]
fn display_text_keeps_inner_empty_lines() {
    assert_eq!(display_text("a\n\nb"), "a\n\nb");
}

#[test]
fn country_starts_without_cities() {
    let country = Country::new("Germany");
    assert_eq!(country.name, "Germany");
    assert!(country.cities.is_empty());
}

#[test]
fn add_cities_appends_in_order() {
    let mut country = Country::new("Germany");
    country.add_cities(&["Berlin", "Munich"]);
    country.add_cities(&["Hamburg"]);
    assert_eq!(
        country.cities,
        vec![
            "Berlin".to_string(),
            "Munich".to_string(),
            "Hamburg".to_string()
        ]
    );
}

#[test]
fn cli_carries_the_optional_config_path() {
    let args = Cli { config: Some("theme.toml".to_string()), verbose: 2 };
    assert_eq!(args.config.as_deref(), Some("theme.toml"));
    assert_eq!(args.verbose, 2);
    let defaults = Cli { config: None, verbose: 0 };
    assert!(defaults.config.is_none());
}
