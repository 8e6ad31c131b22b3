use vstd::prelude::*;

use crate::gateway::{display_of, display_text, parse_names, tokens_of};
use crate::search::{filter_names, filter_spec};

verus! {

/// Which hierarchy level is currently displayed.
#[derive(Clone, Copy, Debug, PartialEq, Eq, Structural)]
pub enum ViewMode {
    Countries,
    Cities,
    Connection,
}

/// Whether keystrokes are navigation commands or text for the search buffer.
#[derive(Clone, Copy, Debug, PartialEq, Eq, Structural)]
pub enum InputMode {
    Normal,
    Search,
}

/// The label under which an input mode is shown.
pub open spec fn mode_label(m: InputMode) -> Seq<char> {
    match m {
        InputMode::Normal => "Normal"@,
        InputMode::Search => "Search"@,
    }
}

impl InputMode {
    /// The label under which the mode is shown.
    pub fn label(&self) -> (r: String)
        ensures
            r@ == mode_label(*self),
    {
        match self {
            InputMode::Normal => "Normal".to_owned(),
            InputMode::Search => "Search".to_owned(),
        }
    }
}

/// A key press, as the terminal reports it. `Other` stands for any key that
/// the key tables do not mention.
#[derive(Clone, Copy, Debug, PartialEq, Eq, Structural)]
pub enum Key {
    Esc,
    Enter,
    Backspace,
    Up,
    Down,
    Char(char),
    Other,
}

/// What the caller must do next: nothing, or one provider command, whose
/// result is then handed back through the matching `apply_` method.
#[derive(Debug, PartialEq, Eq)]
pub enum Action {
    Stay,
    FetchCountries,
    FetchCities(String),
    Connect(String),
}

/// The mathematical value of an `Action`.
pub enum ActV {
    Stay,
    FetchCountries,
    FetchCities(Seq<char>),
    Connect(Seq<char>),
}

impl View for Action {
    type V = ActV;

    open spec fn view(&self) -> ActV {
        match self {
            Action::Stay => ActV::Stay,
            Action::FetchCountries => ActV::FetchCountries,
            Action::FetchCities(c) => ActV::FetchCities(c@),
            Action::Connect(c) => ActV::Connect(c@),
        }
    }
}

/// One navigable level: the authoritative `source` names as last fetched, the
/// `filtered` names derived from them, and the cursor into `filtered`.
pub struct SelectionList {
    pub source: Vec<String>,
    pub filtered: Vec<String>,
    pub index: usize,
}

/// The mathematical value of a `SelectionList`.
#[verifier::ext_equal]
pub struct ListV {
    pub source: Seq<Seq<char>>,
    pub filtered: Seq<Seq<char>>,
    pub index: int,
}

impl View for SelectionList {
    type V = ListV;

    open spec fn view(&self) -> ListV {
        ListV {
            source: self.source.deep_view(),
            filtered: self.filtered.deep_view(),
            index: self.index as int,
        }
    }
}

impl ListV {
    /// The cursor lies within `[0, len(filtered) - 1]`, or at 0 when the
    /// filtered list is empty.
    pub open spec fn idx_ok(self) -> bool {
        &&& 0 <= self.index
        &&& if self.filtered.len() == 0 {
            self.index == 0
        } else {
            self.index < self.filtered.len()
        }
    }

    /// The filtered names are exactly the source names that match `search`,
    /// and the cursor is in bounds.
    pub open spec fn wf_under(self, search: Seq<char>) -> bool {
        &&& self.filtered == filter_spec(self.source, search)
        &&& self.idx_ok()
    }
}

/// The navigation engine: view and input mode, the two selection lists, the
/// search buffer, the two-keystroke chord flag, and the connection state.
pub struct App {
    pub view_mode: ViewMode,
    pub input_mode: InputMode,
    pub countries: SelectionList,
    pub cities: SelectionList,
    pub search_string: String,
    pub awaiting_second_g: bool,
    pub selected_country: String,
    pub connection_output: String,
    pub connected: bool,
    pub exit: bool,
}

/// The mathematical value of the whole engine state.
#[verifier::ext_equal]
pub struct AppV {
    pub view_mode: ViewMode,
    pub input_mode: InputMode,
    pub countries: ListV,
    pub cities: ListV,
    pub search_string: Seq<char>,
    pub awaiting_second_g: bool,
    pub selected_country: Seq<char>,
    pub connection_output: Seq<char>,
    pub connected: bool,
    pub exit: bool,
}

impl View for App {
    type V = AppV;

    open spec fn view(&self) -> AppV {
        AppV {
            view_mode: self.view_mode,
            input_mode: self.input_mode,
            countries: self.countries@,
            cities: self.cities@,
            search_string: self.search_string@,
            awaiting_second_g: self.awaiting_second_g,
            selected_country: self.selected_country@,
            connection_output: self.connection_output@,
            connected: self.connected,
            exit: self.exit,
        }
    }
}

/// Retreat by one, clamped at 0.
pub open spec fn dec_index(i: int) -> int {
    if i > 0 {
        i - 1
    } else {
        0
    }
}

/// Advance by one, clamped at `len - 1`.
pub open spec fn inc_index(i: int, len: int) -> int {
    if i + 1 < len {
        i + 1
    } else {
        i
    }
}

/// The last position of a list of `len` items, or the current position when
/// the list is empty.
pub open spec fn last_index(i: int, len: int) -> int {
    if len > 0 {
        len - 1
    } else {
        i
    }
}

/// Keep a position that is still in bounds, else move to the last position,
/// or to 0 when the list is empty.
pub open spec fn clamp_index(i: int, len: int) -> int {
    if len == 0 {
        0
    } else if i < len {
        i
    } else {
        len - 1
    }
}

impl AppV {
    /// The search string that the countries list is currently filtered under.
    pub open spec fn countries_search(self) -> Seq<char> {
        match self.view_mode {
            ViewMode::Countries => self.search_string,
            _ => Seq::empty(),
        }
    }

    /// The search string that the cities list is currently filtered under.
    pub open spec fn cities_search(self) -> Seq<char> {
        match self.view_mode {
            ViewMode::Cities => self.search_string,
            _ => Seq::empty(),
        }
    }

    /// Well-formedness: the active view's list is filtered under the live
    /// search string, the inactive lists under the empty one, and every
    /// cursor is in bounds.
    pub open spec fn wf(self) -> bool {
        &&& self.countries.wf_under(self.countries_search())
        &&& self.cities.wf_under(self.cities_search())
    }

    /// The length of the filtered list of the active view; 0 in the
    /// connection view, which shows no list.
    pub open spec fn active_len(self) -> int {
        match self.view_mode {
            ViewMode::Countries => self.countries.filtered.len() as int,
            ViewMode::Cities => self.cities.filtered.len() as int,
            ViewMode::Connection => 0,
        }
    }

    /// The cursor of the active view; 0 in the connection view.
    pub open spec fn active_index(self) -> int {
        match self.view_mode {
            ViewMode::Countries => self.countries.index,
            ViewMode::Cities => self.cities.index,
            ViewMode::Connection => 0,
        }
    }

    /// The same state with the chord flag set to `pending`.
    pub open spec fn with_chord(self, pending: bool) -> AppV {
        AppV { awaiting_second_g: pending, ..self }
    }

    /// The same state with the active view's cursor moved to `i`; the
    /// connection view has no cursor and stays as it is.
    pub open spec fn with_active_index(self, i: int) -> AppV {
        match self.view_mode {
            ViewMode::Countries => AppV {
                countries: ListV { index: i, ..self.countries },
                ..self
            },
            ViewMode::Cities => AppV { cities: ListV { index: i, ..self.cities }, ..self },
            ViewMode::Connection => self,
        }
    }

    /// The state after the search buffer becomes `s`: the active view's list
    /// is refiltered from its untouched source and its cursor reset to 0.
    pub open spec fn retyped(self, s: Seq<char>) -> AppV {
        match self.view_mode {
            ViewMode::Countries => AppV {
                search_string: s,
                countries: ListV {
                    filtered: filter_spec(self.countries.source, s),
                    index: 0,
                    ..self.countries
                },
                ..self
            },
            ViewMode::Cities => AppV {
                search_string: s,
                cities: ListV {
                    filtered: filter_spec(self.cities.source, s),
                    index: 0,
                    ..self.cities
                },
                ..self
            },
            ViewMode::Connection => AppV { search_string: s, ..self },
        }
    }
}

/// A quit key: request process exit; the pending chord is dropped.
pub open spec fn exit_step(pre: AppV, post: AppV, act: ActV) -> bool {
    &&& post == pre.with_chord(false).with_exit()
    &&& act == ActV::Stay
}

impl AppV {
    /// The same state with the exit flag raised.
    pub open spec fn with_exit(self) -> AppV {
        AppV { exit: true, ..self }
    }
}

/// A cursor movement: the active index becomes `i`, the pending chord is
/// dropped, and nothing else changes.
pub open spec fn move_step(pre: AppV, post: AppV, act: ActV, i: int) -> bool {
    &&& post == pre.with_chord(false).with_active_index(i)
    &&& act == ActV::Stay
}

/// The forward transition on Enter in normal mode. The state only drops a
/// pending chord; the view itself changes when the provider result comes
/// back through the matching `apply_` method. With an empty filtered list
/// there is nothing to select and nothing happens.
pub open spec fn enter_step(pre: AppV, post: AppV, act: ActV) -> bool {
    &&& post == pre.with_chord(false)
    &&& match pre.view_mode {
        ViewMode::Countries => if pre.countries.filtered.len() == 0 {
            act == ActV::Stay
        } else {
            act == ActV::FetchCities(pre.countries.filtered[pre.countries.index])
        },
        ViewMode::Cities => if pre.cities.filtered.len() == 0 {
            act == ActV::Stay
        } else {
            act == ActV::Connect(pre.cities.filtered[pre.cities.index])
        },
        ViewMode::Connection => act == ActV::FetchCountries,
    }
}

/// The back transition on `h`: from the cities view the country list is
/// refetched, from the connection view the cities of the previously chosen
/// country are; in the countries view there is nowhere to go back to.
pub open spec fn back_step(pre: AppV, post: AppV, act: ActV) -> bool {
    &&& post == pre.with_chord(false)
    &&& match pre.view_mode {
        ViewMode::Countries => act == ActV::Stay,
        ViewMode::Cities => act == ActV::FetchCountries,
        ViewMode::Connection => act == ActV::FetchCities(pre.selected_country),
    }
}

/// The normal-mode key table.
pub open spec fn normal_step(pre: AppV, key: Key, post: AppV, act: ActV) -> bool {
    match key {
        Key::Esc => exit_step(pre, post, act),
        Key::Enter => enter_step(pre, post, act),
        Key::Down => move_step(pre, post, act, inc_index(pre.active_index(), pre.active_len())),
        Key::Up => move_step(pre, post, act, dec_index(pre.active_index())),
        Key::Char(c) => if c == 'q' {
            exit_step(pre, post, act)
        } else if c == 'j' {
            move_step(pre, post, act, inc_index(pre.active_index(), pre.active_len()))
        } else if c == 'k' {
            move_step(pre, post, act, dec_index(pre.active_index()))
        } else if c == 'G' {
            move_step(pre, post, act, last_index(pre.active_index(), pre.active_len()))
        } else if c == 'g' {
            if pre.awaiting_second_g {
                move_step(pre, post, act, 0)
            } else {
                post == pre.with_chord(true) && act == ActV::Stay
            }
        } else if c == '/' || c == 'i' {
            &&& post == pre.with_chord(false).with_input_mode(InputMode::Search)
            &&& act == ActV::Stay
        } else if c == 'h' {
            back_step(pre, post, act)
        } else {
            post == pre.with_chord(false) && act == ActV::Stay
        },
        Key::Backspace | Key::Other => post == pre.with_chord(false) && act == ActV::Stay,
    }
}

impl AppV {
    /// The same state in the given input mode.
    pub open spec fn with_input_mode(self, m: InputMode) -> AppV {
        AppV { input_mode: m, ..self }
    }
}

/// Committing a search with Enter: the buffer is cleared and normal mode
/// resumes. Only in the countries view does the commit also forward-navigate,
/// fetching the cities of the name selected under the filter that was live
/// when Enter was pressed.
pub open spec fn commit_step(pre: AppV, post: AppV, act: ActV) -> bool {
    &&& post == pre.with_input_mode(InputMode::Normal).retyped(Seq::empty())
    &&& match pre.view_mode {
        ViewMode::Countries => if pre.countries.filtered.len() == 0 {
            act == ActV::Stay
        } else {
            act == ActV::FetchCities(pre.countries.filtered[pre.countries.index])
        },
        ViewMode::Cities | ViewMode::Connection => act == ActV::Stay,
    }
}

/// The search-mode key table.
pub open spec fn search_step(pre: AppV, key: Key, post: AppV, act: ActV) -> bool {
    match key {
        Key::Esc => {
            &&& post == pre.with_input_mode(InputMode::Normal)
            &&& act == ActV::Stay
        },
        Key::Enter => commit_step(pre, post, act),
        Key::Char(c) => {
            &&& post == pre.retyped(pre.search_string.push(c))
            &&& act == ActV::Stay
        },
        Key::Backspace => {
            &&& post == pre.retyped(
                if pre.search_string.len() > 0 {
                    pre.search_string.drop_last()
                } else {
                    pre.search_string
                },
            )
            &&& act == ActV::Stay
        },
        Key::Up | Key::Down | Key::Other => post == pre && act == ActV::Stay,
    }
}

/// One key press, dispatched on the input mode.
pub open spec fn key_step(pre: AppV, key: Key, post: AppV, act: ActV) -> bool {
    match pre.input_mode {
        InputMode::Normal => normal_step(pre, key, post, act),
        InputMode::Search => search_step(pre, key, post, act),
    }
}

/// A fresh country list arrived: it becomes the countries source, both
/// cursors reset, the search buffer clears, the connection text is
/// discarded, and the countries view is shown.
pub open spec fn apply_countries_step(pre: AppV, names: Seq<Seq<char>>, post: AppV) -> bool {
    post == (AppV {
        view_mode: ViewMode::Countries,
        countries: ListV {
            source: names,
            filtered: filter_spec(names, Seq::empty()),
            index: 0,
        },
        cities: ListV {
            source: pre.cities.source,
            filtered: filter_spec(pre.cities.source, Seq::empty()),
            index: 0,
        },
        search_string: Seq::empty(),
        connection_output: Seq::empty(),
        ..pre
    })
}

/// A city list for `country` arrived: it becomes the cities source with its
/// cursor at 0, the search buffer clears, the chosen country is remembered,
/// and the cities view is shown.
pub open spec fn apply_cities_step(
    pre: AppV,
    country: Seq<char>,
    names: Seq<Seq<char>>,
    post: AppV,
) -> bool {
    let refiltered = filter_spec(pre.countries.source, Seq::empty());
    post == (AppV {
        view_mode: ViewMode::Cities,
        countries: ListV {
            source: pre.countries.source,
            filtered: refiltered,
            index: clamp_index(pre.countries.index, refiltered.len() as int),
        },
        cities: ListV {
            source: names,
            filtered: filter_spec(names, Seq::empty()),
            index: 0,
        },
        search_string: Seq::empty(),
        selected_country: country,
        ..pre
    })
}

/// A connect attempt finished. On success the connection view is shown with
/// the reported text and the connected flag raised; on failure only the
/// reported text is recorded and everything else, the connected flag
/// included, stays as it was.
pub open spec fn apply_connect_step(
    pre: AppV,
    success: bool,
    message: Seq<char>,
    post: AppV,
) -> bool {
    if success {
        let refiltered = filter_spec(pre.countries.source, Seq::empty());
        let refiltered_cities = filter_spec(pre.cities.source, Seq::empty());
        post == (AppV {
            view_mode: ViewMode::Connection,
            connected: true,
            connection_output: message,
            search_string: Seq::empty(),
            countries: ListV {
                source: pre.countries.source,
                filtered: refiltered,
                index: clamp_index(pre.countries.index, refiltered.len() as int),
            },
            cities: ListV {
                source: pre.cities.source,
                filtered: refiltered_cities,
                index: clamp_index(pre.cities.index, refiltered_cities.len() as int),
            },
            ..pre
        })
    } else {
        post == (AppV { connection_output: message, ..pre })
    }
}

/// The state the engine starts in: the fetched countries under an empty
/// filter, no cities yet, normal mode, and the reported connection status.
pub open spec fn init_state(names: Seq<Seq<char>>, connected: bool, a: AppV) -> bool {
    a == (AppV {
        view_mode: ViewMode::Countries,
        input_mode: InputMode::Normal,
        countries: ListV {
            source: names,
            filtered: filter_spec(names, Seq::empty()),
            index: 0,
        },
        cities: ListV { source: Seq::empty(), filtered: Seq::empty(), index: 0 },
        search_string: Seq::empty(),
        awaiting_second_g: false,
        selected_country: Seq::empty(),
        connection_output: Seq::empty(),
        connected: connected,
        exit: false,
    })
}

/// Relies on `String::push`: it appends the character at the end.
pub assume_specification[ String::push ](s: &mut String, c: char)
    ensures
        final(s)@ == old(s)@.push(c),
;

/// Relies on `String::pop`: it removes and returns the last character, and
/// returns `None` leaving an empty string as it is.
pub assume_specification[ String::pop ](s: &mut String) -> (r: Option<char>)
    ensures
        old(s)@.len() == 0 ==> final(s)@ == old(s)@ && r is None,
        old(s)@.len() > 0 ==> final(s)@ == old(s)@.drop_last() && r == Some(old(s)@.last()),
;

impl App {
    /// The engine as it stands at startup, from the initially fetched country
    /// names and the reported connection status.
    pub fn init(countries: Vec<String>, connected: bool) -> (app: App)
        ensures
            init_state(countries.deep_view(), connected, app@),
            app@.wf(),
    {
        let empty = String::new();
        let filtered = filter_names(&countries, empty.as_str());
        let app = App {
            view_mode: ViewMode::Countries,
            input_mode: InputMode::Normal,
            countries: SelectionList { source: countries, filtered, index: 0 },
            cities: SelectionList { source: Vec::new(), filtered: Vec::new(), index: 0 },
            search_string: String::new(),
            awaiting_second_g: false,
            selected_country: String::new(),
            connection_output: String::new(),
            connected,
            exit: false,
        };
        proof {
            lemma_filter_empty(Seq::empty());
            assert(app@.cities.source =~= Seq::<Seq<char>>::empty());
            assert(app@.cities.filtered =~= Seq::<Seq<char>>::empty());
        }
        app
    }

    /// One key press. The returned action names the provider command the
    /// caller must run, if any; its result is handed back through
    /// `set_countries`, `set_cities` or `connect`.
    pub fn handle_key_event(&mut self, key: Key) -> (act: Action)
        ensures
            old(self)@.wf() ==> key_step(old(self)@, key, final(self)@, act@) && final(self)@.wf(),
    {
        match self.input_mode {
            InputMode::Normal => self.handle_normal_mode(key),
            InputMode::Search => self.handle_search_mode(key),
        }
    }

    /// The normal-mode key table.
    pub fn handle_normal_mode(&mut self, key: Key) -> (act: Action)
        ensures
            old(self)@.wf() ==> normal_step(old(self)@, key, final(self)@, act@) && final(self)@.wf(),
    {
        let act = match key {
            Key::Esc => {
                self.awaiting_second_g = false;
                self.exit = true;
                Action::Stay
            },
            Key::Enter => self.forward(),
            Key::Down => {
                self.awaiting_second_g = false;
                self.increment_index();
                Action::Stay
            },
            Key::Up => {
                self.awaiting_second_g = false;
                self.decrement_index();
                Action::Stay
            },
            Key::Char(c) => {
                if c == 'q' {
                    self.awaiting_second_g = false;
                    self.exit = true;
                    Action::Stay
                } else if c == 'j' {
                    self.awaiting_second_g = false;
                    self.increment_index();
                    Action::Stay
                } else if c == 'k' {
                    self.awaiting_second_g = false;
                    self.decrement_index();
                    Action::Stay
                } else if c == 'G' {
                    self.awaiting_second_g = false;
                    self.jump_to_last();
                    Action::Stay
                } else if c == 'g' {
                    if self.awaiting_second_g {
                        self.awaiting_second_g = false;
                        self.jump_to_first();
                        Action::Stay
                    } else {
                        self.awaiting_second_g = true;
                        Action::Stay
                    }
                } else if c == '/' || c == 'i' {
                    self.awaiting_second_g = false;
                    self.input_mode = InputMode::Search;
                    Action::Stay
                } else if c == 'h' {
                    self.back()
                } else {
                    self.awaiting_second_g = false;
                    Action::Stay
                }
            },
            Key::Backspace | Key::Other => {
                self.awaiting_second_g = false;
                Action::Stay
            },
        };
        proof {
            if old(self)@.wf() {
                lemma_normal_step_wf(old(self)@, key, self@, act@);
            }
        }
        act
    }

    /// The search-mode key table.
    pub fn handle_search_mode(&mut self, key: Key) -> (act: Action)
        ensures
            old(self)@.wf() ==> search_step(old(self)@, key, final(self)@, act@) && final(self)@.wf(),
    {
        let act = match key {
            Key::Esc => {
                self.input_mode = InputMode::Normal;
                Action::Stay
            },
            Key::Enter => self.commit_search(),
            Key::Char(c) => {
                self.search_string.push(c);
                self.refresh_filter();
                Action::Stay
            },
            Key::Backspace => {
                let _popped = self.search_string.pop();
                self.refresh_filter();
                Action::Stay
            },
            Key::Up | Key::Down | Key::Other => Action::Stay,
        };
        proof {
            if old(self)@.wf() {
                lemma_search_step_wf(old(self)@, key, self@, act@);
            }
        }
        act
    }

    /// Enter in normal mode: the forward transition of the current view.
    fn forward(&mut self) -> (act: Action)
        ensures
            old(self)@.wf() ==> enter_step(old(self)@, final(self)@, act@),
    {
        self.awaiting_second_g = false;
        match self.view_mode {
            ViewMode::Countries => {
                if self.countries.index < self.countries.filtered.len() {
                    Action::FetchCities(self.countries.filtered[self.countries.index].clone())
                } else {
                    Action::Stay
                }
            },
            ViewMode::Cities => {
                if self.cities.index < self.cities.filtered.len() {
                    Action::Connect(self.cities.filtered[self.cities.index].clone())
                } else {
                    Action::Stay
                }
            },
            ViewMode::Connection => Action::FetchCountries,
        }
    }

    /// `h` in normal mode: the back transition of the current view.
    fn back(&mut self) -> (act: Action)
        ensures
            back_step(old(self)@, final(self)@, act@),
    {
        self.awaiting_second_g = false;
        match self.view_mode {
            ViewMode::Countries => Action::Stay,
            ViewMode::Cities => Action::FetchCountries,
            ViewMode::Connection => Action::FetchCities(self.selected_country.clone()),
        }
    }

    /// Enter in search mode: commit the search.
    fn commit_search(&mut self) -> (act: Action)
        ensures
            old(self)@.wf() ==> commit_step(old(self)@, final(self)@, act@),
    {
        let act = match self.view_mode {
            ViewMode::Countries => {
                if self.countries.index < self.countries.filtered.len() {
                    Action::FetchCities(self.countries.filtered[self.countries.index].clone())
                } else {
                    Action::Stay
                }
            },
            ViewMode::Cities | ViewMode::Connection => Action::Stay,
        };
        self.input_mode = InputMode::Normal;
        self.search_string = String::new();
        self.refresh_filter();
        act
    }

    /// Recompute the active view's filtered list from its untouched source
    /// under the current search buffer, and reset its cursor.
    fn refresh_filter(&mut self)
        ensures
            final(self)@ == old(self)@.retyped(old(self)@.search_string),
    {
        match self.view_mode {
            ViewMode::Countries => {
                let f = filter_names(&self.countries.source, self.search_string.as_str());
                self.countries.filtered = f;
                self.countries.index = 0;
            },
            ViewMode::Cities => {
                let f = filter_names(&self.cities.source, self.search_string.as_str());
                self.cities.filtered = f;
                self.cities.index = 0;
            },
            ViewMode::Connection => {},
        }
        proof {
            assert(self@ =~= old(self)@.retyped(old(self)@.search_string));
        }
    }

    fn increment_index(&mut self)
        ensures
            final(self)@ == old(self)@.with_active_index(
                inc_index(old(self)@.active_index(), old(self)@.active_len()),
            ),
    {
        match self.view_mode {
            ViewMode::Countries => self.increment_country(),
            ViewMode::Cities => self.increment_city(),
            ViewMode::Connection => {},
        }
    }

    fn decrement_index(&mut self)
        ensures
            final(self)@ == old(self)@.with_active_index(dec_index(old(self)@.active_index())),
    {
        match self.view_mode {
            ViewMode::Countries => self.decrement_country(),
            ViewMode::Cities => self.decrement_city(),
            ViewMode::Connection => {},
        }
    }

    /// `G`: jump the active cursor to the last filtered item.
    fn jump_to_last(&mut self)
        ensures
            final(self)@ == old(self)@.with_active_index(
                last_index(old(self)@.active_index(), old(self)@.active_len()),
            ),
    {
        match self.view_mode {
            ViewMode::Countries => {
                let len = self.countries.filtered.len();
                if len > 0 {
                    self.countries.index = len - 1;
                }
            },
            ViewMode::Cities => {
                let len = self.cities.filtered.len();
                if len > 0 {
                    self.cities.index = len - 1;
                }
            },
            ViewMode::Connection => {},
        }
        proof {
            assert(self@ =~= old(self)@.with_active_index(
                last_index(old(self)@.active_index(), old(self)@.active_len()),
            ));
        }
    }

    /// The completed `g g` chord: jump the active cursor to the first item.
    fn jump_to_first(&mut self)
        ensures
            final(self)@ == old(self)@.with_active_index(0),
    {
        match self.view_mode {
            ViewMode::Countries => {
                self.countries.index = 0;
            },
            ViewMode::Cities => {
                self.cities.index = 0;
            },
            ViewMode::Connection => {},
        }
        proof {
            assert(self@ =~= old(self)@.with_active_index(0));
        }
    }

    fn increment_country(&mut self)
        ensures
            final(self)@ == (AppV {
                countries: ListV {
                    index: inc_index(
                        old(self)@.countries.index,
                        old(self)@.countries.filtered.len() as int,
                    ),
                    ..old(self)@.countries
                },
                ..old(self)@
            }),
    {
        let len = self.countries.filtered.len();
        if len > 0 && self.countries.index < len - 1 {
            self.countries.index = self.countries.index + 1;
        }
        proof {
            assert(self@ =~= (AppV {
                countries: ListV {
                    index: inc_index(
                        old(self)@.countries.index,
                        old(self)@.countries.filtered.len() as int,
                    ),
                    ..old(self)@.countries
                },
                ..old(self)@
            }));
        }
    }

    fn decrement_country(&mut self)
        ensures
            final(self)@ == (AppV {
                countries: ListV {
                    index: dec_index(old(self)@.countries.index),
                    ..old(self)@.countries
                },
                ..old(self)@
            }),
    {
        if self.countries.index > 0 {
            self.countries.index = self.countries.index - 1;
        }
        proof {
            assert(self@ =~= (AppV {
                countries: ListV {
                    index: dec_index(old(self)@.countries.index),
                    ..old(self)@.countries
                },
                ..old(self)@
            }));
        }
    }

    fn increment_city(&mut self)
        ensures
            final(self)@ == (AppV {
                cities: ListV {
                    index: inc_index(
                        old(self)@.cities.index,
                        old(self)@.cities.filtered.len() as int,
                    ),
                    ..old(self)@.cities
                },
                ..old(self)@
            }),
    {
        let len = self.cities.filtered.len();
        if len > 0 && self.cities.index < len - 1 {
            self.cities.index = self.cities.index + 1;
        }
        proof {
            assert(self@ =~= (AppV {
                cities: ListV {
                    index: inc_index(
                        old(self)@.cities.index,
                        old(self)@.cities.filtered.len() as int,
                    ),
                    ..old(self)@.cities
                },
                ..old(self)@
            }));
        }
    }

    fn decrement_city(&mut self)
        ensures
            final(self)@ == (AppV {
                cities: ListV { index: dec_index(old(self)@.cities.index), ..old(self)@.cities },
                ..old(self)@
            }),
    {
        if self.cities.index > 0 {
            self.cities.index = self.cities.index - 1;
        }
        proof {
            assert(self@ =~= (AppV {
                cities: ListV { index: dec_index(old(self)@.cities.index), ..old(self)@.cities },
                ..old(self)@
            }));
        }
    }

    /// A fresh country list from the provider.
    pub fn apply_countries(&mut self, names: Vec<String>)
        ensures
            apply_countries_step(old(self)@, names.deep_view(), final(self)@),
            final(self)@.wf(),
    {
        let empty = String::new();
        let f = filter_names(&names, empty.as_str());
        let refiltered_cities = filter_names(&self.cities.source, empty.as_str());
        self.view_mode = ViewMode::Countries;
        self.countries.source = names;
        self.countries.filtered = f;
        self.countries.index = 0;
        self.cities.filtered = refiltered_cities;
        self.cities.index = 0;
        self.search_string = String::new();
        self.connection_output = String::new();
        proof {
            assert(apply_countries_step(old(self)@, self@.countries.source, self@)) by {
                assert(self@ =~= (AppV {
                    view_mode: ViewMode::Countries,
                    countries: ListV {
                        source: self@.countries.source,
                        filtered: filter_spec(self@.countries.source, Seq::empty()),
                        index: 0,
                    },
                    cities: ListV {
                        source: old(self)@.cities.source,
                        filtered: filter_spec(old(self)@.cities.source, Seq::empty()),
                        index: 0,
                    },
                    search_string: Seq::empty(),
                    connection_output: Seq::empty(),
                    ..old(self)@
                }));
            };
        }
    }

    /// A city list for `country` from the provider.
    pub fn apply_cities(&mut self, country: String, names: Vec<String>)
        ensures
            apply_cities_step(old(self)@, country@, names.deep_view(), final(self)@),
            final(self)@.wf(),
    {
        let empty = String::new();
        let f = filter_names(&names, empty.as_str());
        let refiltered = filter_names(&self.countries.source, empty.as_str());
        let refiltered_len = refiltered.len();
        self.view_mode = ViewMode::Cities;
        self.countries.filtered = refiltered;
        if self.countries.index >= refiltered_len {
            self.countries.index = if refiltered_len == 0 {
                0
            } else {
                refiltered_len - 1
            };
        }
        self.cities.source = names;
        self.cities.filtered = f;
        self.cities.index = 0;
        self.search_string = String::new();
        self.selected_country = country;
        proof {
            let refiltered_v = filter_spec(old(self)@.countries.source, Seq::empty());
            assert(self@ =~= (AppV {
                view_mode: ViewMode::Cities,
                countries: ListV {
                    source: old(self)@.countries.source,
                    filtered: refiltered_v,
                    index: clamp_index(old(self)@.countries.index, refiltered_v.len() as int),
                },
                cities: ListV {
                    source: self@.cities.source,
                    filtered: filter_spec(self@.cities.source, Seq::empty()),
                    index: 0,
                },
                search_string: Seq::empty(),
                selected_country: country@,
                ..old(self)@
            }));
        }
    }

    /// The outcome of a connect attempt: the provider's success flag and its
    /// output, already joined for display.
    pub fn apply_connect(&mut self, success: bool, message: String)
        ensures
            apply_connect_step(old(self)@, success, message@, final(self)@),
            old(self)@.wf() ==> final(self)@.wf(),
    {
        if success {
            let empty = String::new();
            let refiltered = filter_names(&self.countries.source, empty.as_str());
            let refiltered_len = refiltered.len();
            let refiltered_cities = filter_names(&self.cities.source, empty.as_str());
            let refiltered_cities_len = refiltered_cities.len();
            self.view_mode = ViewMode::Connection;
            self.connected = true;
            self.connection_output = message;
            self.search_string = String::new();
            self.countries.filtered = refiltered;
            if self.countries.index >= refiltered_len {
                self.countries.index = if refiltered_len == 0 {
                    0
                } else {
                    refiltered_len - 1
                };
            }
            self.cities.filtered = refiltered_cities;
            if self.cities.index >= refiltered_cities_len {
                self.cities.index = if refiltered_cities_len == 0 {
                    0
                } else {
                    refiltered_cities_len - 1
                };
            }
            proof {
                let refiltered_v = filter_spec(old(self)@.countries.source, Seq::empty());
                let refiltered_cities_v = filter_spec(old(self)@.cities.source, Seq::empty());
                assert(self@ =~= (AppV {
                    view_mode: ViewMode::Connection,
                    connected: true,
                    connection_output: message@,
                    search_string: Seq::empty(),
                    countries: ListV {
                        source: old(self)@.countries.source,
                        filtered: refiltered_v,
                        index: clamp_index(old(self)@.countries.index, refiltered_v.len() as int),
                    },
                    cities: ListV {
                        source: old(self)@.cities.source,
                        filtered: refiltered_cities_v,
                        index: clamp_index(
                            old(self)@.cities.index,
                            refiltered_cities_v.len() as int,
                        ),
                    },
                    ..old(self)@
                }));
            }
        } else {
            self.connection_output = message;
            proof {
                assert(self@ =~= (AppV { connection_output: message@, ..old(self)@ }));
            }
        }
    }
}

impl App {
    /// A fresh country listing from the provider, as raw text: its
    /// whitespace-separated tokens become the country names.
    pub fn set_countries(&mut self, text: &str)
        ensures
            apply_countries_step(old(self)@, tokens_of(text@), final(self)@),
            final(self)@.wf(),
    {
        let names = parse_names(text);
        self.apply_countries(names);
    }

    /// A fresh city listing for `country` from the provider, as raw text:
    /// its whitespace-separated tokens become the city names.
    pub fn set_cities(&mut self, country: String, text: &str)
        ensures
            apply_cities_step(old(self)@, country@, tokens_of(text@), final(self)@),
            final(self)@.wf(),
    {
        let names = parse_names(text);
        self.apply_cities(country, names);
    }

    /// The outcome of a connect attempt: the provider's success flag and its
    /// raw output, whose lines are rejoined with newlines for display.
    pub fn connect(&mut self, success: bool, output: &str)
        ensures
            apply_connect_step(old(self)@, success, display_of(output@), final(self)@),
            old(self)@.wf() ==> final(self)@.wf(),
    {
        let message = display_text(output);
        self.apply_connect(success, message);
    }
}

/// Filtering an empty list shows nothing.
pub proof fn lemma_filter_empty(search: Seq<char>)
    ensures
        filter_spec(Seq::empty(), search) == Seq::<Seq<char>>::empty(),
{
    reveal(Seq::filter);
}

/// A normal-mode step keeps the state well formed.
pub proof fn lemma_normal_step_wf(pre: AppV, key: Key, post: AppV, act: ActV)
    requires
        pre.wf(),
        normal_step(pre, key, post, act),
    ensures
        post.wf(),
{
}

/// A search-mode step keeps the state well formed.
pub proof fn lemma_search_step_wf(pre: AppV, key: Key, post: AppV, act: ActV)
    requires
        pre.wf(),
        search_step(pre, key, post, act),
    ensures
        post.wf(),
{
}

} // verus!
