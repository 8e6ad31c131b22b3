use vstd::prelude::*;

use crate::app::{
    apply_cities_step, apply_connect_step, apply_countries_step, inc_index, key_step,
    lemma_normal_step_wf, lemma_search_step_wf, ActV, AppV, InputMode, Key, ViewMode,
};

verus! {

/// Law: however the cursor is moved, it stays within `[0, len - 1]` of the
/// filtered list, or at 0 when that list is empty. One key step from a
/// well-formed state leaves a well-formed state, so every sequence of key
/// presses does.
pub proof fn lemma_key_step_preserves_wf(pre: AppV, key: Key, post: AppV, act: ActV)
    requires
        pre.wf(),
        key_step(pre, key, post, act),
    ensures
        post.wf(),
{
    match pre.input_mode {
        InputMode::Normal => lemma_normal_step_wf(pre, key, post, act),
        InputMode::Search => lemma_search_step_wf(pre, key, post, act),
    }
}

/// Law: a key press on its own never changes the displayed view. Views
/// change only when a provider result is applied.
pub proof fn lemma_key_step_keeps_view(pre: AppV, key: Key, post: AppV, act: ActV)
    requires
        key_step(pre, key, post, act),
    ensures
        post.view_mode == pre.view_mode,
{
}

/// Law: entering the countries view resets the search buffer and puts the
/// destination cursor at 0; the city cursor resets too.
pub proof fn lemma_countries_transition_resets(pre: AppV, names: Seq<Seq<char>>, post: AppV)
    requires
        apply_countries_step(pre, names, post),
    ensures
        post.view_mode == ViewMode::Countries,
        post.search_string == Seq::<char>::empty(),
        post.countries.index == 0,
        post.cities.index == 0,
{
}

/// Law: entering the cities view resets the search buffer and puts the
/// destination cursor at 0.
pub proof fn lemma_cities_transition_resets(
    pre: AppV,
    country: Seq<char>,
    names: Seq<Seq<char>>,
    post: AppV,
)
    requires
        apply_cities_step(pre, country, names, post),
    ensures
        post.view_mode == ViewMode::Cities,
        post.search_string == Seq::<char>::empty(),
        post.cities.index == 0,
{
}

/// Law: a successful connect raises the connected flag, moves to the
/// connection view and clears the search buffer; a failed connect records
/// the report but leaves the connected flag, the view, both lists and
/// everything else as they were.
pub proof fn lemma_connect_outcome(pre: AppV, success: bool, message: Seq<char>, post: AppV)
    requires
        apply_connect_step(pre, success, message, post),
    ensures
        success ==> post.connected && post.view_mode == ViewMode::Connection
            && post.search_string == Seq::<char>::empty(),
        !success ==> post.connected == pre.connected && post.view_mode == pre.view_mode
            && post.countries == pre.countries && post.cities == pre.cities
            && post.search_string == pre.search_string && post.input_mode == pre.input_mode
            && post.exit == pre.exit,
{
}

/// Law: from the cities view, `h` asks for the country list to be refetched,
/// and applying the refetched list returns to the countries view with the
/// city cursor reset to 0 and the given names as the new source.
pub proof fn lemma_back_from_cities(
    pre: AppV,
    mid: AppV,
    post: AppV,
    act: ActV,
    names: Seq<Seq<char>>,
)
    requires
        pre.input_mode == InputMode::Normal,
        pre.view_mode == ViewMode::Cities,
        key_step(pre, Key::Char('h'), mid, act),
        apply_countries_step(mid, names, post),
    ensures
        act == ActV::FetchCountries,
        post.view_mode == ViewMode::Countries,
        post.cities.index == 0,
        post.countries.source == names,
        post.search_string == Seq::<char>::empty(),
{
}

/// Law: `g` pressed twice in a row in normal mode jumps the active cursor to
/// the top; the first press changes nothing but the pending-chord flag.
pub proof fn lemma_chord_jump(s0: AppV, s1: AppV, s2: AppV, a1: ActV, a2: ActV)
    requires
        s0.wf(),
        s0.input_mode == InputMode::Normal,
        !s0.awaiting_second_g,
        key_step(s0, Key::Char('g'), s1, a1),
        key_step(s1, Key::Char('g'), s2, a2),
    ensures
        s1 == s0.with_chord(true),
        s2.active_index() == 0,
        !s2.awaiting_second_g,
{
}

/// Law: a single `g` followed by `j` does not jump; the `j` keeps its own
/// clamped downward movement and the pending chord is cleared.
pub proof fn lemma_chord_cancelled(s0: AppV, s1: AppV, s2: AppV, a1: ActV, a2: ActV)
    requires
        s0.wf(),
        s0.input_mode == InputMode::Normal,
        !s0.awaiting_second_g,
        key_step(s0, Key::Char('g'), s1, a1),
        key_step(s1, Key::Char('j'), s2, a2),
    ensures
        !s2.awaiting_second_g,
        s2.active_index() == inc_index(s0.active_index(), s0.active_len()),
{
}

} // verus!
