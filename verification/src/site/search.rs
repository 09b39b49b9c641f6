//! The search box of the header: debounced typing, the dropdown of results
//! and the requests it makes.

use vstd::prelude::*;

verus! {

/// How long typing must pause before the typed text is searched, in ms.
pub const DEBOUNCE_MS: u32 = 1000;

/// How long the dropdown stays open after the box loses focus, in ms.
pub const HIDE_DELAY_MS: u32 = 150;

/// The query prefix of a search request.
pub const SEARCH_PATH: &'static str = "/search?search=";

/// The state of the search box: the searched text, whether the dropdown is
/// shown (the user is typing), and the number of results found for the last
/// answered request (`None` while waiting for one).
pub struct SearchBox {
    pub search: String,
    pub typed: bool,
    pub results: Option<usize>,
}

/// The state of the search box as mathematical values.
pub struct SearchModel {
    pub search: Seq<char>,
    pub typed: bool,
    pub results: Option<usize>,
}

impl View for SearchBox {
    type V = SearchModel;

    open spec fn view(&self) -> SearchModel {
        SearchModel { search: self.search@, typed: self.typed, results: self.results }
    }
}

/// What happens to the search box.
pub enum SearchEvent {
    /// The text of the input became the given text.
    Input(String),
    /// The debounce delay started for the given text elapsed.
    DebounceElapsed(String),
    /// The box got the focus while holding the given text.
    FocusIn(String),
    /// The box lost the focus.
    FocusOut,
    /// The delay started when the box lost the focus elapsed.
    HideElapsed,
    /// A result of the dropdown was clicked.
    ResultClicked,
    /// A search request was answered with the given number of results.
    Found(usize),
}

/// The events as mathematical values.
pub enum SearchEventModel {
    Input(Seq<char>),
    DebounceElapsed(Seq<char>),
    FocusIn(Seq<char>),
    FocusOut,
    HideElapsed,
    ResultClicked,
    Found(usize),
}

impl View for SearchEvent {
    type V = SearchEventModel;

    open spec fn view(&self) -> SearchEventModel {
        match self {
            SearchEvent::Input(t) => SearchEventModel::Input(t@),
            SearchEvent::DebounceElapsed(t) => SearchEventModel::DebounceElapsed(t@),
            SearchEvent::FocusIn(t) => SearchEventModel::FocusIn(t@),
            SearchEvent::FocusOut => SearchEventModel::FocusOut,
            SearchEvent::HideElapsed => SearchEventModel::HideElapsed,
            SearchEvent::ResultClicked => SearchEventModel::ResultClicked,
            SearchEvent::Found(n) => SearchEventModel::Found(*n),
        }
    }
}

/// What the front end does after an event: the search request to send, the
/// text for which the debounce delay restarts (replacing a pending one), and
/// whether the hide delay starts.
pub struct SearchEffects {
    pub fetch: Option<String>,
    pub debounce: Option<String>,
    pub hide_later: bool,
}

/// The state after an event.
pub open spec fn next_search(s: SearchModel, e: SearchEventModel) -> SearchModel {
    match e {
        SearchEventModel::Input(t) => if t.len() == 0 {
            SearchModel { typed: false, results: None, ..s }
        } else {
            SearchModel { typed: true, results: None, ..s }
        },
        SearchEventModel::DebounceElapsed(t) => SearchModel { search: t, ..s },
        SearchEventModel::FocusIn(t) => if t.len() == 0 {
            s
        } else {
            SearchModel { search: t, typed: true, ..s }
        },
        SearchEventModel::FocusOut => s,
        SearchEventModel::HideElapsed => SearchModel { typed: false, results: None, ..s },
        SearchEventModel::ResultClicked => SearchModel { typed: false, results: None, ..s },
        SearchEventModel::Found(n) => SearchModel { results: Some(n), ..s },
    }
}

/// The request that a change of state sends: the search is requested again
/// when the searched text or the shown state changed and the text is not
/// empty.
pub open spec fn request_after(before: SearchModel, after: SearchModel) -> Option<Seq<char>> {
    if (before.search != after.search || before.typed != after.typed) && after.search.len() > 0 {
        Some(SEARCH_PATH@ + after.search)
    } else {
        None
    }
}

/// The text for which an event restarts the debounce delay: a non-empty typed
/// text.
pub open spec fn debounce_after(e: SearchEventModel) -> Option<Seq<char>> {
    match e {
        SearchEventModel::Input(t) => if t.len() > 0 {
            Some(t)
        } else {
            None
        },
        _ => None,
    }
}

/// The text of an optional string.
pub open spec fn opt_text(s: Option<String>) -> Option<Seq<char>> {
    match s {
        Some(t) => Some(t@),
        None => None,
    }
}

/// Whether two texts differ.
fn differ(a: &String, b: &String) -> (r: bool)
    ensures
        r == (a@ != b@),
{
    !a.eq(b)
}

/// Handles one event of the search box.
pub fn search_step(state: SearchBox, event: SearchEvent) -> (r: (SearchBox, SearchEffects))
    ensures
        r.0@ == next_search(state@, event@),
        opt_text(r.1.fetch) == request_after(state@, r.0@),
        opt_text(r.1.debounce) == debounce_after(event@),
        r.1.hide_later == (event@ is FocusOut),
        event@ matches SearchEventModel::Input(t) ==> (r.0.search@ == state.search@
            && r.0.results is None && r.0.typed == (t.len() > 0) && (t.len() > 0 ==> opt_text(
            r.1.debounce,
        ) == Some(t)) && (t.len() == 0 ==> r.1.debounce is None)),
        !(event@ is Input) ==> r.1.debounce is None,
        event@ matches SearchEventModel::DebounceElapsed(t) ==> (r.0.search@ == t && r.0.typed
            == state.typed && r.0.results == state.results),
        event@ matches SearchEventModel::FocusIn(t) ==> ((t.len() > 0 ==> r.0.search@ == t
            && r.0.typed && r.0.results == state.results) && (t.len() == 0 ==> r.0@ == state@)),
        event@ is FocusOut ==> r.0@ == state@,
        (event@ is HideElapsed || event@ is ResultClicked) ==> (!r.0.typed && r.0.results is None
            && r.0.search@ == state.search@),
        event@ matches SearchEventModel::Found(n) ==> (r.0.results == Some(n) && r.0.search@
            == state.search@ && r.0.typed == state.typed),
        r.1.fetch matches Some(f) ==> (f@ == SEARCH_PATH@ + r.0.search@ && r.0.search@.len() > 0
            && (r.0.search@ != state.search@ || r.0.typed != state.typed)),
        r.1.fetch is None ==> (r.0.search@.len() == 0 || (r.0.search@ == state.search@
            && r.0.typed == state.typed)),
{
    let ghost before = state@;
    let old_search = state.search.clone();
    let old_typed = state.typed;
    let mut debounce: Option<String> = None;
    let mut hide_later = false;
    let next = match event {
        SearchEvent::Input(t) => {
            if t.as_str().is_empty() {
                SearchBox { typed: false, results: None, ..state }
            } else {
                debounce = Some(t);
                SearchBox { typed: true, results: None, ..state }
            }
        },
        SearchEvent::DebounceElapsed(t) => SearchBox { search: t, ..state },
        SearchEvent::FocusIn(t) => {
            if t.as_str().is_empty() {
                state
            } else {
                SearchBox { search: t, typed: true, ..state }
            }
        },
        SearchEvent::FocusOut => {
            hide_later = true;
            state
        },
        SearchEvent::HideElapsed => SearchBox { typed: false, results: None, ..state },
        SearchEvent::ResultClicked => SearchBox { typed: false, results: None, ..state },
        SearchEvent::Found(n) => SearchBox { results: Some(n), ..state },
    };
    let changed = differ(&old_search, &next.search) || old_typed != next.typed;
    let fetch = if changed && !next.search.as_str().is_empty() {
        Some(String::from_str(SEARCH_PATH).concat(next.search.as_str()))
    } else {
        None
    };
    (next, SearchEffects { fetch, debounce, hide_later })
}

/// What the dropdown shows.
pub enum ResultsView {
    /// A spinner, while no answer is there.
    Loading,
    /// The note that nothing was found.
    NoResults,
    /// The found assets.
    Listed,
}

/// What the dropdown shows for the number of results of the last answer.
pub fn results_view(results: Option<usize>) -> (r: ResultsView)
    ensures
        results is None ==> r is Loading,
        results == Some(0usize) ==> r is NoResults,
        results matches Some(n) && n > 0 ==> r is Listed,
{
    match results {
        None => ResultsView::Loading,
        Some(n) => if n == 0 {
            ResultsView::NoResults
        } else {
            ResultsView::Listed
        },
    }
}

/// The class that shows or hides the dropdown.
pub fn dropdown_class(typed: bool) -> (r: &'static str)
    ensures
        typed ==> r@ == "show"@,
        !typed ==> r@ == "hide"@,
{
    if typed {
        "show"
    } else {
        "hide"
    }
}

/// Clearing the box hides the dropdown and forgets the results; the only
/// request it can send is the held search again, when the dropdown was shown
/// (the request follows any change of the shown state). Clicking a result or
/// the end of the hide delay hides the dropdown too, and no request is ever
/// sent for an empty text.
pub proof fn lemma_search_box_closes(s: SearchModel, e: SearchEventModel)
    ensures
        e matches SearchEventModel::Input(t) && t.len() == 0 ==> {
            &&& !next_search(s, e).typed
            &&& next_search(s, e).results is None
            &&& request_after(s, next_search(s, e)) is Some ==> s.typed && request_after(
                s,
                next_search(s, e),
            ) == Some(SEARCH_PATH@ + s.search)
        },
        (e is ResultClicked || e is HideElapsed) ==> !next_search(s, e).typed
            && next_search(s, e).results is None,
        request_after(s, next_search(s, e)) matches Some(p) ==> p.len() > SEARCH_PATH@.len(),
{
}

/// Typing a new text and pausing for the debounce delay sends the search for
/// that text.
pub proof fn lemma_typed_text_is_searched(s: SearchModel, t: Seq<char>)
    requires
        t.len() > 0,
        t != s.search,
    ensures
        ({
            let typing = next_search(s, SearchEventModel::Input(t));
            let paused = next_search(typing, SearchEventModel::DebounceElapsed(t));
            &&& typing.typed
            &&& debounce_after(SearchEventModel::Input(t)) == Some(t)
            &&& paused.search == t
            &&& request_after(typing, paused) == Some(SEARCH_PATH@ + t)
        }),
{
}

/// Focusing the box while it holds text shows the dropdown and searches that
/// text: the held search becomes the text, and when the dropdown was hidden or
/// the text is new, the search for it is requested.
pub proof fn lemma_focus_in_shows_dropdown(s: SearchModel, t: Seq<char>)
    requires
        t.len() > 0,
    ensures
        next_search(s, SearchEventModel::FocusIn(t)).typed,
        next_search(s, SearchEventModel::FocusIn(t)).search == t,
        next_search(s, SearchEventModel::FocusIn(t)).results == s.results,
        (!s.typed || s.search != t) ==> request_after(s, next_search(s, SearchEventModel::FocusIn(t)))
            == Some(SEARCH_PATH@ + t),
{
}

/// Each event changes only what it is about: typing changes the shown state
/// and forgets the results but never the held search; the end of the debounce
/// delay changes only the held search; an answer changes only the results.
pub proof fn lemma_search_events_touch_their_part(s: SearchModel, e: SearchEventModel)
    ensures
        e matches SearchEventModel::Input(t) ==> (next_search(s, e).search == s.search
            && next_search(s, e).typed == (t.len() > 0) && next_search(s, e).results is None),
        e matches SearchEventModel::DebounceElapsed(t) ==> next_search(s, e) == (SearchModel { search: t, ..s }),
        e matches SearchEventModel::Found(n) ==> next_search(s, e) == (SearchModel { results: Some(n), ..s }),
        e is FocusOut ==> next_search(s, e) == s,
{
}

} // verus!
