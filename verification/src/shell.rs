//! State of the application shell: which page is open, which settings tab is
//! selected, and the progress and outcome of the last search.
//!
//! The window layer reports what happened (a query was submitted, a search
//! finished, a key binding fired) and draws what the state says.

use vstd::prelude::*;
use crate::settings::SettingsTab;

verus! {

/// Whether `c` has the Unicode property White_Space, the set that
/// `char::is_whitespace` and `str::trim` use.
pub open spec fn is_white_space(c: char) -> bool {
    let n = c as int;
    ||| 0x9 <= n <= 0xd
    ||| n == 0x20
    ||| n == 0x85
    ||| n == 0xa0
    ||| n == 0x1680
    ||| 0x2000 <= n <= 0x200a
    ||| n == 0x2028
    ||| n == 0x2029
    ||| n == 0x202f
    ||| n == 0x205f
    ||| n == 0x3000
}

/// `s` without its leading white space.
pub open spec fn trim_start_of(s: Seq<char>) -> Seq<char>
    decreases s.len(),
{
    if s.len() > 0 && is_white_space(s[0]) {
        trim_start_of(s.drop_first())
    } else {
        s
    }
}

/// `s` without its trailing white space.
pub open spec fn trim_end_of(s: Seq<char>) -> Seq<char>
    decreases s.len(),
{
    if s.len() > 0 && is_white_space(s.last()) {
        trim_end_of(s.drop_last())
    } else {
        s
    }
}

/// `s` without its leading and trailing white space.
pub open spec fn trimmed(s: Seq<char>) -> Seq<char> {
    trim_end_of(trim_start_of(s))
}

/// Calls `str::trim` on `s`.
///
/// Claims what the documentation of `trim` says: the result is `s` with its
/// leading and trailing characters of the Unicode property White_Space removed.
#[verifier::external_body]
fn trim_text(s: &str) -> (t: &str)
    ensures
        t@ == trimmed(s@),
{
    s.trim()
}

proof fn lemma_trim_start_blank(s: Seq<char>)
    ensures
        trim_start_of(s).len() == 0 <==> forall|k: int| 0 <= k < s.len() ==> is_white_space(#[trigger] s[k]),
        trim_start_of(s).len() > 0 ==> !is_white_space(trim_start_of(s)[0]),
    decreases s.len(),
{
    if s.len() > 0 && is_white_space(s[0]) {
        lemma_trim_start_blank(s.drop_first());
        if forall|k: int| 0 <= k < s.drop_first().len() ==> is_white_space(#[trigger] s.drop_first()[k]) {
            assert forall|k: int| 0 <= k < s.len() implies is_white_space(#[trigger] s[k]) by {
                if k > 0 {
                    assert(s[k] == s.drop_first()[k - 1]);
                }
            }
        } else {
            let k = choose|k: int| 0 <= k < s.drop_first().len() && !is_white_space(#[trigger] s.drop_first()[k]);
            assert(s[k + 1] == s.drop_first()[k]);
        }
    } else if s.len() > 0 {
        assert(!is_white_space(s[0]));
    }
}

proof fn lemma_trim_end_keeps_leading(s: Seq<char>)
    requires
        s.len() > 0,
        !is_white_space(s[0]),
    ensures
        trim_end_of(s).len() > 0,
    decreases s.len(),
{
    if is_white_space(s.last()) {
        assert(s.len() > 1);
        assert(s.drop_last()[0] == s[0]);
        lemma_trim_end_keeps_leading(s.drop_last());
    }
}

/// A query trims to nothing exactly when all of its characters are white space.
pub proof fn lemma_blank_query(query: Seq<char>)
    ensures
        trimmed(query).len() == 0 <==> forall|k: int|
            0 <= k < query.len() ==> is_white_space(#[trigger] query[k]),
{
    lemma_trim_start_blank(query);
    let t = trim_start_of(query);
    if t.len() > 0 {
        lemma_trim_end_keeps_leading(t);
    }
}

/// The page the shell shows.
#[derive(Clone, Copy, PartialEq, Eq, Debug, Structural)]
pub enum AppPage {
    Search,
    Settings,
}

/// The shell's state; `R` is a row of search results.
#[derive(Debug, Clone)]
pub struct ShellState<R> {
    pub search_busy: bool,
    pub search_error: Option<String>,
    pub search_results: Vec<R>,
    pub page: AppPage,
    pub settings_tab: SettingsTab,
}

/// The shell's state, with text and rows as sequences.
pub ghost struct ShellModel<R> {
    pub busy: bool,
    pub error: Option<Seq<char>>,
    pub results: Seq<R>,
    pub page: AppPage,
    pub tab: SettingsTab,
}

impl<R> View for ShellState<R> {
    type V = ShellModel<R>;

    open spec fn view(&self) -> ShellModel<R> {
        ShellModel {
            busy: self.search_busy,
            error: match self.search_error {
                Some(e) => Some(e@),
                None => None,
            },
            results: self.search_results@,
            page: self.page,
            tab: self.settings_tab,
        }
    }
}

/// The state a fresh window starts in: the search page, General tab, no search.
pub open spec fn initial_shell<R>() -> ShellModel<R> {
    ShellModel {
        busy: false,
        error: None,
        results: Seq::empty(),
        page: AppPage::Search,
        tab: SettingsTab::General,
    }
}

/// Whether `query` asks for a search: something is left once white space is trimmed.
pub open spec fn is_search_query(query: Seq<char>) -> bool {
    trimmed(query).len() > 0
}

/// After submitting `query`: a real query starts a search, clearing the last
/// error and results; a blank one changes nothing.
pub open spec fn after_submit<R>(s: ShellModel<R>, query: Seq<char>) -> ShellModel<R> {
    if is_search_query(query) {
        ShellModel { busy: true, error: None, results: Seq::empty(), ..s }
    } else {
        s
    }
}

/// After a search finishes: no longer busy; rows replace the results, an
/// error message becomes the error.
pub open spec fn after_finish<R>(s: ShellModel<R>, outcome: Result<Seq<R>, Seq<char>>) -> ShellModel<R> {
    match outcome {
        Ok(rows) => ShellModel { busy: false, results: rows, ..s },
        Err(e) => ShellModel { busy: false, error: Some(e), ..s },
    }
}

/// After the open-settings binding: the settings page.
pub open spec fn after_open_settings<R>(s: ShellModel<R>) -> ShellModel<R> {
    ShellModel { page: AppPage::Settings, ..s }
}

/// After the close-settings binding: back to search if settings was open.
pub open spec fn after_close_settings<R>(s: ShellModel<R>) -> ShellModel<R> {
    if s.page == AppPage::Settings {
        ShellModel { page: AppPage::Search, ..s }
    } else {
        s
    }
}


/// A shell action that a key binding can trigger.
#[derive(Clone, Copy, PartialEq, Eq, Debug, Structural)]
pub enum ShellAction {
    OpenSettings,
    CloseSettings,
}

/// A keystroke bound to a shell action, in the key syntax of the window layer.
#[derive(Debug, Clone, PartialEq, Eq)]
pub struct ShellKeyBinding {
    pub keys: &'static str,
    pub action: ShellAction,
}

/// The shell's key bindings: `cmd-,` and `ctrl-,` open settings, `escape` leaves them.
pub open spec fn shell_keybindings() -> Seq<(Seq<char>, ShellAction)> {
    seq![
        ("cmd-,"@, ShellAction::OpenSettings),
        ("ctrl-,"@, ShellAction::OpenSettings),
        ("escape"@, ShellAction::CloseSettings),
    ]
}

/// The shell's key bindings, in registration order.
pub fn app_keybindings() -> (bindings: Vec<ShellKeyBinding>)
    ensures
        bindings@.len() == shell_keybindings().len(),
        forall|i: int|
            0 <= i < bindings@.len() ==> (#[trigger] bindings@[i]).keys@ == shell_keybindings()[i].0
                && bindings@[i].action == shell_keybindings()[i].1,
        bindings@.len() == 3,
        bindings@[0].keys@ == "cmd-,"@ && bindings@[0].action == ShellAction::OpenSettings,
        bindings@[1].keys@ == "ctrl-,"@ && bindings@[1].action == ShellAction::OpenSettings,
        bindings@[2].keys@ == "escape"@ && bindings@[2].action == ShellAction::CloseSettings,
{
    let mut bindings: Vec<ShellKeyBinding> = Vec::new();
    bindings.push(ShellKeyBinding { keys: "cmd-,", action: ShellAction::OpenSettings });
    bindings.push(ShellKeyBinding { keys: "ctrl-,", action: ShellAction::OpenSettings });
    bindings.push(ShellKeyBinding { keys: "escape", action: ShellAction::CloseSettings });
    bindings
}


/// Position, on the Keybinds settings tab, of the hint that describes `action`.
pub open spec fn hint_index(action: ShellAction) -> int {
    match action {
        ShellAction::OpenSettings => 0,
        ShellAction::CloseSettings => 1,
    }
}

/// Whether `word` occurs in `text`.
pub open spec fn mentions(text: Seq<char>, word: Seq<char>) -> bool {
    exists|a: int|
        0 <= a && a + word.len() <= text.len() && #[trigger] text.subrange(a, a + word.len()) == word
}

/// The Keybinds settings tab describes the shell's key bindings: the hint of
/// each action names every key bound to it, the open-settings hint lists
/// exactly its keys separated by ` / `, and the leave-settings hint is its one
/// key with the condition under which it applies.
pub proof fn lemma_keybind_hints_match_bindings()
    ensures
        crate::settings::keybind_hints().len() == 2,
        forall|i: int|
            0 <= i < shell_keybindings().len() ==> mentions(
                crate::settings::keybind_hints()[hint_index(#[trigger] shell_keybindings()[i].1)].1,
                shell_keybindings()[i].0,
            ),
        shell_keybindings()[0].1 == ShellAction::OpenSettings,
        shell_keybindings()[1].1 == ShellAction::OpenSettings,
        shell_keybindings()[2].1 == ShellAction::CloseSettings,
        crate::settings::keybind_hints()[0].1 == shell_keybindings()[0].0 + " / "@
            + shell_keybindings()[1].0,
        crate::settings::keybind_hints()[1].1 == shell_keybindings()[2].0
            + " (when Settings is open)"@,
{
    reveal_strlit("cmd-,");
    reveal_strlit("ctrl-,");
    reveal_strlit("escape");
    reveal_strlit(" / ");
    reveal_strlit(" (when Settings is open)");
    reveal_strlit("cmd-, / ctrl-,");
    reveal_strlit("escape (when Settings is open)");
    let open_hint = crate::settings::keybind_hints()[0].1;
    let close_hint = crate::settings::keybind_hints()[1].1;
    assert(open_hint =~= "cmd-,"@ + " / "@ + "ctrl-,"@);
    assert(close_hint =~= "escape"@ + " (when Settings is open)"@);
    assert(open_hint.subrange(0, 0int + "cmd-,"@.len()) =~= "cmd-,"@);
    assert(open_hint.subrange(8, 8int + "ctrl-,"@.len()) =~= "ctrl-,"@);
    assert(close_hint.subrange(0, 0int + "escape"@.len()) =~= "escape"@);
    assert(mentions(open_hint, "cmd-,"@));
    assert(mentions(open_hint, "ctrl-,"@));
    assert(mentions(close_hint, "escape"@));
    assert forall|i: int|
        0 <= i < shell_keybindings().len() implies mentions(
        crate::settings::keybind_hints()[hint_index(#[trigger] shell_keybindings()[i].1)].1,
        shell_keybindings()[i].0,
    ) by {
        if i == 0 {
        } else if i == 1 {
        } else {
        }
    }
}

/// Whether the search page shows its workspace (sidebar and results) rather
/// than the welcome panel.
pub open spec fn shows_workspace<R>(s: ShellModel<R>, has_text: bool) -> bool {
    has_text || s.busy || s.error is Some || s.results.len() > 0
}

/// What the results panel shows.
#[derive(Debug, Clone, PartialEq, Eq)]
pub enum ResultsPanel {
    /// A search is running.
    Searching,
    /// The last search failed with this message.
    Failed(String),
    /// No rows to show.
    NoHits,
    /// The rows in `search_results`.
    Hits,
}

/// The results panel for a state: a running search first, then an error,
/// then the rows if there are any.
pub open spec fn panel_of<R>(s: ShellModel<R>, p: ResultsPanel) -> bool {
    if s.busy {
        p is Searching
    } else if s.error is Some {
        p matches ResultsPanel::Failed(m) && m@ == s.error->Some_0
    } else if s.results.len() == 0 {
        p is NoHits
    } else {
        p is Hits
    }
}

impl<R> ShellState<R> {
    /// A fresh shell: search page, General tab, no search yet.
    pub fn new() -> (s: Self)
        ensures
            s@ == initial_shell::<R>(),
            s.page == AppPage::Search,
            s.settings_tab == SettingsTab::General,
            !s.search_busy,
            s.search_error is None,
            s.search_results@.len() == 0,
    {
        ShellState {
            search_busy: false,
            search_error: None,
            search_results: Vec::new(),
            page: AppPage::Search,
            settings_tab: SettingsTab::General,
        }
    }

    /// Handles a submitted query. Gives the trimmed query to search for, or
    /// nothing, leaving the state as it was, when the query is blank.
    pub fn submit_search(&mut self, query: &str) -> (run: Option<String>)
        ensures
            final(self)@ == after_submit(old(self)@, query@),
            is_search_query(query@) <==> run is Some,
            run matches Some(q) ==> q@ == trimmed(query@),
            run is None <==> forall|k: int|
                0 <= k < query@.len() ==> is_white_space(#[trigger] query@[k]),
            run is None ==> {
                &&& final(self).search_busy == old(self).search_busy
                &&& final(self).search_error == old(self).search_error
                &&& final(self).search_results@ == old(self).search_results@
                &&& final(self).page == old(self).page
                &&& final(self).settings_tab == old(self).settings_tab
            },
            run is Some ==> {
                &&& final(self).search_busy
                &&& final(self).search_error is None
                &&& final(self).search_results@.len() == 0
                &&& final(self).page == old(self).page
                &&& final(self).settings_tab == old(self).settings_tab
            },
    {
        proof {
            lemma_blank_query(query@);
        }
        let q = trim_text(query);
        if q.is_empty() {
            return None;
        }
        self.search_busy = true;
        self.search_error = None;
        self.search_results.clear();
        Some(String::from_str(q))
    }

    /// Records the outcome of a search.
    pub fn finish_search(&mut self, outcome: Result<Vec<R>, String>)
        ensures
            final(self)@ == after_finish(
                old(self)@,
                match outcome {
                    Ok(rows) => Ok(rows@),
                    Err(e) => Err(e@),
                },
            ),
            !final(self).search_busy,
            final(self).page == old(self).page,
            final(self).settings_tab == old(self).settings_tab,
            outcome matches Ok(rows) ==> (final(self).search_results@ == rows@
                && final(self).search_error == old(self).search_error),
            outcome matches Err(e) ==> (final(self).search_error == Some(e)
                && final(self).search_results@ == old(self).search_results@),
    {
        self.search_busy = false;
        match outcome {
            Ok(rows) => {
                self.search_results = rows;
            },
            Err(e) => {
                self.search_error = Some(e);
            },
        }
    }

    /// Opens the settings page.
    pub fn open_settings(&mut self)
        ensures
            final(self)@ == after_open_settings(old(self)@),
            final(self).page == AppPage::Settings,
            final(self).search_busy == old(self).search_busy,
            final(self).search_error == old(self).search_error,
            final(self).search_results@ == old(self).search_results@,
            final(self).settings_tab == old(self).settings_tab,
    {
        self.page = AppPage::Settings;
    }

    /// Leaves the settings page if it is open; tells whether it was, so that
    /// the caller can hand focus back to the search field.
    pub fn close_settings(&mut self) -> (left: bool)
        ensures
            final(self)@ == after_close_settings(old(self)@),
            left == (old(self).page == AppPage::Settings),
            final(self).page == AppPage::Search,
            final(self).search_busy == old(self).search_busy,
            final(self).search_error == old(self).search_error,
            final(self).search_results@ == old(self).search_results@,
            final(self).settings_tab == old(self).settings_tab,
    {
        if self.page == AppPage::Settings {
            self.page = AppPage::Search;
            true
        } else {
            false
        }
    }

    /// Selects a settings tab.
    pub fn select_tab(&mut self, tab: SettingsTab)
        ensures
            final(self)@ == (ShellModel { tab, ..old(self)@ }),
            final(self).settings_tab == tab,
            final(self).page == old(self).page,
            final(self).search_busy == old(self).search_busy,
            final(self).search_error == old(self).search_error,
            final(self).search_results@ == old(self).search_results@,
    {
        self.settings_tab = tab;
    }

    /// Whether the search page shows its workspace; `has_text` tells whether
    /// the search field holds any text.
    pub fn show_workspace(&self, has_text: bool) -> (shown: bool)
        ensures
            shown == shows_workspace(self@, has_text),
            shown == (has_text || self.search_busy || self.search_error is Some
                || self.search_results@.len() > 0),
    {
        has_text || self.search_busy || self.search_error.is_some() || self.search_results.len() > 0
    }

    /// What the results panel shows.
    pub fn results_panel(&self) -> (p: ResultsPanel)
        ensures
            panel_of(self@, p),
            p is Searching <==> self.search_busy,
            !self.search_busy && self.search_error is Some ==> (p matches ResultsPanel::Failed(m)
                && m@ == self.search_error->Some_0@),
            p is NoHits <==> !self.search_busy && self.search_error is None
                && self.search_results@.len() == 0,
            p is Hits <==> !self.search_busy && self.search_error is None
                && self.search_results@.len() > 0,
    {
        if self.search_busy {
            ResultsPanel::Searching
        } else {
            match &self.search_error {
                Some(e) => ResultsPanel::Failed(e.clone()),
                None => if self.search_results.len() == 0 {
                    ResultsPanel::NoHits
                } else {
                    ResultsPanel::Hits
                },
            }
        }
    }
}

/// Submitting a query made only of white space leaves the whole state as it
/// was; any other query starts a search that clears the last error and rows.
pub proof fn lemma_submit_rule<R>(s: ShellModel<R>, query: Seq<char>)
    ensures
        (forall|k: int| 0 <= k < query.len() ==> is_white_space(#[trigger] query[k]))
            ==> after_submit(s, query) == s,
        !(forall|k: int| 0 <= k < query.len() ==> is_white_space(#[trigger] query[k])) ==> {
            let t = after_submit(s, query);
            &&& t.busy
            &&& t.error is None
            &&& t.results.len() == 0
            &&& t.page == s.page
            &&& t.tab == s.tab
        },
{
    lemma_blank_query(query);
}

/// The workspace is shown exactly when the field holds text, a search runs,
/// the last search failed, or there are rows to show.
pub proof fn lemma_workspace_rule<R>(s: ShellModel<R>, has_text: bool)
    ensures
        s.results.len() > 0 ==> shows_workspace(s, has_text),
        shows_workspace(s, has_text) <==> (has_text || s.busy || s.error is Some || s.results.len()
            > 0),
{
}

/// Opening settings and closing them again returns the search page to the
/// state it was in.
pub proof fn lemma_settings_round_trip<R>(s: ShellModel<R>)
    requires
        s.page == AppPage::Search,
    ensures
        after_close_settings(after_open_settings(s)) == s,
{
}

/// Closing settings when they are not open changes nothing, and opening them
/// twice is the same as once.
pub proof fn lemma_settings_idempotent<R>(s: ShellModel<R>)
    ensures
        s.page == AppPage::Search ==> after_close_settings(s) == s,
        after_open_settings(after_open_settings(s)) == after_open_settings(s),
{
}

/// While a search runs, the search page shows its workspace and the panel
/// says it is searching, whatever the field holds.
pub proof fn lemma_running_search_visible<R>(s: ShellModel<R>, query: Seq<char>, has_text: bool, p: ResultsPanel)
    requires
        is_search_query(query),
        panel_of(after_submit(s, query), p),
    ensures
        shows_workspace(after_submit(s, query), has_text),
        p is Searching,
{
}

/// A search that is submitted and then finishes shows exactly its own
/// outcome: its rows with no error, or its error with no rows; the page and
/// tab stay as they were.
pub proof fn lemma_search_shows_own_outcome<R>(
    s: ShellModel<R>,
    query: Seq<char>,
    outcome: Result<Seq<R>, Seq<char>>,
)
    requires
        is_search_query(query),
    ensures
        ({
            let t = after_finish(after_submit(s, query), outcome);
            &&& !t.busy
            &&& t.page == s.page
            &&& t.tab == s.tab
            &&& match outcome {
                Ok(rows) => t.error is None && t.results == rows,
                Err(e) => t.error == Some(e) && t.results.len() == 0,
            }
        }),
{
}

} // verus!
