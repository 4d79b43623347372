//! The application state that workers write into and the render and input
//! loops read. Here it is the plain data with its update rules; the shell
//! around the library keeps each field behind its own short-lived lock and
//! calls these methods while holding exactly one of them.

use vstd::prelude::*;

use crate::package_manager::Backend;
use crate::package_manager::PackageLocality;

verus! {

/// Which pane the interface currently shows, with the text content the
/// detail panes carry.
#[derive(Clone, Debug)]
pub enum Pane {
    SearchInput,
    SearchResults(String),
    About(String),
    Context,
}

#[derive(Clone, Copy, PartialEq, Eq, Structural, Debug)]
pub enum InputMode {
    Normal,
    Insert,
}

impl InputMode {
    pub open spec fn spec_label(self) -> Seq<char> {
        match self {
            InputMode::Normal => "NORMAL"@,
            InputMode::Insert => "INSERT"@,
        }
    }

    /// The status-bar text for this mode.
    pub fn label(&self) -> (r: &'static str)
        ensures
            r@ == self.spec_label(),
    {
        match self {
            InputMode::Normal => "NORMAL",
            InputMode::Insert => "INSERT",
        }
    }
}

/// Relies on alloc's String::push: appends exactly the one character.
#[verifier::external_body]
fn string_push_char(s: &mut String, ch: char)
    ensures
        final(s)@ == old(s)@.push(ch),
{
    s.push(ch);
}

/// Relies on alloc's String::pop: removes and returns the last character,
/// or leaves an empty string alone.
#[verifier::external_body]
fn string_pop_char(s: &mut String) -> (r: Option<char>)
    ensures
        old(s)@.len() == 0 ==> final(s)@ == old(s)@ && r is None,
        old(s)@.len() > 0 ==> final(s)@ == old(s)@.drop_last() && r == Some(old(s)@.last()),
{
    s.pop()
}

pub type SearchResults = Vec<String>;

/// Everything the search feature keeps: the query under edit, the result
/// list the filter worker last committed, which result is highlighted,
/// and the detail text of the highlighted result.
#[derive(Clone)]
pub struct SearchState {
    pub query: String,
    pub results: SearchResults,
    pub selected_result: usize,
    pub selected_result_info: String,
    /// The highlighted index into `results`, if any.
    pub selection: Option<usize>,
    pub source: PackageLocality,
}

impl Default for SearchState {
    /// An empty query over the local packages, nothing selected.
    fn default() -> (r: SearchState)
        ensures
            r.query@ == Seq::<char>::empty(),
            r.results.deep_view() == Seq::<Seq<char>>::empty(),
            r.selected_result == 0,
            r.selected_result_info@ == Seq::<char>::empty(),
            r.selection is None,
            r.source == PackageLocality::Local,
    {
        let r = SearchState {
            query: String::new(),
            results: Vec::new(),
            selected_result: 0,
            selected_result_info: String::new(),
            selection: None,
            source: PackageLocality::Local,
        };
        proof {
            assert(r.results.deep_view() =~~= Seq::<Seq<char>>::empty());
        }
        r
    }
}

impl SearchState {
    /// One keystroke of the query: the character lands at the end and the
    /// highlight is dropped, since it pointed into results of the old
    /// query.
    pub fn append_query(&mut self, ch: char)
        ensures
            final(self).query@ == old(self).query@.push(ch),
            final(self).selection is None,
            final(self).results == old(self).results,
            final(self).selected_result == old(self).selected_result,
            final(self).selected_result_info == old(self).selected_result_info,
            final(self).source == old(self).source,
    {
        self.selection = None;
        string_push_char(&mut self.query, ch);
    }

    /// One backspace: the last character goes, and so does the highlight.
    pub fn pop_query(&mut self)
        ensures
            old(self).query@.len() == 0 ==> final(self).query@ == old(self).query@,
            old(self).query@.len() > 0 ==> final(self).query@ == old(self).query@.drop_last(),
            final(self).selection is None,
            final(self).results == old(self).results,
            final(self).selected_result == old(self).selected_result,
            final(self).selected_result_info == old(self).selected_result_info,
            final(self).source == old(self).source,
    {
        self.selection = None;
        let _ = string_pop_char(&mut self.query);
    }

    /// Drop the highlight.
    pub fn reset_selection(&mut self)
        ensures
            *final(self) == (SearchState { selection: None, ..*old(self) }),
    {
        self.selection = None;
    }

    /// Move the highlight one result down: onto the first result when
    /// nothing is highlighted, never past the last result, and nowhere
    /// when the list is empty.
    pub fn select_next(&mut self)
        ensures
            final(self).selection == spec_select_next(old(self).selection, old(self).results.deep_view().len()),
            final(self).query == old(self).query,
            final(self).results == old(self).results,
            final(self).selected_result == old(self).selected_result,
            final(self).selected_result_info == old(self).selected_result_info,
            final(self).source == old(self).source,
    {
        let len = self.results.len();
        proof {
            assert(self.results.deep_view().len() == self.results@.len());
        }
        if len == 0 {
            self.selection = None;
        } else {
            self.selection = match self.selection {
                None => Some(0),
                Some(i) => if i < len - 1 {
                    Some(i + 1)
                } else {
                    Some(len - 1)
                },
            };
        }
    }

    /// Move the highlight one result up: onto the last result when
    /// nothing is highlighted, never above the first, and nowhere when
    /// the list is empty.
    pub fn select_previous(&mut self)
        ensures
            final(self).selection == spec_select_previous(old(self).selection, old(self).results.deep_view().len()),
            final(self).query == old(self).query,
            final(self).results == old(self).results,
            final(self).selected_result == old(self).selected_result,
            final(self).selected_result_info == old(self).selected_result_info,
            final(self).source == old(self).source,
    {
        let len = self.results.len();
        proof {
            assert(self.results.deep_view().len() == self.results@.len());
        }
        if len == 0 {
            self.selection = None;
        } else {
            self.selection = match self.selection {
                None => Some(len - 1),
                Some(i) => if i == 0 {
                    Some(0)
                } else if i < len {
                    Some(i - 1)
                } else {
                    Some(len - 1)
                },
            };
        }
    }
}

pub open spec fn spec_select_next(selection: Option<usize>, len: nat) -> Option<usize> {
    if len == 0 {
        None
    } else {
        match selection {
            None => Some(0usize),
            Some(i) => if i + 1 < len {
                Some((i + 1) as usize)
            } else {
                Some((len - 1) as usize)
            },
        }
    }
}

pub open spec fn spec_select_previous(selection: Option<usize>, len: nat) -> Option<usize> {
    if len == 0 {
        None
    } else {
        match selection {
            None => Some((len - 1) as usize),
            Some(i) => if i == 0 {
                Some(0usize)
            } else if i < len {
                Some((i - 1) as usize)
            } else {
                Some((len - 1) as usize)
            },
        }
    }
}

/// Application configuration: the chosen backend and its reported
/// configuration text, plus this application's identity.
pub struct Config {
    pub backend: Backend,
    pub system_config: String,
    pub app_version: String,
    pub app_name: String,
}

impl Default for Config {
    /// Homebrew is the one wired-up backend; the shell may substitute
    /// another after probing what is installed.
    fn default() -> (r: Config)
        ensures
            r.backend is Homebrew,
            r.system_config@ == Seq::<char>::empty(),
            r.app_version@ == "0.1.0"@,
            r.app_name@ == "WhereHouse"@,
    {
        Config {
            backend: Backend::Homebrew,
            system_config: String::new(),
            app_version: "0.1.0".to_owned(),
            app_name: "WhereHouse".to_owned(),
        }
    }
}

/// The whole shared state, one field per independently synchronized
/// value.
pub struct State {
    pub exit: bool,
    pub config: Config,
    pub about: String,
    pub current_pane: Pane,
    pub input_mode: InputMode,
    pub search: SearchState,
    pub healthcheck_results: String,
}

impl State {
    /// The state a fresh session starts from: search input focused,
    /// insert mode, everything else empty.
    pub fn new() -> (r: State)
        ensures
            r.exit == false,
            r.config.backend is Homebrew,
            r.config.system_config@ == Seq::<char>::empty(),
            r.about@ == Seq::<char>::empty(),
            r.current_pane is SearchInput,
            r.input_mode == InputMode::Insert,
            r.search.query@ == Seq::<char>::empty(),
            r.search.results.deep_view() == Seq::<Seq<char>>::empty(),
            r.search.selection is None,
            r.search.source == PackageLocality::Local,
            r.healthcheck_results@ == Seq::<char>::empty(),
    {
        State {
            exit: false,
            config: Config::default(),
            about: String::new(),
            current_pane: Pane::SearchInput,
            input_mode: InputMode::Insert,
            search: SearchState::default(),
            healthcheck_results: String::new(),
        }
    }

    pub fn exit(&self) -> (r: bool)
        ensures
            r == self.exit,
    {
        self.exit
    }

    pub fn set_exit(&mut self, exit: bool)
        ensures
            *final(self) == (State { exit, ..*old(self) }),
    {
        self.exit = exit;
    }

    pub fn config(&self) -> (r: &Config)
        ensures
            r == &self.config,
    {
        &self.config
    }

    pub fn about(&self) -> (r: String)
        ensures
            r == self.about,
    {
        self.about.clone()
    }

    pub fn set_about(&mut self, content: String)
        ensures
            *final(self) == (State { about: content, ..*old(self) }),
    {
        self.about = content;
    }

    pub fn current_pane(&self) -> (r: &Pane)
        ensures
            r == &self.current_pane,
    {
        &self.current_pane
    }

    pub fn set_current_pane(&mut self, pane: Pane)
        ensures
            *final(self) == (State { current_pane: pane, ..*old(self) }),
    {
        self.current_pane = pane;
    }

    pub fn input_mode(&self) -> (r: InputMode)
        ensures
            r == self.input_mode,
    {
        self.input_mode
    }

    pub fn set_input_mode(&mut self, input_mode: InputMode)
        ensures
            *final(self) == (State { input_mode, ..*old(self) }),
    {
        self.input_mode = input_mode;
    }

    pub fn search(&self) -> (r: &SearchState)
        ensures
            r == &self.search,
    {
        &self.search
    }

    pub fn healthcheck_results(&self) -> (r: String)
        ensures
            r == self.healthcheck_results,
    {
        self.healthcheck_results.clone()
    }

    pub fn set_healthcheck_results(&mut self, result: String)
        ensures
            *final(self) == (State { healthcheck_results: result, ..*old(self) }),
    {
        self.healthcheck_results = result;
    }
}

} // verus!
