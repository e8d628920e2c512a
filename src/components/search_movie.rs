use vstd::prelude::*;

use crate::components::{debug_option, debug_text, Update, USER_ID};
use crate::services::froovie_service::{
    checked_outcome, option_view, FroovieService, HttpRequest, MovieSearch, Operation, Reply,
    ServiceError,
};
use crate::services::status::{status_text, three_digits, StatusCode};

verus! {

/// The search screen: the latest results and the latest error.
pub struct MovieSearchModel {
    pub froovie: FroovieService,
    pub result: Vec<MovieSearch>,
    pub error: Option<String>,
}

/// What the search screen reacts to.
pub enum Msg {
    /// The query text changed.
    SearchResult(String),
    /// The user picked the movie with this catalog id.
    PickSelection(i32),
    /// A saving request ended.
    SelectionResult(Result<StatusCode, ServiceError>),
    /// A search ended.
    FroovieReady(Result<Vec<MovieSearch>, ServiceError>),
}

/// The search screen's state, as values.
pub struct SearchState {
    pub result: Seq<MovieSearch>,
    pub error: Option<Seq<char>>,
}

/// The state after a message: a finished search replaces the results and
/// clears the error, a failed one empties them and records its error; nothing
/// else changes the state.
pub open spec fn search_next(s: SearchState, msg: Msg) -> SearchState {
    match msg {
        Msg::FroovieReady(Ok(movies)) => SearchState { result: movies@, error: None },
        Msg::FroovieReady(Err(e)) => SearchState { result: Seq::empty(), error: Some(e.text()) },
        _ => s,
    }
}

impl View for MovieSearchModel {
    type V = SearchState;

    open spec fn view(&self) -> SearchState {
        SearchState { result: self.result@, error: option_view(self.error) }
    }
}

impl MovieSearchModel {
    /// An empty screen.
    pub fn create() -> (r: MovieSearchModel)
        ensures
            r@.result == Seq::<MovieSearch>::empty(),
            r@.error is None,
    {
        MovieSearchModel { froovie: FroovieService::new(), result: Vec::new(), error: None }
    }

    /// Handles a message. A query change sends a search; a pick sends a
    /// saving request for the fixed user; replies change the state as
    /// `search_next` says. Every message asks to draw again.
    pub fn update(&mut self, msg: Msg) -> (r: Update<HttpRequest>)
        ensures
            final(self)@ == search_next(old(self)@, msg),
            r.should_render,
            msg matches Msg::SearchResult(q) ==> (r.request matches Some(req)
                && req.is_search_movie(q@)),
            msg matches Msg::PickSelection(id) ==> (r.request matches Some(req)
                && req.is_post_user_selection(id, USER_ID)),
            msg is SelectionResult || msg is FroovieReady ==> r.request is None,
            msg matches Msg::FroovieReady(Err(ServiceError::HttpStatus(status, _))) ==> (
                final(self)@.error matches Some(e) && e.len() >= 3
                && e.subrange(0, 3) == three_digits(status.value() as int)),
    {
        match msg {
            Msg::SearchResult(query) => {
                let request = self.froovie.search_movie(query.as_str());
                Update { should_render: true, request: Some(request) }
            },
            Msg::PickSelection(moviedb_id) => {
                let request = self.froovie.post_user_selection(moviedb_id, USER_ID);
                Update { should_render: true, request: Some(request) }
            },
            Msg::SelectionResult(_) => Update { should_render: true, request: None },
            Msg::FroovieReady(Ok(movies)) => {
                self.result = movies;
                self.error = None;
                Update { should_render: true, request: None }
            },
            Msg::FroovieReady(Err(error)) => {
                self.result = Vec::new();
                self.error = Some(error.to_string());
                Update { should_render: true, request: None }
            },
        }
    }

    /// The last error, if any.
    pub fn error(&self) -> (r: Option<String>)
        ensures
            option_view(r) == self@.error,
    {
        match &self.error {
            Some(e) => Some(e.clone()),
            None => None,
        }
    }

    /// The error line under the results, which shows the absence of an error too.
    pub fn error_line(&self) -> (r: String)
        ensures
            r@ == "Error status: "@ + debug_text(self@.error),
            self@.error is None ==> r@ == "Error status: None"@,
    {
        let mut line = String::from_str("Error status: ");
        let shown = debug_option(&self.error);
        line.append(shown.as_str());
        proof {
            if self.error is None {
                reveal_strlit("Error status: ");
                reveal_strlit("None");
                reveal_strlit("Error status: None");
                assert(line@ =~= "Error status: None"@);
            }
        }
        line
    }
}

/// A search answered with a status outside the success class fails with
/// that status, and then leaves the results empty and the error set to the
/// failure's text, which starts with the status line.
pub proof fn lemma_failure_status_empties_results(
    s: SearchState,
    status: StatusCode,
    body: Result<Vec<MovieSearch>, String>,
)
    requires
        !(200 <= status.value() < 300),
    ensures
        checked_outcome(Reply::Received { status, body }, Operation::MovieSearch) == Err::<
            Vec<MovieSearch>,
            ServiceError,
        >(ServiceError::HttpStatus(status, Operation::MovieSearch)),
        search_next(s, Msg::FroovieReady(checked_outcome(Reply::Received { status, body }, Operation::MovieSearch))).result
            == Seq::<MovieSearch>::empty(),
        search_next(s, Msg::FroovieReady(checked_outcome(Reply::Received { status, body }, Operation::MovieSearch))).error
            == Some(status_text(status.value()) + Operation::MovieSearch.spec_description()),
{
}

/// Two searches in flight are not told apart: whichever reply comes last
/// sets the results. Searches for `first` then `second`, answered in reverse
/// order, leave the answer to `first`.
pub proof fn lemma_last_resolved_search_wins(
    s: SearchState,
    first: String,
    second: String,
    first_answer: Vec<MovieSearch>,
    second_answer: Vec<MovieSearch>,
)
    ensures
        search_next(
            search_next(
                search_next(search_next(s, Msg::SearchResult(first)), Msg::SearchResult(second)),
                Msg::FroovieReady(Ok(second_answer)),
            ),
            Msg::FroovieReady(Ok(first_answer)),
        ).result == first_answer@,
{
}

} // verus!
