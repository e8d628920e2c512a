use vstd::prelude::*;

use crate::components::{debug_option, debug_text, Update, USER_KEY};
use crate::services::froovie_service::{
    option_view, FroovieService, HttpRequest, Movie, Selections, ServiceError,
};

verus! {

/// The screen of saved movies: the last bundle read and the last error.
pub struct UserSelectionModel {
    pub froovie: FroovieService,
    pub selections: Option<Selections>,
    pub error: Option<String>,
}

/// What the saved-movies screen reacts to.
pub enum Msg {
    /// The user asked to load the saved movies.
    Selections,
    /// The request for the saved movies ended.
    FroovieReady(Result<Selections, ServiceError>),
}

/// The saved-movies screen's state, as values.
pub struct SelectionState {
    pub selections: Option<Seq<Movie>>,
    pub error: Option<Seq<char>>,
}

/// The movies of an optional bundle, as values.
pub open spec fn bundle_view(b: Option<Selections>) -> Option<Seq<Movie>> {
    match b {
        Some(s) => Some(s.movies@),
        None => None,
    }
}

/// The state after a message: a bundle read replaces the last one wholesale;
/// a failure records its error and keeps the last bundle.
pub open spec fn selection_next(s: SelectionState, msg: Msg) -> SelectionState {
    match msg {
        Msg::FroovieReady(Ok(b)) => SelectionState { selections: Some(b.movies@), error: s.error },
        Msg::FroovieReady(Err(e)) => SelectionState { selections: s.selections, error: Some(e.text()) },
        Msg::Selections => s,
    }
}

impl View for UserSelectionModel {
    type V = SelectionState;

    open spec fn view(&self) -> SelectionState {
        SelectionState { selections: bundle_view(self.selections), error: option_view(self.error) }
    }
}

impl UserSelectionModel {
    /// A screen with nothing loaded.
    pub fn create() -> (r: UserSelectionModel)
        ensures
            r@.selections is None,
            r@.error is None,
    {
        UserSelectionModel { froovie: FroovieService::new(), selections: None, error: None }
    }

    /// Handles a message. A load asks for the fixed user's saved movies;
    /// replies change the state as `selection_next` says. Every message asks
    /// to draw again.
    pub fn update(&mut self, msg: Msg) -> (r: Update<HttpRequest>)
        ensures
            final(self)@ == selection_next(old(self)@, msg),
            r.should_render,
            msg is Selections ==> (r.request matches Some(req) && req.is_get_user_selection(USER_KEY@)),
            msg is FroovieReady ==> r.request is None,
    {
        match msg {
            Msg::Selections => {
                let request = self.froovie.get_user_selection(USER_KEY);
                Update { should_render: true, request: Some(request) }
            },
            Msg::FroovieReady(Ok(selections)) => {
                self.selections = Some(selections);
                Update { should_render: true, request: None }
            },
            Msg::FroovieReady(Err(error)) => {
                self.error = Some(error.to_string());
                Update { should_render: true, request: None }
            },
        }
    }

    /// All movies of the loaded bundle, in order; none before a bundle is read.
    pub fn movies(&self) -> (r: Vec<Movie>)
        ensures
            r@ == match self@.selections {
                Some(m) => m,
                None => Seq::<Movie>::empty(),
            },
    {
        match &self.selections {
            Some(s) => s.clone().movies,
            None => Vec::new(),
        }
    }

    /// The last error, if any.
    pub fn error(&self) -> (r: Option<String>)
        ensures
            option_view(r) == self@.error,
    {
        match &self.error {
            Some(e) => Some(e.clone()),
            None => None,
        }
    }

    /// The error line under the list, which shows the absence of an error too.
    pub fn error_line(&self) -> (r: String)
        ensures
            r@ == "Error status : "@ + debug_text(self@.error),
            self@.error is None ==> r@ == "Error status : None"@,
    {
        let mut line = String::from_str("Error status : ");
        let shown = debug_option(&self.error);
        line.append(shown.as_str());
        proof {
            if self.error is None {
                reveal_strlit("Error status : ");
                reveal_strlit("None");
                reveal_strlit("Error status : None");
                assert(line@ =~= "Error status : None"@);
            }
        }
        line
    }
}

/// A failed load after a successful one keeps the bundle that was read and
/// records the failure's text.
pub proof fn lemma_failure_keeps_selections(s: SelectionState, bundle: Selections, error: ServiceError)
    ensures
        selection_next(selection_next(s, Msg::FroovieReady(Ok(bundle))), Msg::FroovieReady(Err(error)))
            == (SelectionState { selections: Some(bundle.movies@), error: Some(error.text()) }),
{
}

} // verus!
