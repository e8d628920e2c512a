use vstd::prelude::*;

use crate::services::status::{status_text, three_digits, StatusCode};

verus! {

/// Base address of the backend.
pub const BACKEND: &'static str = "http://localhost:6767";

/// The movies that one user has saved.
pub struct Selections {
    pub movies: Vec<Movie>,
}

/// A movie that a user has saved.
pub struct Movie {
    pub id: i32,
    pub title: String,
    pub description: String,
}

/// One result of a movie search.
pub struct MovieSearch {
    pub moviedb_id: i32,
    pub title: String,
    pub description: String,
    pub image_url: Option<String>,
}

/// The body of a search request.
pub struct Query {
    pub value: String,
}

/// The body of a request that saves a movie for a user.
#[derive(Clone, Copy, Debug, PartialEq, Eq)]
pub struct UserSelection {
    pub user_id: i32,
    pub moviedb_id: i32,
}

impl Clone for Movie {
    fn clone(&self) -> (r: Self)
        ensures
            r == *self,
    {
        Movie { id: self.id, title: self.title.clone(), description: self.description.clone() }
    }
}

impl Clone for Selections {
    fn clone(&self) -> (r: Self)
        ensures
            r.movies@ == self.movies@,
    {
        let movies = self.movies.clone();
        assert(movies@ =~= self.movies@);
        Selections { movies }
    }
}

pub open spec fn option_view(o: Option<String>) -> Option<Seq<char>> {
    match o {
        Some(s) => Some(s@),
        None => None,
    }
}

fn clone_option(o: &Option<String>) -> (r: Option<String>)
    ensures
        r == *o,
{
    match o {
        Some(s) => Some(s.clone()),
        None => None,
    }
}

impl Clone for MovieSearch {
    fn clone(&self) -> (r: Self)
        ensures
            r == *self,
    {
        MovieSearch {
            moviedb_id: self.moviedb_id,
            title: self.title.clone(),
            description: self.description.clone(),
            image_url: clone_option(&self.image_url),
        }
    }
}

impl MovieSearch {
    /// The address of the poster, or the empty string where there is none.
    pub fn image_src(&self) -> (r: String)
        ensures
            r@ == match self.image_url {
                Some(u) => u@,
                None => Seq::<char>::empty(),
            },
    {
        match &self.image_url {
            Some(u) => u.clone(),
            None => String::new(),
        }
    }
}

/// The HTTP method of a request.
#[derive(Clone, Copy, Debug, PartialEq, Eq)]
pub enum Method {
    Get,
    Post,
}

/// What a request carries, to be sent as JSON.
pub enum Body {
    Nothing,
    Query(Query),
    Selection(UserSelection),
}

/// A request to the backend, ready to be sent.
pub struct HttpRequest {
    pub method: Method,
    pub url: String,
    pub body: Body,
}

impl HttpRequest {
    /// A `GET` of the saved movies of `user_id`.
    pub open spec fn is_get_user_selection(&self, user_id: Seq<char>) -> bool {
        &&& self.method == Method::Get
        &&& self.url@ == BACKEND@ + "/users/"@ + user_id + "/selections"@
        &&& self.body is Nothing
    }

    /// A `POST` of a search for `query`.
    pub open spec fn is_search_movie(&self, query: Seq<char>) -> bool {
        &&& self.method == Method::Post
        &&& self.url@ == BACKEND@ + "/movies/search"@
        &&& self.body matches Body::Query(q) && q.value@ == query
    }

    /// A `POST` that saves movie `moviedb_id` for `user_id`.
    pub open spec fn is_post_user_selection(&self, moviedb_id: i32, user_id: i32) -> bool {
        &&& self.method == Method::Post
        &&& self.url@ == BACKEND@ + "/users/selections"@
        &&& self.body == Body::Selection(UserSelection { user_id, moviedb_id })
    }
}

/// How a request ended: a response with its status and its decoded body, or
/// no response at all.
pub enum Reply<T> {
    Received { status: StatusCode, body: Result<T, String> },
    Failed(String),
}

/// The status that the fetch service reports where no response arrived.
pub const NO_RESPONSE: u16 = 408;

/// The text of a failure whose status lies outside the accepted range.
pub const INVALID_STATUS: &'static str = "invalid status code";

impl<T> Reply<T> {
    /// Reads what the fetch service reports of a request: the status it gives
    /// and the decoded body, or why the body could not be had. The fetch
    /// service reports a request that got no response as the no-response
    /// status with no body, so that pair, like a status outside 100 to 599,
    /// means that no response came; any other status carries the body.
    pub fn from_fetch(status: u16, data: Result<T, String>) -> (r: Reply<T>)
        ensures
            status == NO_RESPONSE && data is Err ==> r == Reply::<T>::Failed(data->Err_0),
            !(status == NO_RESPONSE && data is Err) && 100 <= status < 600 ==> (r matches Reply::Received {
                status: s,
                body,
            } && s.value() == status && body == data),
            !(100 <= status < 600) ==> (r matches Reply::Failed(m) && m@ == match data {
                Err(e) => e@,
                Ok(_) => INVALID_STATUS@,
            }),
    {
        if status == NO_RESPONSE && data.is_err() {
            match data {
                Err(m) => Reply::Failed(m),
                Ok(_) => Reply::Failed(String::from_str(INVALID_STATUS)),
            }
        } else {
            match StatusCode::from_u16(status) {
                Some(s) => Reply::Received { status: s, body: data },
                None => match data {
                    Err(m) => Reply::Failed(m),
                    Ok(_) => Reply::Failed(String::from_str(INVALID_STATUS)),
                },
            }
        }
    }
}

/// Which call a failure status answered.
#[derive(Clone, Copy, Debug, PartialEq, Eq)]
pub enum Operation {
    UserSelection,
    MovieSearch,
}

impl Operation {
    pub open spec fn spec_description(self) -> Seq<char> {
        match self {
            Operation::UserSelection => ": error getting user selection from froovie"@,
            Operation::MovieSearch => ": error getting movie from froovie"@,
        }
    }

    /// What follows the status line in the message of a failure status.
    pub fn description(self) -> (r: &'static str)
        ensures
            r@ == self.spec_description(),
    {
        match self {
            Operation::UserSelection => ": error getting user selection from froovie",
            Operation::MovieSearch => ": error getting movie from froovie",
        }
    }
}

/// Why a call to the backend failed.
pub enum ServiceError {
    /// No response came.
    Transport(String),
    /// A response came with a status outside the success class.
    HttpStatus(StatusCode, Operation),
    /// The body of a response did not have the expected shape.
    Decode(String),
}

impl ServiceError {
    /// The text of the error.
    pub open spec fn text(&self) -> Seq<char> {
        match self {
            ServiceError::Transport(m) => m@,
            ServiceError::HttpStatus(s, op) => status_text(s.value()) + op.spec_description(),
            ServiceError::Decode(m) => m@,
        }
    }

    /// The text of the error.
    pub fn to_string(&self) -> (r: String)
        ensures
            r@ == self.text(),
            self matches ServiceError::HttpStatus(s, _) ==> r@.len() >= 4
                && r@.subrange(0, 3) == three_digits(s.value() as int),
    {
        match self {
            ServiceError::Transport(m) => m.clone(),
            ServiceError::HttpStatus(s, op) => {
                let mut line = s.status_line();
                let ghost head = line@;
                line.append(op.description());
                assert(line@.subrange(0, 3) =~= head.subrange(0, 3));
                line
            },
            ServiceError::Decode(m) => m.clone(),
        }
    }
}

/// The outcome that a reply to a checked call (one that fails on a status
/// outside the success class) is turned into.
pub open spec fn checked_outcome<T>(reply: Reply<T>, op: Operation) -> Result<T, ServiceError> {
    match reply {
        Reply::Received { status, body } => if 200 <= status.value() < 300 {
            match body {
                Ok(data) => Ok(data),
                Err(m) => Err(ServiceError::Decode(m)),
            }
        } else {
            Err(ServiceError::HttpStatus(status, op))
        },
        Reply::Failed(m) => Err(ServiceError::Transport(m)),
    }
}

fn checked<T>(reply: Reply<T>, op: Operation) -> (r: Result<T, ServiceError>)
    ensures
        r == checked_outcome(reply, op),
{
    match reply {
        Reply::Received { status, body } => if status.is_success() {
            match body {
                Ok(data) => Ok(data),
                Err(m) => Err(ServiceError::Decode(m)),
            }
        } else {
            Err(ServiceError::HttpStatus(status, op))
        },
        Reply::Failed(m) => Err(ServiceError::Transport(m)),
    }
}

/// Builds the requests to the backend and reads its replies.
pub struct FroovieService {}

impl FroovieService {
    pub fn new() -> FroovieService {
        FroovieService {  }
    }

    /// The request that saves movie `moviedb_id` for `user_id`.
    pub fn post_user_selection(&self, moviedb_id: i32, user_id: i32) -> (r: HttpRequest)
        ensures
            r.is_post_user_selection(moviedb_id, user_id),
    {
        let mut url = String::from_str(BACKEND);
        url.append("/users/selections");
        HttpRequest {
            method: Method::Post,
            url,
            body: Body::Selection(UserSelection { user_id, moviedb_id }),
        }
    }

    /// The request that reads the movies saved by `user_id`.
    pub fn get_user_selection(&self, user_id: &str) -> (r: HttpRequest)
        ensures
            r.is_get_user_selection(user_id@),
    {
        let mut url = String::from_str(BACKEND);
        url.append("/users/");
        url.append(user_id);
        url.append("/selections");
        HttpRequest { method: Method::Get, url, body: Body::Nothing }
    }

    /// The request that searches the catalog for `query`.
    pub fn search_movie(&self, query: &str) -> (r: HttpRequest)
        ensures
            r.is_search_movie(query@),
    {
        let mut url = String::from_str(BACKEND);
        url.append("/movies/search");
        HttpRequest {
            method: Method::Post,
            url,
            body: Body::Query(Query { value: String::from_str(query) }),
        }
    }

    /// Reads the reply to a saving request: any response is a success that
    /// carries its status, whatever the status; only a missing response fails.
    pub fn post_user_selection_result(reply: Reply<()>) -> (r: Result<StatusCode, ServiceError>)
        ensures
            r == match reply {
                Reply::Received { status, .. } => Ok::<StatusCode, ServiceError>(status),
                Reply::Failed(m) => Err(ServiceError::Transport(m)),
            },
    {
        match reply {
            Reply::Received { status, .. } => Ok(status),
            Reply::Failed(m) => Err(ServiceError::Transport(m)),
        }
    }

    /// Reads the reply to a request for a user's saved movies.
    pub fn get_user_selection_result(reply: Reply<Selections>) -> (r: Result<Selections, ServiceError>)
        ensures
            r == checked_outcome(reply, Operation::UserSelection),
    {
        checked(reply, Operation::UserSelection)
    }

    /// Reads the reply to a search request.
    pub fn search_movie_result(reply: Reply<Vec<MovieSearch>>) -> (r: Result<Vec<MovieSearch>, ServiceError>)
        ensures
            r == checked_outcome(reply, Operation::MovieSearch),
    {
        checked(reply, Operation::MovieSearch)
    }
}

} // verus!
