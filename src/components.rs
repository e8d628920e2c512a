pub mod search_movie;
pub mod user_selection;

use vstd::prelude::*;

verus! {

/// The user on whose behalf the components read and save movies.
pub const USER_ID: i32 = 1;

/// The same user, as it stands in a path.
pub const USER_KEY: &'static str = "1";

/// What handling a message asks for: whether to draw again, and a request to
/// send.
pub struct Update<R> {
    pub should_render: bool,
    pub request: Option<R>,
}

/// The text that `{:?}` gives for an optional message.
pub uninterp spec fn debug_text(o: Option<Seq<char>>) -> Seq<char>;

/// Relies on the `Debug` impl of `Option<String>` (derived on `Option`):
/// `None` prints as its variant's name.
#[verifier::external_body]
pub(crate) fn debug_option(o: &Option<String>) -> (r: String)
    ensures
        r@ == debug_text(crate::services::froovie_service::option_view(*o)),
        o.is_none() ==> r@ == "None"@,
{
    format!("{:?}", o)
}

} // verus!
