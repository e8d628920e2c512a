pub mod components;
pub mod router;
pub mod services;

use vstd::prelude::*;

use components::Update;
use router::{Request, Route, RouteView};

verus! {

/// The screen that is shown.
pub enum Child {
    UserSelection,
    MovieSearch,
    PathNotFound(String),
}

/// The screen that is shown, as a value.
pub enum ChildView {
    UserSelection,
    MovieSearch,
    PathNotFound(Seq<char>),
}

impl Child {
    /// The screen, as a value.
    pub open spec fn screen(&self) -> ChildView {
        match self {
            Child::UserSelection => ChildView::UserSelection,
            Child::MovieSearch => ChildView::MovieSearch,
            Child::PathNotFound(p) => ChildView::PathNotFound(p@),
        }
    }
}

/// The screen for a path: by its first segment, `my_selection` or
/// `movies_search`; any other segment, or none, is a path not found.
pub open spec fn child_for(segments: Seq<Seq<char>>) -> ChildView {
    if segments.len() == 0 {
        ChildView::PathNotFound("path_not_found"@)
    } else if segments[0] == "my_selection"@ {
        ChildView::UserSelection
    } else if segments[0] == "movies_search"@ {
        ChildView::MovieSearch
    } else {
        ChildView::PathNotFound(segments[0])
    }
}

/// The path that leads to a screen.
pub open spec fn segments_for(c: ChildView) -> Seq<Seq<char>> {
    match c {
        ChildView::UserSelection => seq!["my_selection"@],
        ChildView::MovieSearch => seq!["movies_search"@],
        ChildView::PathNotFound(_) => seq!["path_not_found"@],
    }
}

/// The heading of a screen.
pub open spec fn heading(c: ChildView) -> Seq<char> {
    match c {
        ChildView::UserSelection => "User Selection: "@,
        ChildView::MovieSearch => " Search a movie : "@,
        ChildView::PathNotFound(p) => "Invalid path: '"@ + p + "'"@,
    }
}

impl Child {
    /// The screen for a route, by its first path segment.
    pub fn from_route(route: &Route) -> (r: Child)
        ensures
            r.screen() == child_for(route@.path_segments),
    {
        if route.path_segments.len() == 0 {
            return Child::PathNotFound(String::from_str("path_not_found"));
        }
        let first = &route.path_segments[0];
        if *first == String::from_str("my_selection") {
            Child::UserSelection
        } else if *first == String::from_str("movies_search") {
            Child::MovieSearch
        } else {
            Child::PathNotFound(first.clone())
        }
    }

    /// The path segments that lead to this screen.
    pub fn path_segments(&self) -> (r: Vec<String>)
        ensures
            r@.map_values(|s: String| s@) == segments_for(self.screen()),
    {
        let segment = match self {
            Child::UserSelection => String::from_str("my_selection"),
            Child::MovieSearch => String::from_str("movies_search"),
            Child::PathNotFound(_) => String::from_str("path_not_found"),
        };
        let r = vec![segment];
        assert(r@.map_values(|s: String| s@) =~= segments_for(self.screen()));
        r
    }

    /// The heading shown above the screen.
    pub fn view(&self) -> (r: String)
        ensures
            r@ == heading(self.screen()),
    {
        match self {
            Child::UserSelection => String::from_str("User Selection: "),
            Child::MovieSearch => String::from_str(" Search a movie : "),
            Child::PathNotFound(path) => {
                let mut text = String::from_str("Invalid path: '");
                text.append(path.as_str());
                text.append("'");
                text
            },
        }
    }
}

/// The application's root: the screen that is shown.
pub struct Model {
    child: Child,
}

/// What the root reacts to.
pub enum Msg {
    /// The user asked for a screen.
    NavigateTo(Child),
    /// The router sent a route.
    HandleRoute(Route),
}

impl View for Model {
    type V = ChildView;

    closed spec fn view(&self) -> ChildView {
        self.child.screen()
    }
}

impl Model {
    /// The root before any route has arrived, showing the saved movies, and
    /// the request to send to the router once subscribed.
    pub fn create() -> (r: (Model, Request))
        ensures
            r.0@ == ChildView::UserSelection,
            r.1 is GetCurrentRoute,
    {
        (Model { child: Child::UserSelection }, Request::GetCurrentRoute)
    }

    /// Handles a message. A navigation asks the router to change to the
    /// screen's path, with no query or fragment, and does not draw; a route
    /// from the router picks the screen and draws.
    pub fn update(&mut self, msg: Msg) -> (r: Update<Request>)
        ensures
            msg matches Msg::NavigateTo(c) ==> {
                &&& final(self)@ == old(self)@
                &&& !r.should_render
                &&& r.request matches Some(Request::ChangeRoute(route))
                &&& route@ == (RouteView { path_segments: segments_for(c.screen()), query: None, fragment: None })
            },
            msg matches Msg::HandleRoute(route) ==> {
                &&& final(self)@ == child_for(route@.path_segments)
                &&& r.should_render
                &&& r.request is None
            },
    {
        match msg {
            Msg::NavigateTo(child) => {
                let path_segments = child.path_segments();
                let route = Route { path_segments, query: None, fragment: None };
                Update { should_render: false, request: Some(Request::ChangeRoute(route)) }
            },
            Msg::HandleRoute(route) => {
                self.child = Child::from_route(&route);
                Update { should_render: true, request: None }
            },
        }
    }

    /// The screen that is shown.
    pub fn child(&self) -> (r: &Child)
        ensures
            r.screen() == self@,
    {
        &self.child
    }
}

} // verus!
