use vstd::prelude::*;

use crate::services::froovie_service::option_view;

verus! {

/// A location within the application: path segments, an optional query and
/// an optional fragment.
pub struct Route {
    pub path_segments: Vec<String>,
    pub query: Option<String>,
    pub fragment: Option<String>,
}

/// What a route is, as values.
pub struct RouteView {
    pub path_segments: Seq<Seq<char>>,
    pub query: Option<Seq<char>>,
    pub fragment: Option<Seq<char>>,
}

impl View for Route {
    type V = RouteView;

    open spec fn view(&self) -> RouteView {
        RouteView {
            path_segments: self.path_segments@.map_values(|s: String| s@),
            query: option_view(self.query),
            fragment: option_view(self.fragment),
        }
    }
}

fn clone_segments(v: &Vec<String>) -> (r: Vec<String>)
    ensures
        r@.map_values(|s: String| s@) == v@.map_values(|s: String| s@),
{
    let mut r: Vec<String> = Vec::new();
    let mut i: usize = 0;
    while i < v.len()
        invariant
            i <= v@.len(),
            r@.len() == i,
            forall|j: int| 0 <= j < i ==> r@[j]@ == v@[j]@,
        decreases v@.len() - i,
    {
        r.push(v[i].clone());
        i = i + 1;
    }
    assert(r@.map_values(|s: String| s@) =~= v@.map_values(|s: String| s@));
    r
}

fn clone_text(o: &Option<String>) -> (r: Option<String>)
    ensures
        option_view(r) == option_view(*o),
{
    match o {
        Some(s) => Some(s.clone()),
        None => None,
    }
}

/// The pieces of `s` between slashes, in order: one more than the slashes.
pub open spec fn split_on_slash(s: Seq<char>) -> Seq<Seq<char>>
    decreases s.len(),
{
    if s.len() == 0 {
        seq![Seq::<char>::empty()]
    } else if s.last() == '/' {
        split_on_slash(s.drop_last()).push(Seq::<char>::empty())
    } else {
        let p = split_on_slash(s.drop_last());
        p.update(p.len() - 1, p.last().push(s.last()))
    }
}

/// An address part such as `?a=1` or `#top` without its leading mark; none
/// where nothing follows the mark.
pub open spec fn after_mark(s: Seq<char>) -> Option<Seq<char>> {
    if s.len() > 1 {
        Some(s.drop_first())
    } else {
        None
    }
}

fn split_path(path: &str) -> (r: Vec<String>)
    ensures
        r@.map_values(|x: String| x@) == split_on_slash(path@),
{
    let n = path.unicode_len();
    let mut segments: Vec<String> = Vec::new();
    let mut start: usize = 0;
    let mut i: usize = 0;
    proof {
        assert(path@.subrange(0, 0) =~= Seq::<char>::empty());
        assert(segments@.map_values(|x: String| x@).push(path@.subrange(0, 0)) =~= seq![
            Seq::<char>::empty(),
        ]);
    }
    while i < n
        invariant
            n == path@.len(),
            start <= i <= n,
            split_on_slash(path@.subrange(0, i as int)) == segments@.map_values(|x: String| x@).push(
                path@.subrange(start as int, i as int),
            ),
        decreases n - i,
    {
        let c = path.get_char(i);
        proof {
            let next = path@.subrange(0, i + 1);
            assert(next.drop_last() =~= path@.subrange(0, i as int));
            assert(next.last() == c);
        }
        if c == '/' {
            let piece = path.substring_char(start, i);
            let ghost before = segments@;
            segments.push(String::from_str(piece));
            proof {
                assert(segments@.map_values(|x: String| x@) =~= before.map_values(|x: String| x@).push(
                    path@.subrange(start as int, i as int),
                ));
                assert(path@.subrange(i + 1, i + 1) =~= Seq::<char>::empty());
            }
            start = i + 1;
        } else {
            proof {
                assert(path@.subrange(start as int, i as int).push(c) =~= path@.subrange(start as int, i + 1));
                let m = segments@.map_values(|x: String| x@);
                assert(m.push(path@.subrange(start as int, i as int)).update(
                    m.len() as int,
                    path@.subrange(start as int, i + 1),
                ) =~= m.push(path@.subrange(start as int, i + 1)));
            }
        }
        i = i + 1;
    }
    let last = path.substring_char(start, n);
    let ghost before = segments@;
    segments.push(String::from_str(last));
    assert(path@.subrange(0, n as int) =~= path@);
    assert(segments@.map_values(|x: String| x@) =~= before.map_values(|x: String| x@).push(
        path@.subrange(start as int, n as int),
    ));
    segments
}

fn after_mark_of(s: &str) -> (r: Option<String>)
    ensures
        option_view(r) == after_mark(s@),
{
    let n = s.unicode_len();
    if n > 1 {
        let rest = s.substring_char(1, n);
        assert(rest@ =~= s@.drop_first());
        Some(String::from_str(rest))
    } else {
        None
    }
}

impl Route {
    /// The route at an address: the path is split at each slash and the piece
    /// before the first one dropped; the query (from `?`) and the fragment (from
    /// `#`) lose their mark and are absent where nothing follows it.
    pub fn current(path: &str, query: &str, fragment: &str) -> (r: Route)
        ensures
            r@ == (RouteView {
                path_segments: split_on_slash(path@).drop_first(),
                query: after_mark(query@),
                fragment: after_mark(fragment@),
            }),
    {
        let mut path_segments = split_path(path);
        let ghost all = path_segments@;
        proof {
            reveal_with_fuel(split_on_slash, 1);
            lemma_split_not_empty(path@);
        }
        path_segments.remove(0);
        assert(path_segments@.map_values(|x: String| x@) =~= all.map_values(|x: String| x@).drop_first());
        Route { path_segments, query: after_mark_of(query), fragment: after_mark_of(fragment) }
    }

    /// A copy of the route.
    pub fn duplicate(&self) -> (r: Route)
        ensures
            r@ == self@,
    {
        Route {
            path_segments: clone_segments(&self.path_segments),
            query: clone_text(&self.query),
            fragment: clone_text(&self.fragment),
        }
    }
}

/// What a component asks of the router.
pub enum Request {
    /// Adopt this route and tell every subscriber.
    ChangeRoute(Route),
    /// Send the current route to the component that asks.
    GetCurrentRoute,
}

/// A route to deliver, and the subscribers it goes to, in order.
pub struct Notification {
    pub recipients: Vec<usize>,
    pub route: Route,
}

/// The router's state, as values.
pub struct RouterState {
    pub route: RouteView,
    pub subscribers: Seq<usize>,
}

/// The state after a request from `who`, and the notification that it sends.
pub open spec fn handle_spec(s: RouterState, msg: Request, who: usize) -> (RouterState, Option<(Seq<usize>, RouteView)>) {
    match msg {
        Request::ChangeRoute(route) => (
            RouterState { route: route@, subscribers: s.subscribers },
            Some((s.subscribers, route@)),
        ),
        Request::GetCurrentRoute => (s, Some((seq![who], s.route))),
    }
}

/// The state after `id` subscribes: added at the end unless already there.
pub open spec fn connected_spec(s: RouterState, id: usize) -> RouterState {
    if s.subscribers.contains(id) {
        s
    } else {
        RouterState { route: s.route, subscribers: s.subscribers.push(id) }
    }
}

/// Whether a subscriber is another than `id`.
pub open spec fn other_than(id: usize) -> spec_fn(usize) -> bool {
    |x: usize| x != id
}

/// The state after `id` leaves.
pub open spec fn disconnected_spec(s: RouterState, id: usize) -> RouterState {
    RouterState { route: s.route, subscribers: s.subscribers.filter(other_than(id)) }
}

/// Holds the current route and the subscribers, and answers requests.
pub struct Router {
    route: Route,
    subscribers: Vec<usize>,
}

impl View for Router {
    type V = RouterState;

    closed spec fn view(&self) -> RouterState {
        RouterState { route: self.route@, subscribers: self.subscribers@ }
    }
}

impl Router {
    /// Each subscriber is listed once.
    pub closed spec fn wf(&self) -> bool {
        self.subscribers@.no_duplicates()
    }

    /// A router at `location`, with no subscriber.
    pub fn new(location: Route) -> (r: Router)
        ensures
            r.wf(),
            r@.route == location@,
            r@.subscribers == Seq::<usize>::empty(),
    {
        Router { route: location, subscribers: Vec::new() }
    }

    /// Registers `id` for notifications.
    pub fn connected(&mut self, id: usize)
        requires
            old(self).wf(),
        ensures
            final(self).wf(),
            final(self)@ == connected_spec(old(self)@, id),
    {
        let mut found = false;
        let mut i: usize = 0;
        while i < self.subscribers.len()
            invariant
                *self == *old(self),
                i <= self.subscribers@.len(),
                found <==> exists|j: int| 0 <= j < i && self.subscribers@[j] == id,
            decreases self.subscribers@.len() - i,
        {
            if self.subscribers[i] == id {
                found = true;
            }
            i = i + 1;
        }
        if !found {
            self.subscribers.push(id);
        }
    }

    /// Removes `id` from the subscribers.
    pub fn disconnected(&mut self, id: usize)
        requires
            old(self).wf(),
        ensures
            final(self).wf(),
            final(self)@ == disconnected_spec(old(self)@, id),
    {
        let ghost f = other_than(id);
        let mut kept: Vec<usize> = Vec::new();
        let mut i: usize = 0;
        while i < self.subscribers.len()
            invariant
                *self == *old(self),
                f == other_than(id),
                i <= self.subscribers@.len(),
                kept@ == self.subscribers@.subrange(0, i as int).filter(f),
            decreases self.subscribers@.len() - i,
        {
            proof {
                reveal(Seq::filter);
                let next = self.subscribers@.subrange(0, i + 1);
                assert(next.drop_last() =~= self.subscribers@.subrange(0, i as int));
                assert(next.last() == self.subscribers@[i as int]);
                assert(f(next.last()) <==> next.last() != id);
                assert(next.filter(f) == if f(next.last()) {
                    next.drop_last().filter(f).push(next.last())
                } else {
                    next.drop_last().filter(f)
                });
            }
            if self.subscribers[i] != id {
                kept.push(self.subscribers[i]);
            }
            i = i + 1;
        }
        assert(self.subscribers@.subrange(0, i as int) =~= self.subscribers@);
        proof {
            lemma_filter_no_duplicates(self.subscribers@, f);
        }
        self.subscribers = kept;
    }

    /// Answers `msg` from `who`: a new route goes to every subscriber; the
    /// current route goes to `who` alone.
    pub fn handle(&mut self, msg: Request, who: usize) -> (r: Notification)
        requires
            old(self).wf(),
        ensures
            final(self).wf(),
            final(self)@ == handle_spec(old(self)@, msg, who).0,
            handle_spec(old(self)@, msg, who).1 == Some((r.recipients@, r.route@)),
    {
        match msg {
            Request::ChangeRoute(route) => {
                self.route = route;
                let mut recipients: Vec<usize> = Vec::new();
                let mut i: usize = 0;
                while i < self.subscribers.len()
                    invariant
                        i <= self.subscribers@.len(),
                        recipients@ == self.subscribers@.subrange(0, i as int),
                    decreases self.subscribers@.len() - i,
                {
                    recipients.push(self.subscribers[i]);
                    i = i + 1;
                }
                assert(recipients@ =~= self.subscribers@);
                Notification { recipients, route: self.route.duplicate() }
            },
            Request::GetCurrentRoute => {
                Notification { recipients: vec![who], route: self.route.duplicate() }
            },
        }
    }
}

/// A route adopted while nobody is subscribed is delivered to nobody, and a
/// component that subscribes afterwards is not sent it: subscribing only adds
/// it to the subscribers and keeps that route as the current one.
pub proof fn lemma_change_before_subscribe_not_delivered(s: RouterState, route: Route, who: usize, id: usize)
    requires
        s.subscribers.len() == 0,
    ensures
        handle_spec(s, Request::ChangeRoute(route), who).1 == Some((Seq::<usize>::empty(), route@)),
        connected_spec(handle_spec(s, Request::ChangeRoute(route), who).0, id) == (RouterState {
            route: route@,
            subscribers: seq![id],
        }),
{
    assert(s.subscribers =~= Seq::<usize>::empty());
    assert(Seq::<usize>::empty().push(id) =~= seq![id]);
}

proof fn lemma_split_not_empty(s: Seq<char>)
    ensures
        split_on_slash(s).len() >= 1,
    decreases s.len(),
{
    if s.len() > 0 {
        lemma_split_not_empty(s.drop_last());
    }
}

proof fn lemma_filter_no_duplicates(s: Seq<usize>, f: spec_fn(usize) -> bool)
    requires
        s.no_duplicates(),
    ensures
        s.filter(f).no_duplicates(),
        forall|x: usize| s.filter(f).contains(x) ==> s.contains(x),
    decreases s.len(),
{
    reveal(Seq::filter);
    if s.len() > 0 {
        let init = s.drop_last();
        assert(init.no_duplicates());
        lemma_filter_no_duplicates(init, f);
        assert forall|x: usize| init.contains(x) implies s.contains(x) by {
            let k = choose|k: int| 0 <= k < init.len() && init[k] == x;
            assert(s[k] == x);
        }
        if f(s.last()) {
            assert(!init.contains(s.last())) by {
                if init.contains(s.last()) {
                    let k = choose|k: int| 0 <= k < init.len() && init[k] == s.last();
                    assert(s[k] == s[s.len() - 1]);
                }
            }
            let fi = init.filter(f);
            assert forall|x: usize| fi.push(s.last()).contains(x) implies s.contains(x) by {
                let k = choose|k: int| 0 <= k < fi.push(s.last()).len() && fi.push(s.last())[k] == x;
                if k < fi.len() {
                    assert(fi.contains(x));
                } else {
                    assert(s[s.len() - 1] == x);
                }
            }
        }
    }
}

} // verus!
