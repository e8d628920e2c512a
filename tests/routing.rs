use froovie::router::{Request, Route, Router};
use froovie::{Child, Model, Msg};

fn route(segments: &[&str]) -> Route {
    Route { path_segments: segments.iter().map(|s| s.to_string()).collect(), query: None, fragment: None }
}

#[test]
fn root_starts_on_selection_and_asks_route() {
    let (model, request) = Model::create();
    assert!(matches!(model.child(), Child::UserSelection));
    assert!(matches!(request, Request::GetCurrentRoute));
}

#[test]
fn handle_route_picks_screen() {
    let (mut model, _) = Model::create();
    let u = model.update(Msg::HandleRoute(route(&["movies_search"])));
    assert!(u.should_render);
    assert!(matches!(model.child(), Child::MovieSearch));
    model.update(Msg::HandleRoute(route(&["my_selection", "x"])));
    assert!(matches!(model.child(), Child::UserSelection));
}

#[test]
fn handle_route_not_found() {
    let (mut model, _) = Model::create();
    model.update(Msg::HandleRoute(route(&[])));
    match model.child() {
        Child::PathNotFound(p) => assert_eq!(p, "path_not_found"),
        _ => panic!("an empty path is not found"),
    }
    model.update(Msg::HandleRoute(route(&["bogus"])));
    match model.child() {
        Child::PathNotFound(p) => assert_eq!(p, "bogus"),
        _ => panic!("an unknown path is not found"),
    }
    assert_eq!(model.child().view(), "Invalid path: 'bogus'");
}

#[test]
fn navigate_requests_route_change() {
    let (mut model, _) = Model::create();
    let u = model.update(Msg::NavigateTo(Child::MovieSearch));
    assert!(!u.should_render);
    assert!(matches!(model.child(), Child::UserSelection));
    match u.request {
        Some(Request::ChangeRoute(r)) => {
            assert_eq!(r.path_segments, vec!["movies_search".to_string()]);
            assert_eq!(r.query, None);
            assert_eq!(r.fragment, None);
        }
        _ => panic!("navigation must change the route"),
    }
    let u = model.update(Msg::NavigateTo(Child::UserSelection));
    match u.request {
        Some(Request::ChangeRoute(r)) => assert_eq!(r.path_segments, vec!["my_selection".to_string()]),
        _ => panic!("navigation must change the route"),
    }
}

#[test]
fn child_headings() {
    assert_eq!(Child::MovieSearch.view(), " Search a movie : ");
    assert_eq!(Child::UserSelection.view(), "User Selection: ");
}

#[test]
fn router_change_before_subscribe_not_delivered() {
    let mut router = Router::new(route(&["my_selection"]));
    let n = router.handle(Request::ChangeRoute(route(&["movies_search"])), 0);
    assert!(n.recipients.is_empty());
    router.connected(5);
    let n = router.handle(Request::ChangeRoute(route(&["my_selection"])), 5);
    assert_eq!(n.recipients, vec![5]);
    assert_eq!(n.route.path_segments, vec!["my_selection".to_string()]);
}

#[test]
fn router_broadcasts_in_order_once_each() {
    let mut router = Router::new(route(&[]));
    router.connected(3);
    router.connected(1);
    router.connected(3);
    let n = router.handle(Request::ChangeRoute(route(&["movies_search"])), 1);
    assert_eq!(n.recipients, vec![3, 1]);
    router.disconnected(3);
    let n = router.handle(Request::ChangeRoute(route(&["my_selection"])), 1);
    assert_eq!(n.recipients, vec![1]);
}

#[test]
fn router_current_route_goes_to_asker() {
    let mut router = Router::new(route(&["movies_search"]));
    router.connected(2);
    router.connected(4);
    let n = router.handle(Request::GetCurrentRoute, 4);
    assert_eq!(n.recipients, vec![4]);
    assert_eq!(n.route.path_segments, vec!["movies_search".to_string()]);
    let mut model = Model::create().0;
    model.update(Msg::HandleRoute(n.route));
    assert!(matches!(model.child(), Child::MovieSearch));
}

#[test]
fn route_from_address() {
    let r = Route::current("/movies_search", "", "");
    assert_eq!(r.path_segments, vec!["movies_search".to_string()]);
    assert_eq!(r.query, None);
    assert_eq!(r.fragment, None);
    let r = Route::current("/a/b/", "?x=1", "#");
    assert_eq!(r.path_segments, vec!["a".to_string(), "b".to_string(), String::new()]);
    assert_eq!(r.query, Some("x=1".to_string()));
    assert_eq!(r.fragment, None);
    let r = Route::current("/", "?", "#top");
    assert_eq!(r.path_segments, vec![String::new()]);
    assert_eq!(r.query, None);
    assert_eq!(r.fragment, Some("top".to_string()));
    assert!(Route::current("", "", "").path_segments.is_empty());
}

#[test]
fn route_from_root_is_not_found() {
    let (mut model, _) = Model::create();
    model.update(Msg::HandleRoute(Route::current("/", "", "")));
    match model.child() {
        Child::PathNotFound(p) => assert_eq!(p, ""),
        _ => panic!("the bare root has no screen"),
    }
}
