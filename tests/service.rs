use froovie::services::froovie_service::{
    FroovieService, Method, Body, Movie, MovieSearch, Reply, Selections, ServiceError, UserSelection,
    Operation, BACKEND,
};
use froovie::services::status::StatusCode;

fn status(code: u16) -> StatusCode {
    StatusCode::from_u16(code).unwrap()
}

fn movie(id: i32, title: &str) -> Movie {
    Movie { id, title: title.to_string(), description: String::new() }
}

#[test]
fn status_code_range() {
    assert!(StatusCode::from_u16(99).is_none());
    assert!(StatusCode::from_u16(600).is_none());
    assert_eq!(StatusCode::from_u16(100).unwrap().as_u16(), 100);
    assert_eq!(StatusCode::from_u16(599).unwrap().as_u16(), 599);
}

#[test]
fn status_success_class() {
    assert!(status(200).is_success());
    assert!(status(299).is_success());
    assert!(!status(199).is_success());
    assert!(!status(300).is_success());
    assert!(!status(500).is_success());
}

#[test]
fn status_line_has_reason() {
    assert_eq!(status(500).status_line(), "500 Internal Server Error");
    assert_eq!(status(404).status_line(), "404 Not Found");
}

#[test]
fn search_request_shape() {
    let service = FroovieService::new();
    let request = service.search_movie("cat");
    assert_eq!(request.method, Method::Post);
    assert_eq!(request.url, format!("{}/movies/search", BACKEND));
    match request.body {
        Body::Query(q) => assert_eq!(q.value, "cat"),
        _ => panic!("search request without a query"),
    }
}

#[test]
fn get_user_selection_request_shape() {
    let service = FroovieService::new();
    let request = service.get_user_selection("1");
    assert_eq!(request.method, Method::Get);
    assert_eq!(request.url, "http://localhost:6767/users/1/selections");
    assert!(matches!(request.body, Body::Nothing));
}

#[test]
fn post_user_selection_request_shape() {
    let service = FroovieService::new();
    let request = service.post_user_selection(42, 7);
    assert_eq!(request.method, Method::Post);
    assert_eq!(request.url, "http://localhost:6767/users/selections");
    match request.body {
        Body::Selection(s) => assert_eq!(s, UserSelection { user_id: 7, moviedb_id: 42 }),
        _ => panic!("saving request without a selection"),
    }
}

#[test]
fn post_user_selection_any_status_is_ok() {
    let r500 = FroovieService::post_user_selection_result(Reply::Received { status: status(500), body: Ok(()) });
    assert_eq!(r500.ok().map(|s| s.as_u16()), Some(500));
    let r200 = FroovieService::post_user_selection_result(Reply::Received { status: status(200), body: Ok(()) });
    assert_eq!(r200.ok().map(|s| s.as_u16()), Some(200));
    let r404 = FroovieService::post_user_selection_result(Reply::Received {
        status: status(404),
        body: Err("not json".to_string()),
    });
    assert!(r404.is_ok());
}

#[test]
fn post_user_selection_transport_failure_is_err() {
    let r = FroovieService::post_user_selection_result(Reply::Failed("connection refused".to_string()));
    match r {
        Err(ServiceError::Transport(m)) => assert_eq!(m, "connection refused"),
        _ => panic!("a missing response must fail"),
    }
}

#[test]
fn search_failure_status_is_err() {
    let r = FroovieService::search_movie_result(Reply::Received { status: status(500), body: Ok(vec![]) });
    match r {
        Err(e) => {
            assert!(matches!(e, ServiceError::HttpStatus(_, Operation::MovieSearch)));
            assert_eq!(e.to_string(), "500 Internal Server Error: error getting movie from froovie");
        }
        Ok(_) => panic!("a failure status must fail"),
    }
}

#[test]
fn search_success_passes_body() {
    let found = MovieSearch {
        moviedb_id: 1,
        title: "A".to_string(),
        description: "d".to_string(),
        image_url: None,
    };
    let r = FroovieService::search_movie_result(Reply::Received { status: status(200), body: Ok(vec![found]) });
    let movies = r.ok().unwrap();
    assert_eq!(movies.len(), 1);
    assert_eq!(movies[0].moviedb_id, 1);
    assert_eq!(movies[0].title, "A");
}

#[test]
fn search_decode_failure_is_err() {
    let r = FroovieService::search_movie_result(Reply::Received {
        status: status(200),
        body: Err("expected value at line 1".to_string()),
    });
    match r {
        Err(ServiceError::Decode(m)) => assert_eq!(m, "expected value at line 1"),
        _ => panic!("a malformed body must fail"),
    }
}

#[test]
fn user_selection_failure_status_message() {
    let r = FroovieService::get_user_selection_result(Reply::Received {
        status: status(404),
        body: Ok(Selections { movies: vec![] }),
    });
    match r {
        Err(e) => assert_eq!(e.to_string(), "404 Not Found: error getting user selection from froovie"),
        Ok(_) => panic!("a failure status must fail"),
    }
}

#[test]
fn user_selection_success_and_transport() {
    let ok = FroovieService::get_user_selection_result(Reply::Received {
        status: status(204),
        body: Ok(Selections { movies: vec![movie(3, "Up")] }),
    });
    assert_eq!(ok.ok().unwrap().movies[0].title, "Up");
    let failed = FroovieService::get_user_selection_result(Reply::Failed("timed out".to_string()));
    assert_eq!(failed.err().unwrap().to_string(), "timed out");
}

#[test]
fn image_src_defaults_to_empty() {
    let mut m = MovieSearch { moviedb_id: 2, title: "B".to_string(), description: String::new(), image_url: None };
    assert_eq!(m.image_src(), "");
    m.image_url = Some("http://img/b.png".to_string());
    assert_eq!(m.image_src(), "http://img/b.png");
}

#[test]
fn reply_from_fetch_no_response() {
    let r: Reply<()> = Reply::from_fetch(408, Err("failed response".to_string()));
    match r {
        Reply::Failed(m) => assert_eq!(m, "failed response"),
        _ => panic!("no response must be a failure"),
    }
    let r = FroovieService::post_user_selection_result(Reply::from_fetch(408, Err("failed".to_string())));
    assert!(matches!(r, Err(ServiceError::Transport(_))));
}

#[test]
fn reply_from_fetch_received() {
    let r: Reply<i32> = Reply::from_fetch(408, Ok(5));
    match r {
        Reply::Received { status, body } => {
            assert_eq!(status.as_u16(), 408);
            assert_eq!(body, Ok(5));
        }
        _ => panic!("a readable 408 is a response"),
    }
    let r: Reply<i32> = Reply::from_fetch(500, Err("not json".to_string()));
    match r {
        Reply::Received { status, body } => {
            assert_eq!(status.as_u16(), 500);
            assert_eq!(body, Err("not json".to_string()));
        }
        _ => panic!("a 500 is a response"),
    }
    let r = FroovieService::post_user_selection_result(Reply::from_fetch(500, Err("x".to_string())));
    assert_eq!(r.ok().map(|s| s.as_u16()), Some(500));
}

#[test]
fn reply_from_fetch_invalid_status() {
    let r: Reply<i32> = Reply::from_fetch(42, Ok(1));
    match r {
        Reply::Failed(m) => assert_eq!(m, "invalid status code"),
        _ => panic!("an invalid status is a failure"),
    }
    let r: Reply<i32> = Reply::from_fetch(700, Err("gone".to_string()));
    match r {
        Reply::Failed(m) => assert_eq!(m, "gone"),
        _ => panic!("an invalid status is a failure"),
    }
}
