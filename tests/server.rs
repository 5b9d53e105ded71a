use static_api_server::asset::{get_mime_type, resolve_asset};
use static_api_server::gateway::{Action, DbError, Event, FetchUsers, Stage, User};
use static_api_server::response::{
    api_response, db_error_message, encode_users, file_response, not_found_response, Body,
    FileError, HttpResponse,
};
use static_api_server::router::{route, Route};

fn text_of(r: &HttpResponse) -> String {
    match &r.body {
        Body::Text(t) => t.clone(),
        Body::Bytes(_) => panic!("expected a text body"),
    }
}

fn user(name: &str) -> User {
    User { name: name.to_string() }
}

#[test]
fn mime_types_follow_extension() {
    assert_eq!(get_mime_type("static/app.wasm"), "application/wasm");
    assert_eq!(get_mime_type("static/index.html"), "text/html");
    assert_eq!(get_mime_type("static/app.js"), "application/javascript");
    assert_eq!(get_mime_type("static/style.css"), "text/css");
    assert_eq!(get_mime_type("static/readme.txt"), "text/plain");
    assert_eq!(get_mime_type("static/noext"), "text/plain");
    assert_eq!(get_mime_type(""), "text/plain");
}

#[test]
fn root_resolves_to_default_document() {
    let a = resolve_asset("/");
    assert_eq!(a.file_path, "static/index.html");
    assert_eq!(a.content_type, "text/html");
}

#[test]
fn subpaths_resolve_under_static_dir() {
    let a = resolve_asset("/pkg/app_bg.wasm");
    assert_eq!(a.file_path, "static/pkg/app_bg.wasm");
    assert_eq!(a.content_type, "application/wasm");
}

#[test]
fn api_paths_are_routed_by_prefix() {
    assert!(matches!(route("/api/data"), Route::ApiData));
    assert!(matches!(route("/api/other"), Route::ApiNotFound));
    assert!(matches!(route("/api"), Route::ApiNotFound));
    match route("/style.css") {
        Route::Static(a) => {
            assert_eq!(a.file_path, "static/style.css");
            assert_eq!(a.content_type, "text/css");
        }
        _ => panic!("expected a static route"),
    }
}

#[test]
fn scenario_root_serves_index_html() {
    let a = match route("/") {
        Route::Static(a) => a,
        _ => panic!("expected a static route"),
    };
    let bytes = b"<html></html>".to_vec();
    let r = file_response(a, Ok(bytes.clone()));
    assert_eq!(r.status, 200);
    assert_eq!(r.content_type.as_deref(), Some("text/html"));
    match r.body {
        Body::Bytes(b) => assert_eq!(b, bytes),
        Body::Text(_) => panic!("expected bytes"),
    }
}

#[test]
fn scenario_missing_file_gives_diagnostic() {
    let a = match route("/missing.css") {
        Route::Static(a) => a,
        _ => panic!("expected a static route"),
    };
    assert_eq!(a.file_path, "static/missing.css");
    let r = file_response(a, Err(FileError::OpenFailed));
    assert_eq!(r.status, 200);
    assert_eq!(r.content_type.as_deref(), Some("text/plain"));
    assert_eq!(text_of(&r), "Error one!");
}

#[test]
fn read_failure_differs_from_open_failure() {
    let r = file_response(resolve_asset("/a.js"), Err(FileError::ReadFailed));
    assert_eq!(r.status, 200);
    assert_eq!(text_of(&r), "Error two!");
}

#[test]
fn scenario_database_unreachable() {
    let (mut f, first) = FetchUsers::start();
    assert!(matches!(first, Action::Connect));
    let a = f.advance(Event::ConnectRefused);
    assert!(f.stage == Stage::Finished);
    let outcome = match a {
        Action::Done(o) => o,
        _ => panic!("expected the fetch to end"),
    };
    assert!(matches!(outcome, Err(DbError::ConnectFailed)));
    let r = api_response(outcome);
    assert_eq!(r.status, 500);
    assert_eq!(r.content_type.as_deref(), Some("application/json"));
    assert_eq!(text_of(&r), r#"{"error": "Failed to connect to database"}"#);
}

#[test]
fn scenario_two_users_stored() {
    let (mut f, _) = FetchUsers::start();
    assert!(matches!(f.advance(Event::Connected), Action::SignIn));
    assert!(matches!(f.advance(Event::SignedIn), Action::SelectScope));
    assert!(matches!(f.advance(Event::ScopeSelected), Action::Query));
    let outcome = match f.advance(Event::Fetched(vec![user("Alice"), user("Bob")])) {
        Action::Done(o) => o,
        _ => panic!("expected the fetch to end"),
    };
    let r = api_response(outcome);
    assert_eq!(r.status, 200);
    assert_eq!(r.content_type.as_deref(), Some("application/json"));
    assert_eq!(text_of(&r), r#"[{"name":"Alice"},{"name":"Bob"}]"#);
}

#[test]
fn scenario_unknown_api_path() {
    assert!(matches!(route("/api/other"), Route::ApiNotFound));
    let r = not_found_response();
    assert_eq!(r.status, 404);
    assert_eq!(r.content_type.as_deref(), Some("text/plain"));
    assert_eq!(text_of(&r), "404 - Not Found");
}

#[test]
fn sign_in_timeout_is_its_own_failure() {
    let (mut f, _) = FetchUsers::start();
    f.advance(Event::Connected);
    let a = f.advance(Event::SignInTimedOut);
    assert!(matches!(a, Action::Done(Err(DbError::AuthTimeout))));
    assert!(matches!(f.advance(Event::ScopeSelected), Action::Idle));

    let (mut g, _) = FetchUsers::start();
    g.advance(Event::Connected);
    assert!(matches!(g.advance(Event::SignInRejected), Action::Done(Err(DbError::AuthFailed))));
    assert!(g.stage == Stage::Finished);
}

#[test]
fn failed_steps_end_the_fetch() {
    let (mut f, _) = FetchUsers::start();
    f.advance(Event::Connected);
    f.advance(Event::SignedIn);
    assert!(matches!(f.advance(Event::ScopeRefused), Action::Done(Err(DbError::ScopeSelectFailed))));
    let (mut g, _) = FetchUsers::start();
    g.advance(Event::Connected);
    g.advance(Event::SignedIn);
    g.advance(Event::ScopeSelected);
    assert!(matches!(g.advance(Event::QueryRefused), Action::Done(Err(DbError::QueryFailed))));
}

#[test]
fn out_of_order_event_does_not_skip_steps() {
    let (mut f, _) = FetchUsers::start();
    assert!(matches!(f.advance(Event::SignedIn), Action::Done(Err(DbError::ConnectFailed))));
}

#[test]
fn each_database_failure_has_its_message() {
    let cases = [
        (DbError::AuthFailed, r#"{"error": "Failed to sign in to database"}"#),
        (DbError::AuthTimeout, r#"{"error": "Database login timed out"}"#),
        (DbError::ScopeSelectFailed, r#"{"error": "Failed to select namespace and database"}"#),
        (DbError::QueryFailed, r#"{"error": "Failed to fetch data from database"}"#),
    ];
    for (e, body) in cases {
        let r = api_response(Err(e));
        assert_eq!(r.status, 500);
        assert_eq!(text_of(&r), body);
    }
    assert_eq!(db_error_message(DbError::ConnectFailed), "Failed to connect to database");
}

#[test]
fn names_are_escaped_in_json() {
    let j = encode_users(&vec![user("a\"b")]);
    assert_eq!(j, r#"[{"name":"a\"b"}]"#);
    assert_eq!(encode_users(&vec![]), "[]");
}

#[test]
fn repeated_encoding_is_identical() {
    let a = encode_users(&vec![user("Alice"), user("Bob")]);
    let b = encode_users(&vec![user("Alice"), user("Bob")]);
    assert_eq!(a, b);
}

#[test]
fn control_characters_are_escaped_in_json() {
    let j = encode_users(&vec![user("a\\b\tc\n\u{1}\u{1f}\u{8}\u{c}\r")]);
    assert_eq!(j, r#"[{"name":"a\\b\tc\n\u0001\u001f\b\f\r"}]"#);
}
