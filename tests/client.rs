use static_api_server::client::{Model, Msg};
use static_api_server::gateway::User;

#[test]
fn page_starts_empty_and_asks_for_users() {
    let (m, first) = Model::create();
    assert!(!m.fetching);
    assert!(m.users.is_none());
    assert!(m.error.is_none());
    assert!(matches!(first, Msg::FetchData));
}

#[test]
fn page_keeps_received_users_or_error() {
    let (mut m, first) = Model::create();
    assert!(m.update(first));
    assert!(m.fetching);
    let users = vec![User { name: "Alice".to_string() }];
    assert!(m.update(Msg::ReceiveResponse(Ok(users))));
    assert!(!m.fetching);
    assert_eq!(m.users.as_ref().map(|u| u.len()), Some(1));
    assert!(m.update(Msg::ReceiveResponse(Err("offline".to_string()))));
    assert_eq!(m.error.as_deref(), Some("offline"));
    assert_eq!(m.users.as_ref().map(|u| u[0].name.clone()), Some("Alice".to_string()));
    assert!(!m.change());
}
