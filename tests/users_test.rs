use weather::users::{create_user, get_user, User};

#[test]
fn create_user_echoes_the_record() {
    let reply = create_user(User { id: 2, name: "Jane".to_string() });
    assert_eq!(reply.status, 201);
    assert_eq!(reply.user, User { id: 2, name: "Jane".to_string() });
}

#[test]
fn get_user_returns_john() {
    let reply = get_user();
    assert_eq!(reply.status, 200);
    assert_eq!(reply.user, User { id: 1, name: "John".to_string() });
}

#[test]
fn users_differ_by_id_or_name() {
    let jane = User { id: 2, name: "Jane".to_string() };
    assert_ne!(jane, User { id: 3, name: "Jane".to_string() });
    assert_ne!(jane, User { id: 2, name: "Joan".to_string() });
}
