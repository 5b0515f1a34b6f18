use gateway_stub::handlers::{
    create_post_by_query, create_user, example_email, get_all_users, get_user, get_user_by_name,
    hidden,
};
use gateway_stub::record::{Post, User};

fn user(user_id: u64, username: &str, email: Option<&str>) -> User {
    User { user_id, username: username.to_string(), email: email.map(|e| e.to_string()) }
}

#[test]
fn example_email_is_the_fixed_address() {
    assert_eq!(example_email(), "test@example.com");
}

#[test]
fn get_all_users_returns_the_single_fixed_user() {
    assert_eq!(get_all_users(), vec![user(42, "bob", None)]);
}

#[test]
fn get_all_users_is_the_same_on_every_call() {
    assert_eq!(get_all_users(), get_all_users());
    assert_eq!(get_all_users().len(), 1);
}

#[test]
fn get_user_returns_two_users_with_the_id() {
    let found = get_user(7).expect("every id is found");
    assert_eq!(found[0], user(7, "bob", None));
    assert_eq!(found[1], user(7, "foobar", Some("test@example.com")));
}

#[test]
fn get_user_accepts_the_smallest_and_the_largest_id() {
    for id in [0, 1, u64::MAX] {
        let found = get_user(id).expect("every id is found");
        assert_eq!(found.len(), 2);
        assert_eq!(found[0], user(id, "bob", None));
        assert_eq!(found[1], user(id, "foobar", Some(example_email())));
    }
}

#[test]
fn get_user_by_name_echoes_all_three_values() {
    let found = get_user_by_name(9, "carol".to_string(), Some("carol@example.org".to_string()));
    assert_eq!(found, Some(user(9, "carol", Some("carol@example.org"))));
}

#[test]
fn get_user_by_name_without_email_has_no_email() {
    let found = get_user_by_name(u64::MAX, "dave".to_string(), None);
    assert_eq!(found, Some(user(u64::MAX, "dave", None)));
}

#[test]
fn get_user_by_name_keeps_an_empty_name_and_an_empty_email() {
    let found = get_user_by_name(0, String::new(), Some(String::new()));
    assert_eq!(found, Some(user(0, "", Some(""))));
}

#[test]
fn create_user_returns_the_user_unchanged() {
    let alice = user(7, "alice", None);
    assert_eq!(create_user(alice.clone()), alice);
}

#[test]
fn create_user_keeps_the_email() {
    let erin = user(1, "erin", Some("erin@example.org"));
    assert_eq!(create_user(erin.clone()), erin);
}

#[test]
fn hidden_returns_the_fixed_text() {
    assert_eq!(hidden(), "Hidden from swagger!");
}

#[test]
fn create_post_by_query_returns_the_post_unchanged() {
    let post = Post { post_id: 3, title: "Hello".to_string(), summary: None };
    assert_eq!(create_post_by_query(post.clone()), Some(post));
}

#[test]
fn create_post_by_query_keeps_the_summary() {
    let post =
        Post { post_id: 4, title: "World".to_string(), summary: Some("in short".to_string()) };
    assert_eq!(create_post_by_query(post.clone()), Some(post));
}
