//! The handler behind each route: a pure function of its decoded input.
//!
//! No handler keeps state or fails: the fixed ones return constants, the
//! others hand back what they were given, field for field.

use vstd::prelude::*;
use vstd::string::StringExecFns;
use crate::record::{User, UserView, Post};

verus! {

/// The user that `GET /user` lists.
pub open spec fn listed_user() -> UserView {
    UserView { user_id: 42, username: "bob"@, email: None }
}

/// The first user that `GET /user/{id}` returns for `id`.
pub open spec fn first_user(id: u64) -> UserView {
    UserView { user_id: id, username: "bob"@, email: None }
}

/// The second user that `GET /user/{id}` returns for `id`.
pub open spec fn second_user(id: u64) -> UserView {
    UserView { user_id: id, username: "foobar"@, email: Some("test@example.com"@) }
}

/// The address used wherever an example of an email is needed.
pub fn example_email() -> (email: &'static str)
    ensures
        email@ == "test@example.com"@,
{
    "test@example.com"
}

/// `GET /user`: the list of all users, which always holds the one fixed user.
pub fn get_all_users() -> (users: Vec<User>)
    ensures
        users@.len() == 1,
        users@[0]@ == listed_user(),
{
    let mut users: Vec<User> = Vec::new();
    users.push(User { user_id: 42, username: String::from_str("bob"), email: None });
    users
}

/// `GET /user/{id}`: two users that both carry `id`. There is no lookup, so
/// every `id` is found.
pub fn get_user(id: u64) -> (found: Option<[User; 2]>)
    ensures
        found is Some,
        found->0@[0]@ == first_user(id),
        found->0@[1]@ == second_user(id),
{
    let first = User { user_id: id, username: String::from_str("bob"), email: None };
    let second = User {
        user_id: id,
        username: String::from_str("foobar"),
        email: Some(String::from_str(example_email())),
    };
    Some([first, second])
}

/// `GET /user_example`: the user made of the three decoded parameters.
pub fn get_user_by_name(user_id: u64, name: String, email: Option<String>) -> (found: Option<User>)
    ensures
        found == Some(User { user_id, username: name, email }),
{
    Some(User { user_id, username: name, email })
}

/// `POST /user`: the decoded user, unchanged.
pub fn create_user(user: User) -> (created: User)
    ensures
        created == user,
{
    user
}

/// `GET /hidden`: a fixed text. The route is served like the others but is
/// left out of the published schema.
pub fn hidden() -> (text: &'static str)
    ensures
        text@ == "Hidden from swagger!"@,
{
    "Hidden from swagger!"
}

/// `GET /post_by_query`: the decoded post, unchanged.
pub fn create_post_by_query(post: Post) -> (created: Option<Post>)
    ensures
        created == Some(post),
{
    Some(post)
}

} // verus!
