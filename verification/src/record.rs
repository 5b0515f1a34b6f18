//! The two records that travel through the API, and their mathematical views.

use vstd::prelude::*;

verus! {

/// A user as it appears in requests and responses.
#[derive(Clone, Debug, PartialEq, Eq)]
pub struct User {
    pub user_id: u64,
    pub username: String,
    pub email: Option<String>,
}

/// A post, built from the parameters of a query.
#[derive(Clone, Debug, PartialEq, Eq)]
pub struct Post {
    pub post_id: u64,
    pub title: String,
    pub summary: Option<String>,
}

/// What a [`User`] means: its number and the characters of its texts.
pub struct UserView {
    pub user_id: u64,
    pub username: Seq<char>,
    pub email: Option<Seq<char>>,
}

/// What a [`Post`] means: its number and the characters of its texts.
pub struct PostView {
    pub post_id: u64,
    pub title: Seq<char>,
    pub summary: Option<Seq<char>>,
}

/// The characters of an optional text; an absent text stays absent.
pub open spec fn text_view(text: Option<String>) -> Option<Seq<char>> {
    match text {
        Some(t) => Some(t@),
        None => None,
    }
}

impl View for User {
    type V = UserView;

    open spec fn view(&self) -> UserView {
        UserView {
            user_id: self.user_id,
            username: self.username@,
            email: text_view(self.email),
        }
    }
}

impl View for Post {
    type V = PostView;

    open spec fn view(&self) -> PostView {
        PostView {
            post_id: self.post_id,
            title: self.title@,
            summary: text_view(self.summary),
        }
    }
}

} // verus!
