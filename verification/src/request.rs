//! Decoding of request parameters into the typed values the handlers take.
//!
//! A query arrives as its fields in the order of the request: pairs of a name
//! and a value, both already URL-decoded. Where a name occurs more than once
//! its first occurrence counts. There is one class of error, the malformed
//! request, with two causes.

use vstd::prelude::*;
use vstd::string::StringExecFns;
use crate::decimal::{decimal, decimal_text, decimal_text_denotes, parse_u64};
use crate::record::{text_view, Post, PostView, User, UserView};
use crate::routes::{route_of, Handler, Kind, ParamView, Place};

verus! {

/// Why a request could not be decoded.
#[derive(Clone, Copy, Debug, PartialEq, Eq, Structural)]
pub enum RequestError {
    /// A required parameter is absent.
    MissingField,
    /// A parameter is present but its value does not have the required type.
    TypeMismatch,
}

/// The fields of a query as sequences of characters.
pub type Fields = Seq<(Seq<char>, Seq<char>)>;

/// The value of the first field named `key`, if there is such a field.
pub open spec fn first_value(fields: Fields, key: Seq<char>) -> Option<Seq<char>>
    decreases fields.len(),
{
    if fields.len() == 0 {
        None
    } else if fields[0].0 == key {
        Some(fields[0].1)
    } else {
        first_value(fields.drop_first(), key)
    }
}

/// What a required integer parameter decodes to.
pub open spec fn required_integer(fields: Fields, key: Seq<char>) -> Result<u64, RequestError> {
    match first_value(fields, key) {
        None => Err(RequestError::MissingField),
        Some(text) => match decimal(text) {
            None => Err(RequestError::TypeMismatch),
            Some(number) => Ok(number),
        },
    }
}

/// What a required text parameter decodes to. Every text is well-formed, the
/// empty one too.
pub open spec fn required_text(fields: Fields, key: Seq<char>) -> Result<Seq<char>, RequestError> {
    match first_value(fields, key) {
        None => Err(RequestError::MissingField),
        Some(text) => Ok(text),
    }
}

/// What a query decodes to that carries a required number, a required
/// text and an optional text under the three given names. The number is
/// decoded first, then the required text, and the first failure is reported.
pub open spec fn record_query(
    fields: Fields,
    number: Seq<char>,
    text: Seq<char>,
    optional: Seq<char>,
) -> Result<(u64, Seq<char>, Option<Seq<char>>), RequestError> {
    match required_integer(fields, number) {
        Err(e) => Err(e),
        Ok(n) => match required_text(fields, text) {
            Err(e) => Err(e),
            Ok(t) => Ok((n, t, first_value(fields, optional))),
        },
    }
}

/// The result of decoding the query of `GET /user_example`, whose parameters
/// are `userId`, `name` and the optional `email`.
pub open spec fn user_query(fields: Fields) -> Result<UserView, RequestError> {
    match record_query(fields, "userId"@, "name"@, "email"@) {
        Err(e) => Err(e),
        Ok((user_id, username, email)) => Ok(UserView { user_id, username, email }),
    }
}

/// The result of decoding the query of `GET /post_by_query`, whose parameters
/// are `postId`, `title` and the optional `summary`.
pub open spec fn post_query(fields: Fields) -> Result<PostView, RequestError> {
    match record_query(fields, "postId"@, "title"@, "summary"@) {
        Err(e) => Err(e),
        Ok((post_id, title, summary)) => Ok(PostView { post_id, title, summary }),
    }
}

/// Looks up the first field named `key`.
pub fn find_field<'a>(fields: &'a Vec<(String, String)>, key: &str) -> (value: Option<&'a String>)
    ensures
        match value {
            Some(text) => first_value(fields.deep_view(), key@) == Some(text@),
            None => first_value(fields.deep_view(), key@).is_none(),
        },
{
    let wanted = String::from_str(key);
    let ghost all = fields.deep_view();
    let mut i: usize = 0;
    assert(all.subrange(0, all.len() as int) =~= all);
    while i < fields.len()
        invariant
            i <= fields.len(),
            all == fields.deep_view(),
            wanted@ == key@,
            first_value(all, key@) == first_value(all.subrange(i as int, all.len() as int), key@),
        decreases fields.len() - i,
    {
        let ghost rest = all.subrange(i as int, all.len() as int);
        proof {
            assert(rest[0] == all[i as int]);
            assert(all[i as int] == (fields@[i as int].0@, fields@[i as int].1@));
            assert(rest.drop_first() =~= all.subrange(i + 1, all.len() as int));
        }
        if fields[i].0 == wanted {
            return Some(&fields[i].1);
        }
        i += 1;
    }
    None
}

/// Decodes the path parameter of `GET /user/{id}`.
pub fn decode_id(segment: &str) -> (id: Result<u64, RequestError>)
    ensures
        id is Ok <==> decimal(segment@) is Some,
        id matches Ok(number) ==> decimal(segment@) == Some(number),
        id matches Err(e) ==> e == RequestError::TypeMismatch,
{
    match parse_u64(segment) {
        Some(number) => Ok(number),
        None => Err(RequestError::TypeMismatch),
    }
}

/// Decodes a required integer parameter of a query.
pub fn integer_field(fields: &Vec<(String, String)>, key: &str) -> (number: Result<u64, RequestError>)
    ensures
        number == required_integer(fields.deep_view(), key@),
{
    match find_field(fields, key) {
        None => Err(RequestError::MissingField),
        Some(text) => match parse_u64(text.as_str()) {
            None => Err(RequestError::TypeMismatch),
            Some(number) => Ok(number),
        },
    }
}

/// Decodes a required text parameter of a query.
pub fn text_field(fields: &Vec<(String, String)>, key: &str) -> (text: Result<String, RequestError>)
    ensures
        match text {
            Ok(t) => required_text(fields.deep_view(), key@) == Ok::<Seq<char>, RequestError>(t@),
            Err(e) => required_text(fields.deep_view(), key@) == Err::<Seq<char>, RequestError>(e),
        },
{
    match find_field(fields, key) {
        None => Err(RequestError::MissingField),
        Some(text) => Ok(text.clone()),
    }
}

/// Decodes an optional text parameter of a query: absent when no field has
/// the name.
pub fn optional_text_field(fields: &Vec<(String, String)>, key: &str) -> (text: Option<String>)
    ensures
        text_view(text) == first_value(fields.deep_view(), key@),
{
    match find_field(fields, key) {
        None => None,
        Some(text) => Some(text.clone()),
    }
}

/// Decodes a query that carries a required number, a required text and an
/// optional text under the three given names.
pub fn decode_record(fields: &Vec<(String, String)>, number: &str, text: &str, optional: &str) -> (record:
    Result<(u64, String, Option<String>), RequestError>)
    ensures
        match record {
            Ok((n, t, o)) => record_query(fields.deep_view(), number@, text@, optional@) == Ok::<
                (u64, Seq<char>, Option<Seq<char>>),
                RequestError,
            >((n, t@, text_view(o))),
            Err(e) => record_query(fields.deep_view(), number@, text@, optional@) == Err::<
                (u64, Seq<char>, Option<Seq<char>>),
                RequestError,
            >(e),
        },
{
    let n = match integer_field(fields, number) {
        Ok(n) => n,
        Err(e) => {
            return Err(e);
        },
    };
    let t = match text_field(fields, text) {
        Ok(t) => t,
        Err(e) => {
            return Err(e);
        },
    };
    Ok((n, t, optional_text_field(fields, optional)))
}

/// Decodes the query of `GET /user_example` into the user it describes.
///
/// Succeeds exactly when `userId` is present and a decimal number and `name`
/// is present; `email` may be absent.
pub fn decode_user_query(fields: &Vec<(String, String)>) -> (user: Result<User, RequestError>)
    ensures
        match user {
            Ok(u) => user_query(fields.deep_view()) == Ok::<UserView, RequestError>(u@),
            Err(e) => user_query(fields.deep_view()) == Err::<UserView, RequestError>(e),
        },
{
    match decode_record(fields, "userId", "name", "email") {
        Ok((user_id, username, email)) => Ok(User { user_id, username, email }),
        Err(e) => Err(e),
    }
}

/// Decodes the query of `GET /post_by_query` into the post it describes.
///
/// Succeeds exactly when `postId` is present and a decimal number and `title`
/// is present; `summary` may be absent.
pub fn decode_post_query(fields: &Vec<(String, String)>) -> (post: Result<Post, RequestError>)
    ensures
        match post {
            Ok(p) => post_query(fields.deep_view()) == Ok::<PostView, RequestError>(p@),
            Err(e) => post_query(fields.deep_view()) == Err::<PostView, RequestError>(e),
        },
{
    match decode_record(fields, "postId", "title", "summary") {
        Ok((post_id, title, summary)) => Ok(Post { post_id, title, summary }),
        Err(e) => Err(e),
    }
}

/// The fields of a query that spells out a number, a text and, where there
/// is one, an optional text, each under its name and in this order.
pub open spec fn written(
    number: Seq<char>,
    n: u64,
    text: Seq<char>,
    t: Seq<char>,
    optional: Seq<char>,
    o: Option<Seq<char>>,
) -> Fields {
    let required = seq![(number, decimal_text(n as nat)), (text, t)];
    match o {
        Some(value) => required.push((optional, value)),
        None => required,
    }
}

/// A query that spells out its values decodes to exactly those values,
/// whatever the number, the text and the optional text are.
pub proof fn record_query_echoes(
    number: Seq<char>,
    n: u64,
    text: Seq<char>,
    t: Seq<char>,
    optional: Seq<char>,
    o: Option<Seq<char>>,
)
    requires
        number != text,
        number != optional,
        text != optional,
    ensures
        record_query(written(number, n, text, t, optional, o), number, text, optional) == Ok::<
            (u64, Seq<char>, Option<Seq<char>>),
            RequestError,
        >((n, t, o)),
{
    decimal_text_denotes(n);
    let fields = written(number, n, text, t, optional, o);
    let after_number = fields.drop_first();
    let after_text = after_number.drop_first();
    assert(first_value(fields, number) == Some(decimal_text(n as nat)));
    assert(first_value(after_number, text) == Some(t));
    assert(first_value(fields, text) == Some(t));
    assert(first_value(fields, optional) == first_value(after_number, optional));
    assert(first_value(after_number, optional) == first_value(after_text, optional));
    match o {
        Some(value) => {
            assert(after_text[0] == (optional, value));
        },
        None => {
            assert(after_text.len() == 0);
        },
    }
}

/// When a query decodes, and with which error it does not: it decodes exactly
/// if the number is present and decimal and the required text is present. A
/// missing number is reported before anything else, then a number that is not
/// decimal, then a missing text.
pub proof fn record_query_accepts(
    fields: Fields,
    number: Seq<char>,
    text: Seq<char>,
    optional: Seq<char>,
)
    ensures
        record_query(fields, number, text, optional) is Ok <==> (first_value(fields, number) matches Some(
            v,
        ) && decimal(v) is Some) && first_value(fields, text) is Some,
        first_value(fields, number) is None ==> record_query(fields, number, text, optional) == Err::<
            (u64, Seq<char>, Option<Seq<char>>),
            RequestError,
        >(RequestError::MissingField),
        (first_value(fields, number) matches Some(v) && decimal(v) is None) ==> record_query(
            fields,
            number,
            text,
            optional,
        ) == Err::<(u64, Seq<char>, Option<Seq<char>>), RequestError>(RequestError::TypeMismatch),
        (first_value(fields, number) matches Some(v) && decimal(v) is Some) && first_value(
            fields,
            text,
        ) is None ==> record_query(fields, number, text, optional) == Err::<
            (u64, Seq<char>, Option<Seq<char>>),
            RequestError,
        >(RequestError::MissingField),
{
}

/// The names of the parameters of the two queries differ from each other
/// within each query.
proof fn lemma_parameter_names_differ()
    ensures
        "userId"@ != "name"@,
        "userId"@ != "email"@,
        "name"@ != "email"@,
        "postId"@ != "title"@,
        "postId"@ != "summary"@,
        "title"@ != "summary"@,
{
    reveal_strlit("userId");
    reveal_strlit("name");
    reveal_strlit("email");
    reveal_strlit("postId");
    reveal_strlit("title");
    reveal_strlit("summary");
    assert("userId"@.len() == 6 && "name"@.len() == 4 && "email"@.len() == 5);
    assert("postId"@.len() == 6 && "title"@.len() == 5 && "summary"@.len() == 7);
}

/// `GET /user_example?userId=<u>&name=<n>&email=<e>` decodes to the user
/// made of exactly `u`, `n` and `e`, and without `email` to the user made of
/// `u` and `n` that has no email.
pub proof fn user_query_echoes(user_id: u64, name: Seq<char>, email: Option<Seq<char>>)
    ensures
        user_query(written("userId"@, user_id, "name"@, name, "email"@, email)) == Ok::<
            UserView,
            RequestError,
        >(UserView { user_id, username: name, email }),
{
    lemma_parameter_names_differ();
    record_query_echoes("userId"@, user_id, "name"@, name, "email"@, email);
}

/// `GET /post_by_query?postId=<p>&title=<t>&summary=<s>` decodes to the post
/// made of exactly `p`, `t` and `s`, and without `summary` to the post made
/// of `p` and `t` that has no summary.
pub proof fn post_query_echoes(post_id: u64, title: Seq<char>, summary: Option<Seq<char>>)
    ensures
        post_query(written("postId"@, post_id, "title"@, title, "summary"@, summary)) == Ok::<
            PostView,
            RequestError,
        >(PostView { post_id, title, summary }),
{
    lemma_parameter_names_differ();
    record_query_echoes("postId"@, post_id, "title"@, title, "summary"@, summary);
}

/// A query without `userId` or without `name` is malformed, and so is one
/// without `postId` or without `title`.
pub proof fn queries_need_their_required_fields(fields: Fields)
    ensures
        first_value(fields, "userId"@) is None || first_value(fields, "name"@) is None
            ==> user_query(fields) is Err,
        first_value(fields, "postId"@) is None || first_value(fields, "title"@) is None
            ==> post_query(fields) is Err,
{
}

/// Whether the fields of a query have what the parameter `param` asks for:
/// a required parameter is present, and an integer that is present is decimal.
pub open spec fn admits(param: ParamView, fields: Fields) -> bool {
    match first_value(fields, param.name) {
        None => !param.required,
        Some(value) => param.kind == Kind::Integer ==> decimal(value) is Some,
    }
}

/// Whether the fields of a query have what every query parameter of `params`
/// asks for.
pub open spec fn meets(params: Seq<ParamView>, fields: Fields) -> bool {
    forall|i: int|
        0 <= i < params.len() && (#[trigger] params[i]).place == Place::Query ==> admits(
            params[i],
            fields,
        )
}

/// The decoders agree with the route table: each accepts exactly the queries
/// that have what the parameter list of its route asks for.
pub proof fn decoders_follow_the_table(fields: Fields)
    ensures
        user_query(fields) is Ok <==> meets(route_of(Handler::GetUserByName).params, fields),
        post_query(fields) is Ok <==> meets(route_of(Handler::CreatePostByQuery).params, fields),
{
    let user_params = route_of(Handler::GetUserByName).params;
    let post_params = route_of(Handler::CreatePostByQuery).params;
    if meets(user_params, fields) {
        assert(admits(user_params[0], fields));
        assert(admits(user_params[1], fields));
    }
    if meets(post_params, fields) {
        assert(admits(post_params[0], fields));
        assert(admits(post_params[1], fields));
    }
}

} // verus!
