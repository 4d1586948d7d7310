//! The records of the associated schema: users, and posts that reference
//! their owning user through a foreign key.

use vstd::prelude::*;

use crate::error::DecodeError;
use crate::schema::{blog_posts_table_model, row_conforms, users_table_model, SqlType};
use crate::value::{Value, ValueModel};

verus! {

/// A loaded row of the users table.
#[derive(Debug, PartialEq)]
pub struct User {
    pub id: i32,
    pub name: String,
}

/// The mathematical model of a [`User`].
pub struct UserModel {
    pub id: int,
    pub name: Seq<char>,
}

impl DeepView for User {
    type V = UserModel;

    open spec fn deep_view(&self) -> UserModel {
        UserModel { id: self.id as int, name: self.name@ }
    }
}

impl Clone for User {
    /// The copy models the same record.
    fn clone(&self) -> (r: Self)
        ensures
            r.deep_view() == self.deep_view(),
    {
        User { id: self.id, name: self.name.clone() }
    }
}

impl User {
    /// Builds a record from plain parts.
    pub fn new(id: i32, name: &str) -> (r: Self)
        ensures
            r.deep_view() == (UserModel { id: id as int, name: name@ }),
    {
        User { id, name: name.to_owned() }
    }
}

/// A loaded row of the posts table, carrying its owning user's key.
#[derive(Debug, PartialEq)]
pub struct Post {
    pub id: i32,
    pub title: String,
    pub body: Option<String>,
    pub user_id: i32,
}

/// The mathematical model of a [`Post`].
pub struct PostModel {
    pub id: int,
    pub title: Seq<char>,
    pub body: Option<Seq<char>>,
    pub user_id: int,
}

impl DeepView for Post {
    type V = PostModel;

    open spec fn deep_view(&self) -> PostModel {
        PostModel {
            id: self.id as int,
            title: self.title@,
            body: self.body.deep_view(),
            user_id: self.user_id as int,
        }
    }
}

impl Clone for Post {
    /// The copy models the same record.
    fn clone(&self) -> (r: Self)
        ensures
            r.deep_view() == self.deep_view(),
    {
        Post {
            id: self.id,
            title: self.title.clone(),
            body: match &self.body {
                Some(b) => Some(b.clone()),
                None => None,
            },
            user_id: self.user_id,
        }
    }
}

impl Post {
    /// Builds a record from plain parts.
    pub fn new(id: i32, title: &str, body: Option<&str>, user_id: i32) -> (r: Self)
        ensures
            r.deep_view() == (PostModel {
                id: id as int,
                title: title@,
                body: match body {
                    Some(b) => Some(b@),
                    None => None,
                },
                user_id: user_id as int,
            }),
    {
        Post {
            id,
            title: title.to_owned(),
            body: match body {
                Some(b) => Some(b.to_owned()),
                None => None,
            },
            user_id,
        }
    }
}

/// The row a user is stored as.
pub open spec fn encode_user_model(u: UserModel) -> Seq<ValueModel> {
    seq![ValueModel::Int(u.id), ValueModel::Text(u.name)]
}

/// The record a users row decodes to, when it fits the declared shape.
pub open spec fn decode_user_model(row: Seq<ValueModel>) -> Option<UserModel> {
    if row.len() != 2 {
        None
    } else {
        match (row[0], row[1]) {
            (ValueModel::Int(id), ValueModel::Text(name)) => Some(UserModel { id, name }),
            _ => None,
        }
    }
}

/// Decodes a users row into a record, with the same error discipline as
/// the posts mapper.
pub fn decode_user(row: &Vec<Value>) -> (r: Result<User, DecodeError>)
    ensures
        match r {
            Ok(u) => decode_user_model(row.deep_view()) == Some(u.deep_view()),
            Err(DecodeError::ColumnCount) => row.deep_view().len() != 2,
            Err(DecodeError::ColumnType) => row.deep_view().len() == 2 && decode_user_model(
                row.deep_view(),
            ) is None,
        },
{
    if row.len() != 2 {
        return Err(DecodeError::ColumnCount);
    }
    let id: i32 = match &row[0] {
        Value::Int(i) => *i,
        _ => {
            return Err(DecodeError::ColumnType);
        },
    };
    let name: String = match &row[1] {
        Value::Text(s) => s.clone(),
        _ => {
            return Err(DecodeError::ColumnType);
        },
    };
    Ok(User { id, name })
}

/// Encodes a user record into its row of values.
pub fn encode_user(u: &User) -> (r: Vec<Value>)
    ensures
        r.deep_view() == encode_user_model(u.deep_view()),
{
    let mut r: Vec<Value> = Vec::new();
    r.push(Value::Int(u.id));
    r.push(Value::Text(u.name.clone()));
    proof {
        assert(r.deep_view() =~= encode_user_model(u.deep_view()));
    }
    r
}

/// The row an associated post is stored as.
pub open spec fn encode_blog_post_model(p: PostModel) -> Seq<ValueModel> {
    seq![
        ValueModel::Int(p.id),
        ValueModel::Text(p.title),
        match p.body {
            Some(b) => ValueModel::Text(b),
            None => ValueModel::Null,
        },
        ValueModel::Int(p.user_id),
    ]
}

/// The record an associated posts row decodes to, when it fits the
/// declared shape.
pub open spec fn decode_blog_post_model(row: Seq<ValueModel>) -> Option<PostModel> {
    if row.len() != 4 {
        None
    } else {
        match (row[0], row[1], row[2], row[3]) {
            (
                ValueModel::Int(id),
                ValueModel::Text(title),
                ValueModel::Text(b),
                ValueModel::Int(user_id),
            ) => Some(PostModel { id, title, body: Some(b), user_id }),
            (
                ValueModel::Int(id),
                ValueModel::Text(title),
                ValueModel::Null,
                ValueModel::Int(user_id),
            ) => Some(PostModel { id, title, body: None, user_id }),
            _ => None,
        }
    }
}

/// Encodes an associated post record into its row of values.
pub fn encode_blog_post(p: &Post) -> (r: Vec<Value>)
    ensures
        r.deep_view() == encode_blog_post_model(p.deep_view()),
{
    let mut r: Vec<Value> = Vec::new();
    r.push(Value::Int(p.id));
    r.push(Value::Text(p.title.clone()));
    match &p.body {
        Some(b) => r.push(Value::Text(b.clone())),
        None => r.push(Value::Null),
    }
    r.push(Value::Int(p.user_id));
    proof {
        assert(r.deep_view() =~= encode_blog_post_model(p.deep_view()));
    }
    r
}

/// Decodes an associated posts row into a record.
pub fn decode_blog_post(row: &Vec<Value>) -> (r: Result<Post, DecodeError>)
    ensures
        match r {
            Ok(p) => decode_blog_post_model(row.deep_view()) == Some(p.deep_view()),
            Err(DecodeError::ColumnCount) => row.deep_view().len() != 4,
            Err(DecodeError::ColumnType) => row.deep_view().len() == 4 && decode_blog_post_model(
                row.deep_view(),
            ) is None,
        },
{
    if row.len() != 4 {
        return Err(DecodeError::ColumnCount);
    }
    let id: i32 = match &row[0] {
        Value::Int(i) => *i,
        _ => {
            return Err(DecodeError::ColumnType);
        },
    };
    let title: String = match &row[1] {
        Value::Text(s) => s.clone(),
        _ => {
            return Err(DecodeError::ColumnType);
        },
    };
    let body: Option<String> = match &row[2] {
        Value::Text(s) => Some(s.clone()),
        Value::Null => None,
        _ => {
            return Err(DecodeError::ColumnType);
        },
    };
    let user_id: i32 = match &row[3] {
        Value::Int(i) => *i,
        _ => {
            return Err(DecodeError::ColumnType);
        },
    };
    Ok(Post { id, title, body, user_id })
}

/// Encoding a user and decoding the row gives the user back.
pub proof fn lemma_user_round_trip(u: UserModel)
    ensures
        decode_user_model(encode_user_model(u)) == Some(u),
{
}

/// Encoding an associated post and decoding the row gives it back.
pub proof fn lemma_blog_post_round_trip(p: PostModel)
    ensures
        decode_blog_post_model(encode_blog_post_model(p)) == Some(p),
{
}

/// The users mapper accepts a row exactly when it conforms to the
/// declared shape of the users table.
pub proof fn lemma_decode_user_iff_conforms(row: Seq<ValueModel>)
    ensures
        decode_user_model(row) is Some <==> row_conforms(row, users_table_model()),
{
    let t = users_table_model();
    if row.len() == 2 {
        assert(t.columns[0].ty == SqlType::Integer && !t.columns[0].nullable);
        assert(t.columns[1].ty == SqlType::Text && !t.columns[1].nullable);
        if decode_user_model(row) is Some {
            assert(forall|i: int|
                0 <= i < row.len() ==> crate::schema::value_conforms(
                    row[i],
                    #[trigger] t.columns[i],
                ));
        }
    }
}

/// The associated-posts mapper accepts a row exactly when it conforms to
/// the declared shape of the posts table with its foreign key.
pub proof fn lemma_decode_blog_post_iff_conforms(row: Seq<ValueModel>)
    ensures
        decode_blog_post_model(row) is Some <==> row_conforms(row, blog_posts_table_model()),
{
    let t = blog_posts_table_model();
    if row.len() == 4 {
        assert(t.columns[0].ty == SqlType::Integer && !t.columns[0].nullable);
        assert(t.columns[1].ty == SqlType::Text && !t.columns[1].nullable);
        assert(t.columns[2].ty == SqlType::Text && t.columns[2].nullable);
        assert(t.columns[3].ty == SqlType::Integer && !t.columns[3].nullable);
        if decode_blog_post_model(row) is Some {
            assert(forall|i: int|
                0 <= i < row.len() ==> crate::schema::value_conforms(
                    row[i],
                    #[trigger] t.columns[i],
                ));
        }
    }
}

} // verus!
