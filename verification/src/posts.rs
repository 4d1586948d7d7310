//! The post record and its entity mapper.
//!
//! A [`Post`] corresponds field by field, in declared order, to the columns
//! of the posts table. The mapper decodes a row of values into a record and
//! encodes a record back into a row; decoding is proved to succeed exactly
//! on the rows that conform to the declared table shape, and the two
//! directions are proved inverse to each other.

use vstd::prelude::*;

use crate::error::DecodeError;
use crate::schema::{posts_table_model, row_conforms, SqlType};
use crate::value::{Value, ValueModel};

verus! {

/// A loaded row of the posts table.
#[derive(Debug, PartialEq)]
pub struct Post {
    pub id: i32,
    pub title: String,
    pub body: Option<String>,
}

/// The mathematical model of a [`Post`].
pub struct PostModel {
    pub id: int,
    pub title: Seq<char>,
    pub body: Option<Seq<char>>,
}

impl DeepView for Post {
    type V = PostModel;

    open spec fn deep_view(&self) -> PostModel {
        PostModel { id: self.id as int, title: self.title@, body: self.body.deep_view() }
    }
}

impl Clone for Post {
    /// The copy models the same record.
    fn clone(&self) -> (r: Self)
        ensures
            r.deep_view() == self.deep_view(),
    {
        Post {
            id: self.id,
            title: self.title.clone(),
            body: match &self.body {
                Some(b) => Some(b.clone()),
                None => None,
            },
        }
    }
}

impl Post {
    /// Builds a record from plain parts.
    pub fn new(id: i32, title: &str, body: Option<&str>) -> (r: Self)
        ensures
            r.deep_view() == (PostModel {
                id: id as int,
                title: title@,
                body: match body {
                    Some(b) => Some(b@),
                    None => None,
                },
            }),
    {
        Post {
            id,
            title: title.to_owned(),
            body: match body {
                Some(b) => Some(b.to_owned()),
                None => None,
            },
        }
    }
}

/// A record to be inserted: the store itself assigns the primary key.
#[derive(Debug, PartialEq)]
pub struct NewPost {
    pub title: String,
    pub body: Option<String>,
}

/// The mathematical model of a [`NewPost`].
pub struct NewPostModel {
    pub title: Seq<char>,
    pub body: Option<Seq<char>>,
}

impl DeepView for NewPost {
    type V = NewPostModel;

    open spec fn deep_view(&self) -> NewPostModel {
        NewPostModel { title: self.title@, body: self.body.deep_view() }
    }
}

impl NewPost {
    /// Builds an insertable record from plain parts.
    pub fn new(title: &str, body: Option<&str>) -> (r: Self)
        ensures
            r.deep_view() == (NewPostModel {
                title: title@,
                body: match body {
                    Some(b) => Some(b@),
                    None => None,
                },
            }),
    {
        NewPost {
            title: title.to_owned(),
            body: match body {
                Some(b) => Some(b.to_owned()),
                None => None,
            },
        }
    }
}

/// The row a post is stored as: its fields in declared column order.
pub open spec fn encode_post_model(p: PostModel) -> Seq<ValueModel> {
    seq![
        ValueModel::Int(p.id),
        ValueModel::Text(p.title),
        match p.body {
            Some(b) => ValueModel::Text(b),
            None => ValueModel::Null,
        },
    ]
}

/// The record a row decodes to, when the row fits the declared shape.
pub open spec fn decode_post_model(row: Seq<ValueModel>) -> Option<PostModel> {
    if row.len() != 3 {
        None
    } else {
        match (row[0], row[1], row[2]) {
            (ValueModel::Int(id), ValueModel::Text(title), ValueModel::Text(b)) => Some(
                PostModel { id, title, body: Some(b) },
            ),
            (ValueModel::Int(id), ValueModel::Text(title), ValueModel::Null) => Some(
                PostModel { id, title, body: None },
            ),
            _ => None,
        }
    }
}

/// Encodes a record into its row of values.
pub fn encode_post(p: &Post) -> (r: Vec<Value>)
    ensures
        r.deep_view() == encode_post_model(p.deep_view()),
{
    let mut r: Vec<Value> = Vec::new();
    r.push(Value::Int(p.id));
    r.push(Value::Text(p.title.clone()));
    match &p.body {
        Some(b) => r.push(Value::Text(b.clone())),
        None => r.push(Value::Null),
    }
    proof {
        assert(r.deep_view() =~= encode_post_model(p.deep_view()));
    }
    r
}

/// Decodes a row of values into a record. It fails with
/// [`DecodeError::ColumnCount`] when the row is not three cells wide, and
/// with [`DecodeError::ColumnType`] when a cell does not fit its column.
pub fn decode_post(row: &Vec<Value>) -> (r: Result<Post, DecodeError>)
    ensures
        match r {
            Ok(p) => decode_post_model(row.deep_view()) == Some(p.deep_view()),
            Err(DecodeError::ColumnCount) => row.deep_view().len() != 3,
            Err(DecodeError::ColumnType) => row.deep_view().len() == 3
                && decode_post_model(row.deep_view()) is None,
        },
{
    if row.len() != 3 {
        return Err(DecodeError::ColumnCount);
    }
    let id: i32 = match &row[0] {
        Value::Int(i) => *i,
        _ => {
            return Err(DecodeError::ColumnType);
        },
    };
    let title: String = match &row[1] {
        Value::Text(s) => s.clone(),
        _ => {
            return Err(DecodeError::ColumnType);
        },
    };
    let body: Option<String> = match &row[2] {
        Value::Text(s) => Some(s.clone()),
        Value::Null => None,
        _ => {
            return Err(DecodeError::ColumnType);
        },
    };
    Ok(Post { id, title, body })
}

/// Encoding a record and decoding the row gives the record back,
/// for every record.
pub proof fn lemma_post_round_trip(p: PostModel)
    ensures
        decode_post_model(encode_post_model(p)) == Some(p),
{
}

/// Decoding a row and encoding the record gives the row back: on rows it
/// accepts, the mapper loses nothing.
pub proof fn lemma_post_codec_complete(row: Seq<ValueModel>)
    requires
        decode_post_model(row) is Some,
    ensures
        encode_post_model(decode_post_model(row).unwrap()) == row,
{
    assert(encode_post_model(decode_post_model(row).unwrap()) =~= row);
}

/// The mapper accepts a row exactly when the row conforms to the declared
/// shape of the posts table.
pub proof fn lemma_decode_post_iff_conforms(row: Seq<ValueModel>)
    ensures
        decode_post_model(row) is Some <==> row_conforms(row, posts_table_model()),
{
    let t = posts_table_model();
    if row.len() == 3 {
        assert(t.columns[0].ty == SqlType::Integer && !t.columns[0].nullable);
        assert(t.columns[1].ty == SqlType::Text && !t.columns[1].nullable);
        assert(t.columns[2].ty == SqlType::Text && t.columns[2].nullable);
        if decode_post_model(row) is Some {
            assert(forall|i: int|
                0 <= i < row.len() ==> crate::schema::value_conforms(
                    row[i],
                    #[trigger] t.columns[i],
                ));
        }
    }
}

} // verus!
