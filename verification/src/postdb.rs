//! The in-memory posts store and its connection.
//!
//! A [`PostsDb`] is the state a posts table reaches through the query
//! operations: its rows in insertion order, and the next value of its
//! primary-key sequence. A [`Connection`] owns one store and optionally a
//! snapshot of it: the snapshot is taken by `begin_test_transaction` and is
//! what `rollback` restores, so a unit of work scoped by a transaction can
//! be undone completely.

use vstd::prelude::*;

use crate::error::QueryError;
use crate::posts::{Post, PostModel};

verus! {

/// The in-memory posts table.
#[derive(Debug)]
pub struct PostsDb {
    pub posts: Vec<Post>,
    pub next_id: i32,
}

/// The mathematical model of a [`PostsDb`].
pub struct DbModel {
    pub posts: Seq<PostModel>,
    pub next_id: int,
}

impl DeepView for PostsDb {
    type V = DbModel;

    open spec fn deep_view(&self) -> DbModel {
        DbModel { posts: self.posts.deep_view(), next_id: self.next_id as int }
    }
}

/// Primary keys appear in strictly increasing order.
pub open spec fn ids_increasing(s: Seq<PostModel>) -> bool {
    forall|i: int, j: int| 0 <= i < j < s.len() ==> #[trigger] s[i].id < #[trigger] s[j].id
}

impl DbModel {
    /// The store's invariant: the sequence has handed out only positive
    /// keys below `next_id`, and rows stand in key order.
    pub open spec fn wf(self) -> bool {
        &&& 1 <= self.next_id <= i32::MAX
        &&& forall|i: int|
            0 <= i < self.posts.len() ==> 1 <= (#[trigger] self.posts[i]).id < self.next_id
        &&& ids_increasing(self.posts)
    }
}

/// Copies the rows of a table; the copy models the same sequence.
pub fn clone_posts(v: &Vec<Post>) -> (r: Vec<Post>)
    ensures
        r.deep_view() == v.deep_view(),
{
    let mut r: Vec<Post> = Vec::new();
    let mut i: usize = 0;
    while i < v.len()
        invariant
            i <= v.len(),
            r.len() == i,
            forall|k: int| 0 <= k < i ==> r.deep_view()[k] == v.deep_view()[k],
        decreases v.len() - i,
    {
        r.push(v[i].clone());
        i = i + 1;
    }
    proof {
        assert(r.deep_view() =~= v.deep_view());
    }
    r
}

impl Clone for PostsDb {
    /// The copy models the same store.
    fn clone(&self) -> (r: Self)
        ensures
            r.deep_view() == self.deep_view(),
    {
        PostsDb { posts: clone_posts(&self.posts), next_id: self.next_id }
    }
}

/// A connection to the store: the live table state, and the snapshot that
/// an open transaction would roll back to.
#[derive(Debug)]
pub struct Connection {
    pub db: PostsDb,
    pub snapshot: Option<PostsDb>,
}

/// The mathematical model of a [`Connection`].
pub struct ConnModel {
    pub db: DbModel,
    pub snapshot: Option<DbModel>,
}

impl DeepView for Connection {
    type V = ConnModel;

    open spec fn deep_view(&self) -> ConnModel {
        ConnModel { db: self.db.deep_view(), snapshot: self.snapshot.deep_view() }
    }
}

impl ConnModel {
    /// Both the live state and a pending snapshot satisfy the store's
    /// invariant.
    pub open spec fn wf(self) -> bool {
        &&& self.db.wf()
        &&& (self.snapshot matches Some(s) ==> s.wf())
    }

    /// A transaction is open.
    pub open spec fn in_transaction(self) -> bool {
        self.snapshot is Some
    }
}

impl Connection {
    /// Acquires a connection to a fresh, empty store whose primary-key
    /// sequence starts at 1. No transaction is open.
    pub fn establish() -> (c: Connection)
        ensures
            c.deep_view() == (ConnModel {
                db: DbModel { posts: Seq::<PostModel>::empty(), next_id: 1 },
                snapshot: None::<DbModel>,
            }),
            c.deep_view().wf(),
    {
        let c = Connection { db: PostsDb { posts: Vec::new(), next_id: 1 }, snapshot: None };
        proof {
            assert(c.deep_view().db.posts =~= Seq::<PostModel>::empty());
        }
        c
    }

    /// Opens a transaction by snapshotting the live state. Fails with
    /// [`QueryError::AlreadyInTransaction`] exactly when one is open;
    /// nested transactions are not supported.
    pub fn begin_test_transaction(&mut self) -> (r: Result<(), QueryError>)
        ensures
            old(self).deep_view().in_transaction() ==> r == Err::<(), QueryError>(
                QueryError::AlreadyInTransaction,
            ) && final(self).deep_view() == old(self).deep_view(),
            !old(self).deep_view().in_transaction() ==> r == Ok::<(), QueryError>(())
                && final(self).deep_view() == (ConnModel {
                db: old(self).deep_view().db,
                snapshot: Some(old(self).deep_view().db),
            }),
    {
        if self.snapshot.is_some() {
            return Err(QueryError::AlreadyInTransaction);
        }
        self.snapshot = Some(self.db.clone());
        Ok(())
    }

    /// Closes the open transaction, keeping the live state. Fails with
    /// [`QueryError::NotInTransaction`] exactly when none is open.
    pub fn commit(&mut self) -> (r: Result<(), QueryError>)
        ensures
            !old(self).deep_view().in_transaction() ==> r == Err::<(), QueryError>(
                QueryError::NotInTransaction,
            ) && final(self).deep_view() == old(self).deep_view(),
            old(self).deep_view().in_transaction() ==> r == Ok::<(), QueryError>(())
                && final(self).deep_view() == (ConnModel {
                db: old(self).deep_view().db,
                snapshot: None::<DbModel>,
            }),
    {
        if self.snapshot.is_none() {
            return Err(QueryError::NotInTransaction);
        }
        self.snapshot = None;
        Ok(())
    }

    /// Closes the open transaction and restores the snapshot: the live
    /// state becomes what it was when the transaction began, whatever was
    /// executed in between. Fails with [`QueryError::NotInTransaction`]
    /// exactly when none is open.
    pub fn rollback(&mut self) -> (r: Result<(), QueryError>)
        ensures
            !old(self).deep_view().in_transaction() ==> r == Err::<(), QueryError>(
                QueryError::NotInTransaction,
            ) && final(self).deep_view() == old(self).deep_view(),
            old(self).deep_view().in_transaction() ==> r == Ok::<(), QueryError>(())
                && final(self).deep_view() == (ConnModel {
                db: old(self).deep_view().snapshot.unwrap(),
                snapshot: None::<DbModel>,
            }),
    {
        let snap = self.snapshot.take();
        match snap {
            Some(db) => {
                self.db = db;
                Ok(())
            },
            None => Err(QueryError::NotInTransaction),
        }
    }
}

/// Acquires a connection the way the exercises do for test isolation: a
/// fresh store, its id sequence reset to 1, and a transaction opened so
/// that all work can be rolled back.
pub fn connection() -> (c: Connection)
    ensures
        c.deep_view() == (ConnModel {
            db: DbModel { posts: Seq::<PostModel>::empty(), next_id: 1 },
            snapshot: Some(DbModel { posts: Seq::<PostModel>::empty(), next_id: 1 }),
        }),
        c.deep_view().wf(),
{
    let mut c = Connection::establish();
    let r = c.begin_test_transaction();
    proof {
        assert(r is Ok);
    }
    c
}

} // verus!
