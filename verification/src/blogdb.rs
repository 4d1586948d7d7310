//! The in-memory store of the associated schema: a users table and a
//! posts table whose rows reference their owning user, with the joined
//! single-row load and the two-query association load.

use vstd::prelude::*;

use crate::blog::{Post, PostModel, User, UserModel};
use crate::error::QueryError;

verus! {

/// The in-memory users and posts tables, with both key sequences.
#[derive(Debug)]
pub struct BlogDb {
    pub users: Vec<User>,
    pub posts: Vec<Post>,
    pub next_user_id: i32,
    pub next_post_id: i32,
}

/// The mathematical model of a [`BlogDb`].
pub struct BlogDbModel {
    pub users: Seq<UserModel>,
    pub posts: Seq<PostModel>,
    pub next_user_id: int,
    pub next_post_id: int,
}

impl DeepView for BlogDb {
    type V = BlogDbModel;

    open spec fn deep_view(&self) -> BlogDbModel {
        BlogDbModel {
            users: self.users.deep_view(),
            posts: self.posts.deep_view(),
            next_user_id: self.next_user_id as int,
            next_post_id: self.next_post_id as int,
        }
    }
}

impl BlogDbModel {
    /// The store's invariant: each table has handed out only positive
    /// keys below its sequence, and rows stand in key order.
    pub open spec fn wf(self) -> bool {
        &&& 1 <= self.next_user_id <= i32::MAX
        &&& 1 <= self.next_post_id <= i32::MAX
        &&& forall|i: int|
            0 <= i < self.users.len() ==> 1 <= (#[trigger] self.users[i]).id < self.next_user_id
        &&& forall|i: int|
            0 <= i < self.posts.len() ==> 1 <= (#[trigger] self.posts[i]).id < self.next_post_id
        &&& forall|i: int, j: int|
            0 <= i < j < self.users.len() ==> #[trigger] self.users[i].id
                < #[trigger] self.users[j].id
        &&& forall|i: int, j: int|
            0 <= i < j < self.posts.len() ==> #[trigger] self.posts[i].id
                < #[trigger] self.posts[j].id
    }
}

/// Copies the rows of the users table.
fn clone_users(v: &Vec<User>) -> (r: Vec<User>)
    ensures
        r.deep_view() == v.deep_view(),
{
    let mut r: Vec<User> = Vec::new();
    let mut i: usize = 0;
    while i < v.len()
        invariant
            i <= v.len(),
            r.len() == i,
            forall|k: int| 0 <= k < i ==> r.deep_view()[k] == v.deep_view()[k],
        decreases v.len() - i,
    {
        r.push(v[i].clone());
        i = i + 1;
    }
    proof {
        assert(r.deep_view() =~= v.deep_view());
    }
    r
}

/// Copies the rows of the posts table.
fn clone_blog_posts(v: &Vec<Post>) -> (r: Vec<Post>)
    ensures
        r.deep_view() == v.deep_view(),
{
    let mut r: Vec<Post> = Vec::new();
    let mut i: usize = 0;
    while i < v.len()
        invariant
            i <= v.len(),
            r.len() == i,
            forall|k: int| 0 <= k < i ==> r.deep_view()[k] == v.deep_view()[k],
        decreases v.len() - i,
    {
        r.push(v[i].clone());
        i = i + 1;
    }
    proof {
        assert(r.deep_view() =~= v.deep_view());
    }
    r
}

impl Clone for BlogDb {
    /// The copy models the same store.
    fn clone(&self) -> (r: Self)
        ensures
            r.deep_view() == self.deep_view(),
    {
        BlogDb {
            users: clone_users(&self.users),
            posts: clone_blog_posts(&self.posts),
            next_user_id: self.next_user_id,
            next_post_id: self.next_post_id,
        }
    }
}

/// A connection to the associated store, with its transaction snapshot.
#[derive(Debug)]
pub struct Connection {
    pub db: BlogDb,
    pub snapshot: Option<BlogDb>,
}

/// The mathematical model of a [`Connection`].
pub struct ConnModel {
    pub db: BlogDbModel,
    pub snapshot: Option<BlogDbModel>,
}

impl DeepView for Connection {
    type V = ConnModel;

    open spec fn deep_view(&self) -> ConnModel {
        ConnModel { db: self.db.deep_view(), snapshot: self.snapshot.deep_view() }
    }
}

impl ConnModel {
    /// Both the live state and a pending snapshot satisfy the store's
    /// invariant.
    pub open spec fn wf(self) -> bool {
        &&& self.db.wf()
        &&& (self.snapshot matches Some(s) ==> s.wf())
    }

    /// A transaction is open.
    pub open spec fn in_transaction(self) -> bool {
        self.snapshot is Some
    }

    /// The model of a fresh, empty store.
    pub open spec fn empty_db() -> BlogDbModel {
        BlogDbModel {
            users: Seq::<UserModel>::empty(),
            posts: Seq::<PostModel>::empty(),
            next_user_id: 1,
            next_post_id: 1,
        }
    }
}

impl Connection {
    /// Acquires a connection to a fresh, empty store. No transaction is
    /// open.
    pub fn establish() -> (c: Connection)
        ensures
            c.deep_view() == (ConnModel { db: ConnModel::empty_db(), snapshot: None::<BlogDbModel> }),
            c.deep_view().wf(),
    {
        let c = Connection {
            db: BlogDb { users: Vec::new(), posts: Vec::new(), next_user_id: 1, next_post_id: 1 },
            snapshot: None,
        };
        proof {
            assert(c.deep_view().db.users =~= Seq::<UserModel>::empty());
            assert(c.deep_view().db.posts =~= Seq::<PostModel>::empty());
        }
        c
    }

    /// Opens a transaction by snapshotting the live state. Fails with
    /// [`QueryError::AlreadyInTransaction`] exactly when one is open.
    pub fn begin_test_transaction(&mut self) -> (r: Result<(), QueryError>)
        ensures
            old(self).deep_view().in_transaction() ==> r == Err::<(), QueryError>(
                QueryError::AlreadyInTransaction,
            ) && final(self).deep_view() == old(self).deep_view(),
            !old(self).deep_view().in_transaction() ==> r == Ok::<(), QueryError>(())
                && final(self).deep_view() == (ConnModel {
                db: old(self).deep_view().db,
                snapshot: Some(old(self).deep_view().db),
            }),
    {
        if self.snapshot.is_some() {
            return Err(QueryError::AlreadyInTransaction);
        }
        self.snapshot = Some(self.db.clone());
        Ok(())
    }

    /// Closes the open transaction, keeping the live state. Fails with
    /// [`QueryError::NotInTransaction`] exactly when none is open.
    pub fn commit(&mut self) -> (r: Result<(), QueryError>)
        ensures
            !old(self).deep_view().in_transaction() ==> r == Err::<(), QueryError>(
                QueryError::NotInTransaction,
            ) && final(self).deep_view() == old(self).deep_view(),
            old(self).deep_view().in_transaction() ==> r == Ok::<(), QueryError>(())
                && final(self).deep_view() == (ConnModel {
                db: old(self).deep_view().db,
                snapshot: None::<BlogDbModel>,
            }),
    {
        if self.snapshot.is_none() {
            return Err(QueryError::NotInTransaction);
        }
        self.snapshot = None;
        Ok(())
    }

    /// Closes the open transaction and restores the snapshot. Fails with
    /// [`QueryError::NotInTransaction`] exactly when none is open.
    pub fn rollback(&mut self) -> (r: Result<(), QueryError>)
        ensures
            !old(self).deep_view().in_transaction() ==> r == Err::<(), QueryError>(
                QueryError::NotInTransaction,
            ) && final(self).deep_view() == old(self).deep_view(),
            old(self).deep_view().in_transaction() ==> r == Ok::<(), QueryError>(())
                && final(self).deep_view() == (ConnModel {
                db: old(self).deep_view().snapshot.unwrap(),
                snapshot: None::<BlogDbModel>,
            }),
    {
        let snap = self.snapshot.take();
        match snap {
            Some(db) => {
                self.db = db;
                Ok(())
            },
            None => Err(QueryError::NotInTransaction),
        }
    }
}

/// Acquires a connection for an isolated unit of work: a fresh store,
/// both key sequences reset to 1, and a transaction opened.
pub fn connection() -> (c: Connection)
    ensures
        c.deep_view() == (ConnModel {
            db: ConnModel::empty_db(),
            snapshot: Some(ConnModel::empty_db()),
        }),
        c.deep_view().wf(),
{
    let mut c = Connection::establish();
    let r = c.begin_test_transaction();
    proof {
        assert(r is Ok);
    }
    c
}

/// Inserts one user; the store assigns the next key of the users
/// sequence and returns the created record.
pub fn insert_user(conn: &mut Connection, name: &str) -> (r: Result<User, QueryError>)
    requires
        old(conn).deep_view().wf(),
        old(conn).deep_view().db.next_user_id < i32::MAX,
    ensures
        ({
            let prev = old(conn).deep_view();
            let now = final(conn).deep_view();
            let created = UserModel { id: prev.db.next_user_id, name: name@ };
            &&& (r matches Ok(u) && u.deep_view() == created)
            &&& now == (ConnModel {
                db: BlogDbModel {
                    users: prev.db.users.push(created),
                    posts: prev.db.posts,
                    next_user_id: prev.db.next_user_id + 1,
                    next_post_id: prev.db.next_post_id,
                },
                snapshot: prev.snapshot,
            })
            &&& now.wf()
        }),
{
    let u = User { id: conn.db.next_user_id, name: name.to_owned() };
    let created = u.clone();
    conn.db.users.push(u);
    conn.db.next_user_id = conn.db.next_user_id + 1;
    proof {
        let prev = old(conn).deep_view().db.users;
        let m = UserModel { id: old(conn).deep_view().db.next_user_id, name: name@ };
        assert(conn.deep_view().db.users =~= prev.push(m));
        let dv = conn.deep_view().db.users;
        assert forall|i: int, j: int| 0 <= i < j < dv.len() implies #[trigger] dv[i].id
            < #[trigger] dv[j].id by {
            if j == prev.len() {
                assert(dv[i].id < old(conn).deep_view().db.next_user_id);
            }
        }
    }
    Ok(created)
}

/// Inserts one post owned by the given user; the store assigns the next
/// key of the posts sequence and returns the created record. The
/// relationship is not enforced here: it only permits joined loads.
pub fn insert_post(conn: &mut Connection, title: &str, user_id: i32) -> (r: Result<
    Post,
    QueryError,
>)
    requires
        old(conn).deep_view().wf(),
        old(conn).deep_view().db.next_post_id < i32::MAX,
    ensures
        ({
            let prev = old(conn).deep_view();
            let now = final(conn).deep_view();
            let created = PostModel {
                id: prev.db.next_post_id,
                title: title@,
                body: None,
                user_id: user_id as int,
            };
            &&& (r matches Ok(p) && p.deep_view() == created)
            &&& now == (ConnModel {
                db: BlogDbModel {
                    users: prev.db.users,
                    posts: prev.db.posts.push(created),
                    next_user_id: prev.db.next_user_id,
                    next_post_id: prev.db.next_post_id + 1,
                },
                snapshot: prev.snapshot,
            })
            &&& now.wf()
        }),
{
    let p = Post { id: conn.db.next_post_id, title: title.to_owned(), body: None, user_id };
    let created = p.clone();
    conn.db.posts.push(p);
    conn.db.next_post_id = conn.db.next_post_id + 1;
    proof {
        let prev = old(conn).deep_view().db.posts;
        let m = PostModel {
            id: old(conn).deep_view().db.next_post_id,
            title: title@,
            body: None,
            user_id: user_id as int,
        };
        assert(conn.deep_view().db.posts =~= prev.push(m));
        let dv = conn.deep_view().db.posts;
        assert forall|i: int, j: int| 0 <= i < j < dv.len() implies #[trigger] dv[i].id
            < #[trigger] dv[j].id by {
            if j == prev.len() {
                assert(dv[i].id < old(conn).deep_view().db.next_post_id);
            }
        }
    }
    Ok(created)
}

/// The first post row carrying the given key, in row order.
pub open spec fn find_post(s: Seq<PostModel>, id: int) -> Option<PostModel>
    decreases s.len(),
{
    if s.len() == 0 {
        None
    } else if s[0].id == id {
        Some(s[0])
    } else {
        find_post(s.drop_first(), id)
    }
}

/// The first user row carrying the given key, in row order.
pub open spec fn find_user(s: Seq<UserModel>, id: int) -> Option<UserModel>
    decreases s.len(),
{
    if s.len() == 0 {
        None
    } else if s[0].id == id {
        Some(s[0])
    } else {
        find_user(s.drop_first(), id)
    }
}

/// Scans the posts table for the first row with the given key.
fn find_post_row(posts: &Vec<Post>, id: i32) -> (r: Option<Post>)
    ensures
        match r {
            Some(p) => find_post(posts.deep_view(), id as int) == Some(p.deep_view()),
            None => find_post(posts.deep_view(), id as int) is None,
        },
{
    let dv = Ghost(posts.deep_view());
    let mut i: usize = 0;
    proof {
        assert(dv@.skip(0) =~= dv@);
    }
    while i < posts.len()
        invariant
            i <= posts.len(),
            dv@ == posts.deep_view(),
            find_post(dv@, id as int) == find_post(dv@.skip(i as int), id as int),
        decreases posts.len() - i,
    {
        proof {
            assert(dv@.skip(i as int)[0] == dv@[i as int]);
            assert(dv@.skip(i as int).drop_first() =~= dv@.skip(i + 1));
        }
        if posts[i].id == id {
            return Some(posts[i].clone());
        }
        i = i + 1;
    }
    proof {
        assert(dv@.skip(i as int).len() == 0);
    }
    None
}

/// Scans the users table for the first row with the given key.
fn find_user_row(users: &Vec<User>, id: i32) -> (r: Option<User>)
    ensures
        match r {
            Some(u) => find_user(users.deep_view(), id as int) == Some(u.deep_view()),
            None => find_user(users.deep_view(), id as int) is None,
        },
{
    let dv = Ghost(users.deep_view());
    let mut i: usize = 0;
    proof {
        assert(dv@.skip(0) =~= dv@);
    }
    while i < users.len()
        invariant
            i <= users.len(),
            dv@ == users.deep_view(),
            find_user(dv@, id as int) == find_user(dv@.skip(i as int), id as int),
        decreases users.len() - i,
    {
        proof {
            assert(dv@.skip(i as int)[0] == dv@[i as int]);
            assert(dv@.skip(i as int).drop_first() =~= dv@.skip(i + 1));
        }
        if users[i].id == id {
            return Some(users[i].clone());
        }
        i = i + 1;
    }
    proof {
        assert(dv@.skip(i as int).len() == 0);
    }
    None
}

/// Loads the post with the given key together with its owning user, the
/// joined single-row load: the returned pair matches the foreign key. It
/// fails with [`QueryError::NotFound`] exactly when no post carries the
/// key, or no user carries the post's foreign key.
pub fn load_post_and_user(conn: &Connection, post_id: i32) -> (r: Result<(Post, User), QueryError>)
    ensures
        ({
            let fp = find_post(conn.deep_view().db.posts, post_id as int);
            &&& (fp is None ==> r == Err::<(Post, User), QueryError>(QueryError::NotFound))
            &&& (fp is Some ==> {
                let fu = find_user(conn.deep_view().db.users, fp.unwrap().user_id);
                &&& (fu is None ==> r == Err::<(Post, User), QueryError>(QueryError::NotFound))
                &&& (fu is Some ==> (r matches Ok(pu) && pu.0.deep_view() == fp.unwrap()
                    && pu.1.deep_view() == fu.unwrap()))
            })
        }),
{
    let p = match find_post_row(&conn.db.posts, post_id) {
        Some(p) => p,
        None => {
            return Err(QueryError::NotFound);
        },
    };
    let u = match find_user_row(&conn.db.users, p.user_id) {
        Some(u) => u,
        None => {
            return Err(QueryError::NotFound);
        },
    };
    Ok((p, u))
}

/// The posts owned by the given user, in row order.
pub open spec fn posts_of(s: Seq<PostModel>, uid: int) -> Seq<PostModel>
    decreases s.len(),
{
    if s.len() == 0 {
        Seq::empty()
    } else if s.last().user_id == uid {
        posts_of(s.drop_last(), uid).push(s.last())
    } else {
        posts_of(s.drop_last(), uid)
    }
}

/// Keeps exactly the posts owned by the given user, in row order.
fn posts_for_user(posts: &Vec<Post>, uid: i32) -> (r: Vec<Post>)
    ensures
        r.deep_view() == posts_of(posts.deep_view(), uid as int),
{
    let mut r: Vec<Post> = Vec::new();
    let mut i: usize = 0;
    proof {
        assert(posts.deep_view().subrange(0, 0) =~= Seq::<PostModel>::empty());
    }
    while i < posts.len()
        invariant
            i <= posts.len(),
            r.deep_view() == posts_of(posts.deep_view().subrange(0, i as int), uid as int),
        decreases posts.len() - i,
    {
        proof {
            let dv = posts.deep_view();
            assert(dv.subrange(0, i + 1).drop_last() =~= dv.subrange(0, i as int));
            assert(dv.subrange(0, i + 1).last() == dv[i as int]);
        }
        if posts[i].user_id == uid {
            r.push(posts[i].clone());
        }
        i = i + 1;
    }
    proof {
        assert(posts.deep_view().subrange(0, posts.deep_view().len() as int) =~= posts.deep_view());
    }
    r
}

/// The two-query association load: every user, paired with the posts that
/// belong to it. Users keep their row order, and each user's posts keep
/// theirs.
pub fn load_all_users_and_posts(conn: &Connection) -> (r: Result<
    Vec<(User, Vec<Post>)>,
    QueryError,
>)
    ensures
        r matches Ok(rows) && {
            let users = conn.deep_view().db.users;
            let posts = conn.deep_view().db.posts;
            &&& rows@.len() == users.len()
            &&& forall|k: int|
                0 <= k < users.len() ==> {
                    &&& (#[trigger] rows@[k]).0.deep_view() == users[k]
                    &&& rows@[k].1.deep_view() == posts_of(posts, users[k].id)
                }
        },
{
    let all_users = clone_users(&conn.db.users);
    let mut rows: Vec<(User, Vec<Post>)> = Vec::new();
    let mut k: usize = 0;
    while k < all_users.len()
        invariant
            k <= all_users.len(),
            all_users.deep_view() == conn.deep_view().db.users,
            rows.len() == k,
            forall|t: int|
                0 <= t < k ==> {
                    &&& (#[trigger] rows@[t]).0.deep_view() == conn.deep_view().db.users[t]
                    &&& rows@[t].1.deep_view() == posts_of(
                        conn.deep_view().db.posts,
                        conn.deep_view().db.users[t].id,
                    )
                },
        decreases all_users.len() - k,
    {
        let u = all_users[k].clone();
        let owned = posts_for_user(&conn.db.posts, u.id);
        rows.push((u, owned));
        k = k + 1;
    }
    Ok(rows)
}

} // verus!
