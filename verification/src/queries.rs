//! The query operations the exercises run: loading whole tables, inserting
//! with sequence-assigned keys, raw row inserts, targeted updates, and a
//! filtered, ordered select.

use vstd::prelude::*;

use crate::error::QueryError;
use crate::order::{
    filter_rust, rust_posts, sort_posts_by, sort_posts_by_title, sorted_by_order, sorted_by_title,
    OrderBy,
};
use crate::postdb::{ids_increasing, ConnModel, Connection, DbModel};
use crate::posts::{decode_post, decode_post_model, NewPost, NewPostModel, Post, PostModel};
use crate::value::Value;

verus! {

/// The titles of the rows, in row order.
pub open spec fn titles_of(s: Seq<PostModel>) -> Seq<Seq<char>> {
    Seq::new(s.len(), |i: int| s[i].title)
}

/// Selects the title column of every row, in row order.
pub fn get_all_post_titles(conn: &Connection) -> (r: Result<Vec<String>, QueryError>)
    ensures
        r matches Ok(ts) && ts.deep_view() == titles_of(conn.deep_view().db.posts),
{
    let mut ts: Vec<String> = Vec::new();
    let mut i: usize = 0;
    while i < conn.db.posts.len()
        invariant
            i <= conn.db.posts.len(),
            ts.len() == i,
            forall|k: int|
                0 <= k < i ==> ts.deep_view()[k] == conn.deep_view().db.posts[k].title,
        decreases conn.db.posts.len() - i,
    {
        let ghost pre = ts.deep_view();
        ts.push(conn.db.posts[i].title.clone());
        proof {
            assert(ts.deep_view() =~= pre.push(conn.deep_view().db.posts[i as int].title));
        }
        i = i + 1;
    }
    proof {
        assert(ts.deep_view() =~= titles_of(conn.deep_view().db.posts));
    }
    Ok(ts)
}

/// The bodies of the rows, in row order.
pub open spec fn bodies_of(s: Seq<PostModel>) -> Seq<Option<Seq<char>>> {
    Seq::new(s.len(), |i: int| s[i].body)
}

/// Selects the body column of every row, in row order.
pub fn get_all_post_bodies(conn: &Connection) -> (r: Result<Vec<Option<String>>, QueryError>)
    ensures
        r matches Ok(bs) && bs.deep_view() == bodies_of(conn.deep_view().db.posts),
{
    let mut bs: Vec<Option<String>> = Vec::new();
    let mut i: usize = 0;
    while i < conn.db.posts.len()
        invariant
            i <= conn.db.posts.len(),
            bs.len() == i,
            forall|k: int|
                0 <= k < i ==> bs.deep_view()[k] == conn.deep_view().db.posts[k].body,
        decreases conn.db.posts.len() - i,
    {
        let ghost pre = bs.deep_view();
        let body: Option<String> = match &conn.db.posts[i].body {
            Some(b) => Some(b.clone()),
            None => None,
        };
        bs.push(body);
        proof {
            assert(bs.deep_view() =~= pre.push(conn.deep_view().db.posts[i as int].body));
        }
        i = i + 1;
    }
    proof {
        assert(bs.deep_view() =~= bodies_of(conn.deep_view().db.posts));
    }
    Ok(bs)
}

/// Selects every row as a tuple of its column values, in row order.
pub fn get_all_post_data(conn: &Connection) -> (r: Result<
    Vec<(i32, String, Option<String>)>,
    QueryError,
>)
    ensures
        r matches Ok(rows) && {
            let posts = conn.deep_view().db.posts;
            &&& rows@.len() == posts.len()
            &&& forall|k: int|
                0 <= k < posts.len() ==> {
                    &&& (#[trigger] rows@[k]).0 as int == posts[k].id
                    &&& rows@[k].1@ == posts[k].title
                    &&& rows@[k].2.deep_view() == posts[k].body
                }
        },
{
    let mut rows: Vec<(i32, String, Option<String>)> = Vec::new();
    let mut i: usize = 0;
    while i < conn.db.posts.len()
        invariant
            i <= conn.db.posts.len(),
            rows.len() == i,
            forall|k: int|
                0 <= k < i ==> {
                    &&& (#[trigger] rows@[k]).0 as int == conn.deep_view().db.posts[k].id
                    &&& rows@[k].1@ == conn.deep_view().db.posts[k].title
                    &&& rows@[k].2.deep_view() == conn.deep_view().db.posts[k].body
                },
        decreases conn.db.posts.len() - i,
    {
        let p = &conn.db.posts[i];
        let body: Option<String> = match &p.body {
            Some(b) => Some(b.clone()),
            None => None,
        };
        rows.push((p.id, p.title.clone(), body));
        i = i + 1;
    }
    Ok(rows)
}

/// Selects every row as a record, in row order.
pub fn get_all_posts(conn: &Connection) -> (r: Result<Vec<Post>, QueryError>)
    ensures
        r matches Ok(ps) && ps.deep_view() == conn.deep_view().db.posts,
{
    Ok(crate::postdb::clone_posts(&conn.db.posts))
}

/// The records that inserting `new` gives once the sequence stands at
/// `start`: keys are assigned in order, starting at `start`.
pub open spec fn assigned(new: Seq<NewPostModel>, start: int) -> Seq<PostModel> {
    Seq::new(new.len(), |i: int| PostModel { id: start + i, title: new[i].title, body: new[i].body })
}

/// Inserts one record; the store assigns the next key of the sequence.
pub fn save_new_post(conn: &mut Connection, title: &str, body: &str) -> (r: Result<
    (),
    QueryError,
>)
    requires
        old(conn).deep_view().wf(),
        old(conn).deep_view().db.next_id < i32::MAX,
    ensures
        r == Ok::<(), QueryError>(()),
        final(conn).deep_view() == (ConnModel {
            db: DbModel {
                posts: old(conn).deep_view().db.posts.push(
                    PostModel {
                        id: old(conn).deep_view().db.next_id,
                        title: title@,
                        body: Some(body@),
                    },
                ),
                next_id: old(conn).deep_view().db.next_id + 1,
            },
            snapshot: old(conn).deep_view().snapshot,
        }),
        final(conn).deep_view().wf(),
{
    let p = Post { id: conn.db.next_id, title: title.to_owned(), body: Some(body.to_owned()) };
    conn.db.posts.push(p);
    conn.db.next_id = conn.db.next_id + 1;
    proof {
        let prev = old(conn).deep_view().db.posts;
        let m = PostModel {
            id: old(conn).deep_view().db.next_id,
            title: title@,
            body: Some(body@),
        };
        assert(conn.deep_view().db.posts =~= prev.push(m));
        let dv = conn.deep_view().db.posts;
        assert forall|i: int, j: int| 0 <= i < j < dv.len() implies #[trigger] dv[i].id
            < #[trigger] dv[j].id by {
            if j < prev.len() {
            } else {
                assert(dv[i].id < old(conn).deep_view().db.next_id);
            }
        }
    }
    Ok(())
}

/// Inserts several records in order, returning the records the store
/// created: each carries the key the sequence assigned to it.
pub fn save_new_posts(conn: &mut Connection, new_posts: Vec<NewPost>) -> (r: Result<
    Vec<Post>,
    QueryError,
>)
    requires
        old(conn).deep_view().wf(),
        old(conn).deep_view().db.next_id + new_posts@.len() <= i32::MAX,
    ensures
        ({
            let start = old(conn).deep_view().db.next_id;
            let created = assigned(new_posts.deep_view(), start);
            &&& r matches Ok(ps) && ps.deep_view() == created
            &&& final(conn).deep_view() == (ConnModel {
                db: DbModel {
                    posts: old(conn).deep_view().db.posts + created,
                    next_id: start + new_posts@.len(),
                },
                snapshot: old(conn).deep_view().snapshot,
            })
            &&& final(conn).deep_view().wf()
        }),
{
    let ghost start = old(conn).deep_view().db.next_id;
    let ghost prev = old(conn).deep_view().db.posts;
    let mut created: Vec<Post> = Vec::new();
    let mut k: usize = 0;
    while k < new_posts.len()
        invariant
            k <= new_posts@.len(),
            old(conn).deep_view().db.next_id + new_posts@.len() <= i32::MAX,
            start == old(conn).deep_view().db.next_id,
            prev == old(conn).deep_view().db.posts,
            conn.deep_view().db.next_id == start + k,
            conn.deep_view().snapshot == old(conn).deep_view().snapshot,
            created.len() == k,
            conn.deep_view().db.posts.len() == prev.len() + k,
            forall|t: int| 0 <= t < prev.len() ==> conn.deep_view().db.posts[t] == prev[t],
            forall|t: int|
                prev.len() <= t < conn.deep_view().db.posts.len()
                    ==> #[trigger] conn.deep_view().db.posts[t] == assigned(
                    new_posts.deep_view(),
                    start,
                )[t - prev.len()],
            forall|t: int|
                0 <= t < k ==> #[trigger] created.deep_view()[t] == assigned(
                    new_posts.deep_view(),
                    start,
                )[t],
        decreases new_posts.len() - k,
    {
        let np = &new_posts[k];
        let body: Option<String> = match &np.body {
            Some(b) => Some(b.clone()),
            None => None,
        };
        let p = Post { id: conn.db.next_id, title: np.title.clone(), body };
        let ghost pm = p.deep_view();
        proof {
            assert(pm == assigned(new_posts.deep_view(), start)[k as int]);
        }
        let ghost cpre = created.deep_view();
        let ghost ppre = conn.deep_view().db.posts;
        created.push(p.clone());
        conn.db.posts.push(p);
        conn.db.next_id = conn.db.next_id + 1;
        proof {
            assert(created.deep_view() =~= cpre.push(pm));
            assert(conn.deep_view().db.posts =~= ppre.push(pm));
        }
        k = k + 1;
    }
    proof {
        let want = assigned(new_posts.deep_view(), start);
        assert(created.deep_view() =~= want);
        assert(conn.deep_view().db.posts =~= prev + want);
        let dv = conn.deep_view().db.posts;
        assert forall|i: int, j: int| 0 <= i < j < dv.len() implies #[trigger] dv[i].id
            < #[trigger] dv[j].id by {
            if prev.len() <= i {
                assert(dv[i].id == start + (i - prev.len()));
                assert(dv[j].id == start + (j - prev.len()));
            } else if prev.len() <= j {
                assert(dv[i].id < start);
                assert(dv[j].id == start + (j - prev.len()));
            }
        }
    }
    Ok(created)
}

/// Inserts a raw row, the way a setup statement does, bypassing the query
/// builder: the row must decode as a post record, else the insert fails
/// with [`QueryError::Malformed`]; its explicit key must be one the
/// sequence has not passed (at least `next_id`, below the largest key),
/// else the insert fails with [`QueryError::ConstraintViolation`]. On
/// success the sequence moves past the inserted key.
pub fn exec_insert_post_row(conn: &mut Connection, row: Vec<Value>) -> (r: Result<
    (),
    QueryError,
>)
    requires
        old(conn).deep_view().wf(),
    ensures
        ({
            let m = decode_post_model(row.deep_view());
            let pre = old(conn).deep_view();
            let post = final(conn).deep_view();
            &&& (m is None ==> r == Err::<(), QueryError>(QueryError::Malformed) && post == pre)
            &&& ((m is Some && !(pre.db.next_id <= m.unwrap().id < i32::MAX)) ==> r == Err::<
                (),
                QueryError,
            >(QueryError::ConstraintViolation) && post == pre)
            &&& ((m is Some && pre.db.next_id <= m.unwrap().id < i32::MAX) ==> r == Ok::<
                (),
                QueryError,
            >(()) && post == (ConnModel {
                db: DbModel { posts: pre.db.posts.push(m.unwrap()), next_id: m.unwrap().id + 1 },
                snapshot: pre.snapshot,
            }))
        }),
        final(conn).deep_view().wf(),
{
    let p = match decode_post(&row) {
        Ok(p) => p,
        Err(_) => {
            return Err(QueryError::Malformed);
        },
    };
    if p.id < conn.db.next_id || p.id == i32::MAX {
        return Err(QueryError::ConstraintViolation);
    }
    let new_next = p.id + 1;
    let ghost pm = p.deep_view();
    conn.db.posts.push(p);
    conn.db.next_id = new_next;
    proof {
        let prev = old(conn).deep_view().db.posts;
        assert(conn.deep_view().db.posts =~= prev.push(pm));
        let dv = conn.deep_view().db.posts;
        assert forall|i: int, j: int| 0 <= i < j < dv.len() implies #[trigger] dv[i].id
            < #[trigger] dv[j].id by {
            if j == prev.len() {
                assert(dv[i].id < old(conn).deep_view().db.next_id);
            }
        }
    }
    Ok(())
}

/// Updates the whole table at once: every row loses its body; keys and
/// titles stay as they were.
pub fn remove_all_bodies(conn: &mut Connection) -> (r: Result<(), QueryError>)
    requires
        old(conn).deep_view().wf(),
    ensures
        r == Ok::<(), QueryError>(()),
        ({
            let prev = old(conn).deep_view();
            let post = final(conn).deep_view();
            &&& post.db.posts.len() == prev.db.posts.len()
            &&& forall|k: int|
                0 <= k < prev.db.posts.len() ==> #[trigger] post.db.posts[k] == (PostModel {
                    id: prev.db.posts[k].id,
                    title: prev.db.posts[k].title,
                    body: None,
                })
            &&& post.db.next_id == prev.db.next_id
            &&& post.snapshot == prev.snapshot
            &&& post.wf()
        }),
{
    let mut nw: Vec<Post> = Vec::new();
    let mut i: usize = 0;
    while i < conn.db.posts.len()
        invariant
            i <= conn.db.posts.len(),
            nw.len() == i,
            forall|k: int|
                0 <= k < i ==> #[trigger] nw.deep_view()[k] == (PostModel {
                    id: conn.deep_view().db.posts[k].id,
                    title: conn.deep_view().db.posts[k].title,
                    body: None,
                }),
        decreases conn.db.posts.len() - i,
    {
        let p = &conn.db.posts[i];
        let ghost pre = nw.deep_view();
        nw.push(Post { id: p.id, title: p.title.clone(), body: None });
        proof {
            assert(nw.deep_view() =~= pre.push(
                PostModel {
                    id: conn.deep_view().db.posts[i as int].id,
                    title: conn.deep_view().db.posts[i as int].title,
                    body: None,
                },
            ));
        }
        i = i + 1;
    }
    conn.db.posts = nw;
    proof {
        let prev = old(conn).deep_view().db.posts;
        let dv = conn.deep_view().db.posts;
        assert forall|a: int, b: int| 0 <= a < b < dv.len() implies #[trigger] dv[a].id
            < #[trigger] dv[b].id by {
            assert(dv[a].id == prev[a].id);
            assert(dv[b].id == prev[b].id);
        }
        assert forall|a: int| 0 <= a < dv.len() implies 1 <= (#[trigger] dv[a]).id
            < conn.deep_view().db.next_id by {
            assert(dv[a].id == prev[a].id);
        }
    }
    Ok(())
}

/// Updates one column of the row with the given key: only that row's title
/// changes; every other row, and every other column, stays as it was. The
/// updated record comes back; with no such key the update fails with
/// [`QueryError::NotFound`].
pub fn update_post_title(conn: &mut Connection, id: i32, title: &str) -> (r: Result<
    Post,
    QueryError,
>)
    requires
        old(conn).deep_view().wf(),
    ensures
        ({
            let prev = old(conn).deep_view();
            let post = final(conn).deep_view();
            &&& post.db.posts.len() == prev.db.posts.len()
            &&& forall|k: int|
                0 <= k < prev.db.posts.len() ==> #[trigger] post.db.posts[k] == (if prev.db.posts[k].id == id as int {
                    PostModel { id: id as int, title: title@, body: prev.db.posts[k].body }
                } else {
                    prev.db.posts[k]
                })
            &&& post.db.next_id == prev.db.next_id
            &&& post.snapshot == prev.snapshot
            &&& post.wf()
            &&& ((exists|k: int|
                0 <= k < prev.db.posts.len() && (#[trigger] prev.db.posts[k]).id == id as int)
                <==> r is Ok)
            &&& (r matches Ok(p) ==> exists|k: int|
                0 <= k < prev.db.posts.len() && (#[trigger] prev.db.posts[k]).id == id as int
                    && p.deep_view() == (PostModel {
                    id: id as int,
                    title: title@,
                    body: prev.db.posts[k].body,
                }))
            &&& (r matches Err(e) ==> e == QueryError::NotFound)
        }),
{
    let mut nw: Vec<Post> = Vec::new();
    let mut found: Option<Post> = None;
    let mut i: usize = 0;
    while i < conn.db.posts.len()
        invariant
            i <= conn.db.posts.len(),
            nw.len() == i,
            forall|k: int|
                0 <= k < i ==> #[trigger] nw.deep_view()[k] == (if conn.deep_view().db.posts[k].id
                    == id as int {
                    PostModel {
                        id: id as int,
                        title: title@,
                        body: conn.deep_view().db.posts[k].body,
                    }
                } else {
                    conn.deep_view().db.posts[k]
                }),
            (found is Some) <==> (exists|k: int|
                0 <= k < i && (#[trigger] conn.deep_view().db.posts[k]).id == id as int),
            found matches Some(p) ==> exists|k: int|
                0 <= k < i && (#[trigger] conn.deep_view().db.posts[k]).id == id as int
                    && p.deep_view() == (PostModel {
                    id: id as int,
                    title: title@,
                    body: conn.deep_view().db.posts[k].body,
                }),
        decreases conn.db.posts.len() - i,
    {
        let p = &conn.db.posts[i];
        let ghost pre = nw.deep_view();
        if p.id == id {
            let body: Option<String> = match &p.body {
                Some(b) => Some(b.clone()),
                None => None,
            };
            let up = Post { id, title: title.to_owned(), body };
            nw.push(up.clone());
            proof {
                assert(conn.deep_view().db.posts[i as int].id == id as int);
                assert(up.deep_view() == (PostModel {
                    id: id as int,
                    title: title@,
                    body: conn.deep_view().db.posts[i as int].body,
                }));
            }
            found = Some(up);
        } else {
            proof {
                assert(conn.deep_view().db.posts[i as int].id != id as int);
            }
            nw.push(p.clone());
        }
        proof {
            assert(nw.deep_view() =~= pre.push(nw.deep_view().last()));
        }
        i = i + 1;
    }
    conn.db.posts = nw;
    proof {
        let prev = old(conn).deep_view().db.posts;
        let dv = conn.deep_view().db.posts;
        assert forall|a: int| 0 <= a < dv.len() implies #[trigger] dv[a].id == prev[a].id by {}
        assert forall|a: int, b: int| 0 <= a < b < dv.len() implies #[trigger] dv[a].id
            < #[trigger] dv[b].id by {}
    }
    match found {
        Some(p) => Ok(p),
        None => Err(QueryError::NotFound),
    }
}

/// Re-serializes a whole record over the row that carries its key: that
/// row becomes the record, field for field; every other row stays. A
/// record whose key no row carries changes nothing, as an update that
/// matched no row.
pub fn update_post(conn: &mut Connection, post: Post) -> (r: Result<(), QueryError>)
    requires
        old(conn).deep_view().wf(),
    ensures
        r == Ok::<(), QueryError>(()),
        ({
            let prev = old(conn).deep_view();
            let now = final(conn).deep_view();
            &&& now.db.posts.len() == prev.db.posts.len()
            &&& forall|k: int|
                0 <= k < prev.db.posts.len() ==> #[trigger] now.db.posts[k] == (if prev.db.posts[k].id == post.deep_view().id {
                    post.deep_view()
                } else {
                    prev.db.posts[k]
                })
            &&& now.db.next_id == prev.db.next_id
            &&& now.snapshot == prev.snapshot
            &&& now.wf()
        }),
{
    let mut nw: Vec<Post> = Vec::new();
    let mut i: usize = 0;
    while i < conn.db.posts.len()
        invariant
            i <= conn.db.posts.len(),
            nw.len() == i,
            forall|k: int|
                0 <= k < i ==> #[trigger] nw.deep_view()[k] == (if conn.deep_view().db.posts[k].id
                    == post.deep_view().id {
                    post.deep_view()
                } else {
                    conn.deep_view().db.posts[k]
                }),
        decreases conn.db.posts.len() - i,
    {
        let p = &conn.db.posts[i];
        let ghost pre = nw.deep_view();
        if p.id == post.id {
            nw.push(post.clone());
        } else {
            nw.push(p.clone());
        }
        proof {
            assert(nw.deep_view() =~= pre.push(nw.deep_view().last()));
        }
        i = i + 1;
    }
    conn.db.posts = nw;
    proof {
        let prev = old(conn).deep_view().db.posts;
        let dv = conn.deep_view().db.posts;
        assert forall|a: int| 0 <= a < dv.len() implies #[trigger] dv[a].id == prev[a].id by {}
        assert forall|a: int, b: int| 0 <= a < b < dv.len() implies #[trigger] dv[a].id
            < #[trigger] dv[b].id by {}
    }
    Ok(())
}

/// Selects every row, ordered by the given clause: the result holds
/// exactly the table's rows, in the clause's order.
pub fn get_all_posts_ordered(conn: &Connection, order: OrderBy) -> (r: Result<
    Vec<Post>,
    QueryError,
>)
    ensures
        r matches Ok(ps) && sorted_by_order(order, ps.deep_view())
            && ps.deep_view().to_multiset() == conn.deep_view().db.posts.to_multiset()
            && ps.deep_view().len() == conn.deep_view().db.posts.len(),
{
    let ps = sort_posts_by(order, &conn.db.posts);
    proof {
        broadcast use vstd::seq_lib::group_to_multiset_ensures;

        assert(ps.deep_view().len() == ps.deep_view().to_multiset().len());
        assert(conn.deep_view().db.posts.len() == conn.deep_view().db.posts.to_multiset().len());
    }
    Ok(ps)
}

/// The first row carrying the given key, in row order.
pub open spec fn find_post(s: Seq<PostModel>, id: int) -> Option<PostModel>
    decreases s.len(),
{
    if s.len() == 0 {
        None
    } else if s[0].id == id {
        Some(s[0])
    } else {
        find_post(s.drop_first(), id)
    }
}

/// Loads the single row with the given key; fails with
/// [`QueryError::NotFound`] exactly when no row carries it.
pub fn get_post(conn: &Connection, id: i32) -> (r: Result<Post, QueryError>)
    ensures
        match r {
            Ok(p) => find_post(conn.deep_view().db.posts, id as int) == Some(p.deep_view()),
            Err(e) => e == QueryError::NotFound && find_post(
                conn.deep_view().db.posts,
                id as int,
            ) is None,
        },
{
    let dv = Ghost(conn.deep_view().db.posts);
    let mut i: usize = 0;
    proof {
        assert(dv@.skip(0) =~= dv@);
    }
    while i < conn.db.posts.len()
        invariant
            i <= conn.db.posts.len(),
            dv@ == conn.deep_view().db.posts,
            find_post(dv@, id as int) == find_post(dv@.skip(i as int), id as int),
        decreases conn.db.posts.len() - i,
    {
        proof {
            assert(dv@.skip(i as int)[0] == dv@[i as int]);
            assert(dv@.skip(i as int).drop_first() =~= dv@.skip(i + 1));
        }
        if conn.db.posts[i].id == id {
            return Ok(conn.db.posts[i].clone());
        }
        i = i + 1;
    }
    proof {
        assert(dv@.skip(i as int).len() == 0);
    }
    Err(QueryError::NotFound)
}

/// Selects the rows whose title contains "Rust", ordered alphabetically
/// by title: the result holds exactly those rows, in title order.
pub fn posts_about_rust(conn: &Connection) -> (r: Result<Vec<Post>, QueryError>)
    ensures
        r matches Ok(ps) && sorted_by_title(ps.deep_view()) && ps.deep_view().to_multiset()
            == rust_posts(conn.deep_view().db.posts).to_multiset() && ps.deep_view().len()
            == rust_posts(conn.deep_view().db.posts).len(),
{
    let matching = filter_rust(&conn.db.posts);
    let ps = sort_posts_by_title(&matching);
    proof {
        broadcast use vstd::seq_lib::group_to_multiset_ensures;

        assert(ps.deep_view().len() == ps.deep_view().to_multiset().len());
        assert(matching.deep_view().len() == matching.deep_view().to_multiset().len());
    }
    Ok(ps)
}

/// The store's invariant already orders a select's result by primary key:
/// what comes back row by row is what ordering by id would give.
pub proof fn lemma_select_in_pk_order(c: ConnModel)
    requires
        c.wf(),
    ensures
        ids_increasing(c.db.posts),
{
}

/// Inserting records into an empty store and selecting them back gives
/// exactly the inserted records, with the keys the sequence assigned, in
/// strictly ascending key order.
pub proof fn lemma_insert_then_select(new: Seq<NewPostModel>, start: int)
    ensures
        Seq::<PostModel>::empty() + assigned(new, start) == assigned(new, start),
        assigned(new, start).len() == new.len(),
        forall|k: int|
            0 <= k < new.len() ==> #[trigger] assigned(new, start)[k] == (PostModel {
                id: start + k,
                title: new[k].title,
                body: new[k].body,
            }),
        ids_increasing(assigned(new, start)),
{
    assert(Seq::<PostModel>::empty() + assigned(new, start) =~= assigned(new, start));
}

} // verus!

