//! The query builder's predicates: conditions over columns, restricted by
//! equality, pattern, or comparison, composed by AND.

use vstd::prelude::*;

use crate::posts::{Post, PostModel};
use crate::text::{contains_seq, str_contains};

verus! {

/// One condition on a row of the posts table.
#[derive(Debug)]
pub enum Clause {
    /// The title contains the given pattern.
    TitleContains(String),
    /// The title equals the given text.
    TitleEq(String),
    /// The body is NULL.
    BodyIsNull,
    /// The key equals the given value.
    IdEq(i32),
    /// The key is at least the given value.
    IdAtLeast(i32),
}

/// The mathematical model of a [`Clause`].
pub enum ClauseModel {
    TitleContains(Seq<char>),
    TitleEq(Seq<char>),
    BodyIsNull,
    IdEq(int),
    IdAtLeast(int),
}

impl DeepView for Clause {
    type V = ClauseModel;

    open spec fn deep_view(&self) -> ClauseModel {
        match self {
            Clause::TitleContains(pat) => ClauseModel::TitleContains(pat@),
            Clause::TitleEq(t) => ClauseModel::TitleEq(t@),
            Clause::BodyIsNull => ClauseModel::BodyIsNull,
            Clause::IdEq(id) => ClauseModel::IdEq(*id as int),
            Clause::IdAtLeast(id) => ClauseModel::IdAtLeast(*id as int),
        }
    }
}

/// A predicate: the conjunction of its clauses. With no clause it holds
/// of every row.
#[derive(Debug)]
pub struct Filter {
    pub clauses: Vec<Clause>,
}

impl DeepView for Filter {
    type V = Seq<ClauseModel>;

    open spec fn deep_view(&self) -> Seq<ClauseModel> {
        self.clauses.deep_view()
    }
}

/// Whether one clause holds of a row.
pub open spec fn clause_holds(c: ClauseModel, p: PostModel) -> bool {
    match c {
        ClauseModel::TitleContains(pat) => contains_seq(p.title, pat),
        ClauseModel::TitleEq(t) => p.title == t,
        ClauseModel::BodyIsNull => p.body is None,
        ClauseModel::IdEq(id) => p.id == id,
        ClauseModel::IdAtLeast(id) => p.id >= id,
    }
}

/// Whether every clause of a predicate holds of a row.
pub open spec fn filter_holds(cs: Seq<ClauseModel>, p: PostModel) -> bool {
    forall|i: int| 0 <= i < cs.len() ==> clause_holds(#[trigger] cs[i], p)
}

/// Evaluates one clause on a row.
fn eval_clause(c: &Clause, p: &Post) -> (r: bool)
    ensures
        r == clause_holds(c.deep_view(), p.deep_view()),
{
    match c {
        Clause::TitleContains(pat) => str_contains(p.title.as_str(), pat.as_str()),
        Clause::TitleEq(t) => p.title == *t,
        Clause::BodyIsNull => matches!(&p.body, None),
        Clause::IdEq(id) => p.id == *id,
        Clause::IdAtLeast(id) => p.id >= *id,
    }
}

/// Evaluates a predicate on a row: true exactly when every clause holds.
pub fn matches_filter(f: &Filter, p: &Post) -> (r: bool)
    ensures
        r == filter_holds(f.deep_view(), p.deep_view()),
{
    let mut i: usize = 0;
    while i < f.clauses.len()
        invariant
            i <= f.clauses.len(),
            forall|k: int|
                0 <= k < i ==> clause_holds(#[trigger] f.deep_view()[k], p.deep_view()),
        decreases f.clauses.len() - i,
    {
        if !eval_clause(&f.clauses[i], p) {
            assert(!clause_holds(f.deep_view()[i as int], p.deep_view()));
            return false;
        }
        i = i + 1;
    }
    true
}

/// The rows a predicate keeps, in row order.
pub open spec fn filtered_by(s: Seq<PostModel>, cs: Seq<ClauseModel>) -> Seq<PostModel>
    decreases s.len(),
{
    if s.len() == 0 {
        Seq::empty()
    } else if filter_holds(cs, s.last()) {
        filtered_by(s.drop_last(), cs).push(s.last())
    } else {
        filtered_by(s.drop_last(), cs)
    }
}

/// Selects the rows a predicate keeps, in row order.
pub fn filter_posts(conn: &crate::postdb::Connection, f: &Filter) -> (r: Result<
    Vec<Post>,
    crate::error::QueryError,
>)
    ensures
        r matches Ok(ps) && ps.deep_view() == filtered_by(
            conn.deep_view().db.posts,
            f.deep_view(),
        ),
{
    let mut ps: Vec<Post> = Vec::new();
    let mut i: usize = 0;
    proof {
        assert(conn.deep_view().db.posts.subrange(0, 0) =~= Seq::<PostModel>::empty());
    }
    while i < conn.db.posts.len()
        invariant
            i <= conn.db.posts.len(),
            ps.deep_view() == filtered_by(
                conn.deep_view().db.posts.subrange(0, i as int),
                f.deep_view(),
            ),
        decreases conn.db.posts.len() - i,
    {
        proof {
            let dv = conn.deep_view().db.posts;
            assert(dv.subrange(0, i + 1).drop_last() =~= dv.subrange(0, i as int));
            assert(dv.subrange(0, i + 1).last() == dv[i as int]);
        }
        if matches_filter(f, &conn.db.posts[i]) {
            ps.push(conn.db.posts[i].clone());
        }
        i = i + 1;
    }
    proof {
        let dv = conn.deep_view().db.posts;
        assert(dv.subrange(0, dv.len() as int) =~= dv);
    }
    Ok(ps)
}

} // verus!
