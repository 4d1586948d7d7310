//! Ordering and filtering of post rows: the order-by clause over a chosen
//! column and direction, the title filter, and the sort that an ordered
//! select runs on.

use vstd::prelude::*;
use vstd::seq_lib::lemma_multiset_commutative;

use crate::posts::{Post, PostModel};
use crate::text::{contains_seq, lemma_lex_le_total, lemma_lex_le_trans, lex_le, str_contains,
    str_le};

verus! {

/// The column an ordered select sorts by.
#[derive(Debug, Clone, Copy, PartialEq, Eq, Structural)]
pub enum OrderColumn {
    Id,
    Title,
}

/// The direction an ordered select sorts in.
#[derive(Debug, Clone, Copy, PartialEq, Eq, Structural)]
pub enum Direction {
    Asc,
    Desc,
}

/// An order-by clause: a column and a direction.
#[derive(Debug, Clone, Copy, PartialEq, Eq, Structural)]
pub struct OrderBy {
    pub column: OrderColumn,
    pub direction: Direction,
}

/// The ascending order of the chosen column: keys numerically, titles
/// alphabetically.
pub open spec fn key_le(c: OrderColumn, a: PostModel, b: PostModel) -> bool {
    match c {
        OrderColumn::Id => a.id <= b.id,
        OrderColumn::Title => lex_le(a.title, b.title),
    }
}

/// The order an order-by clause sorts in: the column's order, reversed
/// when the direction is descending.
pub open spec fn order_le(o: OrderBy, a: PostModel, b: PostModel) -> bool {
    match o.direction {
        Direction::Asc => key_le(o.column, a, b),
        Direction::Desc => key_le(o.column, b, a),
    }
}

/// Every order-by clause orders totally: of any two rows, one comes
/// first.
pub proof fn lemma_order_le_total(o: OrderBy, a: PostModel, b: PostModel)
    ensures
        order_le(o, a, b) || order_le(o, b, a),
{
    if o.column == OrderColumn::Title {
        lemma_lex_le_total(a.title, b.title);
    }
}

/// Every order-by clause orders transitively.
pub proof fn lemma_order_le_trans(o: OrderBy, a: PostModel, b: PostModel, c: PostModel)
    requires
        order_le(o, a, b),
        order_le(o, b, c),
    ensures
        order_le(o, a, c),
{
    if o.column == OrderColumn::Title {
        match o.direction {
            Direction::Asc => lemma_lex_le_trans(a.title, b.title, c.title),
            Direction::Desc => lemma_lex_le_trans(c.title, b.title, a.title),
        }
    }
}

/// Rows stand in the order of the clause.
pub open spec fn sorted_by_order(o: OrderBy, s: Seq<PostModel>) -> bool {
    forall|i: int, j: int| 0 <= i < j < s.len() ==> order_le(o, #[trigger] s[i], #[trigger] s[j])
}

/// Rows stand in alphabetical order of their titles.
pub open spec fn sorted_by_title(s: Seq<PostModel>) -> bool {
    forall|i: int, j: int|
        0 <= i < j < s.len() ==> lex_le(#[trigger] s[i].title, #[trigger] s[j].title)
}

/// Compares two rows under an order-by clause.
fn order_le_exec(o: OrderBy, a: &Post, b: &Post) -> (r: bool)
    ensures
        r == order_le(o, a.deep_view(), b.deep_view()),
{
    match o.column {
        OrderColumn::Id => match o.direction {
            Direction::Asc => a.id <= b.id,
            Direction::Desc => b.id <= a.id,
        },
        OrderColumn::Title => match o.direction {
            Direction::Asc => str_le(a.title.as_str(), b.title.as_str()),
            Direction::Desc => str_le(b.title.as_str(), a.title.as_str()),
        },
    }
}

/// The predicate the exercise filters by: the title contains "Rust".
pub open spec fn about_rust(p: PostModel) -> bool {
    contains_seq(p.title, "Rust"@)
}

/// The subsequence of rows whose title contains "Rust", in row order.
pub open spec fn rust_posts(s: Seq<PostModel>) -> Seq<PostModel>
    decreases s.len(),
{
    if s.len() == 0 {
        Seq::empty()
    } else if about_rust(s.last()) {
        rust_posts(s.drop_last()).push(s.last())
    } else {
        rust_posts(s.drop_last())
    }
}

/// Keeps exactly the rows whose title contains "Rust", in row order.
pub fn filter_rust(v: &Vec<Post>) -> (r: Vec<Post>)
    ensures
        r.deep_view() == rust_posts(v.deep_view()),
{
    let mut r: Vec<Post> = Vec::new();
    let mut i: usize = 0;
    proof {
        assert(v.deep_view().subrange(0, 0) =~= Seq::<PostModel>::empty());
    }
    while i < v.len()
        invariant
            i <= v.len(),
            r.deep_view() == rust_posts(v.deep_view().subrange(0, i as int)),
        decreases v.len() - i,
    {
        proof {
            let dv = v.deep_view();
            assert(dv.subrange(0, i + 1).drop_last() =~= dv.subrange(0, i as int));
            assert(dv.subrange(0, i + 1).last() == dv[i as int]);
        }
        if str_contains(v[i].title.as_str(), "Rust") {
            r.push(v[i].clone());
        }
        i = i + 1;
    }
    proof {
        assert(v.deep_view().subrange(0, v.deep_view().len() as int) =~= v.deep_view());
    }
    r
}

/// Inserting an element in the middle of a sequence adds exactly it to the
/// sequence's multiset.
proof fn lemma_multiset_insert_mid(s: Seq<PostModel>, pos: int, x: PostModel)
    requires
        0 <= pos <= s.len(),
    ensures
        (s.subrange(0, pos).push(x) + s.subrange(pos, s.len() as int)).to_multiset()
            == s.to_multiset().insert(x),
{
    broadcast use vstd::seq_lib::group_to_multiset_ensures;

    let pre = s.subrange(0, pos);
    let suf = s.subrange(pos, s.len() as int);
    lemma_multiset_commutative(pre.push(x), suf);
    lemma_multiset_commutative(pre, suf);
    assert(s =~= pre + suf);
    assert(pre.push(x).to_multiset() =~= pre.to_multiset().insert(x));
    assert((pre.push(x) + suf).to_multiset() =~= s.to_multiset().insert(x));
}

/// Sorts rows under an order-by clause: the result is ordered by it and
/// holds exactly the rows of the input.
pub fn sort_posts_by(o: OrderBy, v: &Vec<Post>) -> (r: Vec<Post>)
    ensures
        sorted_by_order(o, r.deep_view()),
        r.deep_view().to_multiset() == v.deep_view().to_multiset(),
{
    let mut out: Vec<Post> = Vec::new();
    let mut i: usize = 0;
    proof {
        assert(out.deep_view() =~= v.deep_view().subrange(0, 0));
    }
    while i < v.len()
        invariant
            i <= v.len(),
            sorted_by_order(o, out.deep_view()),
            out.deep_view().to_multiset() == v.deep_view().subrange(0, i as int).to_multiset(),
        decreases v.len() - i,
    {
        let x = v[i].clone();
        let ghost xd = x.deep_view();
        let ghost outdv = out.deep_view();
        let mut pos: usize = 0;
        while pos < out.len() && order_le_exec(o, &out[pos], &x)
            invariant
                pos <= out.len(),
                out.deep_view() == outdv,
                x.deep_view() == xd,
                forall|k: int| 0 <= k < pos ==> order_le(o, #[trigger] outdv[k], xd),
            decreases out.len() - pos,
        {
            pos = pos + 1;
        }
        proof {
            if pos < outdv.len() {
                lemma_order_le_total(o, outdv[pos as int], xd);
            }
        }
        let mut nw: Vec<Post> = Vec::new();
        let mut a: usize = 0;
        while a < pos
            invariant
                a <= pos <= out.len(),
                out.deep_view() == outdv,
                nw.len() == a,
                forall|k: int| 0 <= k < a ==> nw.deep_view()[k] == outdv[k],
            decreases pos - a,
        {
            nw.push(out[a].clone());
            a = a + 1;
        }
        nw.push(x);
        let mut b: usize = pos;
        while b < out.len()
            invariant
                pos <= b <= out.len(),
                out.deep_view() == outdv,
                nw.len() == b + 1,
                nw.deep_view()[pos as int] == xd,
                forall|k: int| 0 <= k < pos ==> nw.deep_view()[k] == outdv[k],
                forall|k: int| pos <= k < b ==> nw.deep_view()[k + 1] == outdv[k],
            decreases out.len() - b,
        {
            nw.push(out[b].clone());
            b = b + 1;
        }
        proof {
            let ndv = nw.deep_view();
            let n = outdv.len() as int;
            assert(ndv =~= outdv.subrange(0, pos as int).push(xd) + outdv.subrange(pos as int, n));
            lemma_multiset_insert_mid(outdv, pos as int, xd);
            assert forall|ii: int, jj: int| 0 <= ii < jj < ndv.len() implies order_le(
                o,
                ndv[ii],
                ndv[jj],
            ) by {
                if jj < pos {
                } else if ii < pos && jj == pos {
                } else if ii < pos && jj > pos {
                    assert(ndv[jj] == outdv[jj - 1]);
                } else if ii == pos && jj > pos {
                    if jj - 1 > pos {
                        lemma_order_le_trans(o, xd, outdv[pos as int], outdv[jj - 1]);
                    }
                }
            }
            assert(sorted_by_order(o, ndv));
            let dv = v.deep_view();
            broadcast use vstd::seq_lib::group_to_multiset_ensures;

            assert(dv.subrange(0, i + 1).drop_last() =~= dv.subrange(0, i as int));
            assert(dv.subrange(0, i + 1) =~= dv.subrange(0, i as int).push(dv[i as int]));
            assert(dv.subrange(0, i as int).push(dv[i as int]).to_multiset() =~= dv.subrange(
                0,
                i as int,
            ).to_multiset().insert(dv[i as int]));
        }
        out = nw;
        i = i + 1;
    }
    proof {
        assert(v.deep_view().subrange(0, v.deep_view().len() as int) =~= v.deep_view());
    }
    out
}

/// Sorts rows by title, alphabetically.
pub fn sort_posts_by_title(v: &Vec<Post>) -> (r: Vec<Post>)
    ensures
        sorted_by_title(r.deep_view()),
        r.deep_view().to_multiset() == v.deep_view().to_multiset(),
{
    let o = OrderBy { column: OrderColumn::Title, direction: Direction::Asc };
    let r = sort_posts_by(o, v);
    proof {
        let dv = r.deep_view();
        assert forall|i: int, j: int| 0 <= i < j < dv.len() implies lex_le(
            #[trigger] dv[i].title,
            #[trigger] dv[j].title,
        ) by {
            assert(order_le(o, dv[i], dv[j]));
        }
    }
    r
}

} // verus!
