//! Predicates composed by AND: equality, pattern, and comparison clauses.

use rowmap::error::QueryError;
use rowmap::filter::{filter_posts, matches_filter, Clause, Filter};
use rowmap::postdb::connection;
use rowmap::posts::{NewPost, Post};
use rowmap::queries::{save_new_post, save_new_posts};

#[test]
fn and_composition_restricts_rows() -> Result<(), QueryError> {
    let mut conn = connection();
    save_new_posts(
        &mut conn,
        vec![
            NewPost::new("Rust is my love", None),
            NewPost::new("A sonnet for Go", None),
            NewPost::new("A ballad for Rust", None),
        ],
    )?;

    let f = Filter {
        clauses: vec![
            Clause::TitleContains(String::from("Rust")),
            Clause::IdAtLeast(2),
        ],
    };
    let rows = filter_posts(&conn, &f)?;
    assert_eq!(rows, vec![Post::new(3, "A ballad for Rust", None)]);

    Ok(())
}

#[test]
fn empty_filter_keeps_every_row() -> Result<(), QueryError> {
    let mut conn = connection();
    save_new_post(&mut conn, "Any", "row")?;
    let f = Filter { clauses: Vec::new() };
    assert_eq!(filter_posts(&conn, &f)?.len(), 1);
    Ok(())
}

#[test]
fn each_clause_kind_evaluates() {
    let with_body = Post::new(4, "A title", Some("A body"));
    let without_body = Post::new(5, "Other", None);

    let eq = Filter {
        clauses: vec![Clause::TitleEq(String::from("A title"))],
    };
    assert!(matches_filter(&eq, &with_body));
    assert!(!matches_filter(&eq, &without_body));

    let null_body = Filter {
        clauses: vec![Clause::BodyIsNull],
    };
    assert!(!matches_filter(&null_body, &with_body));
    assert!(matches_filter(&null_body, &without_body));

    let by_id = Filter {
        clauses: vec![Clause::IdEq(4)],
    };
    assert!(matches_filter(&by_id, &with_body));
    assert!(!matches_filter(&by_id, &without_body));
}
