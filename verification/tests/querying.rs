//! Filtering by a title pattern and ordering alphabetically.

use rowmap::error::QueryError;
use rowmap::order::{Direction, OrderBy, OrderColumn};
use rowmap::postdb::connection;
use rowmap::posts::{NewPost, Post};
use rowmap::queries::{get_all_posts_ordered, posts_about_rust, save_new_posts};

#[test]
fn filtering_and_ordering() -> Result<(), QueryError> {
    let mut conn = connection();
    save_new_posts(
        &mut conn,
        vec![
            NewPost::new("Rust is my love", None),
            NewPost::new("A sonnet for Go", None),
            NewPost::new("A ballad for Rust", None),
        ],
    )?;

    let posts = posts_about_rust(&conn)?;
    let expected_posts = vec![
        Post::new(3, "A ballad for Rust", None),
        Post::new(1, "Rust is my love", None),
    ];
    assert_eq!(posts, expected_posts);

    Ok(())
}

#[test]
fn ordering_by_key_descending() -> Result<(), QueryError> {
    let mut conn = connection();
    save_new_posts(
        &mut conn,
        vec![
            NewPost::new("First", None),
            NewPost::new("Second", None),
            NewPost::new("Third", None),
        ],
    )?;

    let order = OrderBy {
        column: OrderColumn::Id,
        direction: Direction::Desc,
    };
    let posts = get_all_posts_ordered(&conn, order)?;
    let expected_posts = vec![
        Post::new(3, "Third", None),
        Post::new(2, "Second", None),
        Post::new(1, "First", None),
    ];
    assert_eq!(posts, expected_posts);

    Ok(())
}

#[test]
fn ordering_by_title_descending() -> Result<(), QueryError> {
    let mut conn = connection();
    save_new_posts(
        &mut conn,
        vec![
            NewPost::new("Banana", None),
            NewPost::new("Apple", None),
            NewPost::new("Cherry", None),
        ],
    )?;

    let order = OrderBy {
        column: OrderColumn::Title,
        direction: Direction::Desc,
    };
    let titles: Vec<String> = get_all_posts_ordered(&conn, order)?
        .into_iter()
        .map(|p| p.title)
        .collect();
    assert_eq!(titles, vec!["Cherry", "Banana", "Apple"]);

    Ok(())
}
