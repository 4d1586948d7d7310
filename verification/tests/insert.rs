//! Inserting single and multiple records with sequence-assigned keys.

use rowmap::error::QueryError;
use rowmap::postdb::connection;
use rowmap::posts::{NewPost, Post};
use rowmap::queries::{get_all_posts, save_new_post, save_new_posts};

#[test]
fn inserting_single_record() -> Result<(), QueryError> {
    let mut conn = connection();

    save_new_post(&mut conn, "Hello", "This is a post")?;
    let expected_posts = vec![Post::new(1, "Hello", Some("This is a post"))];
    assert_eq!(expected_posts, get_all_posts(&conn)?);

    Ok(())
}

#[test]
fn inserting_many_records() -> Result<(), QueryError> {
    let mut conn = connection();

    let posts = save_new_posts(
        &mut conn,
        vec![
            NewPost::new("First Post", Some("Please Read")),
            NewPost::new("Second Post", Some("Please Ignore")),
        ],
    )?;
    let expected_posts = vec![
        Post::new(1, "First Post", Some("Please Read")),
        Post::new(2, "Second Post", Some("Please Ignore")),
    ];
    assert_eq!(expected_posts, posts);

    Ok(())
}
