//! Updating a whole table, one row by key, and a whole record.

use rowmap::error::QueryError;
use rowmap::postdb::connection;
use rowmap::posts::{NewPost, Post};
use rowmap::queries::{
    get_all_post_bodies, get_post, remove_all_bodies, save_new_post, save_new_posts, update_post,
    update_post_title,
};

#[test]
fn update_entire_table() -> Result<(), QueryError> {
    let mut conn = connection();

    save_new_post(&mut conn, "Hi", "there")?;
    save_new_post(&mut conn, "A", "post")?;
    remove_all_bodies(&mut conn)?;

    let bodies = get_all_post_bodies(&conn)?;
    assert_eq!(vec![None, None], bodies);

    Ok(())
}

#[test]
fn update_single_record() -> Result<(), QueryError> {
    let mut conn = connection();

    save_new_post(&mut conn, "Draft Post", "My Post")?;

    let post = update_post_title(&mut conn, 1, "Published Post")?;
    assert_eq!(Post::new(1, "Published Post", Some("My Post")), post);

    Ok(())
}

#[test]
fn update_multiple_columns() -> Result<(), QueryError> {
    let mut conn = connection();

    let created = save_new_posts(&mut conn, vec![NewPost::new("Draft Post", Some("My Post"))])?;
    let mut post = created.into_iter().next().unwrap();
    post.title = String::from("Published Post");
    let post_id = post.id;

    update_post(&mut conn, post)?;
    let post = get_post(&conn, post_id)?;
    assert_eq!(Post::new(1, "Published Post", Some("My Post")), post);

    Ok(())
}
