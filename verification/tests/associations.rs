//! The joined single-row load and the two-query association load.

use rowmap::blog::{Post, User};
use rowmap::blogdb::{
    connection, insert_post, insert_user, load_all_users_and_posts, load_post_and_user,
};
use rowmap::error::QueryError;

#[test]
fn load_using_join() -> Result<(), QueryError> {
    let mut conn = connection();
    insert_user(&mut conn, "Julia")?;
    insert_user(&mut conn, "Jane")?;
    insert_post(&mut conn, "Julia's post", 1)?;
    insert_post(&mut conn, "Jane's post", 2)?;

    let post_and_user = load_post_and_user(&conn, 1)?;
    let expected_post_and_user = (
        Post::new(1, "Julia's post", None, 1),
        User::new(1, "Julia"),
    );
    assert_eq!(expected_post_and_user, post_and_user);

    let post_and_user = load_post_and_user(&conn, 2)?;
    let expected_post_and_user = (Post::new(2, "Jane's post", None, 2), User::new(2, "Jane"));
    assert_eq!(expected_post_and_user, post_and_user);

    Ok(())
}

#[test]
fn load_associated_data() -> Result<(), QueryError> {
    let mut conn = connection();
    insert_user(&mut conn, "Julia")?;
    insert_user(&mut conn, "Jane")?;
    insert_post(&mut conn, "Julia's first post", 1)?;
    insert_post(&mut conn, "Jane's post", 2)?;
    insert_post(&mut conn, "Julia's second post", 1)?;

    let data = load_all_users_and_posts(&conn)?;
    let expected_data = vec![
        (
            User::new(1, "Julia"),
            vec![
                Post::new(1, "Julia's first post", None, 1),
                Post::new(3, "Julia's second post", None, 1),
            ],
        ),
        (
            User::new(2, "Jane"),
            vec![Post::new(2, "Jane's post", None, 2)],
        ),
    ];
    assert_eq!(data, expected_data);

    Ok(())
}
