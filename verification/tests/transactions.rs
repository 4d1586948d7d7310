//! The transaction scope: rollback undoes a unit of work, and the state
//! machine refuses begin/commit/rollback out of order.

use rowmap::error::QueryError;
use rowmap::postdb::{connection, Connection};
use rowmap::queries::{get_all_posts, save_new_post};

#[test]
fn rollback_restores_the_snapshot() {
    let mut conn = Connection::establish();
    save_new_post(&mut conn, "Kept", "stays").unwrap();
    conn.begin_test_transaction().unwrap();
    save_new_post(&mut conn, "Discarded", "goes").unwrap();
    assert_eq!(get_all_posts(&conn).unwrap().len(), 2);

    conn.rollback().unwrap();
    let posts = get_all_posts(&conn).unwrap();
    assert_eq!(posts.len(), 1);
    assert_eq!(posts[0].title, "Kept");
}

#[test]
fn commit_keeps_the_work() {
    let mut conn = Connection::establish();
    conn.begin_test_transaction().unwrap();
    save_new_post(&mut conn, "Kept", "stays").unwrap();
    conn.commit().unwrap();
    assert_eq!(get_all_posts(&conn).unwrap().len(), 1);
}

#[test]
fn nested_begin_is_refused() {
    let mut conn = connection();
    assert_eq!(
        conn.begin_test_transaction(),
        Err(QueryError::AlreadyInTransaction)
    );
}

#[test]
fn commit_outside_a_transaction_is_refused() {
    let mut conn = Connection::establish();
    assert_eq!(conn.commit(), Err(QueryError::NotInTransaction));
}

#[test]
fn rollback_outside_a_transaction_is_refused() {
    let mut conn = Connection::establish();
    assert_eq!(conn.rollback(), Err(QueryError::NotInTransaction));
}
