use std::collections::HashMap;

use blog_server::errors::{reply, DbFailure, Error, ErrorKind};
use blog_server::posts::{find_outcome, like_start, like_step, LikeAction, LikeEvent, Post};

/// A posts table kept in memory, answering the like protocol's requests.
struct Table {
    rows: HashMap<String, i32>,
    fail_inserts: bool,
    fail_updates: bool,
}

impl Table {
    fn new() -> Table {
        Table { rows: HashMap::new(), fail_inserts: false, fail_updates: false }
    }

    fn answer(&mut self, id: &str, action: &LikeAction) -> LikeEvent {
        match action {
            LikeAction::IncrementLikes => {
                if self.fail_updates {
                    return LikeEvent::Updated(Err(DbFailure::Other("locked".to_string())));
                }
                match self.rows.get_mut(id) {
                    Some(likes) => {
                        *likes += 1;
                        LikeEvent::Updated(Ok(1))
                    }
                    None => LikeEvent::Updated(Ok(0)),
                }
            }
            LikeAction::InsertPost => {
                if self.fail_inserts {
                    LikeEvent::Inserted(Err(DbFailure::Other("read only".to_string())))
                } else if self.rows.contains_key(id) {
                    LikeEvent::Inserted(Err(DbFailure::UniqueViolation))
                } else {
                    self.rows.insert(id.to_string(), 1);
                    LikeEvent::Inserted(Ok(1))
                }
            }
            LikeAction::FetchPost => LikeEvent::Fetched(self.fetch(id)),
            LikeAction::Finish(_) => panic!("nothing to answer"),
        }
    }

    fn fetch(&self, id: &str) -> Result<Post, DbFailure> {
        match self.rows.get(id) {
            Some(likes) => Ok(Post { id: id.to_string(), likes: *likes }),
            None => Err(DbFailure::NotFound),
        }
    }

    fn like(&mut self, id: &str) -> (Result<Post, Error>, usize) {
        let mut action = like_start();
        let mut requests = 0;
        loop {
            if let LikeAction::Finish(outcome) = action {
                return (outcome, requests);
            }
            let event = self.answer(id, &action);
            requests += 1;
            action = like_step(event);
        }
    }
}

#[test]
fn like_of_stored_post_adds_one() {
    let mut t = Table::new();
    t.rows.insert("hello".to_string(), 3);
    let (out, requests) = t.like("hello");
    let post = out.unwrap();
    assert_eq!(post.id, "hello");
    assert_eq!(post.likes, 4);
    assert_eq!(requests, 2);
    assert_eq!(t.rows["hello"], 4);
}

#[test]
fn like_of_new_post_stores_one_like() {
    let mut t = Table::new();
    let (out, requests) = t.like("fresh");
    let post = out.unwrap();
    assert_eq!(post.id, "fresh");
    assert_eq!(post.likes, 1);
    assert_eq!(requests, 3);
}

#[test]
fn two_likes_count_two() {
    let mut t = Table::new();
    t.like("twice").0.unwrap();
    let post = t.like("twice").0.unwrap();
    assert_eq!(post.likes, 2);
}

#[test]
fn like_then_find_gives_new_count() {
    let mut t = Table::new();
    t.rows.insert("p".to_string(), 9);
    let liked = t.like("p").0.unwrap();
    let found = find_outcome(t.fetch("p")).unwrap();
    assert_eq!(found.likes, liked.likes);
    assert_eq!(found.likes, 10);
}

#[test]
fn failed_update_falls_back_to_insert() {
    let mut t = Table::new();
    t.fail_updates = true;
    let post = t.like("x").0.unwrap();
    assert_eq!(post.likes, 1);
}

#[test]
fn failed_insert_is_internal_error() {
    let mut t = Table::new();
    t.fail_inserts = true;
    let err = t.like("y").0.unwrap_err();
    assert_eq!(err.kind(), ErrorKind::Internal);
    assert_eq!(err.message(), "Couldn't insert into table");
    assert_eq!(reply(Err::<Post, Error>(err)).status(), 500);
}

#[test]
fn update_of_one_row_leads_to_fetch() {
    assert!(matches!(like_step(LikeEvent::Updated(Ok(1))), LikeAction::FetchPost));
    assert!(matches!(like_step(LikeEvent::Updated(Ok(0))), LikeAction::InsertPost));
    assert!(matches!(like_step(LikeEvent::Updated(Ok(2))), LikeAction::InsertPost));
    assert!(matches!(
        like_step(LikeEvent::Updated(Err(DbFailure::NotFound))),
        LikeAction::InsertPost
    ));
    assert!(matches!(like_step(LikeEvent::Inserted(Ok(1))), LikeAction::FetchPost));
}

#[test]
fn find_of_missing_post_is_not_found() {
    let t = Table::new();
    let err = find_outcome(t.fetch("nope")).unwrap_err();
    assert_eq!(err.kind(), ErrorKind::NotFound);
    let resp = err.error_response();
    assert_eq!(resp.status, 404);
    assert_eq!(resp.body.message.as_deref(), Some(""));
}

#[test]
fn fetch_failure_after_insert_is_reported() {
    match like_step(LikeEvent::Fetched(Err(DbFailure::Other("gone".to_string())))) {
        LikeAction::Finish(Err(e)) => {
            assert_eq!(e.kind(), ErrorKind::Internal);
            assert_eq!(e.message(), "gone");
        }
        _ => panic!("expected a failed outcome"),
    }
}

#[test]
fn successive_likes_of_new_post_count_up() {
    let mut t = Table::new();
    for i in 1..=5 {
        let post = t.like("series").0.unwrap();
        assert_eq!(post.likes, i);
    }
    assert_eq!(t.rows["series"], 5);
}
