use vstd::prelude::*;

use crate::errors::{answers_error, db_error_model, DbFailure, Error, ErrorKind, ErrorResponse};

verus! {

/// A post and the number of likes it has received.
#[derive(Debug, Clone, Default)]
pub struct Post {
    pub id: String,
    pub likes: i32,
}

impl View for Post {
    type V = (Seq<char>, i32);

    open spec fn view(&self) -> (Seq<char>, i32) {
        (self.id@, self.likes)
    }
}

/// What the posts table answered to the last request while a like is recorded.
#[derive(Debug)]
pub enum LikeEvent {
    /// The answer to the request that adds one to the post's likes: the
    /// number of rows it changed.
    Updated(Result<usize, DbFailure>),
    /// The answer to the request that inserts the post with one like.
    Inserted(Result<usize, DbFailure>),
    /// The answer to the request that reads the post.
    Fetched(Result<Post, DbFailure>),
}

/// What is asked of the posts table next while a like is recorded, or the
/// outcome once it is recorded.
#[derive(Debug)]
pub enum LikeAction {
    /// Add one to the likes of the post with the id.
    IncrementLikes,
    /// Insert the post with the id and one like.
    InsertPost,
    /// Read the post with the id.
    FetchPost,
    /// Answer the request with this outcome.
    Finish(Result<Post, Error>),
}

/// The message with which a failed insert is reported.
pub open spec fn insert_failed_message() -> Seq<char> {
    "Couldn't insert into table"@
}

/// `out` is the outcome of reading a post that the table answered with `fetched`.
pub open spec fn fetch_outcome(fetched: Result<Post, DbFailure>, out: Result<Post, Error>) -> bool {
    match fetched {
        Ok(p) => out == Ok::<Post, Error>(p),
        Err(f) => out matches Err(e) && e@ == db_error_model(f),
    }
}

/// `next` is what follows the answer `event` while a like is recorded.
pub open spec fn like_step_spec(event: LikeEvent, next: LikeAction) -> bool {
    match event {
        LikeEvent::Updated(r) => if r == Ok::<usize, DbFailure>(1usize) {
            next is FetchPost
        } else {
            next is InsertPost
        },
        LikeEvent::Inserted(r) => match r {
            Ok(_) => next is FetchPost,
            Err(_) => next matches LikeAction::Finish(Err(e)) && e@ == (
                ErrorKind::Internal,
                insert_failed_message(),
            ),
        },
        LikeEvent::Fetched(r) => next matches LikeAction::Finish(out) && fetch_outcome(r, out),
    }
}

/// The first request made to record a like.
pub open spec fn like_start_spec() -> LikeAction {
    LikeAction::IncrementLikes
}

/// The first request made to record a like: add one to the post's likes.
pub fn like_start() -> (a: LikeAction)
    ensures
        a == like_start_spec(),
{
    LikeAction::IncrementLikes
}

/// What follows the table's answer `event` while a like is recorded.
///
/// When the post's likes went up by one row the post is read; otherwise (no
/// such post, or the request failed) the post is inserted with one like. A
/// failed insert ends with an internal error; a read ends with the post, or
/// with the read's failure as `Error::from_db` reports it.
pub fn like_step(event: LikeEvent) -> (next: LikeAction)
    ensures
        like_step_spec(event, next),
{
    match event {
        LikeEvent::Updated(r) => {
            let updated: usize = match r {
                Ok(n) => n,
                Err(_) => 0,
            };
            if updated == 1 {
                LikeAction::FetchPost
            } else {
                LikeAction::InsertPost
            }
        },
        LikeEvent::Inserted(r) => match r {
            Ok(_) => LikeAction::FetchPost,
            Err(_) => {
                proof {
                    reveal_strlit("Couldn't insert into table");
                }
                LikeAction::Finish(Err(Error::internal("Couldn't insert into table")))
            },
        },
        LikeEvent::Fetched(r) => LikeAction::Finish(find_outcome(r)),
    }
}

/// The outcome of reading a post: the post, or the failure as
/// `Error::from_db` reports it (a missing post is `NotFound`).
pub fn find_outcome(fetched: Result<Post, DbFailure>) -> (out: Result<Post, Error>)
    ensures
        fetch_outcome(fetched, out),
{
    match fetched {
        Ok(p) => Ok(p),
        Err(f) => Err(Error::from_db(f)),
    }
}

/// How a posts table that stores each post once under its id answers `action`
/// for the post `id`: `table` maps each stored id to its likes before the
/// request, `after` after it, and `event` is the answer.
///
/// Adding a like changes one row when the post is stored and none when it is
/// not; inserting a stored id breaks the table's unique key; reading a stored
/// post answers it (when its count fits in an `i32`), and reading a missing
/// one answers that it was not found.
pub open spec fn table_answers(
    table: Map<Seq<char>, int>,
    id: Seq<char>,
    action: LikeAction,
    after: Map<Seq<char>, int>,
    event: LikeEvent,
) -> bool {
    match action {
        LikeAction::IncrementLikes => if table.contains_key(id) {
            &&& after == table.insert(id, table[id] + 1)
            &&& event == LikeEvent::Updated(Ok(1usize))
        } else {
            &&& after == table
            &&& event == LikeEvent::Updated(Ok(0usize))
        },
        LikeAction::InsertPost => if table.contains_key(id) {
            &&& after == table
            &&& event matches LikeEvent::Inserted(Err(DbFailure::UniqueViolation))
        } else {
            &&& after == table.insert(id, 1)
            &&& event == LikeEvent::Inserted(Ok(1usize))
        },
        LikeAction::FetchPost => {
            &&& after == table
            &&& if !table.contains_key(id) {
                event matches LikeEvent::Fetched(Err(DbFailure::NotFound))
            } else if i32::MIN <= table[id] <= i32::MAX {
                event matches LikeEvent::Fetched(Ok(p)) && p@.0 == id && p@.1 == table[id]
            } else {
                event matches LikeEvent::Fetched(Err(DbFailure::Other(_)))
            }
        },
        LikeAction::Finish(_) => false,
    }
}

/// The likes a post has once a like of it is recorded.
pub open spec fn liked_count(table: Map<Seq<char>, int>, id: Seq<char>) -> int {
    if table.contains_key(id) {
        table[id] + 1
    } else {
        1
    }
}

/// The table once a like of the post `id` is recorded in it.
pub open spec fn like_on_table(table: Map<Seq<char>, int>, id: Seq<char>) -> Map<Seq<char>, int> {
    table.insert(id, liked_count(table, id))
}

/// The table once `n` likes of the post `id` are recorded one after another.
pub open spec fn table_after_likes(table: Map<Seq<char>, int>, id: Seq<char>, n: nat) -> Map<
    Seq<char>,
    int,
>
    decreases n,
{
    if n == 0 {
        table
    } else {
        like_on_table(table_after_likes(table, id, (n - 1) as nat), id)
    }
}

/// The likes of the post `id` that `table` stores (none when it is not stored).
pub open spec fn stored_likes(table: Map<Seq<char>, int>, id: Seq<char>) -> int {
    if table.contains_key(id) {
        table[id]
    } else {
        0
    }
}

/// Recording a like against a table keyed by post id adds one to the likes of
/// a stored post, or stores a missing post with one like, and answers the
/// post with its new count. A stored post is answered after two requests
/// (`a2` is then the outcome), a missing one after three (`a3`).
///
/// It does not hold of a post whose likes already stand at `i32::MAX`: the
/// table then counts past what a post can be read back with.
pub proof fn lemma_like_records_one_more(
    table: Map<Seq<char>, int>,
    id: Seq<char>,
    e1: LikeEvent,
    t1: Map<Seq<char>, int>,
    a1: LikeAction,
    e2: LikeEvent,
    t2: Map<Seq<char>, int>,
    a2: LikeAction,
    e3: LikeEvent,
    t3: Map<Seq<char>, int>,
    a3: LikeAction,
)
    requires
        table.contains_key(id) ==> i32::MIN <= table[id] < i32::MAX,
        table_answers(table, id, like_start_spec(), t1, e1),
        like_step_spec(e1, a1),
        table_answers(t1, id, a1, t2, e2),
        like_step_spec(e2, a2),
        !(a2 is Finish) ==> table_answers(t2, id, a2, t3, e3) && like_step_spec(e3, a3),
    ensures
        table.contains_key(id) ==> a2 is Finish,
        ({
            let (last, after) = if a2 is Finish { (a2, t2) } else { (a3, t3) };
            &&& after == like_on_table(table, id)
            &&& last matches LikeAction::Finish(Ok(p))
            &&& p@.0 == id
            &&& p@.1 == liked_count(table, id)
        }),
{
}

/// After `n` likes of a post, the table holds the likes it held before plus
/// `n` under the post's id, and is otherwise unchanged.
pub proof fn lemma_table_after_likes(table: Map<Seq<char>, int>, id: Seq<char>, n: nat)
    ensures
        table_after_likes(table, id, n) == if n == 0 {
            table
        } else {
            table.insert(id, stored_likes(table, id) + n)
        },
    decreases n,
{
    if n > 0 {
        lemma_table_after_likes(table, id, (n - 1) as nat);
        if n > 1 {
            let prev = table.insert(id, stored_likes(table, id) + n - 1);
            assert(prev.insert(id, stored_likes(table, id) + n) =~= table.insert(
                id,
                stored_likes(table, id) + n,
            ));
        }
    }
}

/// Likes recorded one after another are each counted once: when the post
/// stores `c` likes (none when it is not stored), the `i`-th of `k` likes
/// starts from a table in which the one-like law holds and answers `c + i`,
/// and after all `k` the post stores `c + k`, the other posts unchanged.
/// By `lemma_like_records_one_more`, the `i`-th like moves the table from
/// `table_after_likes(table, id, i - 1)` to `table_after_likes(table, id, i)`.
///
/// It does not hold once `c + k` passes `i32::MAX`.
pub proof fn lemma_successive_likes(table: Map<Seq<char>, int>, id: Seq<char>, k: nat)
    requires
        table.contains_key(id) ==> i32::MIN <= table[id],
        stored_likes(table, id) + k <= i32::MAX,
    ensures
        forall|i: nat|
            1 <= i <= k ==> {
                let before = #[trigger] table_after_likes(table, id, (i - 1) as nat);
                &&& before.contains_key(id) ==> i32::MIN <= before[id] < i32::MAX
                &&& liked_count(before, id) == stored_likes(table, id) + i
                &&& like_on_table(before, id) == table_after_likes(table, id, i)
            },
        k > 0 ==> table_after_likes(table, id, k) == table.insert(id, stored_likes(table, id) + k),
{
    assert forall|i: nat| 1 <= i <= k implies {
        let before = #[trigger] table_after_likes(table, id, (i - 1) as nat);
        &&& before.contains_key(id) ==> i32::MIN <= before[id] < i32::MAX
        &&& liked_count(before, id) == stored_likes(table, id) + i
        &&& like_on_table(before, id) == table_after_likes(table, id, i)
    } by {
        lemma_table_after_likes(table, id, (i - 1) as nat);
        lemma_table_after_likes(table, id, i);
    }
    lemma_table_after_likes(table, id, k);
}

/// Reading a post from a table keyed by post id answers the stored post with
/// its likes, or a `NotFound` error with an empty message when it is not
/// stored; the table is left as it was.
pub proof fn lemma_find_answers_stored(
    table: Map<Seq<char>, int>,
    id: Seq<char>,
    event: LikeEvent,
    after: Map<Seq<char>, int>,
    out: Result<Post, Error>,
)
    requires
        table.contains_key(id) ==> i32::MIN <= table[id] <= i32::MAX,
        table_answers(table, id, LikeAction::FetchPost, after, event),
        event matches LikeEvent::Fetched(r) && fetch_outcome(r, out),
    ensures
        after == table,
        table.contains_key(id) ==> (out matches Ok(p) && p@.0 == id && p@.1 == table[id]),
        !table.contains_key(id) ==> (out matches Err(e) && e@ == (
            ErrorKind::NotFound,
            Seq::<char>::empty(),
        )),
{
}

/// What a read gives back of a like: once a like of a post is recorded,
/// reading the post answers it with the count the like answered.
pub proof fn lemma_like_then_find(
    table: Map<Seq<char>, int>,
    id: Seq<char>,
    e1: LikeEvent,
    t1: Map<Seq<char>, int>,
    a1: LikeAction,
    e2: LikeEvent,
    t2: Map<Seq<char>, int>,
    a2: LikeAction,
    e3: LikeEvent,
    t3: Map<Seq<char>, int>,
    a3: LikeAction,
    fetched: LikeEvent,
    t4: Map<Seq<char>, int>,
    out: Result<Post, Error>,
)
    requires
        table.contains_key(id) ==> i32::MIN <= table[id] < i32::MAX,
        table_answers(table, id, like_start_spec(), t1, e1),
        like_step_spec(e1, a1),
        table_answers(t1, id, a1, t2, e2),
        like_step_spec(e2, a2),
        !(a2 is Finish) ==> table_answers(t2, id, a2, t3, e3) && like_step_spec(e3, a3),
        table_answers(if a2 is Finish { t2 } else { t3 }, id, LikeAction::FetchPost, t4, fetched),
        fetched matches LikeEvent::Fetched(r) && fetch_outcome(r, out),
    ensures
        ({
            let last = if a2 is Finish { a2 } else { a3 };
            &&& out matches Ok(p)
            &&& last matches LikeAction::Finish(Ok(q))
            &&& p@ == q@
            &&& p@.1 == liked_count(table, id)
        }),
{
    lemma_like_records_one_more(table, id, e1, t1, a1, e2, t2, a2, e3, t3, a3);
    let after = if a2 is Finish { t2 } else { t3 };
    lemma_find_answers_stored(after, id, fetched, t4, out);
}

/// Asking for a post that the table does not store is answered with status
/// 404, the code `NotFound` and an empty message.
pub proof fn lemma_missing_post_is_not_found(
    table: Map<Seq<char>, int>,
    id: Seq<char>,
    event: LikeEvent,
    after: Map<Seq<char>, int>,
    out: Result<Post, Error>,
    resp: ErrorResponse,
)
    requires
        !table.contains_key(id),
        table_answers(table, id, LikeAction::FetchPost, after, event),
        event matches LikeEvent::Fetched(r) && fetch_outcome(r, out),
        out matches Err(e) && answers_error(e, resp),
    ensures
        resp.status == 404,
        resp.body.code == ErrorKind::NotFound,
        resp.body.message is Some,
        resp.body.message.unwrap()@ == Seq::<char>::empty(),
{
}

/// Recording a like starts by asking to add one to the post's likes.
pub proof fn lemma_like_starts_with_increment()
    ensures
        like_start_spec() is IncrementLikes,
{
}

/// Reading a post answers the post that was read; a missing post is
/// `NotFound` with an empty message, a unique-key violation `AlreadyExists`
/// with an empty message, and any other failure `Internal` carrying its text.
pub proof fn lemma_fetch_outcome_cases(fetched: Result<Post, DbFailure>, out: Result<Post, Error>)
    requires
        fetch_outcome(fetched, out),
    ensures
        fetched matches Ok(p) ==> out == Ok::<Post, Error>(p),
        fetched matches Err(DbFailure::NotFound) ==> (out matches Err(e) && e.spec_kind()
            == ErrorKind::NotFound && e.spec_msg() == Seq::<char>::empty()),
        fetched matches Err(DbFailure::UniqueViolation) ==> (out matches Err(e) && e.spec_kind()
            == ErrorKind::AlreadyExists && e.spec_msg() == Seq::<char>::empty()),
        fetched matches Err(DbFailure::Other(t)) ==> (out matches Err(e) && e.spec_kind()
            == ErrorKind::Internal && e.spec_msg() == t@),
{
}

/// Each answer of the posts table leads on as follows: an update that changed
/// exactly one row leads to reading the post; any other update answer (no
/// row, several, or a failure) leads to inserting it; a successful insert
/// leads to reading the post; a failed insert, whatever its failure, ends the
/// like with the internal error "Couldn't insert into table" and asks nothing
/// more; a read ends the like with its outcome.
pub proof fn lemma_like_step_cases(event: LikeEvent, next: LikeAction)
    requires
        like_step_spec(event, next),
    ensures
        event == LikeEvent::Updated(Ok(1usize)) ==> next is FetchPost,
        (event is Updated && event != LikeEvent::Updated(Ok(1usize))) ==> next is InsertPost,
        event matches LikeEvent::Inserted(Ok(_)) ==> next is FetchPost,
        event matches LikeEvent::Inserted(Err(_)) ==> (next matches LikeAction::Finish(Err(e))
            && e.spec_kind() == ErrorKind::Internal && e.spec_msg()
            == "Couldn't insert into table"@),
        event matches LikeEvent::Fetched(r) ==> (next matches LikeAction::Finish(out)
            && fetch_outcome(r, out)),
{
}

/// How a posts table may answer when a request to add a like can fail: as
/// `table_answers` says, or with a failed update that leaves the table as it
/// was (the database was locked, another writer was busy).
pub open spec fn table_may_answer(
    table: Map<Seq<char>, int>,
    id: Seq<char>,
    action: LikeAction,
    after: Map<Seq<char>, int>,
    event: LikeEvent,
) -> bool {
    ||| table_answers(table, id, action, after, event)
    ||| (action is IncrementLikes && after == table && event matches LikeEvent::Updated(Err(_)))
}

/// No like is lost or counted twice, even when the request that adds a like
/// fails: whenever recording a like ends with a post, the post has its stored
/// likes plus one (one when it was not stored), and the table stores exactly
/// that. A like whose update failed on a stored post therefore cannot end
/// with the post: its insert is refused and it ends with an error.
pub proof fn lemma_like_never_loses_a_like(
    table: Map<Seq<char>, int>,
    id: Seq<char>,
    e1: LikeEvent,
    t1: Map<Seq<char>, int>,
    a1: LikeAction,
    e2: LikeEvent,
    t2: Map<Seq<char>, int>,
    a2: LikeAction,
    e3: LikeEvent,
    t3: Map<Seq<char>, int>,
    a3: LikeAction,
)
    requires
        table.contains_key(id) ==> i32::MIN <= table[id] < i32::MAX,
        table_may_answer(table, id, like_start_spec(), t1, e1),
        like_step_spec(e1, a1),
        !(a1 is Finish) ==> table_may_answer(t1, id, a1, t2, e2) && like_step_spec(e2, a2),
        !(a1 is Finish) && !(a2 is Finish) ==> table_may_answer(t2, id, a2, t3, e3)
            && like_step_spec(e3, a3),
    ensures
        ({
            let (last, after) = if a1 is Finish {
                (a1, t1)
            } else if a2 is Finish {
                (a2, t2)
            } else {
                (a3, t3)
            };
            last matches LikeAction::Finish(Ok(p)) ==> {
                &&& p@.0 == id
                &&& p@.1 == liked_count(table, id)
                &&& after == like_on_table(table, id)
            }
        }),
        (table.contains_key(id) && e1 matches LikeEvent::Updated(Err(_))) ==> (
        a2 matches LikeAction::Finish(Err(e)) && e.spec_kind() == ErrorKind::Internal),
{
}

} // verus!
