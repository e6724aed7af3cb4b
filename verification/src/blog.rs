use vstd::prelude::*;
use crate::response::{Answer, HttpReply, ReplyBody, Response, error_reply};
use crate::users::Claims;

verus! {

/// Errors of the blog example's services, each answered with its own status.
pub enum AppError {
    NotFound(String),
    Forbidden(String),
    Unauthorized(String),
    Conflict(String),
    InternalError(String),
}

impl AppError {
    pub open spec fn status_of(self) -> u16 {
        match self {
            AppError::NotFound(_) => 404,
            AppError::Forbidden(_) => 403,
            AppError::Unauthorized(_) => 401,
            AppError::Conflict(_) => 409,
            AppError::InternalError(_) => 500,
        }
    }

    pub open spec fn message_of(self) -> Seq<char> {
        match self {
            AppError::NotFound(m) => m@,
            AppError::Forbidden(m) => m@,
            AppError::Unauthorized(m) => m@,
            AppError::Conflict(m) => m@,
            AppError::InternalError(m) => m@,
        }
    }

    /// The reply for the error: its status with `{ "error": message }`.
    pub fn into_response(self) -> (r: HttpReply)
        ensures
            error_reply(r, self.status_of(), self.message_of()),
    {
        let (status, m) = match self {
            AppError::NotFound(m) => (404u16, m),
            AppError::Forbidden(m) => (403u16, m),
            AppError::Unauthorized(m) => (401u16, m),
            AppError::Conflict(m) => (409u16, m),
            AppError::InternalError(m) => (500u16, m),
        };
        HttpReply { status, body: ReplyBody::ErrorMessage(m) }
    }
}

/// Copies a list of strings.
fn copy_strings(v: &Vec<String>) -> (r: Vec<String>)
    ensures
        r@ == v@,
{
    let mut out: Vec<String> = Vec::new();
    let mut i: usize = 0;
    while i < v.len()
        invariant
            i <= v@.len(),
            out@ == v@.subrange(0, i as int),
        decreases v@.len() - i,
    {
        out.push(v[i].clone());
        assert(out@ =~= v@.subrange(0, i + 1));
        i = i + 1;
    }
    assert(v@.subrange(0, v@.len() as int) =~= v@);
    out
}

/// A comment on a post.
pub struct Comment {
    pub id: String,
    pub post_id: String,
    pub author_id: String,
    pub body: String,
    /// Number of distinct users who like the comment.
    pub like_count: u64,
    /// The users who like the comment, each once.
    pub liked_by: Vec<String>,
    /// Microseconds since the Unix epoch.
    pub created_at: i64,
    pub updated_at: i64,
}

impl Comment {
    /// The user ids that like the comment, as character sequences.
    pub open spec fn likers(self) -> Seq<Seq<char>> {
        self.liked_by@.map_values(|s: String| s@)
    }

    /// A comment is consistent when each liker appears once and the count
    /// is the number of likers.
    pub open spec fn consistent(self) -> bool {
        &&& self.likers().no_duplicates()
        &&& self.like_count == self.likers().len()
    }

    /// Whether the two comments agree on everything, field by field.
    pub open spec fn same_as(self, other: Comment) -> bool {
        &&& self.id@ == other.id@
        &&& self.post_id@ == other.post_id@
        &&& self.author_id@ == other.author_id@
        &&& self.body@ == other.body@
        &&& self.like_count == other.like_count
        &&& self.likers() == other.likers()
        &&& self.created_at == other.created_at
        &&& self.updated_at == other.updated_at
    }

    /// The comment as the database keeps it: its instants rounded down to
    /// the millisecond.
    pub open spec fn stored(self) -> Comment {
        Comment {
            created_at: stored_instant(self.created_at),
            updated_at: stored_instant(self.updated_at),
            ..self
        }
    }

    /// A copy of the comment.
    pub fn duplicate(&self) -> (r: Comment)
        ensures
            r.same_as(*self),
    {
        let liked_by = copy_strings(&self.liked_by);
        Comment {
            id: self.id.clone(),
            post_id: self.post_id.clone(),
            author_id: self.author_id.clone(),
            body: self.body.clone(),
            like_count: self.like_count,
            liked_by,
            created_at: self.created_at,
            updated_at: self.updated_at,
        }
    }
}

/// Body of a request that creates a comment.
pub struct CreateCommentDto {
    pub body: String,
}

/// Body of a request that edits a comment.
pub struct UpdateCommentDto {
    pub body: String,
}

/// Index of the first string equal to `target`, if any.
fn position_of(v: &Vec<String>, target: &str) -> (r: Option<usize>)
    ensures
        match r {
            Some(i) => i < v@.len() && v@[i as int]@ == target@,
            None => forall|i: int| 0 <= i < v@.len() ==> v@[i]@ != target@,
        },
{
    let t = target.to_string();
    let mut i: usize = 0;
    while i < v.len()
        invariant
            i <= v@.len(),
            t@ == target@,
            forall|j: int| 0 <= j < i ==> v@[j]@ != target@,
        decreases v@.len() - i,
    {
        if v[i] == t {
            return Some(i);
        }
        i = i + 1;
    }
    None
}

/// The comments of the blog, in insertion order: the collection that the
/// comment repository queries and updates.
pub struct CommentStore {
    comments: Vec<Comment>,
}

/// What the database keeps of an instant given in microseconds: the instant
/// rounded down to its millisecond, as BSON dates count milliseconds. An
/// instant before the earliest whole millisecond that an `i64` of
/// microseconds can hold is kept as that millisecond.
pub open spec fn stored_instant(t: i64) -> i64 {
    if t < -9223372036854775000 {
        -9223372036854775000i64
    } else {
        (t - t % 1000) as i64
    }
}

/// The instant the database keeps of `t` (see [`stored_instant`]).
pub fn to_stored_instant(t: i64) -> (r: i64)
    ensures
        r == stored_instant(t),
{
    if t < -9223372036854775000 {
        return -9223372036854775000;
    }
    if t >= 0 {
        let v = t as u64;
        let f = v - v % 1000;
        assert(v % 1000 == t % 1000);
        f as i64
    } else {
        let u = (-(t + 1)) as u64;
        let q = u / 1000;
        assert(t - t % 1000 == -((q + 1) * 1000)) by (nonlinear_arith)
            requires
                u == -(t + 1),
                q == u / 1000,
                t < 0,
        {
            assert(u == 1000 * q + u % 1000);
            assert(t == -1000 * (q + 1) + (999 - u % 1000));
        }
        assert(q <= 9223372036854774);
        -((q as i64) + 1) * 1000
    }
}

/// Whether some comment of `s` has an object id: only then can a freshly
/// drawn object id already be in use.
pub open spec fn holds_object_id(s: Seq<Comment>) -> bool {
    exists|i: int| 0 <= i < s.len() && is_object_id(s[i].id@)
}

/// Whether no two comments of `s` share an id.
pub open spec fn ids_unique(s: Seq<Comment>) -> bool {
    forall|i: int, j: int| 0 <= i < s.len() && 0 <= j < s.len() && i != j ==> s[i].id@ != s[j].id@
}

/// Whether `s` holds a comment with id `id`.
pub open spec fn has_id(s: Seq<Comment>, id: Seq<char>) -> bool {
    exists|i: int| 0 <= i < s.len() && s[i].id@ == id
}

impl CommentStore {
    pub closed spec fn view(&self) -> Seq<Comment> {
        self.comments@
    }

    /// Every comment is consistent, every id is an object id (the
    /// collection assigns them), and ids are distinct.
    pub open spec fn wf(&self) -> bool {
        &&& forall|i: int| 0 <= i < self@.len() ==> (#[trigger] self@[i]).consistent()
        &&& forall|i: int| 0 <= i < self@.len() ==> is_object_id((#[trigger] self@[i]).id@)
        &&& ids_unique(self@)
    }

    /// An empty collection.
    pub fn new() -> (s: Self)
        ensures
            s.wf(),
            s@.len() == 0,
    {
        CommentStore { comments: Vec::new() }
    }

    /// Index of the comment with id `id`.
    fn index_of(&self, id: &str) -> (r: Option<usize>)
        ensures
            match r {
                Some(i) => i < self@.len() && self@[i as int].id@ == id@,
                None => !has_id(self@, id@),
            },
    {
        let t = id.to_string();
        let mut i: usize = 0;
        while i < self.comments.len()
            invariant
                i <= self@.len(),
                t@ == id@,
                forall|j: int| 0 <= j < i ==> self@[j].id@ != id@,
            decreases self@.len() - i,
        {
            if self.comments[i].id == t {
                return Some(i);
            }
            i = i + 1;
        }
        None
    }

    /// The comments on post `post_id`, in insertion order.
    pub fn find_by_post(&self, post_id: &str) -> (r: Vec<Comment>)
        ensures
            r@.len() == self@.filter(|c: Comment| c.post_id@ == post_id@).len(),
            forall|i: int|
                0 <= i < r@.len() ==> r@[i].same_as(
                    self@.filter(|c: Comment| c.post_id@ == post_id@)[i],
                ),
    {
        let ghost pred = |c: Comment| c.post_id@ == post_id@;
        let p = post_id.to_string();
        let mut out: Vec<Comment> = Vec::new();
        let mut i: usize = 0;
        while i < self.comments.len()
            invariant
                i <= self@.len(),
                p@ == post_id@,
                pred == (|c: Comment| c.post_id@ == post_id@),
                out@.len() == self@.subrange(0, i as int).filter(pred).len(),
                forall|k: int|
                    0 <= k < out@.len() ==> out@[k].same_as(
                        self@.subrange(0, i as int).filter(pred)[k],
                    ),
            decreases self@.len() - i,
        {
            proof {
                reveal_with_fuel(Seq::<_>::filter, 1);
                assert(self@.subrange(0, i + 1).drop_last() =~= self@.subrange(0, i as int));
            }
            if self.comments[i].post_id == p {
                out.push(self.comments[i].duplicate());
            }
            i = i + 1;
        }
        assert(self@.subrange(0, self@.len() as int) =~= self@);
        out
    }

    /// Updates the comment at `i` to `c`.
    fn replace_at(&mut self, i: usize, c: Comment)
        requires
            i < old(self)@.len(),
        ensures
            final(self)@ == old(self)@.update(i as int, c),
    {
        self.comments.set(i, c);
    }

    /// The comment with id `id`, if any.
    fn lookup(&self, id: &str) -> (r: Option<Comment>)
        ensures
            match r {
                Some(c) => exists|i: int|
                    0 <= i < self@.len() && self@[i].id@ == id@ && c.same_as(self@[i]),
                None => !has_id(self@, id@),
            },
    {
        match self.index_of(id) {
            Some(i) => Some(self.comments[i].duplicate()),
            None => None,
        }
    }
}


/// The comment after `user` likes `before`: a user already among the likers
/// changes nothing; otherwise the user is added and the count goes up by one.
pub open spec fn liked(before: Comment, user: Seq<char>, after: Comment) -> bool {
    &&& after.id@ == before.id@
    &&& after.post_id@ == before.post_id@
    &&& after.author_id@ == before.author_id@
    &&& after.body@ == before.body@
    &&& after.created_at == before.created_at
    &&& after.updated_at == before.updated_at
    &&& if before.likers().contains(user) {
        after.likers() == before.likers() && after.like_count == before.like_count
    } else {
        after.likers() == before.likers().push(user) && after.like_count == before.like_count + 1
    }
}

/// The comment after `user` withdraws a like from `before`: a user not
/// among the likers changes nothing; otherwise the user is removed and the
/// count goes down by one.
pub open spec fn unliked(before: Comment, user: Seq<char>, after: Comment) -> bool {
    &&& after.id@ == before.id@
    &&& after.post_id@ == before.post_id@
    &&& after.author_id@ == before.author_id@
    &&& after.body@ == before.body@
    &&& after.created_at == before.created_at
    &&& after.updated_at == before.updated_at
    &&& if before.likers().contains(user) {
        exists|k: int|
            0 <= k < before.likers().len() && before.likers()[k] == user && after.likers()
                == before.likers().remove(k) && after.like_count == before.like_count - 1
    } else {
        after.likers() == before.likers() && after.like_count == before.like_count
    }
}

/// The comment after its author rewrites it at `now`, as the collection
/// keeps it (the edit time to the millisecond).
pub open spec fn edited(before: Comment, body: Seq<char>, now: i64, after: Comment) -> bool {
    &&& after.id@ == before.id@
    &&& after.post_id@ == before.post_id@
    &&& after.author_id@ == before.author_id@
    &&& after.body@ == body
    &&& after.like_count == before.like_count
    &&& after.likers() == before.likers()
    &&& after.created_at == before.created_at
    &&& after.updated_at == stored_instant(now)
}

/// Whether `s` holds a comment with id `id` written by `author`.
pub open spec fn has_owned(s: Seq<Comment>, id: Seq<char>, author: Seq<char>) -> bool {
    exists|i: int| 0 <= i < s.len() && s[i].id@ == id && s[i].author_id@ == author
}

impl CommentStore {
    /// Store a new comment with id `id` on post `post_id` by `author_id`,
    /// created at `now`, with no likes; the collection keeps its instants
    /// to the millisecond. An id already in use is refused.
    pub fn save_with_identity(
        &mut self,
        id: String,
        post_id: &str,
        author_id: &str,
        dto: CreateCommentDto,
        now: i64,
    ) -> (r: Result<Comment, AppError>)
        requires
            old(self).wf(),
            is_object_id(id@),
        ensures
            final(self).wf(),
            has_id(old(self)@, id@) ==> r is Err && r->Err_0 is InternalError && final(self)@ == old(self)@,
            !has_id(old(self)@, id@) ==> {
                &&& r is Ok
                &&& r->Ok_0.id@ == id@
                &&& r->Ok_0.post_id@ == post_id@
                &&& r->Ok_0.author_id@ == author_id@
                &&& r->Ok_0.body@ == dto.body@
                &&& r->Ok_0.like_count == 0
                &&& r->Ok_0.likers().len() == 0
                &&& r->Ok_0.created_at == now
                &&& r->Ok_0.updated_at == now
                &&& final(self)@.len() == old(self)@.len() + 1
                &&& final(self)@.subrange(0, old(self)@.len() as int) == old(self)@
                &&& final(self)@.last().same_as(r->Ok_0.stored())
            },
    {
        if self.index_of(id.as_str()).is_some() {
            proof { reveal_strlit("comment id already in use"); }
            return Err(AppError::InternalError("comment id already in use".to_string()));
        }
        let c = Comment {
            id,
            post_id: post_id.to_string(),
            author_id: author_id.to_string(),
            body: dto.body,
            like_count: 0,
            liked_by: Vec::new(),
            created_at: now,
            updated_at: now,
        };
        assert(c.likers() =~= Seq::<Seq<char>>::empty());
        let out = c.duplicate();
        let mut c = c;
        let kept = to_stored_instant(now);
        c.created_at = kept;
        c.updated_at = kept;
        self.comments.push(c);
        proof {
            assert(final(self)@.subrange(0, old(self)@.len() as int) =~= old(self)@);
        }
        Ok(out)
    }

    /// Rewrite the body of comment `id` at `now`, only when `author_id`
    /// wrote it; returns the updated comment, or `None` when no comment with
    /// that id is owned by that author (nothing changes then).
    fn update_owned(&mut self, id: &str, author_id: &str, dto: UpdateCommentDto, now: i64) -> (r:
        Option<Comment>)
        requires
            old(self).wf(),
        ensures
            final(self).wf(),
            !has_owned(old(self)@, id@, author_id@) ==> r is None && final(self)@ == old(self)@,
            has_owned(old(self)@, id@, author_id@) ==> exists|i: int|
                0 <= i < old(self)@.len() && old(self)@[i].id@ == id@ && old(self)@[i].author_id@
                    == author_id@ && r is Some && edited(old(self)@[i], dto.body@, now, r->0)
                    && final(self)@.len() == old(self)@.len() && final(self)@[i].same_as(r->0)
                    && forall|j: int|
                    0 <= j < old(self)@.len() && j != i ==> final(self)@[j] == old(self)@[j],
    {
        match self.index_of(id) {
            None => None,
            Some(i) => {
                let a = author_id.to_string();
                if self.comments[i].author_id != a {
                    proof {
                        assert forall|k: int|
                            0 <= k < old(self)@.len() && old(self)@[k].id@ == id@ implies old(self)@[k].author_id@ != author_id@ by {
                            if k != i {
                                assert(old(self)@[k].id@ != old(self)@[i as int].id@);
                            }
                        }
                    }
                    return None;
                }
                let mut c = self.comments[i].duplicate();
                c.body = dto.body;
                c.updated_at = to_stored_instant(now);
                let out = c.duplicate();
                self.replace_at(i, c);
                proof {
                    assert(final(self)@[i as int].consistent());
                }
                Some(out)
            },
        }
    }

    /// Delete comment `id`, only when `author_id` wrote it; returns whether
    /// a comment was deleted.
    fn delete_owned(&mut self, id: &str, author_id: &str) -> (r: bool)
        requires
            old(self).wf(),
        ensures
            final(self).wf(),
            r == has_owned(old(self)@, id@, author_id@),
            !r ==> final(self)@ == old(self)@,
            r ==> exists|i: int|
                0 <= i < old(self)@.len() && old(self)@[i].id@ == id@ && final(self)@ == old(self)@.remove(i),
    {
        match self.index_of(id) {
            None => false,
            Some(i) => {
                let a = author_id.to_string();
                if self.comments[i].author_id != a {
                    proof {
                        assert forall|k: int|
                            0 <= k < old(self)@.len() && old(self)@[k].id@ == id@ implies old(self)@[k].author_id@ != author_id@ by {
                            if k != i {
                                assert(old(self)@[k].id@ != old(self)@[i as int].id@);
                            }
                        }
                    }
                    return false;
                }
                self.comments.remove(i);
                proof {
                    assert forall|x: int, y: int|
                        0 <= x < final(self)@.len() && 0 <= y < final(self)@.len() && x != y implies final(self)@[x].id@ != final(self)@[y].id@ by {
                        let ox = if x < i { x } else { x + 1 };
                        let oy = if y < i { y } else { y + 1 };
                        assert(final(self)@[x] == old(self)@[ox]);
                        assert(final(self)@[y] == old(self)@[oy]);
                    }
                    assert forall|x: int| 0 <= x < final(self)@.len() implies (#[trigger] final(self)@[x]).consistent() by {
                        let ox = if x < i { x } else { x + 1 };
                        assert(final(self)@[x] == old(self)@[ox]);
                    }
                }
                true
            },
        }
    }

    /// Record that `user_id` likes comment `id`; returns the updated
    /// comment, or `None` when there is no such comment.
    fn like_existing(&mut self, id: &str, user_id: &str) -> (r: Option<Comment>)
        requires
            old(self).wf(),
        ensures
            final(self).wf(),
            !has_id(old(self)@, id@) ==> r is None && final(self)@ == old(self)@,
            has_id(old(self)@, id@) ==> exists|i: int|
                0 <= i < old(self)@.len() && old(self)@[i].id@ == id@ && r is Some && liked(
                    old(self)@[i],
                    user_id@,
                    r->0,
                ) && final(self)@.len() == old(self)@.len() && final(self)@[i].same_as(r->0)
                    && forall|j: int|
                    0 <= j < old(self)@.len() && j != i ==> final(self)@[j] == old(self)@[j],
    {
        match self.index_of(id) {
            None => None,
            Some(i) => {
                proof {
                    assert(old(self)@[i as int].consistent());
                }
                let c = with_like(&self.comments[i], user_id);
                let out = c.duplicate();
                self.replace_at(i, c);
                Some(out)
            },
        }
    }

    /// Withdraw the like of `user_id` from comment `id`; returns the
    /// updated comment, or `None` when there is no such comment.
    fn unlike_existing(&mut self, id: &str, user_id: &str) -> (r: Option<Comment>)
        requires
            old(self).wf(),
        ensures
            final(self).wf(),
            !has_id(old(self)@, id@) ==> r is None && final(self)@ == old(self)@,
            has_id(old(self)@, id@) ==> exists|i: int|
                0 <= i < old(self)@.len() && old(self)@[i].id@ == id@ && r is Some && unliked(
                    old(self)@[i],
                    user_id@,
                    r->0,
                ) && final(self)@.len() == old(self)@.len() && final(self)@[i].same_as(r->0)
                    && forall|j: int|
                    0 <= j < old(self)@.len() && j != i ==> final(self)@[j] == old(self)@[j],
    {
        match self.index_of(id) {
            None => None,
            Some(i) => {
                proof {
                    assert(old(self)@[i as int].consistent());
                }
                let c = without_like(&self.comments[i], user_id);
                let out = c.duplicate();
                self.replace_at(i, c);
                Some(out)
            },
        }
    }
}

/// Whether `c` is a hexadecimal digit, in either case.
pub open spec fn is_hex_digit(c: char) -> bool {
    ('0' <= c && c <= '9') || ('a' <= c && c <= 'f') || ('A' <= c && c <= 'F')
}

/// Whether `s` spells an object id: 24 hexadecimal digits.
pub open spec fn is_object_id(s: Seq<char>) -> bool {
    s.len() == 24 && forall|i: int| 0 <= i < 24 ==> is_hex_digit(#[trigger] s[i])
}

/// Checks `s` with `bson::oid::ObjectId::parse_str`.
///
/// Trusted: `parse_str` hex-decodes the text (`hex::decode` takes an even
/// number of hexadecimal digits of either case) and accepts exactly twelve
/// bytes, that is 24 hexadecimal digits.
#[verifier::external_body]
pub(crate) fn parses_as_object_id(s: &str) -> (r: bool)
    ensures
        r == is_object_id(s@),
{
    bson::oid::ObjectId::parse_str(s).is_ok()
}

/// A fresh `bson::oid::ObjectId::new`, written with `to_hex`.
///
/// Trusted: the value depends on the clock, the process and a counter and
/// is not claimed; its form is: `to_hex` writes the twelve bytes as 24
/// lower-case hexadecimal digits.
#[verifier::external_body]
pub(crate) fn new_object_id() -> (r: String)
    ensures
        is_object_id(r@),
{
    bson::oid::ObjectId::new().to_hex()
}

/// `Invalid comment id`
pub open spec fn invalid_comment_id_message() -> Seq<char> {
    seq![
        'I', 'n', 'v', 'a', 'l', 'i', 'd', ' ', 'c', 'o', 'm', 'm', 'e', 'n', 't', ' ', 'i', 'd',
    ]
}

fn invalid_comment_id() -> (e: AppError)
    ensures
        e is NotFound && e->NotFound_0@ == invalid_comment_id_message(),
{
    proof { reveal_strlit("Invalid comment id"); }
    AppError::NotFound("Invalid comment id".to_string())
}

/// Whether `e` is the refusal of a malformed comment id.
pub open spec fn refuses_comment_id(e: AppError) -> bool {
    e is NotFound && e->NotFound_0@ == invalid_comment_id_message()
}

/// The outcome of an edit of comment `id` by `author` with `body` at `now`:
/// only the author's comment changes, in body and edit time.
pub open spec fn comment_update_outcome(
    before: Seq<Comment>,
    id: Seq<char>,
    author: Seq<char>,
    body: Seq<char>,
    now: i64,
    r: Option<Comment>,
    after: Seq<Comment>,
) -> bool {
    &&& !has_owned(before, id, author) ==> r is None && after == before
    &&& has_owned(before, id, author) ==> exists|i: int|
        0 <= i < before.len() && before[i].id@ == id && before[i].author_id@ == author && r is Some
            && edited(before[i], body, now, r->0) && after.len() == before.len()
            && after[i].same_as(r->0) && forall|j: int|
            0 <= j < before.len() && j != i ==> after[j] == before[j]
}

/// The outcome of a deletion of comment `id` by `author`.
pub open spec fn comment_delete_outcome(
    before: Seq<Comment>,
    id: Seq<char>,
    author: Seq<char>,
    r: bool,
    after: Seq<Comment>,
) -> bool {
    &&& r == has_owned(before, id, author)
    &&& !r ==> after == before
    &&& r ==> exists|i: int| 0 <= i < before.len() && before[i].id@ == id && after == before.remove(i)
}

/// The outcome of a like of comment `id` by `user`.
pub open spec fn comment_like_outcome(
    before: Seq<Comment>,
    id: Seq<char>,
    user: Seq<char>,
    r: Option<Comment>,
    after: Seq<Comment>,
) -> bool {
    &&& !has_id(before, id) ==> r is None && after == before
    &&& has_id(before, id) ==> exists|i: int|
        0 <= i < before.len() && before[i].id@ == id && r is Some && liked(before[i], user, r->0)
            && after.len() == before.len() && after[i].same_as(r->0) && forall|j: int|
            0 <= j < before.len() && j != i ==> after[j] == before[j]
}

/// The outcome of withdrawing the like of `user` from comment `id`.
pub open spec fn comment_unlike_outcome(
    before: Seq<Comment>,
    id: Seq<char>,
    user: Seq<char>,
    r: Option<Comment>,
    after: Seq<Comment>,
) -> bool {
    &&& !has_id(before, id) ==> r is None && after == before
    &&& has_id(before, id) ==> exists|i: int|
        0 <= i < before.len() && before[i].id@ == id && r is Some && unliked(before[i], user, r->0)
            && after.len() == before.len() && after[i].same_as(r->0) && forall|j: int|
            0 <= j < before.len() && j != i ==> after[j] == before[j]
}

impl CommentStore {
    /// The comment with id `id`, if any. An id that is not an object id is
    /// refused as not found.
    pub fn find_by_id(&self, id: &str) -> (r: Result<Option<Comment>, AppError>)
        ensures
            !is_object_id(id@) ==> r is Err && refuses_comment_id(r->Err_0),
            is_object_id(id@) ==> r is Ok && match r->Ok_0 {
                Some(c) => exists|i: int|
                    0 <= i < self@.len() && self@[i].id@ == id@ && c.same_as(self@[i]),
                None => !has_id(self@, id@),
            },
    {
        if !parses_as_object_id(id) {
            return Err(invalid_comment_id());
        }
        Ok(self.lookup(id))
    }

    /// Store a new comment on post `post_id` by `author_id` under a fresh
    /// object id, created now, with no likes.
    pub fn save(&mut self, post_id: &str, author_id: &str, dto: CreateCommentDto) -> (r: Result<
        Comment,
        AppError,
    >)
        requires
            old(self).wf(),
        ensures
            final(self).wf(),
            match r {
                Ok(c) => {
                    &&& is_object_id(c.id@)
                    &&& c.post_id@ == post_id@
                    &&& c.author_id@ == author_id@
                    &&& c.body@ == dto.body@
                    &&& c.like_count == 0
                    &&& c.likers().len() == 0
                    &&& c.created_at == c.updated_at
                    &&& final(self)@.len() == old(self)@.len() + 1
                    &&& final(self)@.subrange(0, old(self)@.len() as int) == old(self)@
                    &&& final(self)@.last().same_as(c.stored())
                },
                Err(e) => e is InternalError && final(self)@ == old(self)@ && holds_object_id(old(self)@),
            },
    {
        let id = new_object_id();
        let now = crate::sys::now_micros();
        let ghost drawn = id@;
        let r = self.save_with_identity(id, post_id, author_id, dto, now);
        proof {
            if r is Err {
                let i = choose|i: int| 0 <= i < old(self)@.len() && old(self)@[i].id@ == drawn;
                assert(is_object_id(old(self)@[i].id@));
            }
        }
        r
    }

    /// Rewrite the body of comment `id` at `now`, only when `author_id`
    /// wrote it; `None` when no comment with that id is owned by that author
    /// (nothing changes then). An id that is not an object id is refused as
    /// not found.
    pub fn update(&mut self, id: &str, author_id: &str, dto: UpdateCommentDto, now: i64) -> (r:
        Result<Option<Comment>, AppError>)
        requires
            old(self).wf(),
        ensures
            final(self).wf(),
            !is_object_id(id@) ==> r is Err && refuses_comment_id(r->Err_0) && final(self)@ == old(self)@,
            is_object_id(id@) ==> r is Ok && comment_update_outcome(
                old(self)@,
                id@,
                author_id@,
                dto.body@,
                now,
                r->Ok_0,
                final(self)@,
            ),
    {
        if !parses_as_object_id(id) {
            return Err(invalid_comment_id());
        }
        Ok(self.update_owned(id, author_id, dto, now))
    }

    /// Delete comment `id`, only when `author_id` wrote it; whether a
    /// comment was deleted. An id that is not an object id is refused as
    /// not found.
    pub fn delete(&mut self, id: &str, author_id: &str) -> (r: Result<bool, AppError>)
        requires
            old(self).wf(),
        ensures
            final(self).wf(),
            !is_object_id(id@) ==> r is Err && refuses_comment_id(r->Err_0) && final(self)@ == old(self)@,
            is_object_id(id@) ==> r is Ok && comment_delete_outcome(
                old(self)@,
                id@,
                author_id@,
                r->Ok_0,
                final(self)@,
            ),
    {
        if !parses_as_object_id(id) {
            return Err(invalid_comment_id());
        }
        Ok(self.delete_owned(id, author_id))
    }

    /// Record that `user_id` likes comment `id`; the updated comment, or
    /// `None` when there is no such comment. An id that is not an object id
    /// is refused as not found.
    pub fn add_like(&mut self, id: &str, user_id: &str) -> (r: Result<Option<Comment>, AppError>)
        requires
            old(self).wf(),
        ensures
            final(self).wf(),
            !is_object_id(id@) ==> r is Err && refuses_comment_id(r->Err_0) && final(self)@ == old(self)@,
            is_object_id(id@) ==> r is Ok && comment_like_outcome(
                old(self)@,
                id@,
                user_id@,
                r->Ok_0,
                final(self)@,
            ),
            has_id(old(self)@, id@) ==> r is Ok && r->Ok_0 is Some && exists|i: int|
                0 <= i < old(self)@.len() && old(self)@[i].id@ == id@
                    && r->Ok_0->0.likers().to_set() == old(self)@[i].likers().to_set().insert(user_id@)
                    && r->Ok_0->0.like_count == r->Ok_0->0.likers().len(),
    {
        if !parses_as_object_id(id) {
            proof {
                if has_id(old(self)@, id@) {
                    let k = choose|k: int| 0 <= k < old(self)@.len() && old(self)@[k].id@ == id@;
                    assert(is_object_id(old(self)@[k].id@));
                }
            }
            return Err(invalid_comment_id());
        }
        let ghost before = self@;
        let found = self.like_existing(id, user_id);
        proof {
            if has_id(before, id@) {
                let i = choose|i: int|
                    0 <= i < before.len() && before[i].id@ == id@ && found is Some && liked(
                        before[i],
                        user_id@,
                        found->0,
                    ) && self@.len() == before.len() && self@[i].same_as(found->0) && forall|j: int|
                        0 <= j < before.len() && j != i ==> self@[j] == before[j];
                assert(before[i].consistent());
                law_like_adds_the_user(before[i], found->0, user_id@);
            }
        }
        Ok(found)
    }

    /// Withdraw the like of `user_id` from comment `id`; the updated
    /// comment, or `None` when there is no such comment. An id that is not
    /// an object id is refused as not found.
    pub fn remove_like(&mut self, id: &str, user_id: &str) -> (r: Result<Option<Comment>, AppError>)
        requires
            old(self).wf(),
        ensures
            final(self).wf(),
            !is_object_id(id@) ==> r is Err && refuses_comment_id(r->Err_0) && final(self)@ == old(self)@,
            is_object_id(id@) ==> r is Ok && comment_unlike_outcome(
                old(self)@,
                id@,
                user_id@,
                r->Ok_0,
                final(self)@,
            ),
            has_id(old(self)@, id@) ==> r is Ok && r->Ok_0 is Some && exists|i: int|
                0 <= i < old(self)@.len() && old(self)@[i].id@ == id@
                    && r->Ok_0->0.likers().to_set() == old(self)@[i].likers().to_set().remove(user_id@)
                    && r->Ok_0->0.like_count == r->Ok_0->0.likers().len(),
    {
        if !parses_as_object_id(id) {
            proof {
                if has_id(old(self)@, id@) {
                    let k = choose|k: int| 0 <= k < old(self)@.len() && old(self)@[k].id@ == id@;
                    assert(is_object_id(old(self)@[k].id@));
                }
            }
            return Err(invalid_comment_id());
        }
        let ghost before = self@;
        let found = self.unlike_existing(id, user_id);
        proof {
            if has_id(before, id@) {
                let i = choose|i: int|
                    0 <= i < before.len() && before[i].id@ == id@ && found is Some && unliked(
                        before[i],
                        user_id@,
                        found->0,
                    ) && self@.len() == before.len() && self@[i].same_as(found->0) && forall|j: int|
                        0 <= j < before.len() && j != i ==> self@[j] == before[j];
                assert(before[i].consistent());
                law_unlike_removes_the_user(before[i], found->0, user_id@);
            }
        }
        Ok(found)
    }
}

/// A comment collection: what the comment service needs of the store
/// behind it.
pub trait CommentRepository: Sized {
    /// The comments held, in insertion order.
    spec fn comments(&self) -> Seq<Comment>;

    /// Whether the collection is consistent.
    spec fn well_formed(&self) -> bool;

    /// A consistent collection holds consistent comments under distinct
    /// object ids.
    proof fn lemma_well_formed(&self)
        requires
            self.well_formed(),
        ensures
            ids_unique(self.comments()),
            forall|i: int| 0 <= i < self.comments().len() ==> (#[trigger] self.comments()[i]).consistent(),
            forall|i: int| 0 <= i < self.comments().len() ==> is_object_id((#[trigger] self.comments()[i]).id@);

    /// The comments on post `post_id`, in insertion order.
    fn find_by_post(&self, post_id: &str) -> (r: Vec<Comment>)
        ensures
            r@.len() == self.comments().filter(|c: Comment| c.post_id@ == post_id@).len(),
            forall|i: int|
                0 <= i < r@.len() ==> r@[i].same_as(
                    self.comments().filter(|c: Comment| c.post_id@ == post_id@)[i],
                );

    /// The comment with id `id`, if any. An id that is not an object id is
    /// refused as not found.
    fn find_by_id(&self, id: &str) -> (r: Result<Option<Comment>, AppError>)
        ensures
            !is_object_id(id@) ==> r is Err && refuses_comment_id(r->Err_0),
            is_object_id(id@) ==> r is Ok && match r->Ok_0 {
                Some(c) => exists|i: int|
                    0 <= i < self.comments().len() && self.comments()[i].id@ == id@ && c.same_as(self.comments()[i]),
                None => !has_id(self.comments(), id@),
            };

    /// Store a new comment on post `post_id` by `author_id` under a fresh
    /// object id, created now, with no likes.
    fn save(&mut self, post_id: &str, author_id: &str, dto: CreateCommentDto) -> (r: Result<
        Comment,
        AppError,
    >)
        requires
            old(self).well_formed(),
        ensures
            final(self).well_formed(),
            match r {
                Ok(c) => {
                    &&& is_object_id(c.id@)
                    &&& c.post_id@ == post_id@
                    &&& c.author_id@ == author_id@
                    &&& c.body@ == dto.body@
                    &&& c.like_count == 0
                    &&& c.likers().len() == 0
                    &&& c.created_at == c.updated_at
                    &&& final(self).comments().len() == old(self).comments().len() + 1
                    &&& final(self).comments().subrange(0, old(self).comments().len() as int) == old(self).comments()
                    &&& final(self).comments().last().same_as(c.stored())
                },
                Err(e) => e is InternalError && final(self).comments() == old(self).comments() && holds_object_id(old(self).comments()),
            };

    /// Rewrite the body of comment `id` at `now`, only when `author_id`
    /// wrote it; `None` when no comment with that id is owned by that author
    /// (nothing changes then). An id that is not an object id is refused as
    /// not found.
    fn update(&mut self, id: &str, author_id: &str, dto: UpdateCommentDto, now: i64) -> (r:
        Result<Option<Comment>, AppError>)
        requires
            old(self).well_formed(),
        ensures
            final(self).well_formed(),
            !is_object_id(id@) ==> r is Err && refuses_comment_id(r->Err_0) && final(self).comments() == old(self).comments(),
            is_object_id(id@) ==> r is Ok && comment_update_outcome(
                old(self).comments(),
                id@,
                author_id@,
                dto.body@,
                now,
                r->Ok_0,
                final(self).comments(),
            );

    /// Delete comment `id`, only when `author_id` wrote it; whether a
    /// comment was deleted. An id that is not an object id is refused as
    /// not found.
    fn delete(&mut self, id: &str, author_id: &str) -> (r: Result<bool, AppError>)
        requires
            old(self).well_formed(),
        ensures
            final(self).well_formed(),
            !is_object_id(id@) ==> r is Err && refuses_comment_id(r->Err_0) && final(self).comments() == old(self).comments(),
            is_object_id(id@) ==> r is Ok && comment_delete_outcome(
                old(self).comments(),
                id@,
                author_id@,
                r->Ok_0,
                final(self).comments(),
            );

    /// Record that `user_id` likes comment `id`; the updated comment, or
    /// `None` when there is no such comment. An id that is not an object id
    /// is refused as not found.
    fn add_like(&mut self, id: &str, user_id: &str) -> (r: Result<Option<Comment>, AppError>)
        requires
            old(self).well_formed(),
        ensures
            final(self).well_formed(),
            !is_object_id(id@) ==> r is Err && refuses_comment_id(r->Err_0) && final(self).comments() == old(self).comments(),
            is_object_id(id@) ==> r is Ok && comment_like_outcome(
                old(self).comments(),
                id@,
                user_id@,
                r->Ok_0,
                final(self).comments(),
            ),
            has_id(old(self).comments(), id@) ==> r is Ok && r->Ok_0 is Some && exists|i: int|
                0 <= i < old(self).comments().len() && old(self).comments()[i].id@ == id@
                    && r->Ok_0->0.likers().to_set() == old(self).comments()[i].likers().to_set().insert(user_id@)
                    && r->Ok_0->0.like_count == r->Ok_0->0.likers().len();

    /// Withdraw the like of `user_id` from comment `id`; the updated
    /// comment, or `None` when there is no such comment. An id that is not
    /// an object id is refused as not found.
    fn remove_like(&mut self, id: &str, user_id: &str) -> (r: Result<Option<Comment>, AppError>)
        requires
            old(self).well_formed(),
        ensures
            final(self).well_formed(),
            !is_object_id(id@) ==> r is Err && refuses_comment_id(r->Err_0) && final(self).comments() == old(self).comments(),
            is_object_id(id@) ==> r is Ok && comment_unlike_outcome(
                old(self).comments(),
                id@,
                user_id@,
                r->Ok_0,
                final(self).comments(),
            ),
            has_id(old(self).comments(), id@) ==> r is Ok && r->Ok_0 is Some && exists|i: int|
                0 <= i < old(self).comments().len() && old(self).comments()[i].id@ == id@
                    && r->Ok_0->0.likers().to_set() == old(self).comments()[i].likers().to_set().remove(user_id@)
                    && r->Ok_0->0.like_count == r->Ok_0->0.likers().len();
}

impl CommentRepository for CommentStore {
    open spec fn comments(&self) -> Seq<Comment> {
        self@
    }

    open spec fn well_formed(&self) -> bool {
        self.wf()
    }

    proof fn lemma_well_formed(&self) {
    }

    fn find_by_post(&self, post_id: &str) -> (r: Vec<Comment>) {
        CommentStore::find_by_post(self, post_id)
    }

    fn find_by_id(&self, id: &str) -> (r: Result<Option<Comment>, AppError>) {
        let r = CommentStore::find_by_id(self, id);
        proof {
            if is_object_id(id@) && r->Ok_0 is Some {
                let i = choose|i: int|
                    0 <= i < self@.len() && self@[i].id@ == id@ && r->Ok_0->0.same_as(self@[i]);
                assert(self.comments()[i] == self@[i]);
            }
        }
        r
    }

    fn save(&mut self, post_id: &str, author_id: &str, dto: CreateCommentDto) -> (r: Result<
        Comment,
        AppError,
    >) {
        CommentStore::save(self, post_id, author_id, dto)
    }

    fn update(&mut self, id: &str, author_id: &str, dto: UpdateCommentDto, now: i64) -> (r:
        Result<Option<Comment>, AppError>) {
        CommentStore::update(self, id, author_id, dto, now)
    }

    fn delete(&mut self, id: &str, author_id: &str) -> (r: Result<bool, AppError>) {
        CommentStore::delete(self, id, author_id)
    }

    fn add_like(&mut self, id: &str, user_id: &str) -> (r: Result<Option<Comment>, AppError>) {
        CommentStore::add_like(self, id, user_id)
    }

    fn remove_like(&mut self, id: &str, user_id: &str) -> (r: Result<Option<Comment>, AppError>) {
        CommentStore::remove_like(self, id, user_id)
    }
}

/// `Not the owner of this comment`
pub open spec fn not_owner_message() -> Seq<char> {
    seq![
        'N', 'o', 't', ' ', 't', 'h', 'e', ' ', 'o', 'w', 'n', 'e', 'r', ' ', 'o', 'f', ' ', 't',
        'h', 'i', 's', ' ', 'c', 'o', 'm', 'm', 'e', 'n', 't',
    ]
}

/// `Comment not found`
pub open spec fn comment_not_found_message() -> Seq<char> {
    seq!['C', 'o', 'm', 'm', 'e', 'n', 't', ' ', 'n', 'o', 't', ' ', 'f', 'o', 'u', 'n', 'd']
}

fn not_owner() -> (e: AppError)
    ensures
        e is Forbidden && e->Forbidden_0@ == not_owner_message(),
{
    proof { reveal_strlit("Not the owner of this comment"); }
    AppError::Forbidden("Not the owner of this comment".to_string())
}

fn comment_not_found() -> (e: AppError)
    ensures
        e is NotFound && e->NotFound_0@ == comment_not_found_message(),
{
    proof { reveal_strlit("Comment not found"); }
    AppError::NotFound("Comment not found".to_string())
}

/// Whether `after` is `before` with the comment at `i` replaced by one that
/// agrees with `c` and every other comment kept.
pub open spec fn replaced_at(before: Seq<Comment>, after: Seq<Comment>, i: int, c: Comment) -> bool {
    &&& after.len() == before.len()
    &&& after[i].same_as(c)
    &&& forall|j: int| 0 <= j < before.len() && j != i ==> after[j] == before[j]
}

/// The comment service: the rules of the comment endpoints over the
/// comment collection.
pub struct CommentService<R> {
    repo: R,
}

impl<R: CommentRepository> CommentService<R> {
    pub closed spec fn comments(&self) -> Seq<Comment> {
        self.repo.comments()
    }

    pub closed spec fn wf(&self) -> bool {
        self.repo.well_formed()
    }

    /// A well-formed service never holds two comments with one id.
    pub proof fn lemma_ids_unique(&self)
        requires
            self.wf(),
        ensures
            ids_unique(self.comments()),
    {
        self.repo.lemma_well_formed();
    }

    /// A service over the comments of `repo`.
    pub fn new(repo: R) -> (s: Self)
        requires
            repo.well_formed(),
        ensures
            s.wf(),
            s.comments() == repo.comments(),
    {
        CommentService { repo }
    }

    /// The comments on post `post_id`, in insertion order.
    pub fn list_for_post(&self, post_id: &str) -> (r: Result<Vec<Comment>, AppError>)
        ensures
            r is Ok,
            r->Ok_0@.len() == self.comments().filter(|c: Comment| c.post_id@ == post_id@).len(),
            forall|i: int|
                0 <= i < r->Ok_0@.len() ==> r->Ok_0@[i].same_as(
                    self.comments().filter(|c: Comment| c.post_id@ == post_id@)[i],
                ),
    {
        Ok(self.repo.find_by_post(post_id))
    }

    /// Create a comment by `author_id` on post `post_id`, with a fresh id.
    pub fn create(&mut self, post_id: &str, author_id: &str, dto: CreateCommentDto) -> (r: Result<
        Comment,
        AppError,
    >)
        requires
            old(self).wf(),
        ensures
            final(self).wf(),
            match r {
                Ok(c) => {
                    &&& is_object_id(c.id@)
                    &&& c.post_id@ == post_id@
                    &&& c.author_id@ == author_id@
                    &&& c.body@ == dto.body@
                    &&& c.like_count == 0
                    &&& c.likers().len() == 0
                    &&& c.created_at == c.updated_at
                    &&& final(self).comments().len() == old(self).comments().len() + 1
                    &&& final(self).comments().subrange(0, old(self).comments().len() as int) == old(self).comments()
                    &&& final(self).comments().last().same_as(c.stored())
                },
                Err(e) => e is InternalError && final(self).comments() == old(self).comments()
                    && holds_object_id(old(self).comments()),
            },
    {
        self.repo.save(post_id, author_id, dto)
    }

    /// Rewrite comment `id` as `author_id`. A malformed id is refused as
    /// not found; a comment that does not exist or belongs to someone else is
    /// refused as forbidden.
    pub fn update(&mut self, author_id: &str, id: &str, dto: UpdateCommentDto) -> (r: Result<
        Comment,
        AppError,
    >)
        requires
            old(self).wf(),
        ensures
            final(self).wf(),
            !is_object_id(id@) ==> r is Err && refuses_comment_id(r->Err_0) && final(self).comments()
                == old(self).comments(),
            is_object_id(id@) && !has_owned(old(self).comments(), id@, author_id@) ==> r is Err
                && r->Err_0 is Forbidden && r->Err_0->Forbidden_0@ == not_owner_message()
                && final(self).comments() == old(self).comments(),
            is_object_id(id@) && has_owned(old(self).comments(), id@, author_id@) ==> exists|
                i: int,
                now: i64,
            |
                0 <= i < old(self).comments().len() && old(self).comments()[i].id@ == id@ && r is Ok
                    && edited(old(self).comments()[i], dto.body@, now, r->Ok_0)
                    && replaced_at(old(self).comments(), final(self).comments(), i, r->Ok_0),
    {
        let now = crate::sys::now_micros();
        let ghost before = self.repo.comments();
        let ghost body = dto.body@;
        let updated = self.repo.update(id, author_id, dto, now);
        let r = match updated {
            Err(e) => Err(e),
            Ok(Some(c)) => Ok(c),
            Ok(None) => Err(not_owner()),
        };
        proof {
            if is_object_id(id@) && has_owned(before, id@, author_id@) {
                let i = choose|i: int|
                    0 <= i < before.len() && before[i].id@ == id@ && before[i].author_id@ == author_id@
                        && updated->Ok_0 is Some && edited(before[i], body, now, updated->Ok_0->0)
                        && self.repo.comments().len() == before.len() && self.repo.comments()[i].same_as(updated->Ok_0->0)
                        && forall|j: int| 0 <= j < before.len() && j != i ==> self.repo.comments()[j] == before[j];
                assert(edited(old(self).comments()[i], body, now, r->Ok_0));
                assert(replaced_at(old(self).comments(), final(self).comments(), i, r->Ok_0));
            }
        }
        r
    }

    /// Delete comment `id` as `author_id`. A malformed id is refused as not
    /// found; a comment that does not exist or belongs to someone else is
    /// refused as forbidden.
    pub fn delete(&mut self, author_id: &str, id: &str) -> (r: Result<(), AppError>)
        requires
            old(self).wf(),
        ensures
            final(self).wf(),
            r is Ok <==> is_object_id(id@) && has_owned(old(self).comments(), id@, author_id@),
            !is_object_id(id@) ==> r is Err && refuses_comment_id(r->Err_0),
            is_object_id(id@) && r is Err ==> r->Err_0 is Forbidden && r->Err_0->Forbidden_0@
                == not_owner_message(),
            r is Err ==> final(self).comments() == old(self).comments(),
            r is Ok ==> exists|i: int|
                0 <= i < old(self).comments().len() && old(self).comments()[i].id@ == id@
                    && final(self).comments() == old(self).comments().remove(i),
    {
        let ghost before = self.repo.comments();
        match self.repo.delete(id, author_id) {
            Err(e) => Err(e),
            Ok(true) => {
                proof {
                    let i = choose|i: int|
                        0 <= i < before.len() && before[i].id@ == id@ && self.repo.comments() == before.remove(i);
                    assert(old(self).comments()[i].id@ == id@);
                    assert(self.comments() == old(self).comments().remove(i));
                }
                Ok(())
            },
            Ok(false) => Err(not_owner()),
        }
    }

    /// `user_id` likes comment `id`; liking twice counts once. A malformed id
    /// is refused, and a missing comment reported, as not found.
    pub fn like(&mut self, user_id: &str, id: &str) -> (r: Result<Comment, AppError>)
        requires
            old(self).wf(),
        ensures
            final(self).wf(),
            !is_object_id(id@) ==> r is Err && refuses_comment_id(r->Err_0) && final(self).comments()
                == old(self).comments(),
            is_object_id(id@) && !has_id(old(self).comments(), id@) ==> r is Err && r->Err_0 is NotFound
                && r->Err_0->NotFound_0@ == comment_not_found_message() && final(self).comments()
                == old(self).comments(),
            is_object_id(id@) && has_id(old(self).comments(), id@) ==> exists|i: int|
                0 <= i < old(self).comments().len() && old(self).comments()[i].id@ == id@ && r is Ok
                    && liked(old(self).comments()[i], user_id@, r->Ok_0)
                    && replaced_at(old(self).comments(), final(self).comments(), i, r->Ok_0),
    {
        let ghost before = self.repo.comments();
        let res = self.repo.add_like(id, user_id);
        let r = match res {
            Err(e) => Err(e),
            Ok(Some(c)) => Ok(c),
            Ok(None) => Err(comment_not_found()),
        };
        proof {
            if is_object_id(id@) && has_id(before, id@) {
                assert(comment_like_outcome(before, id@, user_id@, res->Ok_0, self.repo.comments()));
                let i = choose|i: int|
                    0 <= i < before.len() && before[i].id@ == id@ && res->Ok_0 is Some && liked(
                        before[i],
                        user_id@,
                        res->Ok_0->0,
                    ) && self.repo.comments().len() == before.len() && self.repo.comments()[i].same_as(res->Ok_0->0)
                        && forall|j: int| 0 <= j < before.len() && j != i ==> self.repo.comments()[j] == before[j];
                assert(replaced_at(before, self.repo.comments(), i, r->Ok_0));
                assert(0 <= i < old(self).comments().len() && old(self).comments()[i].id@ == id@ && r is Ok
                    && liked(old(self).comments()[i], user_id@, r->Ok_0)
                    && replaced_at(old(self).comments(), final(self).comments(), i, r->Ok_0));
            }
        }
        r
    }

    /// `user_id` withdraws a like from comment `id`. A malformed id is
    /// refused, and a missing comment reported, as not found.
    pub fn unlike(&mut self, user_id: &str, id: &str) -> (r: Result<Comment, AppError>)
        requires
            old(self).wf(),
        ensures
            final(self).wf(),
            !is_object_id(id@) ==> r is Err && refuses_comment_id(r->Err_0) && final(self).comments()
                == old(self).comments(),
            is_object_id(id@) && !has_id(old(self).comments(), id@) ==> r is Err && r->Err_0 is NotFound
                && r->Err_0->NotFound_0@ == comment_not_found_message() && final(self).comments()
                == old(self).comments(),
            is_object_id(id@) && has_id(old(self).comments(), id@) ==> exists|i: int|
                0 <= i < old(self).comments().len() && old(self).comments()[i].id@ == id@ && r is Ok
                    && unliked(old(self).comments()[i], user_id@, r->Ok_0)
                    && replaced_at(old(self).comments(), final(self).comments(), i, r->Ok_0),
    {
        let ghost before = self.repo.comments();
        let res = self.repo.remove_like(id, user_id);
        let r = match res {
            Err(e) => Err(e),
            Ok(Some(c)) => Ok(c),
            Ok(None) => Err(comment_not_found()),
        };
        proof {
            if is_object_id(id@) && has_id(before, id@) {
                assert(comment_unlike_outcome(before, id@, user_id@, res->Ok_0, self.repo.comments()));
                let i = choose|i: int|
                    0 <= i < before.len() && before[i].id@ == id@ && res->Ok_0 is Some && unliked(
                        before[i],
                        user_id@,
                        res->Ok_0->0,
                    ) && self.repo.comments().len() == before.len() && self.repo.comments()[i].same_as(res->Ok_0->0)
                        && forall|j: int| 0 <= j < before.len() && j != i ==> self.repo.comments()[j] == before[j];
                assert(replaced_at(before, self.repo.comments(), i, r->Ok_0));
                assert(0 <= i < old(self).comments().len() && old(self).comments()[i].id@ == id@ && r is Ok
                    && unliked(old(self).comments()[i], user_id@, r->Ok_0)
                    && replaced_at(old(self).comments(), final(self).comments(), i, r->Ok_0));
            }
        }
        r
    }
}


/// How a blog handler answers a service result: the value with status
/// `ok_status`, or the reply of the error.
pub open spec fn answers<T>(r: Answer<T>, res: Result<T, AppError>, ok_status: u16) -> bool {
    match res {
        Ok(v) => r matches Answer::Data { status, data } && status == ok_status && data == v,
        Err(e) => r matches Answer::Reply(rep) && error_reply(rep, e.status_of(), e.message_of()),
    }
}

/// The answer to a service result.
fn answer<T>(res: Result<T, AppError>, ok_status: u16) -> (r: Answer<T>)
    ensures
        answers(r, res, ok_status),
{
    match res {
        Ok(v) => Answer::Data { status: ok_status, data: v },
        Err(e) => Answer::Reply(e.into_response()),
    }
}

/// The comment endpoints under `/posts`: each handler calls the comment
/// service and answers its result, the caller taken from the token claims.
pub struct CommentController<R> {
    svc: CommentService<R>,
}

impl<R: CommentRepository> CommentController<R> {
    pub closed spec fn comments(&self) -> Seq<Comment> {
        self.svc.comments()
    }

    pub closed spec fn wf(&self) -> bool {
        self.svc.wf()
    }

    /// A well-formed controller never holds two comments with one id.
    pub proof fn lemma_ids_unique(&self)
        requires
            self.wf(),
        ensures
            ids_unique(self.comments()),
    {
        self.svc.lemma_ids_unique();
    }

    /// The controller over `svc`.
    pub fn new(svc: CommentService<R>) -> (c: Self)
        requires
            svc.wf(),
        ensures
            c.wf(),
            c.comments() == svc.comments(),
    {
        CommentController { svc }
    }

    /// `GET /posts/:post_id/comments`: 200 with the comments on the post.
    pub fn list_comments(&self, post_id: &str) -> (r: Answer<Vec<Comment>>)
        ensures
            r is Data && r->status == 200
                && r->data@.len() == self.comments().filter(|c: Comment| c.post_id@ == post_id@).len()
                && forall|i: int|
                0 <= i < r->data@.len() ==> r->data@[i].same_as(
                    self.comments().filter(|c: Comment| c.post_id@ == post_id@)[i],
                ),
    {
        answer(self.svc.list_for_post(post_id), 200)
    }

    /// `POST /posts/:post_id/comments`: 201 with the new comment by the
    /// caller, or 500 when it could not be stored.
    pub fn create_comment(&mut self, post_id: &str, claims: &Claims, body: CreateCommentDto) -> (r:
        Answer<Comment>)
        requires
            old(self).wf(),
        ensures
            final(self).wf(),
            match r {
                Answer::Data { status, data } => {
                    &&& status == 201
                    &&& data.post_id@ == post_id@
                    &&& data.author_id@ == claims.sub@
                    &&& data.body@ == body.body@
                    &&& data.like_count == 0
                    &&& data.likers().len() == 0
                    &&& final(self).comments().len() == old(self).comments().len() + 1
                    &&& final(self).comments().subrange(0, old(self).comments().len() as int) == old(self).comments()
                    &&& is_object_id(data.id@)
                    &&& data.created_at == data.updated_at
                    &&& final(self).comments().last().same_as(data.stored())
                },
                Answer::Reply(rep) => rep.status == 500 && final(self).comments() == old(self).comments()
                    && holds_object_id(old(self).comments()),
            },
    {
        answer(self.svc.create(post_id, claims.sub.as_str(), body), 201)
    }

    /// `PUT /posts/:post_id/comments/:id`: 200 with the edited comment, or
    /// 403 when the caller does not own comment `id`.
    pub fn update_comment(&mut self, id: &str, claims: &Claims, body: UpdateCommentDto) -> (r: Answer<
        Comment,
    >)
        requires
            old(self).wf(),
        ensures
            final(self).wf(),
            !is_object_id(id@) ==> r is Reply && error_reply(r->Reply_0, 404, invalid_comment_id_message())
                && final(self).comments() == old(self).comments(),
            is_object_id(id@) && !has_owned(old(self).comments(), id@, claims.sub@) ==> r is Reply
                && error_reply(r->Reply_0, 403, not_owner_message()) && final(self).comments() == old(self).comments(),
            is_object_id(id@) && has_owned(old(self).comments(), id@, claims.sub@) ==> r is Data
                && r->status == 200 && exists|i: int, now: i64|
                0 <= i < old(self).comments().len() && old(self).comments()[i].id@ == id@
                    && edited(old(self).comments()[i], body.body@, now, r->data)
                    && replaced_at(old(self).comments(), final(self).comments(), i, r->data),
    {
        let ghost text = body.body@;
        let res = self.svc.update(claims.sub.as_str(), id, body);
        let r = answer(res, 200);
        proof {
            if is_object_id(id@) && has_owned(old(self).comments(), id@, claims.sub@) {
                let (i, now) = choose|i: int, now: i64|
                    0 <= i < old(self).comments().len() && old(self).comments()[i].id@ == id@ && res is Ok
                        && edited(old(self).comments()[i], text, now, res->Ok_0)
                        && replaced_at(old(self).comments(), final(self).comments(), i, res->Ok_0);
                assert(edited(old(self).comments()[i], text, now, r->data));
            }
        }
        r
    }

    /// `DELETE /posts/:post_id/comments/:id`: 204 once the caller's comment
    /// is gone, or 403 when the caller does not own it.
    pub fn delete_comment(&mut self, id: &str, claims: &Claims) -> (r: HttpReply)
        requires
            old(self).wf(),
        ensures
            final(self).wf(),
            !is_object_id(id@) ==> error_reply(r, 404, invalid_comment_id_message())
                && final(self).comments() == old(self).comments(),
            is_object_id(id@) && has_owned(old(self).comments(), id@, claims.sub@) ==> r.status == 204 && r.body is Empty
                && exists|i: int|
                0 <= i < old(self).comments().len() && old(self).comments()[i].id@ == id@
                    && final(self).comments() == old(self).comments().remove(i),
            is_object_id(id@) && !has_owned(old(self).comments(), id@, claims.sub@) ==> error_reply(r, 403, not_owner_message())
                && final(self).comments() == old(self).comments(),
    {
        match self.svc.delete(claims.sub.as_str(), id) {
            Ok(()) => Response::no_content(),
            Err(e) => e.into_response(),
        }
    }

    /// `POST /posts/:post_id/comments/:id/like`: 200 with the comment liked
    /// by the caller, or 404 when there is no comment `id`.
    pub fn like_comment(&mut self, id: &str, claims: &Claims) -> (r: Answer<Comment>)
        requires
            old(self).wf(),
        ensures
            final(self).wf(),
            !is_object_id(id@) ==> r is Reply && error_reply(r->Reply_0, 404, invalid_comment_id_message())
                && final(self).comments() == old(self).comments(),
            is_object_id(id@) && !has_id(old(self).comments(), id@) ==> r is Reply
                && error_reply(r->Reply_0, 404, comment_not_found_message()) && final(self).comments() == old(self).comments(),
            is_object_id(id@) && has_id(old(self).comments(), id@) ==> r is Data && r->status == 200
                && exists|i: int|
                0 <= i < old(self).comments().len() && old(self).comments()[i].id@ == id@
                    && liked(old(self).comments()[i], claims.sub@, r->data) && replaced_at(old(self).comments(), final(self).comments(), i, r->data),
    {
        let res = self.svc.like(claims.sub.as_str(), id);
        let r = answer(res, 200);
        proof {
            if is_object_id(id@) && has_id(old(self).comments(), id@) {
                let i = choose|i: int|
                    0 <= i < old(self).comments().len() && old(self).comments()[i].id@ == id@ && res is Ok
                        && liked(old(self).comments()[i], claims.sub@, res->Ok_0)
                        && replaced_at(old(self).comments(), self.comments(), i, res->Ok_0);
                assert(replaced_at(old(self).comments(), final(self).comments(), i, r->data));
            }
        }
        r
    }

    /// `DELETE /posts/:post_id/comments/:id/like`: 200 with the comment
    /// without the caller's like, or 404 when there is no comment `id`.
    pub fn unlike_comment(&mut self, id: &str, claims: &Claims) -> (r: Answer<Comment>)
        requires
            old(self).wf(),
        ensures
            final(self).wf(),
            !is_object_id(id@) ==> r is Reply && error_reply(r->Reply_0, 404, invalid_comment_id_message())
                && final(self).comments() == old(self).comments(),
            is_object_id(id@) && !has_id(old(self).comments(), id@) ==> r is Reply
                && error_reply(r->Reply_0, 404, comment_not_found_message()) && final(self).comments() == old(self).comments(),
            is_object_id(id@) && has_id(old(self).comments(), id@) ==> r is Data && r->status == 200
                && exists|i: int|
                0 <= i < old(self).comments().len() && old(self).comments()[i].id@ == id@
                    && unliked(old(self).comments()[i], claims.sub@, r->data) && replaced_at(old(self).comments(), final(self).comments(), i, r->data),
    {
        let res = self.svc.unlike(claims.sub.as_str(), id);
        let r = answer(res, 200);
        proof {
            if is_object_id(id@) && has_id(old(self).comments(), id@) {
                let i = choose|i: int|
                    0 <= i < old(self).comments().len() && old(self).comments()[i].id@ == id@ && res is Ok
                        && unliked(old(self).comments()[i], claims.sub@, res->Ok_0)
                        && replaced_at(old(self).comments(), self.comments(), i, res->Ok_0);
                assert(replaced_at(old(self).comments(), final(self).comments(), i, r->data));
            }
        }
        r
    }
}

/// Liking is idempotent: a second like by the same user changes neither
/// the likers nor the count.
pub proof fn law_like_idempotent(c0: Comment, c1: Comment, c2: Comment, user: Seq<char>)
    requires
        liked(c0, user, c1),
        liked(c1, user, c2),
    ensures
        c2.likers() == c1.likers(),
        c2.like_count == c1.like_count,
        c1.likers().contains(user),
{
    if !c0.likers().contains(user) {
        assert(c1.likers()[c0.likers().len() as int] == user);
    }
}

/// Withdrawing a like undoes it: after a user who had not liked a
/// consistent comment likes it and then unlikes it, the likers and the
/// count are as before.
pub proof fn law_unlike_undoes_like(c0: Comment, c1: Comment, c2: Comment, user: Seq<char>)
    requires
        c0.consistent(),
        !c0.likers().contains(user),
        liked(c0, user, c1),
        unliked(c1, user, c2),
    ensures
        c2.likers() == c0.likers(),
        c2.like_count == c0.like_count,
{
    let n = c0.likers().len() as int;
    assert(c1.likers()[n] == user);
    let k = choose|k: int|
        0 <= k < c1.likers().len() && c1.likers()[k] == user && c2.likers() == c1.likers().remove(k)
            && c2.like_count == c1.like_count - 1;
    if k != n {
        assert(c0.likers()[k] == user);
        assert(c0.likers().contains(user));
    }
    assert(c1.likers().remove(n) =~= c0.likers());
}

/// The likers after `user` likes a comment with likers `l`.
pub open spec fn likers_after_like(l: Seq<Seq<char>>, user: Seq<char>) -> Seq<Seq<char>> {
    if l.contains(user) {
        l
    } else {
        l.push(user)
    }
}

/// Whether `after` is `before` with only its likers and count changed.
pub open spec fn same_but_likes(before: Comment, after: Comment) -> bool {
    &&& after.id@ == before.id@
    &&& after.post_id@ == before.post_id@
    &&& after.author_id@ == before.author_id@
    &&& after.body@ == before.body@
    &&& after.created_at == before.created_at
    &&& after.updated_at == before.updated_at
}

/// The comment after `user` likes `c`: the user joins the likers unless
/// already among them, and the count is the number of likers. On a
/// consistent comment this is [`liked`].
pub fn with_like(c: &Comment, user: &str) -> (r: Comment)
    ensures
        same_but_likes(*c, r),
        r.likers() == likers_after_like(c.likers(), user@),
        r.like_count == r.likers().len(),
        c.consistent() ==> liked(*c, user@, r) && r.consistent(),
{
    let mut out = c.duplicate();
    match position_of(&out.liked_by, user) {
        Some(k) => {
            proof {
                assert(out.likers()[k as int] == user@);
                assert(c.likers().contains(user@));
            }
        },
        None => {
            let ghost before = out.likers();
            out.liked_by.push(user.to_string());
            proof {
                assert(out.likers() =~= before.push(user@));
                assert(!before.contains(user@));
            }
        },
    }
    out.like_count = out.liked_by.len() as u64;
    proof {
        if c.consistent() {
            law_like_adds_the_user_lemma(*c, out, user@);
        }
    }
    out
}

/// With `r`'s likers as `with_like` makes them, a consistent `c` is liked.
proof fn law_like_adds_the_user_lemma(c: Comment, r: Comment, user: Seq<char>)
    requires
        c.consistent(),
        same_but_likes(c, r),
        r.likers() == likers_after_like(c.likers(), user),
        r.like_count == r.likers().len(),
    ensures
        liked(c, user, r),
        r.consistent(),
{
    let l0 = c.likers();
    let l1 = r.likers();
    if !l0.contains(user) {
        assert forall|i: int, j: int| 0 <= i < l1.len() && 0 <= j < l1.len() && i != j implies l1[i]
            != l1[j] by {
            if i < l0.len() && j < l0.len() {
            } else if i < l0.len() {
                assert(l0.contains(l1[i]));
            } else if j < l0.len() {
                assert(l0.contains(l1[j]));
            }
        }
    }
}

/// The comment after `user` withdraws a like from `c`: one occurrence of
/// the user leaves the likers (nothing changes for a user who is not among
/// them), and the count is the number of likers. On a consistent comment
/// this is [`unliked`].
pub fn without_like(c: &Comment, user: &str) -> (r: Comment)
    ensures
        same_but_likes(*c, r),
        c.likers().contains(user@) ==> exists|k: int|
            0 <= k < c.likers().len() && c.likers()[k] == user@ && r.likers() == c.likers().remove(k),
        !c.likers().contains(user@) ==> r.likers() == c.likers(),
        r.like_count == r.likers().len(),
        c.consistent() ==> unliked(*c, user@, r) && r.consistent(),
{
    let mut out = c.duplicate();
    let ghost before = out.likers();
    match position_of(&out.liked_by, user) {
        Some(k) => {
            out.liked_by.remove(k);
            proof {
                assert(out.likers() =~= before.remove(k as int));
                assert(before[k as int] == user@);
            }
        },
        None => {
            proof {
                assert(!before.contains(user@));
            }
        },
    }
    out.like_count = out.liked_by.len() as u64;
    proof {
        if c.consistent() && c.likers().contains(user@) {
            let k = choose|k: int|
                0 <= k < c.likers().len() && c.likers()[k] == user@ && out.likers() == c.likers().remove(k);
            let l0 = c.likers();
            let l1 = out.likers();
            assert forall|i: int, j: int| 0 <= i < l1.len() && 0 <= j < l1.len() && i != j implies l1[i]
                != l1[j] by {
                let oi = if i < k { i } else { i + 1 };
                let oj = if j < k { j } else { j + 1 };
                assert(l1[i] == l0[oi]);
                assert(l1[j] == l0[oj]);
            }
        }
    }
    out
}

/// The answer to a like of a fetched comment: the liked comment, or not
/// found when nothing was fetched.
pub fn like_step(found: Option<Comment>, user: &str) -> (r: Result<Comment, AppError>)
    ensures
        match found {
            None => r is Err && r->Err_0 is NotFound && r->Err_0->NotFound_0@ == comment_not_found_message(),
            Some(c) => r is Ok && same_but_likes(c, r->Ok_0) && r->Ok_0.likers() == likers_after_like(
                c.likers(),
                user@,
            ) && r->Ok_0.like_count == r->Ok_0.likers().len(),
        },
{
    match found {
        None => Err(comment_not_found()),
        Some(c) => Ok(with_like(&c, user)),
    }
}

/// The answer to withdrawing a like from a fetched comment: the comment
/// without the like, or not found when nothing was fetched.
pub fn unlike_step(found: Option<Comment>, user: &str) -> (r: Result<Comment, AppError>)
    ensures
        match found {
            None => r is Err && r->Err_0 is NotFound && r->Err_0->NotFound_0@ == comment_not_found_message(),
            Some(c) => {
                &&& r is Ok
                &&& same_but_likes(c, r->Ok_0)
                &&& c.likers().contains(user@) ==> exists|k: int|
                    0 <= k < c.likers().len() && c.likers()[k] == user@ && r->Ok_0.likers()
                        == c.likers().remove(k)
                &&& !c.likers().contains(user@) ==> r->Ok_0.likers() == c.likers()
                &&& r->Ok_0.like_count == r->Ok_0.likers().len()
            },
        },
{
    match found {
        None => Err(comment_not_found()),
        Some(c) => Ok(without_like(&c, user)),
    }
}

/// The answer to an edit of a fetched comment by `author` at `now`: the
/// edited comment (its edit time to the millisecond), or forbidden when
/// nothing was fetched or someone else wrote it.
pub fn edit_step(found: Option<Comment>, author: &str, body: String, now: i64) -> (r: Result<
    Comment,
    AppError,
>)
    ensures
        match found {
            Some(c) if c.author_id@ == author@ => r is Ok && edited(c, body@, now, r->Ok_0),
            _ => r is Err && r->Err_0 is Forbidden && r->Err_0->Forbidden_0@ == not_owner_message(),
        },
{
    match found {
        Some(c) => {
            let a = author.to_string();
            if c.author_id == a {
                let mut e = c.duplicate();
                e.body = body;
                e.updated_at = to_stored_instant(now);
                Ok(e)
            } else {
                Err(not_owner())
            }
        },
        None => Err(not_owner()),
    }
}

/// The answer to a deletion of a fetched comment by `author`: allowed when
/// `author` wrote it, forbidden when nothing was fetched or someone else
/// wrote it.
pub fn delete_step(found: &Option<Comment>, author: &str) -> (r: Result<(), AppError>)
    ensures
        match *found {
            Some(c) if c.author_id@ == author@ => r is Ok,
            _ => r is Err && r->Err_0 is Forbidden && r->Err_0->Forbidden_0@ == not_owner_message(),
        },
{
    match found {
        Some(c) => {
            let a = author.to_string();
            if c.author_id == a {
                Ok(())
            } else {
                Err(not_owner())
            }
        },
        None => Err(not_owner()),
    }
}

/// Check a comment id: an id that is not an object id is refused as not
/// found.
pub fn check_comment_id(id: &str) -> (r: Result<(), AppError>)
    ensures
        r is Ok <==> is_object_id(id@),
        r is Err ==> refuses_comment_id(r->Err_0),
{
    if parses_as_object_id(id) {
        Ok(())
    } else {
        Err(invalid_comment_id())
    }
}

/// A like adds the user to the set of likers and nothing else, and keeps
/// the count equal to the number of likers.
pub proof fn law_like_adds_the_user(c0: Comment, c1: Comment, user: Seq<char>)
    requires
        c0.consistent(),
        liked(c0, user, c1),
    ensures
        c1.likers().to_set() == c0.likers().to_set().insert(user),
        c1.consistent(),
{
    let l0 = c0.likers();
    let l1 = c1.likers();
    if l0.contains(user) {
        assert(l1.to_set() =~= l0.to_set().insert(user));
    } else {
        assert forall|x: Seq<char>| l1.contains(x) <==> l0.contains(x) || x == user by {
            if l1.contains(x) {
                let j = choose|j: int| 0 <= j < l1.len() && l1[j] == x;
                if j < l0.len() {
                    assert(l0[j] == x);
                }
            }
            if l0.contains(x) {
                let j = choose|j: int| 0 <= j < l0.len() && l0[j] == x;
                assert(l1[j] == x);
            }
            if x == user {
                assert(l1[l0.len() as int] == x);
            }
        }
        assert(l1.to_set() =~= l0.to_set().insert(user));
        assert forall|i: int, j: int| 0 <= i < l1.len() && 0 <= j < l1.len() && i != j implies l1[i]
            != l1[j] by {
            if i < l0.len() && j < l0.len() {
            } else if i < l0.len() {
                assert(l0.contains(l1[i]));
            } else if j < l0.len() {
                assert(l0.contains(l1[j]));
            }
        }
    }
}

/// Withdrawing a like removes the user from the set of likers and nothing
/// else, and keeps the count equal to the number of likers.
pub proof fn law_unlike_removes_the_user(c0: Comment, c1: Comment, user: Seq<char>)
    requires
        c0.consistent(),
        unliked(c0, user, c1),
    ensures
        c1.likers().to_set() == c0.likers().to_set().remove(user),
        c1.consistent(),
{
    let l0 = c0.likers();
    let l1 = c1.likers();
    if l0.contains(user) {
        let k = choose|k: int|
            0 <= k < l0.len() && l0[k] == user && l1 == l0.remove(k) && c1.like_count == c0.like_count
                - 1;
        assert forall|x: Seq<char>| l1.contains(x) <==> l0.contains(x) && x != user by {
            if l1.contains(x) {
                let j = choose|j: int| 0 <= j < l1.len() && l1[j] == x;
                let oj = if j < k { j } else { j + 1 };
                assert(l0[oj] == x);
                assert(oj != k);
            }
            if l0.contains(x) && x != user {
                let j = choose|j: int| 0 <= j < l0.len() && l0[j] == x;
                assert(j != k);
                let nj = if j < k { j } else { j - 1 };
                assert(l1[nj] == x);
            }
        }
        assert(l1.to_set() =~= l0.to_set().remove(user));
        assert forall|i: int, j: int| 0 <= i < l1.len() && 0 <= j < l1.len() && i != j implies l1[i]
            != l1[j] by {
            let oi = if i < k { i } else { i + 1 };
            let oj = if j < k { j } else { j + 1 };
            assert(l1[i] == l0[oi]);
            assert(l1[j] == l0[oj]);
        }
    } else {
        assert(l1.to_set() =~= l0.to_set().remove(user));
    }
}

/// The count of likes always equals the number of distinct likers: a like
/// or an unlike of a consistent comment gives a consistent comment.
pub proof fn law_like_keeps_count_consistent(c0: Comment, c1: Comment, user: Seq<char>)
    requires
        c0.consistent(),
        liked(c0, user, c1) || unliked(c0, user, c1),
    ensures
        c1.like_count == c1.likers().len(),
{
    if liked(c0, user, c1) {
    } else {
        if c0.likers().contains(user) {
            let k = choose|k: int|
                0 <= k < c0.likers().len() && c0.likers()[k] == user && c1.likers()
                    == c0.likers().remove(k) && c1.like_count == c0.like_count - 1;
        }
    }
}


} // verus!
