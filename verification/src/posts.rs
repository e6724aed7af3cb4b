use vstd::prelude::*;
use crate::blog::{AppError, is_object_id, new_object_id, parses_as_object_id, stored_instant, to_stored_instant};
use crate::users::{collect_failures, failing_fields, failing_if, length_ok, ValidationFailure};

verus! {

/// A blog post.
pub struct Post {
    pub id: String,
    pub author_id: String,
    pub title: String,
    pub body: String,
    /// Microseconds since the Unix epoch.
    pub created_at: i64,
    pub updated_at: i64,
}

impl Post {
    /// Whether the two posts agree on everything, field by field.
    pub open spec fn same_as(self, other: Post) -> bool {
        &&& self.id@ == other.id@
        &&& self.author_id@ == other.author_id@
        &&& self.title@ == other.title@
        &&& self.body@ == other.body@
        &&& self.created_at == other.created_at
        &&& self.updated_at == other.updated_at
    }

    /// The post as the database keeps it: its instants rounded down to the
    /// millisecond.
    pub open spec fn stored(self) -> Post {
        Post {
            created_at: stored_instant(self.created_at),
            updated_at: stored_instant(self.updated_at),
            ..self
        }
    }

    /// A copy of the post.
    pub fn duplicate(&self) -> (r: Post)
        ensures
            r.same_as(*self),
    {
        Post {
            id: self.id.clone(),
            author_id: self.author_id.clone(),
            title: self.title.clone(),
            body: self.body.clone(),
            created_at: self.created_at,
            updated_at: self.updated_at,
        }
    }
}

/// Body of a request that creates a post.
pub struct CreatePostDto {
    pub title: String,
    pub body: String,
}

/// Body of a request that edits a post: only the given fields change.
pub struct UpdatePostDto {
    pub title: Option<String>,
    pub body: Option<String>,
}

/// The fields of a new post that break their rules, in declaration order.
pub open spec fn create_post_failures(dto: CreatePostDto) -> Seq<Seq<char>> {
    failing_fields(seq![("title"@, length_ok(dto.title@, 1, None)), ("body"@, length_ok(dto.body@, 1, None))])
}

/// The fields of an edit that break their rules, in declaration order.
pub open spec fn update_post_failures(dto: UpdatePostDto) -> Seq<Seq<char>> {
    failing_fields(seq![("title"@, optional_nonempty(dto.title)), ("body"@, optional_nonempty(dto.body))])
}

/// A new post reports exactly the fields that break their own rule, in
/// declaration order: the title when it is empty, the body when it is
/// empty.
pub proof fn law_create_post_reports_each_broken_rule(dto: CreatePostDto)
    ensures
        create_post_failures(dto) == failing_if("title"@, dto.title@.len() >= 1) + failing_if(
            "body"@,
            dto.body@.len() >= 1,
        ),
{
    reveal_with_fuel(failing_fields, 3);
    let c = seq![("title"@, length_ok(dto.title@, 1, None)), ("body"@, length_ok(dto.body@, 1, None))];
    assert(c.drop_first().drop_first() =~= Seq::<(Seq<char>, bool)>::empty());
    assert(create_post_failures(dto) =~= failing_if("title"@, dto.title@.len() >= 1) + failing_if(
        "body"@,
        dto.body@.len() >= 1,
    ));
}

/// An edit reports exactly the given fields that are empty, in
/// declaration order; fields left out are never reported.
pub proof fn law_update_post_reports_each_broken_rule(dto: UpdatePostDto)
    ensures
        update_post_failures(dto) == failing_if(
            "title"@,
            dto.title is None || dto.title->0@.len() >= 1,
        ) + failing_if("body"@, dto.body is None || dto.body->0@.len() >= 1),
{
    reveal_with_fuel(failing_fields, 3);
    let c = seq![("title"@, optional_nonempty(dto.title)), ("body"@, optional_nonempty(dto.body))];
    assert(c.drop_first().drop_first() =~= Seq::<(Seq<char>, bool)>::empty());
    assert(update_post_failures(dto) =~= failing_if(
        "title"@,
        dto.title is None || dto.title->0@.len() >= 1,
    ) + failing_if("body"@, dto.body is None || dto.body->0@.len() >= 1));
}

impl CreatePostDto {
    /// Check the rules of a new post: a non-empty title and body.
    pub fn validate(&self) -> (r: Result<(), ValidationFailure>)
        ensures
            r is Ok <==> length_ok(self.title@, 1, None) && length_ok(self.body@, 1, None),
            r is Err ==> r->Err_0.fields@.map_values(|s: &'static str| s@) == create_post_failures(*self),
    {
        proof {
            reveal_strlit("title");
            reveal_strlit("body");
        }
        let t = self.title.as_str().unicode_len();
        let b = self.body.as_str().unicode_len();
        let mut checks: Vec<(&'static str, bool)> = Vec::new();
        checks.push(("title", 1 <= t));
        checks.push(("body", 1 <= b));
        let ghost sc = checks@.map_values(|c: (&'static str, bool)| (c.0@, c.1));
        proof {
            reveal_with_fuel(failing_fields, 3);
            assert(sc =~= seq![("title"@, length_ok(self.title@, 1, None)), ("body"@, length_ok(self.body@, 1, None))]);
            assert(sc.drop_first().drop_first() =~= Seq::<(Seq<char>, bool)>::empty());
        }
        collect_failures(checks)
    }
}

/// Whether an optional field is absent or has at least one character.
pub open spec fn optional_nonempty(o: Option<String>) -> bool {
    match o {
        Some(s) => length_ok(s@, 1, None),
        None => true,
    }
}

fn optional_ok(o: &Option<String>) -> (r: bool)
    ensures
        r == optional_nonempty(*o),
{
    match o {
        Some(s) => 1 <= s.as_str().unicode_len(),
        None => true,
    }
}

impl UpdatePostDto {
    /// Check the rules of an edit: each given field is non-empty.
    pub fn validate(&self) -> (r: Result<(), ValidationFailure>)
        ensures
            r is Ok <==> optional_nonempty(self.title) && optional_nonempty(self.body),
            r is Err ==> r->Err_0.fields@.map_values(|s: &'static str| s@) == update_post_failures(*self),
    {
        proof {
            reveal_strlit("title");
            reveal_strlit("body");
        }
        let mut checks: Vec<(&'static str, bool)> = Vec::new();
        checks.push(("title", optional_ok(&self.title)));
        checks.push(("body", optional_ok(&self.body)));
        let ghost sc = checks@.map_values(|c: (&'static str, bool)| (c.0@, c.1));
        proof {
            reveal_with_fuel(failing_fields, 3);
            assert(sc =~= seq![("title"@, optional_nonempty(self.title)), ("body"@, optional_nonempty(self.body))]);
            assert(sc.drop_first().drop_first() =~= Seq::<(Seq<char>, bool)>::empty());
        }
        collect_failures(checks)
    }
}

/// The view of an optional text.
pub open spec fn opt_view(o: Option<String>) -> Option<Seq<char>> {
    match o {
        Some(s) => Some(s@),
        None => None,
    }
}

/// The post after its author edits it at `now` with the given fields, as
/// the collection keeps it (the edit time to the millisecond). An edit that
/// gives no field leaves the post as it was, timestamp included.
pub open spec fn post_edited(
    before: Post,
    title: Option<Seq<char>>,
    body: Option<Seq<char>>,
    now: i64,
    after: Post,
) -> bool {
    &&& after.id@ == before.id@
    &&& after.author_id@ == before.author_id@
    &&& after.created_at == before.created_at
    &&& after.title@ == match title {
        Some(t) => t,
        None => before.title@,
    }
    &&& after.body@ == match body {
        Some(b) => b,
        None => before.body@,
    }
    &&& after.updated_at == if title is None && body is None {
        before.updated_at
    } else {
        stored_instant(now)
    }
}

/// Whether some post of `s` has an object id: only then can a freshly drawn
/// object id already be in use.
pub open spec fn holds_post_object_id(s: Seq<Post>) -> bool {
    exists|i: int| 0 <= i < s.len() && is_object_id(s[i].id@)
}

/// Whether `s` holds a post with id `id`.
pub open spec fn has_post(s: Seq<Post>, id: Seq<char>) -> bool {
    exists|i: int| 0 <= i < s.len() && s[i].id@ == id
}

/// Whether `s` holds a post with id `id` written by `author`.
pub open spec fn has_owned_post(s: Seq<Post>, id: Seq<char>, author: Seq<char>) -> bool {
    exists|i: int| 0 <= i < s.len() && s[i].id@ == id && s[i].author_id@ == author
}

/// The posts of the blog, in insertion order: the collection that the post
/// repository queries and updates.
pub struct PostStore {
    posts: Vec<Post>,
}

impl PostStore {
    pub closed spec fn view(&self) -> Seq<Post> {
        self.posts@
    }

    /// Post ids are distinct.
    pub open spec fn wf(&self) -> bool {
        forall|i: int, j: int|
            0 <= i < self@.len() && 0 <= j < self@.len() && i != j ==> self@[i].id@ != self@[j].id@
    }

    /// An empty collection.
    pub fn new() -> (s: Self)
        ensures
            s.wf(),
            s@.len() == 0,
    {
        PostStore { posts: Vec::new() }
    }

    fn index_of(&self, id: &str) -> (r: Option<usize>)
        ensures
            match r {
                Some(i) => i < self@.len() && self@[i as int].id@ == id@,
                None => !has_post(self@, id@),
            },
    {
        let t = id.to_string();
        let mut i: usize = 0;
        while i < self.posts.len()
            invariant
                i <= self@.len(),
                t@ == id@,
                forall|j: int| 0 <= j < i ==> self@[j].id@ != id@,
            decreases self@.len() - i,
        {
            if self.posts[i].id == t {
                return Some(i);
            }
            i = i + 1;
        }
        None
    }

    /// All posts, in insertion order.
    pub fn find_all(&self) -> (r: Vec<Post>)
        ensures
            r@.len() == self@.len(),
            forall|i: int| 0 <= i < r@.len() ==> r@[i].same_as(self@[i]),
    {
        let mut out: Vec<Post> = Vec::new();
        let mut i: usize = 0;
        while i < self.posts.len()
            invariant
                i <= self@.len(),
                out@.len() == i,
                forall|k: int| 0 <= k < i ==> out@[k].same_as(self@[k]),
            decreases self@.len() - i,
        {
            out.push(self.posts[i].duplicate());
            i = i + 1;
        }
        out
    }

    /// The post with id `id`, if any.
    fn lookup(&self, id: &str) -> (r: Option<Post>)
        ensures
            match r {
                Some(p) => exists|i: int|
                    0 <= i < self@.len() && self@[i].id@ == id@ && p.same_as(self@[i]),
                None => !has_post(self@, id@),
            },
    {
        match self.index_of(id) {
            Some(i) => Some(self.posts[i].duplicate()),
            None => None,
        }
    }

    /// Store a new post with id `id` by `author_id`, created at `now`; the
    /// collection keeps its instants to the millisecond. An id already in use
    /// is refused.
    pub fn save_with_identity(&mut self, id: String, author_id: &str, dto: CreatePostDto, now: i64) -> (r: Result<
        Post,
        AppError,
    >)
        requires
            old(self).wf(),
        ensures
            final(self).wf(),
            has_post(old(self)@, id@) ==> r is Err && r->Err_0 is InternalError && final(self)@
                == old(self)@,
            !has_post(old(self)@, id@) ==> {
                &&& r is Ok
                &&& r->Ok_0.id@ == id@
                &&& r->Ok_0.author_id@ == author_id@
                &&& r->Ok_0.title@ == dto.title@
                &&& r->Ok_0.body@ == dto.body@
                &&& r->Ok_0.created_at == now
                &&& r->Ok_0.updated_at == now
                &&& final(self)@.len() == old(self)@.len() + 1
                &&& final(self)@.subrange(0, old(self)@.len() as int) == old(self)@
                &&& final(self)@.last().same_as(r->Ok_0.stored())
            },
    {
        if self.index_of(id.as_str()).is_some() {
            proof { reveal_strlit("post id already in use"); }
            return Err(AppError::InternalError("post id already in use".to_string()));
        }
        let p = Post {
            id,
            author_id: author_id.to_string(),
            title: dto.title,
            body: dto.body,
            created_at: now,
            updated_at: now,
        };
        let out = p.duplicate();
        let mut p = p;
        let kept = to_stored_instant(now);
        p.created_at = kept;
        p.updated_at = kept;
        self.posts.push(p);
        proof {
            assert(final(self)@.subrange(0, old(self)@.len() as int) =~= old(self)@);
        }
        Ok(out)
    }

    /// Edit post `id` as `author_id` at `now`: only the author may edit, and
    /// only the fields given change. Returns the post after the edit, or
    /// `None` when no post with that id belongs to that author.
    fn update_owned(&mut self, id: &str, author_id: &str, dto: UpdatePostDto, now: i64) -> (r:
        Option<Post>)
        requires
            old(self).wf(),
        ensures
            final(self).wf(),
            !has_owned_post(old(self)@, id@, author_id@) ==> r is None && final(self)@ == old(self)@,
            has_owned_post(old(self)@, id@, author_id@) ==> exists|i: int|
                0 <= i < old(self)@.len() && old(self)@[i].id@ == id@ && old(self)@[i].author_id@
                    == author_id@ && r is Some && post_edited(
                    old(self)@[i],
                    opt_view(dto.title),
                    opt_view(dto.body),
                    now,
                    r->0,
                ) && final(self)@.len() == old(self)@.len() && final(self)@[i].same_as(r->0)
                    && forall|j: int|
                    0 <= j < old(self)@.len() && j != i ==> final(self)@[j] == old(self)@[j],
    {
        match self.index_of(id) {
            None => None,
            Some(i) => {
                let a = author_id.to_string();
                if self.posts[i].author_id != a {
                    proof {
                        assert forall|k: int|
                            0 <= k < old(self)@.len() && old(self)@[k].id@ == id@ implies old(self)@[k].author_id@
                            != author_id@ by {
                            if k != i {
                                assert(old(self)@[k].id@ != old(self)@[i as int].id@);
                            }
                        }
                    }
                    return None;
                }
                let mut p = self.posts[i].duplicate();
                let nothing = dto.title.is_none() && dto.body.is_none();
                match dto.title {
                    Some(t) => {
                        p.title = t;
                    },
                    None => {},
                }
                match dto.body {
                    Some(b) => {
                        p.body = b;
                    },
                    None => {},
                }
                if !nothing {
                    p.updated_at = to_stored_instant(now);
                }
                let out = p.duplicate();
                self.posts.set(i, p);
                Some(out)
            },
        }
    }

    /// Delete post `id`, only when `author_id` wrote it; returns whether a
    /// post was deleted.
    fn delete_owned(&mut self, id: &str, author_id: &str) -> (r: bool)
        requires
            old(self).wf(),
        ensures
            final(self).wf(),
            r == has_owned_post(old(self)@, id@, author_id@),
            !r ==> final(self)@ == old(self)@,
            r ==> exists|i: int|
                0 <= i < old(self)@.len() && old(self)@[i].id@ == id@ && final(self)@ == old(self)@.remove(
                    i,
                ),
    {
        match self.index_of(id) {
            None => false,
            Some(i) => {
                let a = author_id.to_string();
                if self.posts[i].author_id != a {
                    proof {
                        assert forall|k: int|
                            0 <= k < old(self)@.len() && old(self)@[k].id@ == id@ implies old(self)@[k].author_id@
                            != author_id@ by {
                            if k != i {
                                assert(old(self)@[k].id@ != old(self)@[i as int].id@);
                            }
                        }
                    }
                    return false;
                }
                self.posts.remove(i);
                proof {
                    assert forall|x: int, y: int|
                        0 <= x < final(self)@.len() && 0 <= y < final(self)@.len() && x != y implies final(self)@[x].id@
                        != final(self)@[y].id@ by {
                        let ox = if x < i { x } else { x + 1 };
                        let oy = if y < i { y } else { y + 1 };
                        assert(final(self)@[x] == old(self)@[ox]);
                        assert(final(self)@[y] == old(self)@[oy]);
                    }
                }
                true
            },
        }
    }
}



/// `Invalid post id`
pub open spec fn invalid_post_id_message() -> Seq<char> {
    seq!['I', 'n', 'v', 'a', 'l', 'i', 'd', ' ', 'p', 'o', 's', 't', ' ', 'i', 'd']
}

fn invalid_post_id() -> (e: AppError)
    ensures
        refuses_post_id(e),
{
    proof {
        reveal_strlit("Invalid post id");
        assert("Invalid post id"@ =~= invalid_post_id_message());
    }
    AppError::NotFound("Invalid post id".to_string())
}

/// Whether `e` is the refusal of a malformed post id.
pub open spec fn refuses_post_id(e: AppError) -> bool {
    e is NotFound && e->NotFound_0@ == invalid_post_id_message()
}

/// The outcome of an edit of post `id` by `author` at `now`: only the
/// author's post changes, in the fields given.
pub open spec fn post_update_outcome(
    before: Seq<Post>,
    id: Seq<char>,
    author: Seq<char>,
    title: Option<Seq<char>>,
    body: Option<Seq<char>>,
    now: i64,
    r: Option<Post>,
    after: Seq<Post>,
) -> bool {
    &&& !has_owned_post(before, id, author) ==> r is None && after == before
    &&& has_owned_post(before, id, author) ==> exists|i: int|
        0 <= i < before.len() && before[i].id@ == id && before[i].author_id@ == author && r is Some
            && post_edited(before[i], title, body, now, r->0) && after.len() == before.len()
            && after[i].same_as(r->0) && forall|j: int|
            0 <= j < before.len() && j != i ==> after[j] == before[j]
}

/// The outcome of a deletion of post `id` by `author`.
pub open spec fn post_delete_outcome(
    before: Seq<Post>,
    id: Seq<char>,
    author: Seq<char>,
    r: bool,
    after: Seq<Post>,
) -> bool {
    &&& r == has_owned_post(before, id, author)
    &&& !r ==> after == before
    &&& r ==> exists|i: int| 0 <= i < before.len() && before[i].id@ == id && after == before.remove(i)
}

impl PostStore {
    /// The post with id `id`, if any. An id that is not an object id is
    /// refused as not found.
    pub fn find_by_id(&self, id: &str) -> (r: Result<Option<Post>, AppError>)
        ensures
            !is_object_id(id@) ==> r is Err && refuses_post_id(r->Err_0),
            is_object_id(id@) ==> r is Ok && match r->Ok_0 {
                Some(p) => exists|i: int|
                    0 <= i < self@.len() && self@[i].id@ == id@ && p.same_as(self@[i]),
                None => !has_post(self@, id@),
            },
    {
        if !parses_as_object_id(id) {
            return Err(invalid_post_id());
        }
        Ok(self.lookup(id))
    }

    /// Store a new post by `author_id` under a fresh object id, created now.
    pub fn save(&mut self, author_id: &str, dto: CreatePostDto) -> (r: Result<Post, AppError>)
        requires
            old(self).wf(),
        ensures
            final(self).wf(),
            match r {
                Ok(p) => {
                    &&& is_object_id(p.id@)
                    &&& p.author_id@ == author_id@
                    &&& p.title@ == dto.title@
                    &&& p.body@ == dto.body@
                    &&& p.created_at == p.updated_at
                    &&& final(self)@.len() == old(self)@.len() + 1
                    &&& final(self)@.subrange(0, old(self)@.len() as int) == old(self)@
                    &&& final(self)@.last().same_as(p.stored())
                },
                Err(e) => e is InternalError && final(self)@ == old(self)@ && holds_post_object_id(old(self)@),
            },
    {
        let id = new_object_id();
        let now = crate::sys::now_micros();
        let ghost drawn = id@;
        let r = self.save_with_identity(id, author_id, dto, now);
        proof {
            if r is Err {
                let i = choose|i: int| 0 <= i < old(self)@.len() && old(self)@[i].id@ == drawn;
                assert(is_object_id(old(self)@[i].id@));
            }
        }
        r
    }

    /// Edit post `id` as `author_id` at `now`: only the author may edit, and
    /// only the fields given change; `None` when no post with that id
    /// belongs to that author. An id that is not an object id is refused as
    /// not found.
    pub fn update(&mut self, id: &str, author_id: &str, dto: UpdatePostDto, now: i64) -> (r: Result<
        Option<Post>,
        AppError,
    >)
        requires
            old(self).wf(),
        ensures
            final(self).wf(),
            !is_object_id(id@) ==> r is Err && refuses_post_id(r->Err_0) && final(self)@ == old(self)@,
            is_object_id(id@) ==> r is Ok && post_update_outcome(
                old(self)@,
                id@,
                author_id@,
                opt_view(dto.title),
                opt_view(dto.body),
                now,
                r->Ok_0,
                final(self)@,
            ),
    {
        if !parses_as_object_id(id) {
            return Err(invalid_post_id());
        }
        Ok(self.update_owned(id, author_id, dto, now))
    }

    /// Delete post `id`, only when `author_id` wrote it; whether a post was
    /// deleted. An id that is not an object id is refused as not found.
    pub fn delete(&mut self, id: &str, author_id: &str) -> (r: Result<bool, AppError>)
        requires
            old(self).wf(),
        ensures
            final(self).wf(),
            !is_object_id(id@) ==> r is Err && refuses_post_id(r->Err_0) && final(self)@ == old(self)@,
            is_object_id(id@) ==> r is Ok && post_delete_outcome(
                old(self)@,
                id@,
                author_id@,
                r->Ok_0,
                final(self)@,
            ),
    {
        if !parses_as_object_id(id) {
            return Err(invalid_post_id());
        }
        Ok(self.delete_owned(id, author_id))
    }
}

/// An edit that gives no field leaves the post exactly as it was.
pub proof fn law_empty_edit_changes_nothing(before: Post, after: Post, now: i64)
    requires
        post_edited(before, None, None, now, after),
    ensures
        after.same_as(before),
{
}

} // verus!
