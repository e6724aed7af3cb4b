use std::collections::HashMap;
use vstd::prelude::*;
use crate::sys::{new_uuid, now_micros};
use vstd::std_specs::iter::IteratorSpec;
use crate::text::{has_prefix, starts_with, uuid_text, is_uuid_v4};
use crate::response::{Answer, Response, error_reply};

verus! {

broadcast use vstd::std_specs::hash::group_hash_axioms;

/// Writes the UUID with value `n` in its hyphenated form with
/// `uuid::Uuid::from_u128` and `to_string`.
///
/// Trusted: `Uuid::from_u128` takes the bytes of `n` most significant
/// first, and `to_string` writes them as [`uuid_text`] says: 32 lower-case
/// hexadecimal digits in groups of 8, 4, 4, 4 and 12 joined by hyphens.
#[verifier::external_body]
fn format_uuid(n: u128) -> (r: String)
    ensures
        r@ == uuid_text(n),
{
    uuid::Uuid::from_u128(n).to_string()
}

/// Whether `validator` accepts `s` as an e-mail address
/// (`validator::ValidateEmail::validate_email`).
pub uninterp spec fn email_accepted(s: Seq<char>) -> bool;

/// Checks `s` with `validator::ValidateEmail::validate_email`.
///
/// Trusted: the verdict is a function of the text alone, named
/// [`email_accepted`].
#[verifier::external_body]
fn check_email(s: &str) -> (r: bool)
    ensures
        r == email_accepted(s@),
{
    validator::ValidateEmail::validate_email(&s)
}

/// A registered user.
pub struct User {
    pub id: String,
    pub username: String,
    pub email: String,
    pub password_hash: String,
    /// Microseconds since the Unix epoch.
    pub created_at: i64,
}

impl User {
    /// Whether the two users agree on everything, field by field.
    pub open spec fn same_as(self, other: User) -> bool {
        &&& self.id@ == other.id@
        &&& self.username@ == other.username@
        &&& self.email@ == other.email@
        &&& self.password_hash@ == other.password_hash@
        &&& self.created_at == other.created_at
    }

    /// A copy of the user.
    pub fn duplicate(&self) -> (r: User)
        ensures
            r.same_as(*self),
    {
        User {
            id: self.id.clone(),
            username: self.username.clone(),
            email: self.email.clone(),
            password_hash: self.password_hash.clone(),
            created_at: self.created_at,
        }
    }
}

/// What the API shows of a user: everything but the password hash.
pub struct UserResponse {
    pub id: String,
    pub username: String,
    pub email: String,
    pub created_at: i64,
}

impl UserResponse {
    /// The public view of `u`.
    pub fn from_user(u: User) -> (r: UserResponse)
        ensures
            r.id == u.id,
            r.username == u.username,
            r.email == u.email,
            r.created_at == u.created_at,
    {
        UserResponse { id: u.id, username: u.username, email: u.email, created_at: u.created_at }
    }
}

/// The answer to a successful registration or login: a token and the user.
pub struct AuthResponse {
    pub token: String,
    pub user: UserResponse,
}

/// Claims carried by an authentication token.
pub struct Claims {
    /// The user id.
    pub sub: String,
    pub username: String,
    /// Expiry, seconds since the Unix epoch.
    pub exp: usize,
}

/// Whether a text has between `min` and `max` characters (`validator`'s
/// `length` rule counts characters).
pub open spec fn length_ok(s: Seq<char>, min: nat, max: Option<nat>) -> bool {
    min <= s.len() && match max {
        Some(m) => s.len() <= m,
        None => true,
    }
}

/// Body of a request that registers a user.
pub struct CreateUserDto {
    pub username: String,
    pub email: String,
    pub password: String,
}

/// Body of a login request.
pub struct LoginDto {
    pub email: String,
    pub password: String,
}

/// The fields of a request body that break its validation rules, in the
/// order the fields are declared.
pub struct ValidationFailure {
    pub fields: Vec<&'static str>,
}

/// The rules of a registration: a username of 3 to 50 characters, a valid
/// e-mail address and a password of at least 8 characters.
pub open spec fn create_user_field_ok(dto: CreateUserDto) -> (bool, bool, bool) {
    (
        length_ok(dto.username@, 3, Some(50)),
        email_accepted(dto.email@),
        length_ok(dto.password@, 8, None),
    )
}

/// The names of the fields that are marked `false`, in order.
pub open spec fn failing_fields(checks: Seq<(Seq<char>, bool)>) -> Seq<Seq<char>>
    decreases checks.len(),
{
    if checks.len() == 0 {
        Seq::empty()
    } else {
        let rest = failing_fields(checks.drop_first());
        if checks[0].1 {
            rest
        } else {
            seq![checks[0].0] + rest
        }
    }
}

/// Collects the names of failing fields.
pub fn collect_failures(checks: Vec<(&'static str, bool)>) -> (r: Result<(), ValidationFailure>)
    ensures
        match r {
            Ok(()) => failing_fields(checks@.map_values(|c: (&'static str, bool)| (c.0@, c.1)))
                .len() == 0,
            Err(f) => f.fields@.len() > 0 && f.fields@.map_values(|s: &'static str| s@)
                == failing_fields(checks@.map_values(|c: (&'static str, bool)| (c.0@, c.1))),
        },
{
    let ghost spec_checks = checks@.map_values(|c: (&'static str, bool)| (c.0@, c.1));
    let mut fields: Vec<&'static str> = Vec::new();
    let mut i = checks.len();
    while i > 0
        invariant
            i <= checks@.len(),
            spec_checks == checks@.map_values(|c: (&'static str, bool)| (c.0@, c.1)),
            fields@.map_values(|s: &'static str| s@) == failing_fields(
                spec_checks.subrange(i as int, spec_checks.len() as int),
            ),
        decreases i,
    {
        i = i - 1;
        let (name, ok) = checks[i];
        assert(spec_checks.subrange(i as int, spec_checks.len() as int).drop_first()
            =~= spec_checks.subrange(i + 1, spec_checks.len() as int));
        if !ok {
            let ghost before = fields@;
            fields.insert(0, name);
            assert(fields@.map_values(|s: &'static str| s@) =~= seq![name@] + before.map_values(
                |s: &'static str| s@,
            ));
        }
    }
    assert(spec_checks.subrange(0, spec_checks.len() as int) =~= spec_checks);
    if fields.len() == 0 {
        Ok(())
    } else {
        Err(ValidationFailure { fields })
    }
}

/// `[name]` when a field breaks its rule (`ok` false), nothing otherwise.
pub open spec fn failing_if(name: Seq<char>, ok: bool) -> Seq<Seq<char>> {
    if ok {
        Seq::empty()
    } else {
        seq![name]
    }
}

/// The fields of a registration that break their rules, in declaration
/// order.
pub open spec fn create_user_failures(dto: CreateUserDto) -> Seq<Seq<char>> {
    failing_fields(
        seq![
            ("username"@, length_ok(dto.username@, 3, Some(50))),
            ("email"@, email_accepted(dto.email@)),
            ("password"@, length_ok(dto.password@, 8, None)),
        ],
    )
}

/// The fields of a login that break their rules, in declaration order.
pub open spec fn login_failures(dto: LoginDto) -> Seq<Seq<char>> {
    failing_fields(
        seq![("email"@, email_accepted(dto.email@)), ("password"@, length_ok(dto.password@, 1, None))],
    )
}

/// A registration reports exactly the fields that break their own rule,
/// each once, in declaration order: the username when it is not 3 to 50
/// characters long, the e-mail when it is not accepted as an address, the
/// password when it is shorter than 8 characters.
pub proof fn law_create_user_reports_each_broken_rule(dto: CreateUserDto)
    ensures
        create_user_failures(dto) == failing_if("username"@, length_ok(dto.username@, 3, Some(50)))
            + failing_if("email"@, email_accepted(dto.email@)) + failing_if(
            "password"@,
            length_ok(dto.password@, 8, None),
        ),
{
    reveal_with_fuel(failing_fields, 4);
    let c = seq![
        ("username"@, length_ok(dto.username@, 3, Some(50))),
        ("email"@, email_accepted(dto.email@)),
        ("password"@, length_ok(dto.password@, 8, None)),
    ];
    assert(c.drop_first().drop_first().drop_first() =~= Seq::<(Seq<char>, bool)>::empty());
    assert(create_user_failures(dto) =~= failing_if("username"@, length_ok(dto.username@, 3, Some(50)))
        + failing_if("email"@, email_accepted(dto.email@)) + failing_if(
        "password"@,
        length_ok(dto.password@, 8, None),
    ));
}

/// A login reports exactly the fields that break their own rule, in
/// declaration order: the e-mail when it is not accepted as an address,
/// the password when it is empty.
pub proof fn law_login_reports_each_broken_rule(dto: LoginDto)
    ensures
        login_failures(dto) == failing_if("email"@, email_accepted(dto.email@)) + failing_if(
            "password"@,
            length_ok(dto.password@, 1, None),
        ),
{
    reveal_with_fuel(failing_fields, 3);
    let c = seq![("email"@, email_accepted(dto.email@)), ("password"@, length_ok(dto.password@, 1, None))];
    assert(c.drop_first().drop_first() =~= Seq::<(Seq<char>, bool)>::empty());
    assert(login_failures(dto) =~= failing_if("email"@, email_accepted(dto.email@)) + failing_if(
        "password"@,
        length_ok(dto.password@, 1, None),
    ));
}

impl CreateUserDto {
    /// Check the registration rules; on failure, the failing fields in
    /// declaration order.
    pub fn validate(&self) -> (r: Result<(), ValidationFailure>)
        ensures
            r is Ok <==> length_ok(self.username@, 3, Some(50)) && email_accepted(self.email@)
                && length_ok(self.password@, 8, None),
            r is Err ==> r->Err_0.fields@.map_values(|s: &'static str| s@) == create_user_failures(*self),
    {
        proof {
            reveal_strlit("username");
            reveal_strlit("email");
            reveal_strlit("password");
        }
        let u = self.username.as_str().unicode_len();
        let p = self.password.as_str().unicode_len();
        let mut checks: Vec<(&'static str, bool)> = Vec::new();
        checks.push(("username", 3 <= u && u <= 50));
        checks.push(("email", check_email(self.email.as_str())));
        checks.push(("password", 8 <= p));
        let ghost sc = checks@.map_values(|c: (&'static str, bool)| (c.0@, c.1));
        proof {
            reveal_with_fuel(failing_fields, 4);
            assert(sc =~= seq![
                ("username"@, length_ok(self.username@, 3, Some(50))),
                ("email"@, email_accepted(self.email@)),
                ("password"@, length_ok(self.password@, 8, None)),
            ]);
            assert(sc.drop_first().drop_first().drop_first() =~= Seq::<(Seq<char>, bool)>::empty());
        }
        collect_failures(checks)
    }
}

impl LoginDto {
    /// Check the login rules: a valid e-mail address and a non-empty
    /// password.
    pub fn validate(&self) -> (r: Result<(), ValidationFailure>)
        ensures
            r is Ok <==> email_accepted(self.email@) && length_ok(self.password@, 1, None),
            r is Err ==> r->Err_0.fields@.map_values(|s: &'static str| s@) == login_failures(*self),
    {
        proof {
            reveal_strlit("email");
            reveal_strlit("password");
        }
        let p = self.password.as_str().unicode_len();
        let mut checks: Vec<(&'static str, bool)> = Vec::new();
        checks.push(("email", check_email(self.email.as_str())));
        checks.push(("password", 1 <= p));
        let ghost sc = checks@.map_values(|c: (&'static str, bool)| (c.0@, c.1));
        proof {
            let tail = sc.drop_first();
            assert(tail.drop_first() =~= Seq::<(Seq<char>, bool)>::empty());
            assert(failing_fields(tail.drop_first()).len() == 0);
            assert(tail[0].1 == (1 <= p));
            assert(failing_fields(tail).len() == 0 <==> 1 <= p);
            assert(sc[0].1 == email_accepted(self.email@));
            assert(failing_fields(sc).len() == 0 <==> email_accepted(self.email@) && 1 <= p);
            assert(sc =~= seq![("email"@, email_accepted(self.email@)), ("password"@, length_ok(self.password@, 1, None))]);
        }
        collect_failures(checks)
    }
}

/// `Bearer `
pub open spec fn bearer_prefix() -> Seq<char> {
    seq!['B', 'e', 'a', 'r', 'e', 'r', ' ']
}

/// Whether a request passes the bearer guard: its `Authorization` header,
/// read as text, starts with `"Bearer "`. A missing or unreadable header
/// fails.
pub fn has_bearer(authorization: Option<&str>) -> (r: bool)
    ensures
        r == match authorization {
            Some(v) => starts_with(v@, bearer_prefix()),
            None => false,
        },
{
    proof {
        reveal_strlit("Bearer ");
        assert("Bearer "@ =~= bearer_prefix());
    }
    match authorization {
        Some(v) => has_prefix(v, "Bearer "),
        None => false,
    }
}

/// Whether `u` is a copy of some user stored in `m`.
pub open spec fn stored_in(m: Map<u128, User>, u: User) -> bool {
    exists|k: u128| m.contains_key(k) && u.same_as(m[k])
}

/// Whether some element of `s` is a copy of `u`.
pub open spec fn copied_in(s: Seq<User>, u: User) -> bool {
    exists|i: int| 0 <= i < s.len() && s[i].same_as(u)
}

/// The user that registering `dto` at `now` under the id text `id` gives:
/// no credential is kept, so the password hash is empty.
pub fn registered_user(id: String, dto: CreateUserDto, now: i64) -> (r: User)
    ensures
        r.id == id,
        r.username == dto.username,
        r.email == dto.email,
        r.password_hash@.len() == 0,
        r.created_at == now,
{
    User { id, username: dto.username, email: dto.email, password_hash: String::new(), created_at: now }
}

/// Whether registering `u` took `before` to `after` under the version 4
/// UUID with value `id`: `u` is stored under `id` and carries its text, and
/// every other user is as it was.
pub open spec fn registered_under(before: Map<u128, User>, after: Map<u128, User>, u: User, id: u128) -> bool {
    &&& is_uuid_v4(id)
    &&& u.id@ == uuid_text(id)
    &&& after.contains_key(id)
    &&& after[id].same_as(u)
    &&& forall|k: u128|
        k != id ==> after.contains_key(k) == before.contains_key(k) && (before.contains_key(k)
            ==> after[k] == before[k])
}

/// Users held in memory, keyed by the value of their UUID.
pub struct InMemoryUserRepository {
    store: HashMap<u128, User>,
}

impl InMemoryUserRepository {
    pub closed spec fn view(&self) -> Map<u128, User> {
        self.store@
    }

    /// An empty repository.
    pub fn new() -> (r: Self)
        ensures
            r@ == Map::<u128, User>::empty(),
    {
        InMemoryUserRepository { store: HashMap::new() }
    }

    /// Every stored user, in no particular order: as many as there are keys,
    /// each a copy of a stored user, and every stored user copied.
    pub fn find_all(&self) -> (r: Vec<User>)
        ensures
            r@.len() == self@.dom().len(),
            forall|i: int| 0 <= i < r@.len() ==> stored_in(self@, #[trigger] r@[i]),
            forall|k: u128| #[trigger] self@.contains_key(k) ==> copied_in(r@, self@[k]),
    {
        let mut out: Vec<User> = Vec::new();
        let ghost m = self@;
        let ghost full = vstd::std_specs::hash::spec_values_iter(&self.store).remaining().unref();
        assert(full.to_set() == m.values());
        assert(full.len() == m.dom().len());
        for u in it: self.store.values()
            invariant
                m == self@,
                full == vstd::std_specs::hash::spec_values_iter(&self.store).remaining().unref(),
                it.seq().unref() == full,
                out@.len() == it.index(),
                forall|i: int| 0 <= i < out@.len() ==> out@[i].same_as(full[i]),
        {
            assert(it.seq()[it.index()] == u);
            out.push(u.duplicate());
        }
        assert(out@.len() == full.len());
        proof {
            assert forall|i: int| 0 <= i < out@.len() implies stored_in(self@, #[trigger] out@[i]) by {
                assert(full.to_set().contains(full[i]));
                let k = choose|k: u128| m.contains_key(k) && m[k] == full[i];
                assert(self@.contains_key(k) && out@[i].same_as(self@[k]));
            }
            assert forall|k: u128| #[trigger] self@.contains_key(k) implies copied_in(out@, self@[k]) by {
                assert(m.values().contains(m[k]));
                assert(full.to_set().contains(m[k]));
                let i = choose|i: int| 0 <= i < full.len() && full[i] == m[k];
                assert(0 <= i < out@.len() && out@[i].same_as(self@[k]));
            }
        }
        out
    }

    /// The user whose UUID has value `id`, if any.
    pub fn find_by_id(&self, id: u128) -> (r: Option<User>)
        ensures
            match r {
                Some(u) => self@.contains_key(id) && u.same_as(self@[id]),
                None => !self@.contains_key(id),
            },
    {
        match self.store.get(&id) {
            Some(u) => Some(u.duplicate()),
            None => None,
        }
    }

    /// Store the user with key `id` registered at `now` from `dto`. The
    /// repository keeps no credential: the password hash is left empty.
    pub fn save_with_identity(&mut self, id: u128, dto: CreateUserDto, now: i64) -> (r: User)
        ensures
            r.id@ == uuid_text(id),
            r.username == dto.username,
            r.email == dto.email,
            r.password_hash@.len() == 0,
            r.created_at == now,
            final(self)@.contains_key(id),
            final(self)@[id].same_as(r),
            forall|k: u128| k != id ==> final(self)@.contains_key(k) == old(self)@.contains_key(k),
            forall|k: u128| k != id && old(self)@.contains_key(k) ==> final(self)@[k] == old(self)@[k],
    {
        let user = registered_user(format_uuid(id), dto, now);
        let stored = user.duplicate();
        self.store.insert(id, stored);
        user
    }

    /// Register a user from `dto` under a fresh random UUID.
    pub fn save(&mut self, dto: CreateUserDto) -> (r: User)
        ensures
            exists|id: u128| #[trigger] registered_under(old(self)@, final(self)@, r, id),
            r.username == dto.username,
            r.email == dto.email,
            r.password_hash@.len() == 0,
    {
        let id = new_uuid();
        let now = now_micros();
        let u = self.save_with_identity(id, dto, now);
        assert(registered_under(old(self)@, self@, u, id));
        u
    }
}


/// `User not found`
pub open spec fn user_not_found_message() -> Seq<char> {
    seq!['U', 's', 'e', 'r', ' ', 'n', 'o', 't', ' ', 'f', 'o', 'u', 'n', 'd']
}

/// The user endpoints under `/users`, over the user repository.
pub struct UserController {
    repo: InMemoryUserRepository,
}

impl UserController {
    pub closed spec fn users(&self) -> Map<u128, User> {
        self.repo@
    }

    /// The controller over `repo`.
    pub fn new(repo: InMemoryUserRepository) -> (c: Self)
        ensures
            c.users() == repo@,
    {
        UserController { repo }
    }

    /// `GET /users`: 200 with every stored user, in no particular order.
    pub fn list_users(&self) -> (r: Answer<Vec<User>>)
        ensures
            r is Data && r->status == 200,
            r->data@.len() == self.users().dom().len(),
            forall|i: int| 0 <= i < r->data@.len() ==> stored_in(self.users(), #[trigger] r->data@[i]),
            forall|k: u128| #[trigger] self.users().contains_key(k) ==> copied_in(r->data@, self.users()[k]),
    {
        Answer::Data { status: 200, data: self.repo.find_all() }
    }

    /// `GET /users/:id`: 200 with the user whose UUID has value `id`, or 404.
    pub fn get_user(&self, id: u128) -> (r: Answer<User>)
        ensures
            self.users().contains_key(id) ==> r is Data && r->status == 200 && r->data.same_as(
                self.users()[id],
            ),
            !self.users().contains_key(id) ==> r is Reply && error_reply(
                r->Reply_0,
                404,
                user_not_found_message(),
            ),
    {
        match self.repo.find_by_id(id) {
            Some(user) => Answer::Data { status: 200, data: user },
            None => {
                proof {
                    reveal_strlit("User not found");
                    assert("User not found"@ =~= user_not_found_message());
                }
                Answer::Reply(Response::not_found("User not found"))
            },
        }
    }

    /// `POST /users`: 201 with the user registered from `body` under a
    /// fresh UUID.
    pub fn create_user(&mut self, body: CreateUserDto) -> (r: Answer<User>)
        ensures
            r is Data && r->status == 201,
            r->data.username == body.username,
            r->data.email == body.email,
            r->data.password_hash@.len() == 0,
            exists|id: u128| #[trigger] registered_under(old(self).users(), final(self).users(), r->data, id),
    {
        let user = self.repo.save(body);
        proof {
            let id = choose|id: u128| #[trigger] registered_under(old(self).repo@, self.repo@, user, id);
            assert(registered_under(old(self).users(), self.users(), user, id));
        }
        Answer::Data { status: 201, data: user }
    }
}

} // verus!
