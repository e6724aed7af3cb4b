use vstd::prelude::*;
use crate::text::{decimal, push_decimal};

verus! {

/// The HTTP verbs a controller method can be routed under.
#[derive(Clone, Copy, PartialEq, Eq, Structural, Debug)]
pub enum HttpVerb {
    Get,
    Post,
    Put,
    Delete,
    Patch,
}

impl HttpVerb {
    /// The upper-case verb, as written in a route descriptor.
    pub open spec fn upper(self) -> Seq<char> {
        match self {
            HttpVerb::Get => seq!['G', 'E', 'T'],
            HttpVerb::Post => seq!['P', 'O', 'S', 'T'],
            HttpVerb::Put => seq!['P', 'U', 'T'],
            HttpVerb::Delete => seq!['D', 'E', 'L', 'E', 'T', 'E'],
            HttpVerb::Patch => seq!['P', 'A', 'T', 'C', 'H'],
        }
    }

    /// The lower-case attribute name that selects the verb.
    pub open spec fn attribute(self) -> Seq<char> {
        match self {
            HttpVerb::Get => seq!['g', 'e', 't'],
            HttpVerb::Post => seq!['p', 'o', 's', 't'],
            HttpVerb::Put => seq!['p', 'u', 't'],
            HttpVerb::Delete => seq!['d', 'e', 'l', 'e', 't', 'e'],
            HttpVerb::Patch => seq!['p', 'a', 't', 'c', 'h'],
        }
    }

    /// The upper-case verb, as written in a route descriptor.
    pub fn as_str(&self) -> (r: &'static str)
        ensures
            r@ == self.upper(),
    {
        proof {
            reveal_strlit("GET");
            reveal_strlit("POST");
            reveal_strlit("PUT");
            reveal_strlit("DELETE");
            reveal_strlit("PATCH");
        }
        match self {
            HttpVerb::Get => "GET",
            HttpVerb::Post => "POST",
            HttpVerb::Put => "PUT",
            HttpVerb::Delete => "DELETE",
            HttpVerb::Patch => "PATCH",
        }
    }
}

/// What an attribute on a controller method means to `#[controller]`.
pub enum MethodAttribute {
    /// `#[get]`, `#[post]`, `#[put]`, `#[delete]` or `#[patch]`: a route.
    Route(HttpVerb),
    /// `#[middleware(...)]`: a per-route middleware.
    Middleware,
    /// Any other attribute, kept on the method.
    Other,
}

/// `middleware`
pub open spec fn middleware_word() -> Seq<char> {
    seq!['m', 'i', 'd', 'd', 'l', 'e', 'w', 'a', 'r', 'e']
}

/// The meaning of an attribute given by the last segment of its path.
pub open spec fn attribute_meaning(name: Seq<char>) -> MethodAttribute {
    if name == HttpVerb::Get.attribute() {
        MethodAttribute::Route(HttpVerb::Get)
    } else if name == HttpVerb::Post.attribute() {
        MethodAttribute::Route(HttpVerb::Post)
    } else if name == HttpVerb::Put.attribute() {
        MethodAttribute::Route(HttpVerb::Put)
    } else if name == HttpVerb::Delete.attribute() {
        MethodAttribute::Route(HttpVerb::Delete)
    } else if name == HttpVerb::Patch.attribute() {
        MethodAttribute::Route(HttpVerb::Patch)
    } else if name == middleware_word() {
        MethodAttribute::Middleware
    } else {
        MethodAttribute::Other
    }
}

/// Classify a method attribute by the last segment of its path.
pub fn classify_attribute(name: &str) -> (r: MethodAttribute)
    ensures
        r == attribute_meaning(name@),
{
    proof {
        reveal_strlit("get");
        reveal_strlit("post");
        reveal_strlit("put");
        reveal_strlit("delete");
        reveal_strlit("patch");
        reveal_strlit("middleware");
        assert("get"@ =~= HttpVerb::Get.attribute());
        assert("post"@ =~= HttpVerb::Post.attribute());
        assert("put"@ =~= HttpVerb::Put.attribute());
        assert("delete"@ =~= HttpVerb::Delete.attribute());
        assert("patch"@ =~= HttpVerb::Patch.attribute());
        assert("middleware"@ =~= middleware_word());
    }
    let n = name.to_string();
    if n == "get".to_string() {
        MethodAttribute::Route(HttpVerb::Get)
    } else if n == "post".to_string() {
        MethodAttribute::Route(HttpVerb::Post)
    } else if n == "put".to_string() {
        MethodAttribute::Route(HttpVerb::Put)
    } else if n == "delete".to_string() {
        MethodAttribute::Route(HttpVerb::Delete)
    } else if n == "patch".to_string() {
        MethodAttribute::Route(HttpVerb::Patch)
    } else if n == "middleware".to_string() {
        MethodAttribute::Middleware
    } else {
        MethodAttribute::Other
    }
}

/// `s` with every `::` replaced by `_`, scanning left to right.
pub open spec fn replace_path_sep(s: Seq<char>) -> Seq<char>
    decreases s.len(),
{
    if s.len() == 0 {
        s
    } else if s.len() >= 2 && s[0] == ':' && s[1] == ':' {
        seq!['_'] + replace_path_sep(s.subrange(2, s.len() as int))
    } else {
        seq![s[0]] + replace_path_sep(s.subrange(1, s.len() as int))
    }
}

/// `s` without spaces.
pub open spec fn drop_spaces(s: Seq<char>) -> Seq<char>
    decreases s.len(),
{
    if s.len() == 0 {
        s
    } else if s[0] == ' ' {
        drop_spaces(s.subrange(1, s.len() as int))
    } else {
        seq![s[0]] + drop_spaces(s.subrange(1, s.len() as int))
    }
}

proof fn lemma_replace_step(s: Seq<char>, i: int)
    requires
        0 <= i < s.len(),
    ensures
        s.len() - i >= 2 && s[i] == ':' && s[i + 1] == ':' ==> replace_path_sep(
            s.subrange(i, s.len() as int),
        ) == seq!['_'] + replace_path_sep(s.subrange(i + 2, s.len() as int)),
        !(s.len() - i >= 2 && s[i] == ':' && s[i + 1] == ':') ==> replace_path_sep(
            s.subrange(i, s.len() as int),
        ) == seq![s[i]] + replace_path_sep(s.subrange(i + 1, s.len() as int)),
{
    let t = s.subrange(i, s.len() as int);
    if t.len() >= 2 {
        assert(t.subrange(2, t.len() as int) =~= s.subrange(i + 2, s.len() as int));
    }
    assert(t.subrange(1, t.len() as int) =~= s.subrange(i + 1, s.len() as int));
}

proof fn lemma_drop_step(s: Seq<char>, i: int)
    requires
        0 <= i < s.len(),
    ensures
        s[i] == ' ' ==> drop_spaces(s.subrange(i, s.len() as int)) == drop_spaces(
            s.subrange(i + 1, s.len() as int),
        ),
        s[i] != ' ' ==> drop_spaces(s.subrange(i, s.len() as int)) == seq![s[i]] + drop_spaces(
            s.subrange(i + 1, s.len() as int),
        ),
{
    let t = s.subrange(i, s.len() as int);
    assert(t.subrange(1, t.len() as int) =~= s.subrange(i + 1, s.len() as int));
}

/// `s` with every `::` replaced by `_`.
fn replaced_path_sep(s: &str) -> (r: String)
    ensures
        r@ == replace_path_sep(s@),
{
    let n = s.unicode_len();
    let mut out = String::new();
    let mut i: usize = 0;
    assert(s@.subrange(0, n as int) =~= s@);
    assert(out@ + s@ =~= s@);
    assert(out@ + replace_path_sep(s@) =~= replace_path_sep(s@));
    while i < n
        invariant
            n == s@.len(),
            i <= n,
            replace_path_sep(s@) == out@ + replace_path_sep(s@.subrange(i as int, n as int)),
        decreases n - i,
    {
        proof { lemma_replace_step(s@, i as int); }
        if i + 1 < n && s.get_char(i) == ':' && s.get_char(i + 1) == ':' {
            let ghost before = out@;
            proof {
                reveal_strlit("_");
                assert("_"@ =~= seq!['_']);
            }
            out.append("_");
            assert(before + replace_path_sep(s@.subrange(i as int, n as int)) =~= out@
                + replace_path_sep(s@.subrange(i + 2, n as int)));
            i = i + 2;
        } else {
            let ghost before = out@;
            out.append(s.substring_char(i, i + 1));
            assert(s@.subrange(i as int, i + 1) =~= seq![s@[i as int]]);
            assert(before + replace_path_sep(s@.subrange(i as int, n as int)) =~= out@
                + replace_path_sep(s@.subrange(i + 1, n as int)));
            i = i + 1;
        }
    }
    assert(s@.subrange(n as int, n as int) =~= Seq::<char>::empty());
    assert(out@ + Seq::<char>::empty() =~= out@);
    out
}

/// `s` without spaces.
fn without_spaces(s: &str) -> (r: String)
    ensures
        r@ == drop_spaces(s@),
{
    let n = s.unicode_len();
    let mut out = String::new();
    let mut i: usize = 0;
    assert(s@.subrange(0, n as int) =~= s@);
    assert(out@ + drop_spaces(s@) =~= drop_spaces(s@));
    while i < n
        invariant
            n == s@.len(),
            i <= n,
            drop_spaces(s@) == out@ + drop_spaces(s@.subrange(i as int, n as int)),
        decreases n - i,
    {
        proof { lemma_drop_step(s@, i as int); }
        if s.get_char(i) != ' ' {
            let ghost before = out@;
            out.append(s.substring_char(i, i + 1));
            assert(s@.subrange(i as int, i + 1) =~= seq![s@[i as int]]);
            assert(before + drop_spaces(s@.subrange(i as int, n as int)) =~= out@ + drop_spaces(
                s@.subrange(i + 1, n as int),
            ));
        }
        i = i + 1;
    }
    assert(s@.subrange(n as int, n as int) =~= Seq::<char>::empty());
    assert(out@ + Seq::<char>::empty() =~= out@);
    out
}

/// The type name as it appears in generated identifiers: every `::`
/// becomes `_`, then spaces are removed.
pub open spec fn ident_fragment(self_ty: Seq<char>) -> Seq<char> {
    drop_spaces(replace_path_sep(self_ty))
}

/// The type name as it appears in generated identifiers.
pub fn type_ident_fragment(self_ty: &str) -> (r: String)
    ensures
        r@ == ident_fragment(self_ty@),
{
    let replaced = replaced_path_sep(self_ty);
    without_spaces(replaced.as_str())
}

/// `__ravix_route_`
pub open spec fn factory_prefix() -> Seq<char> {
    seq!['_', '_', 'r', 'a', 'v', 'i', 'x', '_', 'r', 'o', 'u', 't', 'e', '_']
}

/// The name of the factory function generated for the `idx`-th route of a
/// controller: `__ravix_route_{type}_{method}_{idx}`, unique per route.
pub fn route_factory_name(self_ty: &str, fn_name: &str, idx: usize) -> (r: String)
    ensures
        r@ == factory_prefix() + ident_fragment(self_ty@) + seq!['_'] + fn_name@ + seq!['_']
            + decimal(idx as nat),
{
    proof {
        reveal_strlit("__ravix_route_");
        reveal_strlit("_");
    }
    let mut s = "__ravix_route_".to_string();
    let ty = type_ident_fragment(self_ty);
    s.append(ty.as_str());
    s.append("_");
    s.append(fn_name);
    s.append("_");
    push_decimal(&mut s, idx as u128);
    s
}


/// `s` without trailing `/` characters.
pub open spec fn trim_trailing_slashes(s: Seq<char>) -> Seq<char>
    decreases s.len(),
{
    if s.len() > 0 && s.last() == '/' {
        trim_trailing_slashes(s.drop_last())
    } else {
        s
    }
}

/// The path a route is served at: the global prefix and the controller's
/// base, each without trailing slashes, then the handler's path unless it
/// is `/`; an empty result is the root `/`.
pub open spec fn route_path_spec(prefix: Seq<char>, base: Seq<char>, path: Seq<char>) -> Seq<char> {
    let joined = trim_trailing_slashes(prefix) + trim_trailing_slashes(base) + if path == seq!['/'] {
        Seq::<char>::empty()
    } else {
        path
    };
    if joined.len() == 0 {
        seq!['/']
    } else {
        joined
    }
}

/// `s` without trailing `/` characters.
fn without_trailing_slashes(s: &str) -> (r: String)
    ensures
        r@ == trim_trailing_slashes(s@),
{
    let n = s.unicode_len();
    let mut k = n;
    assert(s@.subrange(0, n as int) =~= s@);
    while k > 0 && s.get_char(k - 1) == '/'
        invariant
            n == s@.len(),
            k <= n,
            trim_trailing_slashes(s@.subrange(0, k as int)) == trim_trailing_slashes(s@),
        decreases k,
    {
        assert(s@.subrange(0, k as int).drop_last() =~= s@.subrange(0, k - 1));
        k = k - 1;
    }
    s.substring_char(0, k).to_string()
}

/// The path a route is served at, from the global prefix (if any), the
/// controller's base path and the handler's path.
pub fn route_path(prefix: Option<&str>, base: &str, path: &str) -> (r: String)
    ensures
        r@ == route_path_spec(
            match prefix {
                Some(p) => p@,
                None => Seq::empty(),
            },
            base@,
            path@,
        ),
{
    let mut joined = match prefix {
        Some(p) => without_trailing_slashes(p),
        None => String::new(),
    };
    proof {
        let e = Seq::<char>::empty();
        assert(e.len() == 0);
        assert(trim_trailing_slashes(e) == e);
    }
    let b = without_trailing_slashes(base);
    joined.append(b.as_str());
    let root = path.unicode_len() == 1 && path.get_char(0) == '/';
    if root {
        assert(path@ =~= seq!['/']);
    } else {
        assert(path@ != seq!['/']);
        joined.append(path);
    }
    if joined.unicode_len() == 0 {
        proof {
            reveal_strlit("/");
        }
        "/".to_string()
    } else {
        joined
    }
}


/// What `#[controller]` does with the attributes of one method, by their
/// position: the route attribute that counts, the middleware attributes in
/// order, and the attributes kept on the method in order.
pub struct AttributePlan {
    pub route: Option<(usize, HttpVerb)>,
    pub middleware: Vec<usize>,
    pub kept: Vec<usize>,
}

/// The last route attribute among the first `n` names, with its verb: a
/// later route attribute overrides an earlier one.
pub open spec fn last_route(names: Seq<String>, n: nat) -> Option<(usize, HttpVerb)>
    decreases n,
{
    if n == 0 {
        None
    } else {
        match attribute_meaning(names[n - 1]@) {
            MethodAttribute::Route(v) => Some(((n - 1) as usize, v)),
            _ => last_route(names, (n - 1) as nat),
        }
    }
}

/// The positions of the middleware attributes among the first `n` names.
pub open spec fn middleware_positions(names: Seq<String>, n: nat) -> Seq<usize>
    decreases n,
{
    if n == 0 {
        Seq::empty()
    } else {
        let rest = middleware_positions(names, (n - 1) as nat);
        if attribute_meaning(names[n - 1]@) is Middleware {
            rest.push((n - 1) as usize)
        } else {
            rest
        }
    }
}

/// The positions of the attributes kept on the method among the first `n`
/// names: those that are neither routes nor middleware.
pub open spec fn kept_positions(names: Seq<String>, n: nat) -> Seq<usize>
    decreases n,
{
    if n == 0 {
        Seq::empty()
    } else {
        let rest = kept_positions(names, (n - 1) as nat);
        if attribute_meaning(names[n - 1]@) is Other {
            rest.push((n - 1) as usize)
        } else {
            rest
        }
    }
}

/// Sort the attributes of a method, given by the last segment of each
/// attribute's path.
pub fn plan_attributes(names: &Vec<String>) -> (r: AttributePlan)
    ensures
        r.route == last_route(names@, names@.len()),
        r.middleware@ == middleware_positions(names@, names@.len()),
        r.kept@ == kept_positions(names@, names@.len()),
{
    let mut route: Option<(usize, HttpVerb)> = None;
    let mut middleware: Vec<usize> = Vec::new();
    let mut kept: Vec<usize> = Vec::new();
    let mut i: usize = 0;
    while i < names.len()
        invariant
            i <= names@.len(),
            route == last_route(names@, i as nat),
            middleware@ == middleware_positions(names@, i as nat),
            kept@ == kept_positions(names@, i as nat),
        decreases names@.len() - i,
    {
        match classify_attribute(names[i].as_str()) {
            MethodAttribute::Route(v) => {
                route = Some((i, v));
            },
            MethodAttribute::Middleware => {
                middleware.push(i);
            },
            MethodAttribute::Other => {
                kept.push(i);
            },
        }
        i = i + 1;
    }
    AttributePlan { route, middleware, kept }
}

} // verus!
