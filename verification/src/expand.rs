use vstd::prelude::*;
use crate::routes::{
    attribute_meaning, factory_prefix, ident_fragment, last_route, route_factory_name, HttpVerb,
    MethodAttribute,
};
use crate::text::{decimal, push_decimal};
use crate::inject::{inject_options_of, parse_inject_parens, InjectOptions};

verus! {

/// One attribute of a controller method, as written.
pub struct AttrModel {
    /// The last segment of the attribute's path.
    pub name: String,
    /// The whole attribute, as source text.
    pub text: String,
    /// The value of its argument when that argument is a string literal.
    pub literal: Option<String>,
    /// The text of its argument when that argument is a path.
    pub path: Option<String>,
}

/// One method of a controller's impl block.
pub struct MethodModel {
    pub name: String,
    /// Its attributes, in order.
    pub attrs: Vec<AttrModel>,
    /// The method without its attributes, as source text.
    pub rest: String,
    /// Whether it takes `self`.
    pub has_self: bool,
    /// The types of its other parameters, as source text, in order.
    pub arg_types: Vec<String>,
}

/// One item of a controller's impl block.
pub enum ItemModel {
    Method(MethodModel),
    /// Any other item, as source text.
    Other(String),
}

/// A controller's impl block.
pub struct ImplModel {
    /// The block up to its opening brace, as source text.
    pub header: String,
    /// The implementing type, as source text.
    pub self_ty: String,
    pub items: Vec<ItemModel>,
}

/// Why a `#[controller]` block cannot be expanded.
pub enum ExpandError {
    /// A route attribute of the method does not give its path as a string.
    RouteNeedsPath(String),
    /// A `#[middleware]` attribute of the method does not name a function.
    MiddlewareNeedsPath(String),
}

/// The names of the attributes.
pub open spec fn attr_names(attrs: Seq<AttrModel>) -> Seq<String> {
    attrs.map_values(|a: AttrModel| a.name)
}

/// Whether every route attribute gives a string and every middleware
/// attribute a path.
pub open spec fn attrs_ok(attrs: Seq<AttrModel>) -> bool {
    forall|i: int|
        0 <= i < attrs.len() ==> (attribute_meaning(#[trigger] attrs[i].name@) is Route
            ==> attrs[i].literal is Some) && (attribute_meaning(attrs[i].name@) is Middleware
            ==> attrs[i].path is Some)
}

/// Whether every method of the block has well-formed attributes.
pub open spec fn model_ok(items: Seq<ItemModel>) -> bool {
    forall|i: int|
        0 <= i < items.len() ==> match #[trigger] items[i] {
            ItemModel::Method(m) => attrs_ok(m.attrs@),
            ItemModel::Other(_) => true,
        }
}

/// A Rust string literal for `s`: quoted, with `\` and `"` escaped.
pub open spec fn escaped(s: Seq<char>) -> Seq<char>
    decreases s.len(),
{
    if s.len() == 0 {
        Seq::empty()
    } else {
        escaped(s.drop_last()) + if s.last() == '\\' {
            seq!['\\', '\\']
        } else if s.last() == '"' {
            seq!['\\', '"']
        } else {
            seq![s.last()]
        }
    }
}

/// `s` as a Rust string literal.
pub open spec fn literal(s: Seq<char>) -> Seq<char> {
    seq!['"'] + escaped(s) + seq!['"']
}

/// The attributes among the first `n` that stay on the method, each
/// followed by a space.
pub open spec fn kept_text(attrs: Seq<AttrModel>, n: nat) -> Seq<char>
    decreases n,
{
    if n == 0 {
        Seq::empty()
    } else {
        kept_text(attrs, (n - 1) as nat) + if attribute_meaning(attrs[n - 1].name@) is Other {
            attrs[n - 1].text@ + " "@
        } else {
            Seq::empty()
        }
    }
}

/// The per-route middleware layers of the first `n` attributes, in order.
pub open spec fn layers_text(attrs: Seq<AttrModel>, n: nat) -> Seq<char>
    decreases n,
{
    if n == 0 {
        Seq::empty()
    } else {
        layers_text(attrs, (n - 1) as nat) + if attribute_meaning(attrs[n - 1].name@) is Middleware {
            ".route_layer(::axum::middleware::from_fn("@ + attrs[n - 1].path->0@ + "))"@
        } else {
            Seq::empty()
        }
    }
}

/// The parameters `__arg0: T0, __arg1: T1, ...` of the first `n` types.
pub open spec fn params_text(types: Seq<String>, n: nat) -> Seq<char>
    decreases n,
{
    if n == 0 {
        Seq::empty()
    } else {
        params_text(types, (n - 1) as nat) + "__arg"@ + decimal((n - 1) as nat) + ": "@ + types[n
            - 1]@ + ", "@
    }
}

/// The arguments `__arg0, __arg1, ...` of the first `n` parameters.
pub open spec fn args_text(n: nat) -> Seq<char>
    decreases n,
{
    if n == 0 {
        Seq::empty()
    } else {
        args_text((n - 1) as nat) + "__arg"@ + decimal((n - 1) as nat) + ", "@
    }
}

/// The wrapper's call passes the method's parameters in order: after the
/// first `k` arguments comes `__arg{k}`, for every `k` below the number of
/// parameters, so the `k`-th argument is the `k`-th parameter.
pub proof fn law_call_passes_parameters_in_order(n: nat, k: nat)
    requires
        k < n,
    ensures
        args_text(k + 1) == args_text(k) + "__arg"@ + decimal(k) + ", "@,
        args_text(k + 1).len() <= args_text(n).len(),
        args_text(n).subrange(0, args_text(k + 1).len() as int) == args_text(k) + "__arg"@ + decimal(
            k,
        ) + ", "@,
    decreases n,
{
    if n > k + 1 {
        law_call_passes_parameters_in_order((n - 1) as nat, k);
        let a = args_text((n - 1) as nat);
        assert(args_text(n) == a + "__arg"@ + decimal((n - 1) as nat) + ", "@);
        assert(args_text(n).subrange(0, args_text(k + 1).len() as int) =~= a.subrange(
            0,
            args_text(k + 1).len() as int,
        ));
    } else {
        assert(args_text(n).subrange(0, args_text(k + 1).len() as int) =~= args_text(n));
    }
}

/// The wrapper declares the method's parameters in order: after the first
/// `k` declarations comes `__arg{k}` with the `k`-th parameter type.
pub proof fn law_wrapper_declares_parameters_in_order(types: Seq<String>, n: nat, k: nat)
    requires
        k < n,
    ensures
        params_text(types, k + 1).len() <= params_text(types, n).len(),
        params_text(types, n).subrange(0, params_text(types, k + 1).len() as int) == params_text(
            types,
            k,
        ) + "__arg"@ + decimal(k) + ": "@ + types[k as int]@ + ", "@,
    decreases n,
{
    if n > k + 1 {
        law_wrapper_declares_parameters_in_order(types, (n - 1) as nat, k);
        let a = params_text(types, (n - 1) as nat);
        assert(params_text(types, n).subrange(0, params_text(types, k + 1).len() as int) =~= a.subrange(
            0,
            params_text(types, k + 1).len() as int,
        ));
    } else {
        assert(params_text(types, n).subrange(0, params_text(types, k + 1).len() as int) =~= params_text(
            types,
            n,
        ));
    }
}

/// The method router of a routed method: a handler that resolves the
/// controller and delegates to the method when it takes `self`, otherwise
/// the method itself.
pub open spec fn routing_text(m: MethodModel, verb: HttpVerb, self_ty: Seq<char>) -> Seq<char> {
    if m.has_self {
        "{ async fn __wrapper(::ravix_app::framework::Inject(__ctrl): ::ravix_app::framework::Inject<::std::sync::Arc<"@
            + self_ty + ">>, "@ + params_text(m.arg_types@, m.arg_types@.len())
            + ") -> impl ::axum::response::IntoResponse { __ctrl."@ + m.name@ + "("@ + args_text(
            m.arg_types@.len(),
        ) + ").await } ::axum::routing::"@ + verb.attribute() + "(__wrapper) }"@
    } else {
        "::axum::routing::"@ + verb.attribute() + "("@ + self_ty + "::"@ + m.name@ + ")"@
    }
}

/// The name of the factory function of the `idx`-th route.
pub open spec fn factory_name(self_ty: Seq<char>, name: Seq<char>, idx: nat) -> Seq<char> {
    factory_prefix() + ident_fragment(self_ty) + seq!['_'] + name + seq!['_'] + decimal(idx)
}

/// The end of a factory function, then the route descriptor that names it.
pub open spec fn descriptor_text(
    verb: Seq<char>,
    base: Seq<char>,
    path: Seq<char>,
    factory: Seq<char>,
) -> Seq<char> {
    " } ::inventory::submit!(::ravix_app::framework::RouteDescriptor { method: "@ + literal(verb)
        + ", base_path: "@ + literal(base) + ", path: "@ + literal(path) + ", handler: "@ + factory
        + ", }); "@
}

/// The factory function and route descriptor of the `idx`-th route.
pub open spec fn registration_text(
    m: MethodModel,
    verb: HttpVerb,
    path: Seq<char>,
    idx: nat,
    self_ty: Seq<char>,
    base: Seq<char>,
) -> Seq<char> {
    let factory = factory_name(self_ty, m.name@, idx);
    "#[allow(non_snake_case)] fn "@ + factory
        + "(_c: &::ravix_app::framework::ContainerRef) -> ::axum::routing::MethodRouter<::ravix_app::framework::ContainerRef> { "@
        + routing_text(m, verb, self_ty) + layers_text(m.attrs@, m.attrs@.len())
        + descriptor_text(verb.upper(), base, path, factory)
}

/// A route's registration defines its factory function and then submits a
/// descriptor whose handler is that same function, with the route's verb in
/// upper case, the controller's base path and the route's own path, each as
/// a string literal.
pub proof fn law_descriptor_names_its_route(
    m: MethodModel,
    verb: HttpVerb,
    path: Seq<char>,
    idx: nat,
    self_ty: Seq<char>,
    base: Seq<char>,
)
    ensures
        registration_text(m, verb, path, idx, self_ty, base) == "#[allow(non_snake_case)] fn "@
            + factory_name(self_ty, m.name@, idx)
            + "(_c: &::ravix_app::framework::ContainerRef) -> ::axum::routing::MethodRouter<::ravix_app::framework::ContainerRef> { "@
            + routing_text(m, verb, self_ty) + layers_text(m.attrs@, m.attrs@.len())
            + " } ::inventory::submit!(::ravix_app::framework::RouteDescriptor { method: "@ + literal(
            verb.upper(),
        ) + ", base_path: "@ + literal(base) + ", path: "@ + literal(path) + ", handler: "@
            + factory_name(self_ty, m.name@, idx) + ", }); "@,
{
}

/// The route a method declares: the verb and path of its last route
/// attribute.
pub open spec fn method_route(m: MethodModel) -> Option<(HttpVerb, Seq<char>)> {
    match last_route(attr_names(m.attrs@), m.attrs@.len()) {
        Some((i, v)) => Some((v, m.attrs@[i as int].literal->0@)),
        None => None,
    }
}

/// How many of the first `n` items are routed methods.
pub open spec fn route_count(items: Seq<ItemModel>, n: nat) -> nat
    decreases n,
{
    if n == 0 {
        0
    } else {
        route_count(items, (n - 1) as nat) + match items[n - 1] {
            ItemModel::Method(m) => if method_route(m) is Some {
                1nat
            } else {
                0nat
            },
            ItemModel::Other(_) => 0nat,
        }
    }
}

/// The registrations of the routed methods among the first `n` items,
/// numbered in order.
pub open spec fn registrations_text(
    items: Seq<ItemModel>,
    n: nat,
    self_ty: Seq<char>,
    base: Seq<char>,
) -> Seq<char>
    decreases n,
{
    if n == 0 {
        Seq::empty()
    } else {
        registrations_text(items, (n - 1) as nat, self_ty, base) + match items[n - 1] {
            ItemModel::Method(m) => match method_route(m) {
                Some((v, p)) => registration_text(
                    m,
                    v,
                    p,
                    route_count(items, (n - 1) as nat),
                    self_ty,
                    base,
                ),
                None => Seq::empty(),
            },
            ItemModel::Other(_) => Seq::empty(),
        }
    }
}

/// An item of the block as it is emitted: a method keeps only its other
/// attributes.
pub open spec fn item_text(it: ItemModel) -> Seq<char> {
    match it {
        ItemModel::Method(m) => kept_text(m.attrs@, m.attrs@.len()) + m.rest@,
        ItemModel::Other(t) => t@,
    }
}

/// The first `n` items as they are emitted, each followed by a space.
pub open spec fn items_text(items: Seq<ItemModel>, n: nat) -> Seq<char>
    decreases n,
{
    if n == 0 {
        Seq::empty()
    } else {
        items_text(items, (n - 1) as nat) + item_text(items[n - 1]) + " "@
    }
}

/// The expansion of `#[controller(base)]` on the block `m`: the block with
/// the route and middleware attributes removed, then one factory function
/// and one route descriptor per routed method.
pub open spec fn controller_expansion(base: Seq<char>, m: ImplModel) -> Seq<char> {
    m.header@ + " { "@ + items_text(m.items@, m.items@.len()) + "} "@ + registrations_text(
        m.items@,
        m.items@.len(),
        m.self_ty@,
        base,
    )
}

/// Appends `s` as a Rust string literal.
fn push_literal(out: &mut String, s: &str)
    ensures
        final(out)@ == old(out)@ + literal(s@),
{
    proof {
        reveal_strlit("\"");
        reveal_strlit("\\\\");
        reveal_strlit("\\\"");
        assert("\""@ =~= seq!['"']);
    }
    out.append("\"");
    let ghost start = out@;
    let n = s.unicode_len();
    let mut i: usize = 0;
    assert(s@.subrange(0, 0) =~= Seq::<char>::empty());
    while i < n
        invariant
            n == s@.len(),
            i <= n,
            out@ == start + escaped(s@.subrange(0, i as int)),
        decreases n - i,
    {
        let c = s.get_char(i);
        let ghost before = out@;
        proof {
            reveal_strlit("\\\\");
            reveal_strlit("\\\"");
            assert("\\\\"@ =~= seq!['\\', '\\']);
            assert("\\\""@ =~= seq!['\\', '"']);
        }
        assert(s@.subrange(0, i + 1).drop_last() =~= s@.subrange(0, i as int));
        assert(s@.subrange(0, i + 1).last() == c);
        assert(escaped(s@.subrange(0, i + 1)) == escaped(s@.subrange(0, i as int)) + if c == '\\' {
            seq!['\\', '\\']
        } else if c == '"' {
            seq!['\\', '"']
        } else {
            seq![c]
        });
        if c == '\\' {
            out.append("\\\\");
        } else if c == '"' {
            out.append("\\\"");
        } else {
            out.append(s.substring_char(i, i + 1));
            assert(s@.subrange(i as int, i + 1) =~= seq![c]);
        }
        assert(out@ =~= before + if c == '\\' {
            seq!['\\', '\\']
        } else if c == '"' {
            seq!['\\', '"']
        } else {
            seq![c]
        });
        assert(out@ =~= start + escaped(s@.subrange(0, i + 1)));
        i = i + 1;
    }
    assert(s@.subrange(0, n as int) =~= s@);
    out.append("\"");
    assert(out@ =~= old(out)@ + literal(s@));
}

/// Appends the kept attributes of `attrs`.
fn push_kept(out: &mut String, attrs: &Vec<AttrModel>)
    ensures
        final(out)@ == old(out)@ + kept_text(attrs@, attrs@.len()),
{
    let mut i: usize = 0;
    while i < attrs.len()
        invariant
            i <= attrs@.len(),
            out@ == old(out)@ + kept_text(attrs@, i as nat),
        decreases attrs@.len() - i,
    {
        let ghost before = out@;
        match classify_name(&attrs[i].name) {
            MethodAttribute::Other => {
                out.append(attrs[i].text.as_str());
                out.append(" ");
            },
            _ => {},
        }
        assert(out@ =~= old(out)@ + kept_text(attrs@, (i + 1) as nat));
        i = i + 1;
    }
}

fn classify_name(name: &String) -> (r: MethodAttribute)
    ensures
        r == attribute_meaning(name@),
{
    crate::routes::classify_attribute(name.as_str())
}

/// Appends the per-route middleware layers of `attrs`.
fn push_layers(out: &mut String, attrs: &Vec<AttrModel>)
    requires
        attrs_ok(attrs@),
    ensures
        final(out)@ == old(out)@ + layers_text(attrs@, attrs@.len()),
{
    let mut i: usize = 0;
    while i < attrs.len()
        invariant
            i <= attrs@.len(),
            attrs_ok(attrs@),
            out@ == old(out)@ + layers_text(attrs@, i as nat),
        decreases attrs@.len() - i,
    {
        match classify_name(&attrs[i].name) {
            MethodAttribute::Middleware => {
                assert(attribute_meaning(attrs@[i as int].name@) is Middleware);
                match &attrs[i].path {
                    Some(p) => {
                        out.append(".route_layer(::axum::middleware::from_fn(");
                        out.append(p.as_str());
                        out.append("))");
                    },
                    None => {},
                }
            },
            _ => {},
        }
        assert(out@ =~= old(out)@ + layers_text(attrs@, (i + 1) as nat));
        i = i + 1;
    }
}

/// Appends the parameters `__arg0: T0, __arg1: T1, ...`.
fn push_params(out: &mut String, types: &Vec<String>)
    ensures
        final(out)@ == old(out)@ + params_text(types@, types@.len()),
{
    let mut i: usize = 0;
    while i < types.len()
        invariant
            i <= types@.len(),
            out@ == old(out)@ + params_text(types@, i as nat),
        decreases types@.len() - i,
    {
        out.append("__arg");
        push_decimal(out, i as u128);
        out.append(": ");
        out.append(types[i].as_str());
        out.append(", ");
        assert(out@ =~= old(out)@ + params_text(types@, (i + 1) as nat));
        i = i + 1;
    }
}

/// Appends the argument list of `n` parameters.
fn push_args(out: &mut String, n: usize)
    ensures
        final(out)@ == old(out)@ + args_text(n as nat),
{
    let mut i: usize = 0;
    while i < n
        invariant
            i <= n,
            out@ == old(out)@ + args_text(i as nat),
        decreases n - i,
    {
        out.append("__arg");
        push_decimal(out, i as u128);
        out.append(", ");
        assert(out@ =~= old(out)@ + args_text((i + 1) as nat));
        i = i + 1;
    }
}

/// The verb's routing function name.
fn verb_attribute(v: HttpVerb) -> (r: &'static str)
    ensures
        r@ == v.attribute(),
{
    proof {
        reveal_strlit("get");
        reveal_strlit("post");
        reveal_strlit("put");
        reveal_strlit("delete");
        reveal_strlit("patch");
    }
    match v {
        HttpVerb::Get => "get",
        HttpVerb::Post => "post",
        HttpVerb::Put => "put",
        HttpVerb::Delete => "delete",
        HttpVerb::Patch => "patch",
    }
}

/// Appends the method router of a routed method.
fn push_routing(out: &mut String, m: &MethodModel, verb: HttpVerb, self_ty: &str)
    ensures
        final(out)@ == old(out)@ + routing_text(*m, verb, self_ty@),
{
    if m.has_self {
        out.append(
            "{ async fn __wrapper(::ravix_app::framework::Inject(__ctrl): ::ravix_app::framework::Inject<::std::sync::Arc<",
        );
        out.append(self_ty);
        out.append(">>, ");
        push_params(out, &m.arg_types);
        out.append(") -> impl ::axum::response::IntoResponse { __ctrl.");
        out.append(m.name.as_str());
        out.append("(");
        push_args(out, m.arg_types.len());
        out.append(").await } ::axum::routing::");
        out.append(verb_attribute(verb));
        out.append("(__wrapper) }");
    } else {
        out.append("::axum::routing::");
        out.append(verb_attribute(verb));
        out.append("(");
        out.append(self_ty);
        out.append("::");
        out.append(m.name.as_str());
        out.append(")");
    }
    assert(out@ =~= old(out)@ + routing_text(*m, verb, self_ty@));
}

/// Appends the end of a factory function and its route descriptor.
fn push_descriptor(out: &mut String, verb: &str, base: &str, path: &str, factory: &str)
    ensures
        final(out)@ == old(out)@ + descriptor_text(verb@, base@, path@, factory@),
{
    out.append(" } ::inventory::submit!(::ravix_app::framework::RouteDescriptor { method: ");
    push_literal(out, verb);
    out.append(", base_path: ");
    push_literal(out, base);
    out.append(", path: ");
    push_literal(out, path);
    out.append(", handler: ");
    out.append(factory);
    out.append(", }); ");
    assert(out@ =~= old(out)@ + descriptor_text(verb@, base@, path@, factory@));
}

/// Appends the registration of the `idx`-th route.
fn push_registration(
    out: &mut String,
    m: &MethodModel,
    verb: HttpVerb,
    path: &str,
    idx: usize,
    self_ty: &str,
    base: &str,
)
    requires
        attrs_ok(m.attrs@),
    ensures
        final(out)@ == old(out)@ + registration_text(*m, verb, path@, idx as nat, self_ty@, base@),
{
    let factory = route_factory_name(self_ty, m.name.as_str(), idx);
    assert(factory@ =~= factory_name(self_ty@, m.name@, idx as nat));
    out.append("#[allow(non_snake_case)] fn ");
    out.append(factory.as_str());
    out.append(
        "(_c: &::ravix_app::framework::ContainerRef) -> ::axum::routing::MethodRouter<::ravix_app::framework::ContainerRef> { ",
    );
    let ghost head = out@;
    push_routing(out, m, verb, self_ty);
    push_layers(out, &m.attrs);
    let ghost body = out@;
    assert(body == head + routing_text(*m, verb, self_ty@) + layers_text(m.attrs@, m.attrs@.len()));
    push_descriptor(out, verb.as_str(), base, path, factory.as_str());
    assert(out@ =~= old(out)@ + registration_text(*m, verb, path@, idx as nat, self_ty@, base@));
}

/// The route of a method, when its attributes are well formed.
fn route_of(m: &MethodModel) -> (r: Option<(HttpVerb, &String)>)
    requires
        attrs_ok(m.attrs@),
    ensures
        match r {
            Some((v, p)) => method_route(*m) == Some((v, p@)),
            None => method_route(*m) is None,
        },
{
    let mut names: Vec<String> = Vec::new();
    let mut i: usize = 0;
    while i < m.attrs.len()
        invariant
            i <= m.attrs@.len(),
            names@ == attr_names(m.attrs@).subrange(0, i as int),
        decreases m.attrs@.len() - i,
    {
        names.push(m.attrs[i].name.clone());
        assert(names@ =~= attr_names(m.attrs@).subrange(0, i + 1));
        i = i + 1;
    }
    assert(names@ =~= attr_names(m.attrs@));
    let plan = crate::routes::plan_attributes(&names);
    match plan.route {
        Some((k, v)) => {
            proof {
                assert(m.attrs@.len() <= usize::MAX);
                lemma_last_route_in_range(attr_names(m.attrs@), m.attrs@.len());
                assert(attribute_meaning(m.attrs@[k as int].name@) is Route);
            }
            match &m.attrs[k].literal {
                Some(p) => Some((v, p)),
                None => None,
            }
        },
        None => None,
    }
}

/// The last route among the first `n` names stands among them, and is a
/// route attribute.
proof fn lemma_last_route_in_range(names: Seq<String>, n: nat)
    requires
        n <= names.len(),
        n <= usize::MAX,
    ensures
        match last_route(names, n) {
            Some((k, v)) => k < n && attribute_meaning(names[k as int]@) == MethodAttribute::Route(v),
            None => true,
        },
    decreases n,
{
    if n > 0 {
        lemma_last_route_in_range(names, (n - 1) as nat);
    }
}

/// Expand `#[controller(base)]` on the block `m`. A route attribute that
/// does not give a string, or a middleware attribute that does not name a
/// function, is refused.
pub fn expand_controller(base: &str, m: &ImplModel) -> (r: Result<String, ExpandError>)
    ensures
        model_ok(m.items@) <==> r is Ok,
        r is Ok ==> r->Ok_0@ == controller_expansion(base@, *m),
{
    let n = m.items.len();
    let mut i: usize = 0;
    while i < n
        invariant
            n == m.items@.len(),
            i <= n,
            forall|j: int|
                0 <= j < i ==> match #[trigger] m.items@[j] {
                    ItemModel::Method(mm) => attrs_ok(mm.attrs@),
                    ItemModel::Other(_) => true,
                },
        decreases n - i,
    {
        match &m.items[i] {
            ItemModel::Method(mm) => {
                let mut k: usize = 0;
                while k < mm.attrs.len()
                    invariant
                        k <= mm.attrs@.len(),
                        i < n,
                        n == m.items@.len(),
                        m.items@[i as int] == ItemModel::Method(*mm),
                        forall|a: int|
                            0 <= a < k ==> (attribute_meaning(#[trigger] mm.attrs@[a].name@) is Route
                                ==> mm.attrs@[a].literal is Some) && (attribute_meaning(
                                mm.attrs@[a].name@,
                            ) is Middleware ==> mm.attrs@[a].path is Some),
                    decreases mm.attrs@.len() - k,
                {
                    match classify_name(&mm.attrs[k].name) {
                        MethodAttribute::Route(_) => {
                            if mm.attrs[k].literal.is_none() {
                                proof {
                                    assert(!attrs_ok(mm.attrs@));
                                    assert(m.items@[i as int] == ItemModel::Method(*mm));
                                    if model_ok(m.items@) {
                                        let it = m.items@[i as int];
                                        assert(match it {
                                            ItemModel::Method(x) => attrs_ok(x.attrs@),
                                            ItemModel::Other(_) => true,
                                        });
                                    }
                                }
                                return Err(ExpandError::RouteNeedsPath(mm.name.clone()));
                            }
                        },
                        MethodAttribute::Middleware => {
                            if mm.attrs[k].path.is_none() {
                                proof {
                                    assert(!attrs_ok(mm.attrs@));
                                    assert(m.items@[i as int] == ItemModel::Method(*mm));
                                    if model_ok(m.items@) {
                                        let it = m.items@[i as int];
                                        assert(match it {
                                            ItemModel::Method(x) => attrs_ok(x.attrs@),
                                            ItemModel::Other(_) => true,
                                        });
                                    }
                                }
                                return Err(ExpandError::MiddlewareNeedsPath(mm.name.clone()));
                            }
                        },
                        MethodAttribute::Other => {},
                    }
                    k = k + 1;
                }
            },
            ItemModel::Other(_) => {},
        }
        i = i + 1;
    }
    assert(model_ok(m.items@));
    let mut out = m.header.clone();
    out.append(" { ");
    let ghost head = out@;
    let mut i: usize = 0;
    while i < n
        invariant
            n == m.items@.len(),
            i <= n,
            out@ == head + items_text(m.items@, i as nat),
        decreases n - i,
    {
        match &m.items[i] {
            ItemModel::Method(mm) => {
                push_kept(&mut out, &mm.attrs);
                out.append(mm.rest.as_str());
            },
            ItemModel::Other(t) => {
                out.append(t.as_str());
            },
        }
        out.append(" ");
        assert(out@ =~= head + items_text(m.items@, (i + 1) as nat));
        i = i + 1;
    }
    out.append("} ");
    let ghost mid = out@;
    let mut count: usize = 0;
    let mut i: usize = 0;
    while i < n
        invariant
            n == m.items@.len(),
            i <= n,
            model_ok(m.items@),
            count == route_count(m.items@, i as nat),
            count <= i,
            out@ == mid + registrations_text(m.items@, i as nat, m.self_ty@, base@),
        decreases n - i,
    {
        match &m.items[i] {
            ItemModel::Method(mm) => {
                assert(attrs_ok(mm.attrs@));
                match route_of(mm) {
                    Some((v, p)) => {
                        push_registration(&mut out, mm, v, p.as_str(), count, m.self_ty.as_str(), base);
                        count = count + 1;
                    },
                    None => {},
                }
            },
            ItemModel::Other(_) => {},
        }
        assert(out@ =~= mid + registrations_text(m.items@, (i + 1) as nat, m.self_ty@, base@));
        i = i + 1;
    }
    assert(out@ =~= controller_expansion(base@, *m));
    Ok(out)
}


/// The form of a field attribute's arguments.
pub enum AttrForm {
    /// No arguments: `#[inject]`.
    Bare,
    /// Arguments in parentheses, as source text: `#[inject(optional)]`.
    List(String),
    /// Any other form, such as `#[doc = "..."]`.
    Other,
}

/// One attribute of a struct field.
pub struct FieldAttr {
    /// The attribute's path when it is a single identifier.
    pub ident: Option<String>,
    /// The whole attribute, as source text.
    pub text: String,
    pub form: AttrForm,
}

/// One named field of an injectable struct.
pub struct FieldModel {
    pub name: String,
    /// Its type, as source text.
    pub ty: String,
    /// The `T` of a field of type `Option<T>`, as source text.
    pub option_inner: Option<String>,
    /// Its attributes, in order.
    pub attrs: Vec<FieldAttr>,
    /// The field without its attributes, as source text.
    pub rest: String,
}

/// An injectable struct.
pub struct StructModel {
    pub name: String,
    /// The struct up to the brace of its fields, as source text.
    pub header: String,
    /// Its named fields; `None` for a struct without named fields.
    pub fields: Option<Vec<FieldModel>>,
    /// The whole struct, as source text.
    pub whole: String,
}

/// Why an `#[injectable]` struct cannot be expanded; each variant holds
/// the field's type as source text.
pub enum InjectableError {
    /// `#[inject(optional)]` on a field whose type is not `Option<...>`.
    OptionalNeedsOption(String),
    /// `#[inject(optional, name = "...")]` on a field whose type is not
    /// `Option<...>`.
    OptionalNamedNeedsOption(String),
}

/// The message for an optional field of type `ty` that is not `Option`,
/// `named` when the attribute also names the binding.
pub open spec fn optional_error_text(named: bool, ty: Seq<char>) -> Seq<char> {
    (if named {
        "#[inject(optional, name = \"...\")] requires the field type to be Option<...>, but `"@
    } else {
        "#[inject(optional)] requires the field type to be Option<...>, but `"@
    }) + ty + "` is not Option"@
}

impl InjectableError {
    /// The message of the error.
    pub open spec fn text(self) -> Seq<char> {
        match self {
            InjectableError::OptionalNeedsOption(t) => optional_error_text(false, t@),
            InjectableError::OptionalNamedNeedsOption(t) => optional_error_text(true, t@),
        }
    }

    /// The message of the error.
    pub fn message(&self) -> (r: String)
        ensures
            r@ == self.text(),
    {
        let (mut m, t) = match self {
            InjectableError::OptionalNeedsOption(t) => (
                "#[inject(optional)] requires the field type to be Option<...>, but `".to_string(),
                t,
            ),
            InjectableError::OptionalNamedNeedsOption(t) => (
                "#[inject(optional, name = \"...\")] requires the field type to be Option<...>, but `".to_string(),
                t,
            ),
        };
        m.append(t.as_str());
        m.append("` is not Option");
        m
    }
}

/// Whether the attribute is `#[inject ...]`.
pub open spec fn is_inject(a: FieldAttr) -> bool {
    a.ident is Some && a.ident->0@ == "inject"@
}

/// The options of the first usable `#[inject]` attribute among the first
/// `n`: `None` without one, otherwise whether the field is optional and
/// the name of its binding, if any.
pub open spec fn first_injection(attrs: Seq<FieldAttr>, n: nat) -> Option<(bool, Option<Seq<char>>)>
    decreases n,
{
    if n == 0 {
        None
    } else {
        let earlier = first_injection(attrs, (n - 1) as nat);
        if earlier is Some {
            earlier
        } else if is_inject(attrs[n - 1]) {
            match attrs[n - 1].form {
                AttrForm::Bare => Some((false, None)),
                AttrForm::List(t) => Some(inject_options_of(t@)),
                AttrForm::Other => None,
            }
        } else {
            None
        }
    }
}

/// How a field is injected.
pub open spec fn injection_of(f: FieldModel) -> Option<(bool, Option<Seq<char>>)> {
    first_injection(f.attrs@, f.attrs@.len())
}

/// Whether the field is marked optional but its type is not `Option<...>`.
pub open spec fn needs_option(f: FieldModel) -> bool {
    &&& injection_of(f) matches Some((optional, _)) && optional
    &&& f.option_inner is None
}

/// The message for a field that `needs_option`.
pub open spec fn field_error_text(f: FieldModel) -> Seq<char> {
    optional_error_text(injection_of(f) matches Some((_, Some(_))), f.ty@)
}

/// Whether every optional field has an `Option` type.
pub open spec fn fields_ok(fields: Seq<FieldModel>) -> bool {
    forall|i: int| 0 <= i < fields.len() ==> !needs_option(#[trigger] fields[i])
}

/// The non-`inject` attributes among the first `n`, each followed by a space.
pub open spec fn kept_field_attrs(attrs: Seq<FieldAttr>, n: nat) -> Seq<char>
    decreases n,
{
    if n == 0 {
        Seq::empty()
    } else {
        kept_field_attrs(attrs, (n - 1) as nat) + if is_inject(attrs[n - 1]) {
            Seq::empty()
        } else {
            attrs[n - 1].text@ + " "@
        }
    }
}

/// The first `n` fields without their `inject` attributes.
pub open spec fn fields_text(fields: Seq<FieldModel>, n: nat) -> Seq<char>
    decreases n,
{
    if n == 0 {
        Seq::empty()
    } else {
        fields_text(fields, (n - 1) as nat) + kept_field_attrs(fields[n - 1].attrs@, fields[n
            - 1].attrs@.len()) + fields[n - 1].rest@ + ", "@
    }
}

/// How `construct` fills a field: the default value without `#[inject]`;
/// the value bound to its type, or under its name; for an optional field
/// the same lookups of the inner type, which give `None` when nothing is
/// bound.
pub open spec fn assignment_text(f: FieldModel) -> Seq<char> {
    match injection_of(f) {
        None => f.name@ + ": ::std::default::Default::default(), "@,
        Some((false, None)) => f.name@ + ": ::ravix_app::framework::ContainerExt::resolve_typed::<"@
            + f.ty@ + ">(container), "@,
        Some((true, None)) => f.name@ + ": ::ravix_app::framework::ContainerExt::try_resolve_typed::<"@
            + f.option_inner->0@ + ">(container), "@,
        Some((false, Some(n))) => f.name@
            + ": ::ravix_app::framework::ContainerExt::resolve_named_typed::<"@ + f.ty@
            + ">(container, "@ + literal(n) + "), "@,
        Some((true, Some(n))) => f.name@
            + ": ::ravix_app::framework::ContainerExt::try_resolve_named_typed::<"@
            + f.option_inner->0@ + ">(container, "@ + literal(n) + "), "@,
    }
}

/// How `construct` fills a field, by its `#[inject]` options: a field
/// without one gets its default; a required field the value bound to its
/// own type (or under its name); an optional field looks up the type inside
/// its `Option`, by type (or under its name), so that it stays `None` when
/// nothing is bound.
pub proof fn law_field_filled_by_its_options(f: FieldModel)
    ensures
        injection_of(f) is None ==> assignment_text(f) == f.name@ + ": ::std::default::Default::default(), "@,
        injection_of(f) == Some::<(bool, Option<Seq<char>>)>((false, None)) ==> assignment_text(f) == f.name@
            + ": ::ravix_app::framework::ContainerExt::resolve_typed::<"@ + f.ty@ + ">(container), "@,
        injection_of(f) == Some::<(bool, Option<Seq<char>>)>((true, None)) ==> assignment_text(f) == f.name@
            + ": ::ravix_app::framework::ContainerExt::try_resolve_typed::<"@ + f.option_inner->0@
            + ">(container), "@,
        forall|n: Seq<char>|
            #![trigger literal(n)]
            injection_of(f) == Some::<(bool, Option<Seq<char>>)>((false, Some(n))) ==> assignment_text(f) == f.name@
                + ": ::ravix_app::framework::ContainerExt::resolve_named_typed::<"@ + f.ty@
                + ">(container, "@ + literal(n) + "), "@,
        forall|n: Seq<char>|
            #![trigger literal(n)]
            injection_of(f) == Some::<(bool, Option<Seq<char>>)>((true, Some(n))) ==> assignment_text(f) == f.name@
                + ": ::ravix_app::framework::ContainerExt::try_resolve_named_typed::<"@
                + f.option_inner->0@ + ">(container, "@ + literal(n) + "), "@,
{
}

/// The assignments of the first `n` fields.
pub open spec fn assignments_text(fields: Seq<FieldModel>, n: nat) -> Seq<char>
    decreases n,
{
    if n == 0 {
        Seq::empty()
    } else {
        assignments_text(fields, (n - 1) as nat) + assignment_text(fields[n - 1])
    }
}

/// For a field with a required unnamed binding, the check submitted for
/// start-up that its type is bound; nothing for other fields.
pub open spec fn submission_text(f: FieldModel) -> Seq<char> {
    if injection_of(f) == Some::<(bool, Option<Seq<char>>)>((false, None)) {
        " ::inventory::submit!(::ravix_app::framework::BindingCheck { type_text: "@ + literal(f.ty@)
            + ", check: |c: &::ravix_app::framework::DiContainer| ::ravix_app::framework::ContainerExt::check_binding::<"@
            + f.ty@ + ">(c, "@ + literal(f.ty@) + "), });"@
    } else {
        Seq::empty()
    }
}

/// The binding checks of the first `n` fields.
pub open spec fn submissions_text(fields: Seq<FieldModel>, n: nat) -> Seq<char>
    decreases n,
{
    if n == 0 {
        Seq::empty()
    } else {
        submissions_text(fields, (n - 1) as nat) + submission_text(fields[n - 1])
    }
}

/// Every field with a required, unnamed `#[inject]` gets a check of its
/// own, at its place: among the checks of the first `n` fields, the checks
/// of the fields before field `k` are followed by the check of field `k`'s
/// type; a field of another kind adds no check.
pub proof fn law_each_required_field_is_checked(fields: Seq<FieldModel>, n: nat, k: nat)
    requires
        k < n,
    ensures
        submissions_text(fields, (k + 1) as nat).len() <= submissions_text(fields, n).len(),
        injection_of(fields[k as int]) == Some::<(bool, Option<Seq<char>>)>((false, None)) ==> submissions_text(
            fields,
            n,
        ).subrange(0, submissions_text(fields, (k + 1) as nat).len() as int) == submissions_text(fields, k)
            + " ::inventory::submit!(::ravix_app::framework::BindingCheck { type_text: "@ + literal(
            fields[k as int].ty@,
        )
            + ", check: |c: &::ravix_app::framework::DiContainer| ::ravix_app::framework::ContainerExt::check_binding::<"@
            + fields[k as int].ty@ + ">(c, "@ + literal(fields[k as int].ty@) + "), });"@,
        injection_of(fields[k as int]) != Some::<(bool, Option<Seq<char>>)>((false, None)) ==> submissions_text(
            fields,
            (k + 1) as nat,
        ) == submissions_text(fields, k),
    decreases n,
{
    if n > k + 1 {
        law_each_required_field_is_checked(fields, (n - 1) as nat, k);
        let a = submissions_text(fields, (n - 1) as nat);
        assert(submissions_text(fields, n).subrange(0, submissions_text(fields, (k + 1) as nat).len() as int)
            =~= a.subrange(0, submissions_text(fields, (k + 1) as nat).len() as int));
    } else {
        assert(submissions_text(fields, n).subrange(0, submissions_text(fields, (k + 1) as nat).len() as int)
            =~= submissions_text(fields, n));
    }
}

/// The expansion of `#[injectable]` on `m`: the struct without its
/// `inject` attributes, an `Injectable` impl whose `construct` fills each
/// field, and the binding checks of its required fields.
pub open spec fn injectable_expansion(m: StructModel) -> Seq<char> {
    let (body, assigns, checks) = match m.fields {
        Some(f) => (
            m.header@ + " { "@ + fields_text(f@, f@.len()) + "} "@,
            assignments_text(f@, f@.len()),
            submissions_text(f@, f@.len()),
        ),
        None => (m.whole@ + " "@, Seq::empty(), Seq::empty()),
    };
    body + "impl ::ravix::container::Injectable<::ravix_app::framework::AnyInstance> for "@ + m.name@
        + " { fn construct(container: &::ravix_app::framework::DiContainer) -> ::std::sync::Arc<Self> { ::std::sync::Arc::new(Self { "@
        + assigns + "}) } }"@ + checks
}

/// The options as plain values.
pub open spec fn options_of(o: InjectOptions) -> (bool, Option<Seq<char>>) {
    match o {
        InjectOptions::Required => (false, None),
        InjectOptions::Optional => (true, None),
        InjectOptions::Named(n) => (false, Some(n@)),
        InjectOptions::OptionalNamed(n) => (true, Some(n@)),
    }
}

fn is_inject_attr(a: &FieldAttr) -> (r: bool)
    ensures
        r == is_inject(*a),
{
    match &a.ident {
        Some(id) => {
            proof {
                reveal_strlit("inject");
            }
            let t = "inject".to_string();
            *id == t
        },
        None => false,
    }
}

/// How a field is injected.
fn field_injection(f: &FieldModel) -> (r: Option<InjectOptions>)
    ensures
        match r {
            None => injection_of(*f) is None,
            Some(o) => injection_of(*f) == Some(options_of(o)),
        },
{
    let mut found: Option<InjectOptions> = None;
    let mut i: usize = 0;
    while i < f.attrs.len()
        invariant
            i <= f.attrs@.len(),
            match found {
                None => first_injection(f.attrs@, i as nat) is None,
                Some(o) => first_injection(f.attrs@, i as nat) == Some(options_of(o)),
            },
        decreases f.attrs@.len() - i,
    {
        if found.is_none() && is_inject_attr(&f.attrs[i]) {
            found = match &f.attrs[i].form {
                AttrForm::Bare => Some(InjectOptions::Required),
                AttrForm::List(t) => {
                    let o = parse_inject_parens(t.as_str());
                    assert(options_of(o) == inject_options_of(t@));
                    Some(o)
                },
                AttrForm::Other => None,
            };
        }
        i = i + 1;
    }
    found
}

/// Appends the fields without their `inject` attributes.
fn push_fields(out: &mut String, fields: &Vec<FieldModel>)
    ensures
        final(out)@ == old(out)@ + fields_text(fields@, fields@.len()),
{
    let mut i: usize = 0;
    while i < fields.len()
        invariant
            i <= fields@.len(),
            out@ == old(out)@ + fields_text(fields@, i as nat),
        decreases fields@.len() - i,
    {
        let f = &fields[i];
        let ghost start = out@;
        let mut k: usize = 0;
        while k < f.attrs.len()
            invariant
                k <= f.attrs@.len(),
                out@ == start + kept_field_attrs(f.attrs@, k as nat),
            decreases f.attrs@.len() - k,
        {
            if !is_inject_attr(&f.attrs[k]) {
                out.append(f.attrs[k].text.as_str());
                out.append(" ");
            }
            assert(out@ =~= start + kept_field_attrs(f.attrs@, (k + 1) as nat));
            k = k + 1;
        }
        out.append(f.rest.as_str());
        out.append(", ");
        assert(out@ =~= old(out)@ + fields_text(fields@, (i + 1) as nat));
        i = i + 1;
    }
}

/// Appends the binding check of a field of type `ty`.
fn push_submission(out: &mut String, ty: &str)
    ensures
        final(out)@ == old(out)@ + " ::inventory::submit!(::ravix_app::framework::BindingCheck { type_text: "@
            + literal(ty@)
            + ", check: |c: &::ravix_app::framework::DiContainer| ::ravix_app::framework::ContainerExt::check_binding::<"@
            + ty@ + ">(c, "@ + literal(ty@) + "), });"@,
{
    out.append(" ::inventory::submit!(::ravix_app::framework::BindingCheck { type_text: ");
    push_literal(out, ty);
    out.append(
        ", check: |c: &::ravix_app::framework::DiContainer| ::ravix_app::framework::ContainerExt::check_binding::<",
    );
    out.append(ty);
    out.append(">(c, ");
    push_literal(out, ty);
    out.append("), });");
}

/// Expand `#[injectable]` on `m`. The first field marked optional whose
/// type is not `Option<...>` is refused with its message.
pub fn expand_injectable(m: &StructModel) -> (r: Result<String, InjectableError>)
    ensures
        r is Ok <==> match m.fields {
            Some(f) => fields_ok(f@),
            None => true,
        },
        r is Ok ==> r->Ok_0@ == injectable_expansion(*m),
        r is Err ==> m.fields is Some && exists|i: int|
            0 <= i < m.fields->0@.len() && needs_option(#[trigger] m.fields->0@[i]) && (forall|j: int|
                0 <= j < i ==> !needs_option(#[trigger] m.fields->0@[j])) && r->Err_0.text()
                == field_error_text(m.fields->0@[i]),
{
    let mut assigns = String::new();
    let mut checks = String::new();
    let mut out = String::new();
    match &m.fields {
        Some(fields) => {
            let mut i: usize = 0;
            while i < fields.len()
                invariant
                    i <= fields@.len(),
                    m.fields == Some(*fields),
                    assigns@ == assignments_text(fields@, i as nat),
                    checks@ == submissions_text(fields@, i as nat),
                    forall|j: int| 0 <= j < i ==> !needs_option(#[trigger] fields@[j]),
                decreases fields@.len() - i,
            {
                let f = &fields[i];
                let inj = field_injection(f);
                match inj {
                    None => {
                        assigns.append(f.name.as_str());
                        assigns.append(": ::std::default::Default::default(), ");
                    },
                    Some(InjectOptions::Required) => {
                        assigns.append(f.name.as_str());
                        assigns.append(": ::ravix_app::framework::ContainerExt::resolve_typed::<");
                        assigns.append(f.ty.as_str());
                        assigns.append(">(container), ");
                        push_submission(&mut checks, f.ty.as_str());
                    },
                    Some(InjectOptions::Named(n)) => {
                        assigns.append(f.name.as_str());
                        assigns.append(
                            ": ::ravix_app::framework::ContainerExt::resolve_named_typed::<",
                        );
                        assigns.append(f.ty.as_str());
                        assigns.append(">(container, ");
                        push_literal(&mut assigns, n.as_str());
                        assigns.append("), ");
                    },
                    Some(InjectOptions::Optional) => match &f.option_inner {
                        Some(inner) => {
                            assigns.append(f.name.as_str());
                            assigns.append(
                                ": ::ravix_app::framework::ContainerExt::try_resolve_typed::<",
                            );
                            assigns.append(inner.as_str());
                            assigns.append(">(container), ");
                        },
                        None => {
                            let e = InjectableError::OptionalNeedsOption(f.ty.clone());
                            assert(needs_option(fields@[i as int]));
                            assert(e.text() == field_error_text(fields@[i as int]));
                            assert(m.fields->0@ == fields@);
                            return Err(e);
                        },
                    },
                    Some(InjectOptions::OptionalNamed(n)) => match &f.option_inner {
                        Some(inner) => {
                            assigns.append(f.name.as_str());
                            assigns.append(
                                ": ::ravix_app::framework::ContainerExt::try_resolve_named_typed::<",
                            );
                            assigns.append(inner.as_str());
                            assigns.append(">(container, ");
                            push_literal(&mut assigns, n.as_str());
                            assigns.append("), ");
                        },
                        None => {
                            let e = InjectableError::OptionalNamedNeedsOption(f.ty.clone());
                            assert(needs_option(fields@[i as int]));
                            assert(e.text() == field_error_text(fields@[i as int]));
                            assert(m.fields->0@ == fields@);
                            return Err(e);
                        },
                    },
                }
                assert(assigns@ =~= assignments_text(fields@, (i + 1) as nat));
                assert(checks@ =~= submissions_text(fields@, (i + 1) as nat));
                i = i + 1;
            }
            out.append(m.header.as_str());
            out.append(" { ");
            push_fields(&mut out, fields);
            out.append("} ");
        },
        None => {
            out.append(m.whole.as_str());
            out.append(" ");
        },
    }
    out.append("impl ::ravix::container::Injectable<::ravix_app::framework::AnyInstance> for ");
    out.append(m.name.as_str());
    out.append(
        " { fn construct(container: &::ravix_app::framework::DiContainer) -> ::std::sync::Arc<Self> { ::std::sync::Arc::new(Self { ",
    );
    out.append(assigns.as_str());
    out.append("}) } }");
    out.append(checks.as_str());
    assert(out@ =~= injectable_expansion(*m));
    Ok(out)
}

} // verus!
