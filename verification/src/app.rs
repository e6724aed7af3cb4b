use std::sync::Arc;
use vstd::prelude::*;
use crate::container::{Container, ContainerRef};

verus! {

/// Cross-origin resource sharing settings. A list that is `None` allows
/// any value.
pub struct CorsConfig {
    pub allow_origins: Option<Vec<String>>,
    pub allow_methods: Option<Vec<String>>,
    pub allow_headers: Option<Vec<String>>,
    pub expose_headers: Vec<String>,
    /// Seconds a browser may cache a preflight response.
    pub max_age: Option<u64>,
    pub allow_credentials: bool,
}

/// Why a CORS configuration cannot be applied.
#[derive(PartialEq, Eq, Structural, Debug)]
pub enum CorsError {
    /// Credentials were allowed together with any origin.
    CredentialsWithAnyOrigin,
    /// Credentials were allowed together with any header.
    CredentialsWithAnyHeader,
}


/// The items of a header list separated by `, `.
pub open spec fn joined(items: Seq<Seq<char>>) -> Seq<char>
    decreases items.len(),
{
    if items.len() == 0 {
        Seq::empty()
    } else if items.len() == 1 {
        items[0]
    } else {
        joined(items.drop_last()) + seq![',', ' '] + items.last()
    }
}

/// The texts of a list of strings.
pub open spec fn texts(v: Seq<String>) -> Seq<Seq<char>> {
    v.map_values(|s: String| s@)
}

/// The value of a header that lists what is allowed: `*` when anything is
/// allowed, otherwise the listed items.
pub open spec fn list_value(list: Option<Vec<String>>) -> Seq<char> {
    match list {
        None => seq!['*'],
        Some(v) => joined(texts(v@)),
    }
}

/// Joins strings with `, `.
fn join_list(items: &Vec<String>) -> (r: String)
    ensures
        r@ == joined(texts(items@)),
{
    let mut out = String::new();
    let mut i: usize = 0;
    proof {
        assert(texts(items@.subrange(0, 0)) =~= Seq::<Seq<char>>::empty());
    }
    while i < items.len()
        invariant
            i <= items@.len(),
            out@ == joined(texts(items@.subrange(0, i as int))),
        decreases items@.len() - i,
    {
        let ghost before = texts(items@.subrange(0, i as int));
        let ghost after = texts(items@.subrange(0, i + 1));
        proof {
            assert(after =~= before.push(items@[i as int]@));
            assert(after.drop_last() =~= before);
        }
        if i > 0 {
            proof {
                reveal_strlit(", ");
            }
            out.append(", ");
        }
        out.append(items[i].as_str());
        proof {
            if i == 0 {
                assert(before.len() == 0);
                assert(out@ =~= joined(after));
            } else {
                assert(out@ =~= joined(after));
            }
        }
        i = i + 1;
    }
    proof {
        assert(items@.subrange(0, items@.len() as int) =~= items@);
    }
    out
}

impl CorsConfig {
    /// Start a configuration that allows anything and no credentials.
    pub fn builder() -> (b: CorsConfigBuilder)
        ensures
            b.config.allow_origins is None,
            b.config.allow_methods is None,
            b.config.allow_headers is None,
            b.config.expose_headers@.len() == 0,
            b.config.max_age is None,
            !b.config.allow_credentials,
    {
        CorsConfigBuilder {
            config: CorsConfig {
                allow_origins: None,
                allow_methods: None,
                allow_headers: None,
                expose_headers: Vec::new(),
                max_age: None,
                allow_credentials: false,
            },
        }
    }

    /// The `Access-Control-Allow-Origin` value for a request from `origin`:
    /// `*` when any origin is allowed, the origin itself when it is listed,
    /// and none otherwise.
    pub open spec fn allowed_origin_spec(self, origin: Option<Seq<char>>) -> Option<Seq<char>> {
        match self.allow_origins {
            None => Some(seq!['*']),
            Some(list) => match origin {
                Some(o) => if texts(list@).contains(o) {
                    Some(o)
                } else {
                    None
                },
                None => None,
            },
        }
    }

    /// The `Access-Control-Allow-Origin` value for a request from `origin`.
    pub fn allowed_origin(&self, origin: Option<&str>) -> (r: Option<String>)
        ensures
            match r {
                Some(v) => self.allowed_origin_spec(
                    match origin {
                        Some(o) => Some(o@),
                        None => None,
                    },
                ) == Some(v@),
                None => self.allowed_origin_spec(
                    match origin {
                        Some(o) => Some(o@),
                        None => None,
                    },
                ) is None,
            },
    {
        match &self.allow_origins {
            None => {
                proof {
                    reveal_strlit("*");
                }
                Some("*".to_string())
            },
            Some(list) => match origin {
                None => None,
                Some(o) => {
                    let target = o.to_string();
                    let mut i: usize = 0;
                    while i < list.len()
                        invariant
                            i <= list@.len(),
                            target@ == o@,
                            self.allow_origins == Some(*list),
                            origin == Some(o),
                            forall|j: int| 0 <= j < i ==> list@[j]@ != o@,
                        decreases list@.len() - i,
                    {
                        if list[i] == target {
                            proof {
                                assert(list@[i as int]@ == o@);
                                assert(texts(list@)[i as int] == o@);
                                assert(texts(list@).contains(o@));
                            }
                            return Some(target);
                        }
                        i = i + 1;
                    }
                    proof {
                        assert forall|j: int| 0 <= j < texts(list@).len() implies texts(list@)[j] != o@ by {
                            assert(list@[j]@ != o@);
                        }
                    }
                    None
                },
            },
        }
    }

    /// The `Access-Control-Allow-Methods` value of a preflight response.
    pub fn methods_value(&self) -> (r: String)
        ensures
            r@ == list_value(self.allow_methods),
    {
        match &self.allow_methods {
            None => {
                proof {
                    reveal_strlit("*");
                }
                "*".to_string()
            },
            Some(v) => join_list(v),
        }
    }

    /// The `Access-Control-Allow-Headers` value of a preflight response.
    pub fn headers_value(&self) -> (r: String)
        ensures
            r@ == list_value(self.allow_headers),
    {
        match &self.allow_headers {
            None => {
                proof {
                    reveal_strlit("*");
                }
                "*".to_string()
            },
            Some(v) => join_list(v),
        }
    }

    /// The `Access-Control-Expose-Headers` value, sent when the list is not
    /// empty.
    pub fn expose_value(&self) -> (r: Option<String>)
        ensures
            self.expose_headers@.len() == 0 ==> r is None,
            self.expose_headers@.len() > 0 ==> r is Some && r->0@ == joined(texts(self.expose_headers@)),
    {
        if self.expose_headers.len() == 0 {
            None
        } else {
            Some(join_list(&self.expose_headers))
        }
    }

    /// Check the configuration: allowing credentials requires explicit
    /// origins and explicit headers, since a wildcard cannot be combined
    /// with credentials.
    pub fn validate(&self) -> (r: Result<(), CorsError>)
        ensures
            r == if self.allow_credentials && self.allow_origins is None {
                Err(CorsError::CredentialsWithAnyOrigin)
            } else if self.allow_credentials && self.allow_headers is None {
                Err(CorsError::CredentialsWithAnyHeader)
            } else {
                Ok(())
            },
    {
        if self.allow_credentials && self.allow_origins.is_none() {
            Err(CorsError::CredentialsWithAnyOrigin)
        } else if self.allow_credentials && self.allow_headers.is_none() {
            Err(CorsError::CredentialsWithAnyHeader)
        } else {
            Ok(())
        }
    }
}

/// Fluent builder for [`CorsConfig`].
pub struct CorsConfigBuilder {
    pub config: CorsConfig,
}

impl CorsConfigBuilder {
    pub fn allow_origins(self, origins: Vec<String>) -> (b: Self)
        ensures
            b.config == (CorsConfig { allow_origins: Some(origins), ..self.config }),
    {
        CorsConfigBuilder { config: CorsConfig { allow_origins: Some(origins), ..self.config } }
    }

    pub fn allow_methods(self, methods: Vec<String>) -> (b: Self)
        ensures
            b.config == (CorsConfig { allow_methods: Some(methods), ..self.config }),
    {
        CorsConfigBuilder { config: CorsConfig { allow_methods: Some(methods), ..self.config } }
    }

    pub fn allow_headers(self, headers: Vec<String>) -> (b: Self)
        ensures
            b.config == (CorsConfig { allow_headers: Some(headers), ..self.config }),
    {
        CorsConfigBuilder { config: CorsConfig { allow_headers: Some(headers), ..self.config } }
    }

    pub fn expose_headers(self, headers: Vec<String>) -> (b: Self)
        ensures
            b.config == (CorsConfig { expose_headers: headers, ..self.config }),
    {
        CorsConfigBuilder { config: CorsConfig { expose_headers: headers, ..self.config } }
    }

    pub fn max_age(self, seconds: u64) -> (b: Self)
        ensures
            b.config == (CorsConfig { max_age: Some(seconds), ..self.config }),
    {
        CorsConfigBuilder { config: CorsConfig { max_age: Some(seconds), ..self.config } }
    }

    pub fn allow_credentials(self) -> (b: Self)
        ensures
            b.config == (CorsConfig { allow_credentials: true, ..self.config }),
    {
        CorsConfigBuilder { config: CorsConfig { allow_credentials: true, ..self.config } }
    }

    pub fn build(self) -> (c: CorsConfig)
        ensures
            c == self.config,
    {
        self.config
    }
}

/// A global middleware pipeline. Layers apply in registration order: the
/// first added runs closest to the handler, the last added wraps the rest.
pub struct MiddlewareChain<L> {
    layers: Vec<L>,
}

impl<L> MiddlewareChain<L> {
    /// The layers, innermost first.
    pub closed spec fn view(&self) -> Seq<L> {
        self.layers@
    }

    /// An empty pipeline.
    pub fn new() -> (c: Self)
        ensures
            c@.len() == 0,
    {
        MiddlewareChain { layers: Vec::new() }
    }

    /// Add `layer` outside all the layers added so far.
    pub fn add_layer(self, layer: L) -> (c: Self)
        ensures
            c@ == self@.push(layer),
    {
        let mut layers = self.layers;
        layers.push(layer);
        MiddlewareChain { layers }
    }

    /// The layers in the order they are applied, innermost first.
    pub fn into_layers(self) -> (r: Vec<L>)
        ensures
            r@ == self@,
    {
        self.layers
    }
}

/// The top-level application builder: the container, the optional CORS
/// settings, the optional global middleware and the optional route prefix.
pub struct App<V, L> {
    container: Option<ContainerRef<V>>,
    cors: Option<Arc<CorsConfig>>,
    middleware: Option<MiddlewareChain<L>>,
    base_path: Option<String>,
}

impl<V, L> Default for App<V, L> {
    fn default() -> (a: Self)
        ensures
            a.parts_spec().container is None,
            a.parts_spec().cors is None,
            a.parts_spec().middleware is None,
            a.parts_spec().base_path is None,
    {
        App { container: None, cors: None, middleware: None, base_path: None }
    }
}

/// The parts of a configured application, handed to the server.
pub struct AppParts<V, L> {
    pub container: Option<ContainerRef<V>>,
    pub cors: Option<Arc<CorsConfig>>,
    pub middleware: Option<MiddlewareChain<L>>,
    pub base_path: Option<String>,
}

impl<V, L> App<V, L> {
    pub closed spec fn parts_spec(&self) -> AppParts<V, L> {
        AppParts {
            container: self.container,
            cors: self.cors,
            middleware: self.middleware,
            base_path: self.base_path,
        }
    }

    /// An application with nothing configured.
    pub fn new() -> (a: Self)
        ensures
            a.parts_spec().container is None,
            a.parts_spec().cors is None,
            a.parts_spec().middleware is None,
            a.parts_spec().base_path is None,
    {
        App { container: None, cors: None, middleware: None, base_path: None }
    }

    /// Attach a container, shared behind an `Arc`.
    pub fn container(self, container: Container<V>) -> (a: Self)
        ensures
            a.parts_spec() == (AppParts { container: Some(Arc::new(container)), ..self.parts_spec() }),
    {
        App { container: Some(Arc::new(container)), ..self }
    }

    /// Attach an already shared container.
    pub fn container_ref(self, container: ContainerRef<V>) -> (a: Self)
        ensures
            a.parts_spec() == (AppParts { container: Some(container), ..self.parts_spec() }),
    {
        App { container: Some(container), ..self }
    }

    /// Apply CORS to every route.
    pub fn cors(self, cors: CorsConfig) -> (a: Self)
        ensures
            a.parts_spec() == (AppParts { cors: Some(Arc::new(cors)), ..self.parts_spec() }),
    {
        App { cors: Some(Arc::new(cors)), ..self }
    }

    /// Attach a global middleware pipeline.
    pub fn middleware(self, chain: MiddlewareChain<L>) -> (a: Self)
        ensures
            a.parts_spec() == (AppParts { middleware: Some(chain), ..self.parts_spec() }),
    {
        App { middleware: Some(chain), ..self }
    }

    /// Prefix every route with `path` (e.g. `"/api/v1"`).
    pub fn base_path(self, path: &str) -> (a: Self)
        ensures
            a.parts_spec().base_path is Some,
            a.parts_spec().base_path->0@ == path@,
            a.parts_spec().container == self.parts_spec().container,
            a.parts_spec().cors == self.parts_spec().cors,
            a.parts_spec().middleware == self.parts_spec().middleware,
    {
        App { base_path: Some(path.to_string()), ..self }
    }

    /// The configured parts, for building the server.
    pub fn into_parts(self) -> (p: AppParts<V, L>)
        ensures
            p == self.parts_spec(),
    {
        AppParts {
            container: self.container,
            cors: self.cors,
            middleware: self.middleware,
            base_path: self.base_path,
        }
    }
}


/// The layers of a chain with `layers` after `adds` are added one by one
/// with [`MiddlewareChain::add_layer`].
pub open spec fn after_adding<L>(layers: Seq<L>, adds: Seq<L>) -> Seq<L>
    decreases adds.len(),
{
    if adds.len() == 0 {
        layers
    } else {
        after_adding(layers, adds.drop_last()).push(adds.last())
    }
}

/// Middleware layers keep their registration order: adding layers one by
/// one leaves the earlier layers where they were (innermost) and puts the
/// `i`-th added layer right after them and after every layer added before
/// it, so the last added is the outermost.
pub proof fn law_layers_in_registration_order<L>(layers: Seq<L>, adds: Seq<L>)
    ensures
        after_adding(layers, adds).len() == layers.len() + adds.len(),
        forall|i: int| 0 <= i < layers.len() ==> after_adding(layers, adds)[i] == layers[i],
        forall|i: int|
            0 <= i < adds.len() ==> after_adding(layers, adds)[layers.len() + i] == adds[i],
    decreases adds.len(),
{
    if adds.len() > 0 {
        let prefix = adds.drop_last();
        law_layers_in_registration_order(layers, prefix);
        assert forall|i: int| 0 <= i < adds.len() implies after_adding(layers, adds)[layers.len()
            + i] == adds[i] by {
            if i < adds.len() - 1 {
                assert(after_adding(layers, prefix)[layers.len() + i] == prefix[i]);
            }
        }
    }
}

} // verus!
