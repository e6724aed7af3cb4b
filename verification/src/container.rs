use std::any::TypeId;
use std::sync::Arc;
use vstd::prelude::*;

verus! {

/// `TypeId` is opaque to Verus: it is carried as a key and compared with
/// [`same_key`].
#[verifier::external_type_specification]
#[verifier::external_body]
pub struct ExTypeId(TypeId);

/// Compares two type keys with `TypeId`'s `==`.
///
/// Trusted: `TypeId`'s `PartialEq` compares the identifiers themselves, so
/// two keys compare equal exactly when they are the same value.
#[verifier::external_body]
fn same_key(a: &TypeId, b: &TypeId) -> (r: bool)
    ensures
        r == (*a == *b),
{
    a == b
}

/// Singleton dependency-injection container.
///
/// Each type key holds at most one instance. The container is generic over
/// the stored value `V`; the application instantiates it with a type-erased
/// box and keys each entry by the `TypeId` of the registered type.
pub struct Container<V> {
    keys: Vec<TypeId>,
    values: Vec<V>,
    bindings: Ghost<Map<TypeId, V>>,
    named_keys: Vec<(TypeId, String)>,
    named_values: Vec<V>,
    named: Ghost<Map<(TypeId, Seq<char>), V>>,
}

/// A shared, reference-counted handle to a built [`Container`].
pub type ContainerRef<V> = Arc<Container<V>>;

impl<V> Container<V> {
    /// The bindings of the container: each registered key and its instance.
    pub closed spec fn view(&self) -> Map<TypeId, V> {
        self.bindings@
    }

    /// The named bindings: each registered type key and name, and its
    /// instance.
    pub closed spec fn named_view(&self) -> Map<(TypeId, Seq<char>), V> {
        self.named@
    }

    /// The named part of well-formedness: the two vectors line up, no key
    /// and name occur twice, and the ghost map is what the vectors hold.
    pub closed spec fn named_wf(&self) -> bool {
        &&& self.named_keys@.len() == self.named_values@.len()
        &&& forall|i: int, j: int|
            0 <= i < self.named_keys@.len() && 0 <= j < self.named_keys@.len() && i != j ==> (
            self.named_keys@[i].0, self.named_keys@[i].1@) != (self.named_keys@[j].0,
            self.named_keys@[j].1@)
        &&& forall|i: int|
            0 <= i < self.named_keys@.len() ==> #[trigger] self.named@.contains_key(
                (self.named_keys@[i].0, self.named_keys@[i].1@),
            ) && self.named@[(self.named_keys@[i].0, self.named_keys@[i].1@)] == self.named_values@[i]
        &&& forall|k: (TypeId, Seq<char>)|
            #[trigger] self.named@.contains_key(k) ==> exists|i: int|
                0 <= i < self.named_keys@.len() && (self.named_keys@[i].0, self.named_keys@[i].1@) == k
    }

    /// Well-formedness: the two vectors line up, no key occurs twice, and the
    /// ghost map is exactly what the vectors hold; the same of the named
    /// bindings.
    pub closed spec fn wf(&self) -> bool {
        &&& self.named_wf()
        &&& self.keys@.len() == self.values@.len()
        &&& forall|i: int, j: int|
            0 <= i < self.keys@.len() && 0 <= j < self.keys@.len() && i != j ==> self.keys@[i]
                != self.keys@[j]
        &&& forall|i: int|
            0 <= i < self.keys@.len() ==> #[trigger] self.bindings@.contains_key(self.keys@[i])
                && self.bindings@[self.keys@[i]] == self.values@[i]
        &&& forall|k: TypeId|
            #[trigger] self.bindings@.contains_key(k) ==> exists|i: int|
                0 <= i < self.keys@.len() && self.keys@[i] == k
    }

    /// An empty container.
    pub fn new() -> (c: Self)
        ensures
            c.wf(),
            c@ == Map::<TypeId, V>::empty(),
            c.named_view() == Map::<(TypeId, Seq<char>), V>::empty(),
    {
        Container {
            keys: Vec::new(),
            values: Vec::new(),
            bindings: Ghost(Map::empty()),
            named_keys: Vec::new(),
            named_values: Vec::new(),
            named: Ghost(Map::empty()),
        }
    }

    /// Index of `key` in the key vector, if it is bound.
    fn find(&self, key: &TypeId) -> (r: Option<usize>)
        requires
            self.wf(),
        ensures
            match r {
                Some(i) => i < self.keys@.len() && self.keys@[i as int] == *key,
                None => !self@.contains_key(*key),
            },
    {
        let mut i: usize = 0;
        while i < self.keys.len()
            invariant
                self.wf(),
                i <= self.keys@.len(),
                forall|j: int| 0 <= j < i ==> self.keys@[j] != *key,
            decreases self.keys@.len() - i,
        {
            if same_key(&self.keys[i], key) {
                return Some(i);
            }
            i = i + 1;
        }
        None
    }

    /// Register a singleton `instance` under `key`, replacing any earlier
    /// binding of the same key.
    pub fn register(&mut self, key: TypeId, instance: V)
        requires
            old(self).wf(),
        ensures
            final(self).wf(),
            final(self)@ == old(self)@.insert(key, instance),
            final(self).named_view() == old(self).named_view(),
    {
        let ghost new_map = self.bindings@.insert(key, instance);
        assert(old(self).named_wf());
        match self.find(&key) {
            Some(i) => {
                self.values.set(i, instance);
                self.bindings = Ghost(new_map);
                assert forall|j: int| 0 <= j < self.keys@.len() implies #[trigger] self.bindings@.contains_key(
                    self.keys@[j],
                ) && self.bindings@[self.keys@[j]] == self.values@[j] by {
                    if j != i {
                        assert(self.keys@[j] != key);
                        assert(old(self).bindings@.contains_key(old(self).keys@[j]));
                    }
                }
                assert forall|k: TypeId| #[trigger] self.bindings@.contains_key(k) implies exists|
                    j: int,
                | 0 <= j < self.keys@.len() && self.keys@[j] == k by {
                    if k != key {
                        assert(old(self).bindings@.contains_key(k));
                    }
                }
            },
            None => {
                self.keys.push(key);
                self.values.push(instance);
                self.bindings = Ghost(new_map);
                assert forall|j: int| 0 <= j < self.keys@.len() implies #[trigger] self.bindings@.contains_key(
                    self.keys@[j],
                ) && self.bindings@[self.keys@[j]] == self.values@[j] by {
                    if j < old(self).keys@.len() {
                        assert(self.keys@[j] == old(self).keys@[j]);
                        assert(old(self).bindings@.contains_key(old(self).keys@[j]));
                        assert(self.keys@[j] != key);
                    }
                }
                assert forall|a: int, b: int|
                    0 <= a < self.keys@.len() && 0 <= b < self.keys@.len() && a != b implies self.keys@[a]
                    != self.keys@[b] by {
                    if a < old(self).keys@.len() && b < old(self).keys@.len() {
                        assert(self.keys@[a] == old(self).keys@[a]);
                        assert(self.keys@[b] == old(self).keys@[b]);
                    } else if a < old(self).keys@.len() {
                        assert(old(self).bindings@.contains_key(old(self).keys@[a]));
                    } else if b < old(self).keys@.len() {
                        assert(old(self).bindings@.contains_key(old(self).keys@[b]));
                    }
                }
                assert forall|k: TypeId| #[trigger] self.bindings@.contains_key(k) implies exists|
                    j: int,
                | 0 <= j < self.keys@.len() && self.keys@[j] == k by {
                    if k != key {
                        assert(old(self).bindings@.contains_key(k));
                        let j = choose|j: int|
                            0 <= j < old(self).keys@.len() && old(self).keys@[j] == k;
                        assert(self.keys@[j] == k);
                    } else {
                        assert(self.keys@[self.keys@.len() - 1] == k);
                    }
                }
            },
        }
        assert(self.named_keys == old(self).named_keys && self.named_values == old(self).named_values && self.named == old(self).named);
    }

    /// Whether `key` is bound.
    pub fn has_binding(&self, key: &TypeId) -> (r: bool)
        requires
            self.wf(),
        ensures
            r == self@.contains_key(*key),
    {
        self.find(key).is_some()
    }

    /// The instance bound to `key`, or `None` when there is no binding.
    pub fn try_resolve(&self, key: &TypeId) -> (r: Option<&V>)
        requires
            self.wf(),
        ensures
            match r {
                Some(v) => self@.contains_key(*key) && *v == self@[*key],
                None => !self@.contains_key(*key),
            },
    {
        match self.find(key) {
            Some(i) => {
                assert(self.bindings@.contains_key(self.keys@[i as int]));
                Some(&self.values[i])
            },
            None => None,
        }
    }

    /// The instance bound to `key`. Resolving an unbound key is a
    /// programming error, so a binding must exist.
    pub fn resolve(&self, key: &TypeId) -> (r: &V)
        requires
            self.wf(),
            self@.contains_key(*key),
        ensures
            *r == self@[*key],
    {
        match self.find(key) {
            Some(i) => &self.values[i],
            None => {
                assert(false);
                &self.values[0]
            },
        }
    }
}

impl<V> Container<V> {
    /// Index of the binding of `key` under `name`, if any.
    fn find_named(&self, key: &TypeId, name: &str) -> (r: Option<usize>)
        requires
            self.named_wf(),
        ensures
            match r {
                Some(i) => i < self.named_keys@.len() && self.named_keys@[i as int].0 == *key
                    && self.named_keys@[i as int].1@ == name@,
                None => !self.named_view().contains_key((*key, name@)),
            },
    {
        let n = name.to_string();
        let mut i: usize = 0;
        while i < self.named_keys.len()
            invariant
                self.named_wf(),
                n@ == name@,
                i <= self.named_keys@.len(),
                forall|j: int|
                    0 <= j < i ==> (self.named_keys@[j].0, self.named_keys@[j].1@) != (*key, name@),
            decreases self.named_keys@.len() - i,
        {
            if same_key(&self.named_keys[i].0, key) && self.named_keys[i].1 == n {
                return Some(i);
            }
            i = i + 1;
        }
        None
    }

    /// Register `instance` under `key` and `name`, replacing any earlier
    /// binding of the same key and name; several names of one type can be
    /// bound side by side.
    pub fn register_named(&mut self, key: TypeId, name: &str, instance: V)
        requires
            old(self).wf(),
        ensures
            final(self).wf(),
            final(self)@ == old(self)@,
            final(self).named_view() == old(self).named_view().insert((key, name@), instance),
    {
        let ghost k = (key, name@);
        let ghost new_map = self.named@.insert(k, instance);
        assert(old(self).named_wf());
        match self.find_named(&key, name) {
            Some(i) => {
                self.named_values.set(i, instance);
                self.named = Ghost(new_map);
                assert forall|j: int| 0 <= j < self.named_keys@.len() implies #[trigger] self.named@.contains_key(
                    (self.named_keys@[j].0, self.named_keys@[j].1@),
                ) && self.named@[(self.named_keys@[j].0, self.named_keys@[j].1@)]
                    == self.named_values@[j] by {
                    if j != i {
                        assert((self.named_keys@[j].0, self.named_keys@[j].1@) != k);
                        assert(old(self).named@.contains_key(
                            (old(self).named_keys@[j].0, old(self).named_keys@[j].1@),
                        ));
                    }
                }
                assert forall|q: (TypeId, Seq<char>)| #[trigger] self.named@.contains_key(q) implies exists|
                    j: int,
                | 0 <= j < self.named_keys@.len() && (self.named_keys@[j].0, self.named_keys@[j].1@) == q by {
                    if q != k {
                        assert(old(self).named@.contains_key(q));
                    } else {
                        assert((self.named_keys@[i as int].0, self.named_keys@[i as int].1@) == q);
                    }
                }
            },
            None => {
                self.named_keys.push((key, name.to_string()));
                self.named_values.push(instance);
                self.named = Ghost(new_map);
                let ghost last = self.named_keys@.len() - 1;
                assert((self.named_keys@[last].0, self.named_keys@[last].1@) == k);
                assert forall|j: int| 0 <= j < self.named_keys@.len() implies #[trigger] self.named@.contains_key(
                    (self.named_keys@[j].0, self.named_keys@[j].1@),
                ) && self.named@[(self.named_keys@[j].0, self.named_keys@[j].1@)]
                    == self.named_values@[j] by {
                    if j < old(self).named_keys@.len() {
                        assert(self.named_keys@[j] == old(self).named_keys@[j]);
                        assert(old(self).named@.contains_key(
                            (old(self).named_keys@[j].0, old(self).named_keys@[j].1@),
                        ));
                    }
                }
                assert forall|a: int, b: int|
                    0 <= a < self.named_keys@.len() && 0 <= b < self.named_keys@.len() && a != b implies (
                    self.named_keys@[a].0, self.named_keys@[a].1@) != (self.named_keys@[b].0,
                    self.named_keys@[b].1@) by {
                    if a < old(self).named_keys@.len() && b < old(self).named_keys@.len() {
                        assert(self.named_keys@[a] == old(self).named_keys@[a]);
                        assert(self.named_keys@[b] == old(self).named_keys@[b]);
                    } else if a < old(self).named_keys@.len() {
                        assert(self.named_keys@[a] == old(self).named_keys@[a]);
                        assert(old(self).named@.contains_key(
                            (old(self).named_keys@[a].0, old(self).named_keys@[a].1@),
                        ));
                    } else if b < old(self).named_keys@.len() {
                        assert(self.named_keys@[b] == old(self).named_keys@[b]);
                        assert(old(self).named@.contains_key(
                            (old(self).named_keys@[b].0, old(self).named_keys@[b].1@),
                        ));
                    }
                }
                assert forall|q: (TypeId, Seq<char>)| #[trigger] self.named@.contains_key(q) implies exists|
                    j: int,
                | 0 <= j < self.named_keys@.len() && (self.named_keys@[j].0, self.named_keys@[j].1@) == q by {
                    if q != k {
                        assert(old(self).named@.contains_key(q));
                        let j = choose|j: int|
                            0 <= j < old(self).named_keys@.len() && (old(self).named_keys@[j].0,
                                old(self).named_keys@[j].1@) == q;
                        assert(self.named_keys@[j] == old(self).named_keys@[j]);
                    }
                }
            },
        }
        assert(self.keys == old(self).keys && self.values == old(self).values && self.bindings
            == old(self).bindings);
    }

    /// Whether `key` is bound under `name`.
    pub fn has_named(&self, key: &TypeId, name: &str) -> (r: bool)
        requires
            self.wf(),
        ensures
            r == self.named_view().contains_key((*key, name@)),
    {
        self.find_named(key, name).is_some()
    }

    /// The instance bound to `key` under `name`, or `None`.
    pub fn try_resolve_named(&self, key: &TypeId, name: &str) -> (r: Option<&V>)
        requires
            self.wf(),
        ensures
            match r {
                Some(v) => self.named_view().contains_key((*key, name@)) && *v == self.named_view()[(
                    *key,
                    name@,
                )],
                None => !self.named_view().contains_key((*key, name@)),
            },
    {
        match self.find_named(key, name) {
            Some(i) => {
                assert(self.named@.contains_key(
                    (self.named_keys@[i as int].0, self.named_keys@[i as int].1@),
                ));
                Some(&self.named_values[i])
            },
            None => None,
        }
    }

    /// The instance bound to `key` under `name`. Resolving an unbound name
    /// is a programming error, so a binding must exist.
    pub fn resolve_named(&self, key: &TypeId, name: &str) -> (r: &V)
        requires
            self.wf(),
            self.named_view().contains_key((*key, name@)),
        ensures
            *r == self.named_view()[(*key, name@)],
    {
        match self.find_named(key, name) {
            Some(i) => {
                assert(self.named@.contains_key(
                    (self.named_keys@[i as int].0, self.named_keys@[i as int].1@),
                ));
                &self.named_values[i]
            },
            None => {
                assert(false);
                &self.named_values[0]
            },
        }
    }
}

impl<V> Default for Container<V> {
    fn default() -> (c: Self)
        ensures
            c.wf(),
            c@ == Map::<TypeId, V>::empty(),
    {
        Container::new()
    }
}

/// Implemented by services that build themselves from the container,
/// resolving each injected field from it.
pub trait Injectable<V>: Sized {
    fn construct(container: &Container<V>) -> Arc<Self>;
}

/// A value resolved from the container for a request handler.
pub struct Inject<T>(pub T);


/// A registered instance is what resolving its key gives back.
pub proof fn law_resolve_after_register<V>(bindings: Map<TypeId, V>, key: TypeId, instance: V)
    ensures
        bindings.insert(key, instance).contains_key(key),
        bindings.insert(key, instance)[key] == instance,
{
}

/// Registering under one key leaves every other binding as it was.
pub proof fn law_register_keeps_other_keys<V>(
    bindings: Map<TypeId, V>,
    key: TypeId,
    instance: V,
    other: TypeId,
)
    requires
        other != key,
    ensures
        bindings.insert(key, instance).contains_key(other) == bindings.contains_key(other),
        bindings.contains_key(other) ==> bindings.insert(key, instance)[other] == bindings[other],
{
}

/// Registering a key again replaces the earlier instance: only the last
/// registration counts.
pub proof fn law_register_replaces<V>(bindings: Map<TypeId, V>, key: TypeId, first: V, second: V)
    ensures
        bindings.insert(key, first).insert(key, second) == bindings.insert(key, second),
{
    assert(bindings.insert(key, first).insert(key, second) =~= bindings.insert(key, second));
}


/// Registering under a type key and a name is read back under the same key
/// and name, and leaves every other name, of that type too, as it was.
pub proof fn law_named_bindings_stand_side_by_side<V>(
    named: Map<(TypeId, Seq<char>), V>,
    key: TypeId,
    name: Seq<char>,
    instance: V,
    other: Seq<char>,
)
    requires
        other != name,
    ensures
        named.insert((key, name), instance)[(key, name)] == instance,
        named.insert((key, name), instance).contains_key((key, other)) == named.contains_key((key, other)),
        named.contains_key((key, other)) ==> named.insert((key, name), instance)[(key, other)] == named[(
            key,
            other,
        )],
{
}

/// `[ravix-di] Required binding missing for `T``, for the type written `t`.
pub open spec fn missing_binding_text(t: Seq<char>) -> Seq<char> {
    "[ravix-di] Required binding missing for `"@ + t + "`"@
}

/// The outcome of checking one required binding of the type written
/// `type_text`: fine when it is bound, otherwise the message of the gap.
pub fn binding_check(bound: bool, type_text: &str) -> (r: Result<(), String>)
    ensures
        bound ==> r is Ok,
        !bound ==> r is Err && r->Err_0@ == missing_binding_text(type_text@),
{
    if bound {
        Ok(())
    } else {
        let mut m = "[ravix-di] Required binding missing for `".to_string();
        m.append(type_text);
        m.append("`");
        Err(m)
    }
}

/// The lines joined with line breaks.
pub open spec fn lines(items: Seq<Seq<char>>) -> Seq<char>
    decreases items.len(),
{
    if items.len() == 0 {
        Seq::empty()
    } else if items.len() == 1 {
        items[0]
    } else {
        lines(items.drop_last()) + "\n"@ + items.last()
    }
}

/// Why the application refuses to start when required bindings are missing:
/// `None` when every check passed, otherwise the list of the gaps.
pub fn missing_bindings_report(errors: &Vec<String>) -> (r: Option<String>)
    ensures
        errors@.len() == 0 ==> r is None,
        errors@.len() > 0 ==> r is Some && r->0@ == "[ravix] Missing DI bindings:\n"@ + lines(
            errors@.map_values(|e: String| e@),
        ),
{
    if errors.len() == 0 {
        return None;
    }
    let mut out = "[ravix] Missing DI bindings:\n".to_string();
    let ghost head = out@;
    let mut i: usize = 0;
    while i < errors.len()
        invariant
            i <= errors@.len(),
            out@ == head + lines(errors@.subrange(0, i as int).map_values(|e: String| e@)),
        decreases errors@.len() - i,
    {
        let ghost before = errors@.subrange(0, i as int).map_values(|e: String| e@);
        let ghost after = errors@.subrange(0, i + 1).map_values(|e: String| e@);
        assert(after.drop_last() =~= before);
        if i > 0 {
            out.append("\n");
        }
        out.append(errors[i].as_str());
        proof {
            if i == 0 {
                assert(before.len() == 0);
                assert(lines(before) =~= Seq::<char>::empty());
            }
            assert(out@ =~= head + lines(after));
        }
        i = i + 1;
    }
    assert(errors@.subrange(0, errors@.len() as int) =~= errors@);
    Some(out)
}

} // verus!
