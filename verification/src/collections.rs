use vstd::prelude::*;
use gstd::collections::{HashMap, HashSet};
use crate::listing::lists_map;
use crate::listing::lists_set;
use crate::primitives::{ChildStatus, CollectionAndToken, ResourceId, TokenId};

verus! {

// ---------------------------------------------------------------------------
// Sets
// ---------------------------------------------------------------------------

/// What a `ResourceSet` holds.
pub uninterp spec fn resource_set_contents(s: ResourceSet) -> Set<u8>;

/// A hash set of resource ids.
///
/// The `hashbrown` HashSet that `gstd::collections` provides, held in a
/// private field that Verus does not see; what it holds is named by the function above.
#[verifier::external_body]
pub struct ResourceSet {
    inner: HashSet<ResourceId>,
}

impl ResourceSet {
    /// Creates an empty set: calls `hashbrown::HashSet::new`; claims the set is empty.
    #[verifier::external_body]
    pub fn new() -> (s: ResourceSet)
        ensures
            resource_set_contents(s) == Set::<u8>::empty(),
    {
        ResourceSet { inner: HashSet::new() }
    }

    /// Adds `id`: calls `hashbrown::HashSet::insert`; claims the set afterwards holds what
    /// it held and `id`, and that the result tells whether `id` was absent.
    #[verifier::external_body]
    pub fn insert(&mut self, id: ResourceId) -> (added: bool)
        ensures
            resource_set_contents(*final(self)) == resource_set_contents(*old(self)).insert(id),
            added == !resource_set_contents(*old(self)).contains(id),
    {
        self.inner.insert(id)
    }

    /// Hands out the elements: calls `hashbrown::HashSet::iter`; claims each element comes
    /// out exactly once. The order is the set's walk order, which is left unsaid.
    #[verifier::external_body]
    pub fn items(&self) -> (items: Vec<ResourceId>)
        ensures
            lists_set(items@, resource_set_contents(*self)),
    {
        self.inner.iter().copied().collect()
    }
}

/// What a `ChildSet` holds.
pub uninterp spec fn child_set_contents(s: ChildSet) -> Set<(Seq<u8>, Seq<u64>)>;

/// A hash set of child tokens, each named by its collection and its token id.
///
/// The `hashbrown` HashSet that `gstd::collections` provides, held in a
/// private field that Verus does not see; what it holds is named by the function above.
#[verifier::external_body]
pub struct ChildSet {
    inner: HashSet<CollectionAndToken>,
}

impl ChildSet {
    /// Creates an empty set: calls `hashbrown::HashSet::new`; claims the set is empty.
    #[verifier::external_body]
    pub fn new() -> (s: ChildSet)
        ensures
            child_set_contents(s) == Set::<(Seq<u8>, Seq<u64>)>::empty(),
    {
        ChildSet { inner: HashSet::new() }
    }

    /// Adds `child`: calls `hashbrown::HashSet::insert`; claims the set afterwards holds what
    /// it held and `child`, and that the result tells whether `child` was absent.
    #[verifier::external_body]
    pub fn insert(&mut self, child: CollectionAndToken) -> (added: bool)
        ensures
            child_set_contents(*final(self)) == child_set_contents(*old(self)).insert(child@),
            added == !child_set_contents(*old(self)).contains(child@),
    {
        self.inner.insert(child)
    }

    /// Hands out the elements: calls `hashbrown::HashSet::iter`; claims each element comes
    /// out exactly once. The order is the set's walk order, which is left unsaid.
    #[verifier::external_body]
    pub fn items(&self) -> (items: Vec<CollectionAndToken>)
        ensures
            lists_set(items.deep_view(), child_set_contents(*self)),
    {
        self.inner.iter().copied().collect()
    }
}

/// What a `TokenSet` holds.
pub uninterp spec fn token_set_contents(s: TokenSet) -> Set<Seq<u64>>;

/// A hash set of token ids.
///
/// The `hashbrown` HashSet that `gstd::collections` provides, held in a
/// private field that Verus does not see; what it holds is named by the function above.
#[verifier::external_body]
pub struct TokenSet {
    inner: HashSet<TokenId>,
}

impl TokenSet {
    /// Creates an empty set: calls `hashbrown::HashSet::new`; claims the set is empty.
    #[verifier::external_body]
    pub fn new() -> (s: TokenSet)
        ensures
            token_set_contents(s) == Set::<Seq<u64>>::empty(),
    {
        TokenSet { inner: HashSet::new() }
    }

    /// Adds `token`: calls `hashbrown::HashSet::insert`; claims the set afterwards holds what
    /// it held and `token`, and that the result tells whether `token` was absent.
    #[verifier::external_body]
    pub fn insert(&mut self, token: TokenId) -> (added: bool)
        ensures
            token_set_contents(*final(self)) == token_set_contents(*old(self)).insert(token@),
            added == !token_set_contents(*old(self)).contains(token@),
    {
        self.inner.insert(token)
    }

    /// Hands out the elements: calls `hashbrown::HashSet::iter`; claims each element comes
    /// out exactly once. The order is the set's walk order, which is left unsaid.
    #[verifier::external_body]
    pub fn items(&self) -> (items: Vec<TokenId>)
        ensures
            lists_set(items.deep_view(), token_set_contents(*self)),
    {
        self.inner.iter().copied().collect()
    }
}

// ---------------------------------------------------------------------------
// Maps with plain values
// ---------------------------------------------------------------------------

/// What a `StatusMap` holds.
pub uninterp spec fn status_map_contents(m: StatusMap) -> Map<(Seq<u8>, Seq<u64>), ChildStatus>;

/// A hash map from child tokens to their status.
///
/// The `hashbrown` HashMap that `gstd::collections` provides, held in a
/// private field that Verus does not see; what it holds is named by the function above.
#[verifier::external_body]
pub struct StatusMap {
    inner: HashMap<CollectionAndToken, ChildStatus>,
}

impl StatusMap {
    /// Creates an empty map: calls `hashbrown::HashMap::new`; claims the map is empty.
    #[verifier::external_body]
    pub fn new() -> (empty: StatusMap)
        ensures
            (status_map_contents(empty) == Map::<(Seq<u8>, Seq<u64>), ChildStatus>::empty()),
    {
        StatusMap { inner: HashMap::new() }
    }

    /// Sets the status of `child`: calls `hashbrown::HashMap::insert`; claims the map
    /// afterwards maps `child` to `status` and is otherwise unchanged, and that the result
    /// is the status `child` had before, if any.
    #[verifier::external_body]
    pub fn insert(&mut self, child: CollectionAndToken, status: ChildStatus) -> (previous: Option<ChildStatus>)
        ensures
            status_map_contents(*final(self)) == status_map_contents(*old(self)).insert(
                child@,
                status,
            ),
            previous == (if status_map_contents(*old(self)).contains_key(child@) {
                Some(status_map_contents(*old(self))[child@])
            } else {
                None
            }),
    {
        self.inner.insert(child, status)
    }

    /// Hands out the entries: calls `hashbrown::HashMap::iter`; claims each key comes out
    /// exactly once, with its value. The order is the map's walk order, which is left unsaid.
    #[verifier::external_body]
    pub fn entries(&self) -> (entries: Vec<(CollectionAndToken, ChildStatus)>)
        ensures
            lists_map(entries.deep_view(), status_map_contents(*self)),
    {
        self.inner.iter().map(|(child, status)| (*child, *status)).collect()
    }
}

/// What an `OverwriteMap` holds.
pub uninterp spec fn overwrite_map_contents(m: OverwriteMap) -> Map<u8, u8>;

/// A hash map from resource ids to the resource ids that they overwrite.
///
/// The `hashbrown` HashMap that `gstd::collections` provides, held in a
/// private field that Verus does not see; what it holds is named by the function above.
#[verifier::external_body]
pub struct OverwriteMap {
    inner: HashMap<ResourceId, ResourceId>,
}

impl OverwriteMap {
    /// Creates an empty map: calls `hashbrown::HashMap::new`; claims the map is empty.
    #[verifier::external_body]
    pub fn new() -> (empty: OverwriteMap)
        ensures
            (overwrite_map_contents(empty) == Map::<u8, u8>::empty()),
    {
        OverwriteMap { inner: HashMap::new() }
    }

    /// Maps `resource` to `overwritten`: calls `hashbrown::HashMap::insert`; claims the map
    /// afterwards maps `resource` to `overwritten` and is otherwise unchanged, and that the
    /// result is what `resource` was mapped to before, if anything.
    #[verifier::external_body]
    pub fn insert(&mut self, resource: ResourceId, overwritten: ResourceId) -> (previous: Option<ResourceId>)
        ensures
            overwrite_map_contents(*final(self)) == overwrite_map_contents(*old(self)).insert(
                resource,
                overwritten,
            ),
            previous == (if overwrite_map_contents(*old(self)).contains_key(resource) {
                Some(overwrite_map_contents(*old(self))[resource])
            } else {
                None
            }),
    {
        self.inner.insert(resource, overwritten)
    }

    /// Hands out the entries: calls `hashbrown::HashMap::iter`; claims each key comes out
    /// exactly once, with its value. The order is the map's walk order, which is left unsaid.
    #[verifier::external_body]
    pub fn entries(&self) -> (entries: Vec<(ResourceId, ResourceId)>)
        ensures
            lists_map(entries@, overwrite_map_contents(*self)),
    {
        self.inner.iter().map(|(resource, overwritten)| (*resource, *overwritten)).collect()
    }
}

/// What a `PrioritiesMap` holds.
pub uninterp spec fn priorities_map_contents(m: PrioritiesMap) -> Map<Seq<u64>, Seq<u8>>;

/// A hash map from token ids to the priorities of their active resources.
///
/// The `hashbrown` HashMap that `gstd::collections` provides, held in a
/// private field that Verus does not see; what it holds is named by the function above.
#[verifier::external_body]
pub struct PrioritiesMap {
    inner: HashMap<TokenId, Vec<u8>>,
}

impl PrioritiesMap {
    /// Creates an empty map: calls `hashbrown::HashMap::new`; claims the map is empty.
    #[verifier::external_body]
    pub fn new() -> (empty: PrioritiesMap)
        ensures
            (priorities_map_contents(empty) == Map::<Seq<u64>, Seq<u8>>::empty()),
    {
        PrioritiesMap { inner: HashMap::new() }
    }

    /// Sets the priorities of `token`: calls `hashbrown::HashMap::insert`; claims the map
    /// afterwards maps `token` to `priorities` and is otherwise unchanged, and that the
    /// result is what `token` was mapped to before, if anything.
    #[verifier::external_body]
    pub fn insert(&mut self, token: TokenId, priorities: Vec<u8>) -> (previous: Option<Vec<u8>>)
        ensures
            priorities_map_contents(*final(self)) == priorities_map_contents(*old(self)).insert(
                token@,
                priorities@,
            ),
            match previous {
                Some(p) => priorities_map_contents(*old(self)).contains_key(token@) && p@
                    == priorities_map_contents(*old(self))[token@],
                None => !priorities_map_contents(*old(self)).contains_key(token@),
            },
    {
        self.inner.insert(token, priorities)
    }

    /// Hands out the entries: calls `hashbrown::HashMap::iter`; claims each key comes out
    /// exactly once, with a reference to its value. The order is the map's walk order,
    /// which is left unsaid.
    #[verifier::external_body]
    pub fn entries(&self) -> (entries: Vec<(TokenId, &Vec<u8>)>)
        ensures
            lists_map(
                entries@.map_values(|e: (TokenId, &Vec<u8>)| (e.0@, e.1@)),
                priorities_map_contents(*self),
            ),
    {
        self.inner.iter().map(|(token, priorities)| (*token, priorities)).collect()
    }
}

// ---------------------------------------------------------------------------
// Maps from token ids to collections
// ---------------------------------------------------------------------------

/// What a `ChildrenMap` holds: for each token, the children that its set holds.
pub uninterp spec fn children_map_contents(m: ChildrenMap) -> Map<
    Seq<u64>,
    Set<(Seq<u8>, Seq<u64>)>,
>;

/// A hash map from token ids to sets of child tokens.
///
/// The `hashbrown` HashMap that `gstd::collections` provides, held in a
/// private field that Verus does not see; what it holds is named by the function above.
#[verifier::external_body]
pub struct ChildrenMap {
    inner: HashMap<TokenId, ChildSet>,
}

impl ChildrenMap {
    /// Creates an empty map: calls `hashbrown::HashMap::new`; claims the map is empty.
    #[verifier::external_body]
    pub fn new() -> (empty: ChildrenMap)
        ensures
            (children_map_contents(empty) == Map::<Seq<u64>, Set<(Seq<u8>, Seq<u64>)>>::empty()),
    {
        ChildrenMap { inner: HashMap::new() }
    }

    /// Sets the children of `token`: calls `hashbrown::HashMap::insert`; claims the map
    /// afterwards maps `token` to what `children` holds and is otherwise unchanged, and
    /// that the result is the set `token` was mapped to before, if any.
    #[verifier::external_body]
    pub fn insert(&mut self, token: TokenId, children: ChildSet) -> (previous: Option<ChildSet>)
        ensures
            children_map_contents(*final(self)) == children_map_contents(*old(self)).insert(
                token@,
                child_set_contents(children),
            ),
            match previous {
                Some(p) => children_map_contents(*old(self)).contains_key(token@)
                    && child_set_contents(p) == children_map_contents(*old(self))[token@],
                None => !children_map_contents(*old(self)).contains_key(token@),
            },
    {
        self.inner.insert(token, children)
    }

    /// Hands out the entries: calls `hashbrown::HashMap::iter`; claims each key comes out
    /// exactly once, with a reference to its set. The order is the map's walk order,
    /// which is left unsaid.
    #[verifier::external_body]
    pub fn entries(&self) -> (entries: Vec<(TokenId, &ChildSet)>)
        ensures
            lists_map(
                entries@.map_values(|e: (TokenId, &ChildSet)| (e.0@, child_set_contents(*e.1))),
                children_map_contents(*self),
            ),
    {
        self.inner.iter().map(|(token, children)| (*token, children)).collect()
    }
}

/// What a `ResourcesMap` holds: for each token, the resource ids that its set holds.
pub uninterp spec fn resources_map_contents(m: ResourcesMap) -> Map<Seq<u64>, Set<u8>>;

/// A hash map from token ids to sets of resource ids.
///
/// The `hashbrown` HashMap that `gstd::collections` provides, held in a
/// private field that Verus does not see; what it holds is named by the function above.
#[verifier::external_body]
pub struct ResourcesMap {
    inner: HashMap<TokenId, ResourceSet>,
}

impl ResourcesMap {
    /// Creates an empty map: calls `hashbrown::HashMap::new`; claims the map is empty.
    #[verifier::external_body]
    pub fn new() -> (empty: ResourcesMap)
        ensures
            (resources_map_contents(empty) == Map::<Seq<u64>, Set<u8>>::empty()),
    {
        ResourcesMap { inner: HashMap::new() }
    }

    /// Sets the resources of `token`: calls `hashbrown::HashMap::insert`; claims the map
    /// afterwards maps `token` to what `resources` holds and is otherwise unchanged, and
    /// that the result is the set `token` was mapped to before, if any.
    #[verifier::external_body]
    pub fn insert(&mut self, token: TokenId, resources: ResourceSet) -> (previous: Option<ResourceSet>)
        ensures
            resources_map_contents(*final(self)) == resources_map_contents(*old(self)).insert(
                token@,
                resource_set_contents(resources),
            ),
            match previous {
                Some(p) => resources_map_contents(*old(self)).contains_key(token@)
                    && resource_set_contents(p) == resources_map_contents(*old(self))[token@],
                None => !resources_map_contents(*old(self)).contains_key(token@),
            },
    {
        self.inner.insert(token, resources)
    }

    /// Hands out the entries: calls `hashbrown::HashMap::iter`; claims each key comes out
    /// exactly once, with a reference to its set. The order is the map's walk order,
    /// which is left unsaid.
    #[verifier::external_body]
    pub fn entries(&self) -> (entries: Vec<(TokenId, &ResourceSet)>)
        ensures
            lists_map(
                entries@.map_values(
                    |e: (TokenId, &ResourceSet)| (e.0@, resource_set_contents(*e.1)),
                ),
                resources_map_contents(*self),
            ),
    {
        self.inner.iter().map(|(token, resources)| (*token, resources)).collect()
    }
}

/// What an `OverwritesMap` holds: for each token, the overwrites that its map holds.
pub uninterp spec fn overwrites_map_contents(m: OverwritesMap) -> Map<Seq<u64>, Map<u8, u8>>;

/// A hash map from token ids to maps of resource overwrites.
///
/// The `hashbrown` HashMap that `gstd::collections` provides, held in a
/// private field that Verus does not see; what it holds is named by the function above.
#[verifier::external_body]
pub struct OverwritesMap {
    inner: HashMap<TokenId, OverwriteMap>,
}

impl OverwritesMap {
    /// Creates an empty map: calls `hashbrown::HashMap::new`; claims the map is empty.
    #[verifier::external_body]
    pub fn new() -> (empty: OverwritesMap)
        ensures
            (overwrites_map_contents(empty) == Map::<Seq<u64>, Map<u8, u8>>::empty()),
    {
        OverwritesMap { inner: HashMap::new() }
    }

    /// Sets the overwrites of `token`: calls `hashbrown::HashMap::insert`; claims the map
    /// afterwards maps `token` to what `overwrites` holds and is otherwise unchanged, and
    /// that the result is the map `token` was mapped to before, if any.
    #[verifier::external_body]
    pub fn insert(&mut self, token: TokenId, overwrites: OverwriteMap) -> (previous: Option<OverwriteMap>)
        ensures
            overwrites_map_contents(*final(self)) == overwrites_map_contents(*old(self)).insert(
                token@,
                overwrite_map_contents(overwrites),
            ),
            match previous {
                Some(p) => overwrites_map_contents(*old(self)).contains_key(token@)
                    && overwrite_map_contents(p) == overwrites_map_contents(*old(self))[token@],
                None => !overwrites_map_contents(*old(self)).contains_key(token@),
            },
    {
        self.inner.insert(token, overwrites)
    }

    /// Hands out the entries: calls `hashbrown::HashMap::iter`; claims each key comes out
    /// exactly once, with a reference to its map. The order is the map's walk order,
    /// which is left unsaid.
    #[verifier::external_body]
    pub fn entries(&self) -> (entries: Vec<(TokenId, &OverwriteMap)>)
        ensures
            lists_map(
                entries@.map_values(
                    |e: (TokenId, &OverwriteMap)| (e.0@, overwrite_map_contents(*e.1)),
                ),
                overwrites_map_contents(*self),
            ),
    {
        self.inner.iter().map(|(token, overwrites)| (*token, overwrites)).collect()
    }
}

} // verus!
