use vstd::prelude::*;
use crate::collections::{
    child_set_contents, children_map_contents, overwrite_map_contents, overwrites_map_contents,
    priorities_map_contents, resource_set_contents, resources_map_contents, status_map_contents,
    token_set_contents, ChildSet, ChildrenMap, OverwriteMap, OverwritesMap, PrioritiesMap,
    ResourceSet, ResourcesMap, StatusMap, TokenSet,
};
use crate::listing::{
    lemma_listing_maps_of_listed_map, lemma_listing_of_listed_map, lemma_listing_sets_of_listed_map,
    lists_map, lists_map_of_maps, lists_map_of_sets, lists_set,
};
use crate::primitives::{ActorId, ChildStatus, CollectionAndToken, ResourceId, TokenId};

verus! {

/// Parent/child bookkeeping of a collection.
pub struct Nesting {
    /// For each parent token, the children that wait for acceptance.
    pub pending_children: ChildrenMap,
    /// For each parent token, the children it has accepted.
    pub accepted_children: ChildrenMap,
    /// The status of every child token.
    pub children_status: StatusMap,
}

/// Resource bookkeeping of a collection.
pub struct MultiResource {
    /// For each token, the resources that wait for acceptance.
    pub pending_resources: ResourcesMap,
    /// For each token, its accepted resources.
    pub active_resources: ResourcesMap,
    /// For each token, which pending resource overwrites which active one.
    pub resource_overwrites: OverwritesMap,
    /// For each token, the priorities of its active resources.
    pub active_resources_priorities: PrioritiesMap,
}

/// The live state of an RMRK collection.
pub struct RMRKToken {
    pub name: String,
    pub symbol: String,
    pub admin: ActorId,
    pub nesting: Nesting,
    pub multiresource: MultiResource,
    /// The resource storage program of the collection.
    pub resource_id: ActorId,
    /// The tokens that are equipped into a parent.
    pub equipped_tokens: TokenSet,
}

/// Snapshot of the resource bookkeeping: every map listed as key/value pairs.
pub struct MultiResourceState {
    pub pending_resources: Vec<(TokenId, Vec<ResourceId>)>,
    pub active_resources: Vec<(TokenId, Vec<ResourceId>)>,
    pub resource_overwrites: Vec<(TokenId, Vec<(ResourceId, ResourceId)>)>,
    pub active_resources_priorities: Vec<(TokenId, Vec<u8>)>,
}

/// Snapshot of a collection: every map and set listed as vectors.
pub struct RMRKState {
    pub name: String,
    pub symbol: String,
    pub admin: ActorId,
    pub pending_children: Vec<(TokenId, Vec<CollectionAndToken>)>,
    pub accepted_children: Vec<(TokenId, Vec<CollectionAndToken>)>,
    pub children_status: Vec<(CollectionAndToken, ChildStatus)>,
    pub multiresource: MultiResourceState,
    pub resource_id: ActorId,
    pub equipped_tokens: Vec<TokenId>,
}

/// `state` lists exactly what `multiresource` holds, map by map.
pub open spec fn lists_multiresource(state: MultiResourceState, multiresource: MultiResource) -> bool {
    &&& lists_map_of_sets(
        state.pending_resources.deep_view(),
        resources_map_contents(multiresource.pending_resources),
    )
    &&& lists_map_of_sets(
        state.active_resources.deep_view(),
        resources_map_contents(multiresource.active_resources),
    )
    &&& lists_map_of_maps(
        state.resource_overwrites.deep_view(),
        overwrites_map_contents(multiresource.resource_overwrites),
    )
    &&& lists_map(
        state.active_resources_priorities.deep_view(),
        priorities_map_contents(multiresource.active_resources_priorities),
    )
}

/// `state` is a snapshot of `rmrk`: the same name, symbol, admin and resource program,
/// and every map and set listed exactly.
pub open spec fn is_snapshot_of(state: RMRKState, rmrk: RMRKToken) -> bool {
    &&& state.name@ == rmrk.name@
    &&& state.symbol@ == rmrk.symbol@
    &&& state.admin == rmrk.admin
    &&& lists_map_of_sets(
        state.pending_children.deep_view(),
        children_map_contents(rmrk.nesting.pending_children),
    )
    &&& lists_map_of_sets(
        state.accepted_children.deep_view(),
        children_map_contents(rmrk.nesting.accepted_children),
    )
    &&& lists_map(state.children_status.deep_view(), status_map_contents(rmrk.nesting.children_status))
    &&& lists_multiresource(state.multiresource, rmrk.multiresource)
    &&& state.resource_id == rmrk.resource_id
    &&& lists_set(state.equipped_tokens.deep_view(), token_set_contents(rmrk.equipped_tokens))
}

/// Lists a map from tokens to child sets, each set as a vector.
fn list_children(map: &ChildrenMap) -> (listing: Vec<(TokenId, Vec<CollectionAndToken>)>)
    ensures
        lists_map_of_sets(listing.deep_view(), children_map_contents(*map)),
{
    let entries = map.entries();
    let ghost source = entries@.map_values(
        |e: (TokenId, &ChildSet)| (e.0@, child_set_contents(*e.1)),
    );
    let mut listing: Vec<(TokenId, Vec<CollectionAndToken>)> = Vec::new();
    let mut i: usize = 0;
    while i < entries.len()
        invariant
            i <= entries.len(),
            source.len() == entries.len(),
            source == entries@.map_values(
                |e: (TokenId, &ChildSet)| (e.0@, child_set_contents(*e.1)),
            ),
            listing.len() == i,
            forall|j: int|
                #![trigger listing@[j]]
                0 <= j < i ==> listing@[j].0@ == source[j].0 && lists_set(
                    listing@[j].1.deep_view(),
                    source[j].1,
                ),
        decreases entries.len() - i,
    {
        let (token, children) = entries[i];
        let items = children.items();
        listing.push((token, items));
        i = i + 1;
    }
    proof {
        let view = listing.deep_view();
        assert forall|j: int| #![trigger view[j]] 0 <= j < view.len() implies view[j].0
            == source[j].0 && lists_set(view[j].1, source[j].1) by {
            assert(listing@[j].0@ == source[j].0);
        }
        lemma_listing_sets_of_listed_map(view, source, children_map_contents(*map));
    }
    listing
}

/// Lists a map from tokens to resource sets, each set as a vector.
fn list_resources(map: &ResourcesMap) -> (listing: Vec<(TokenId, Vec<ResourceId>)>)
    ensures
        lists_map_of_sets(listing.deep_view(), resources_map_contents(*map)),
{
    let entries = map.entries();
    let ghost source = entries@.map_values(
        |e: (TokenId, &ResourceSet)| (e.0@, resource_set_contents(*e.1)),
    );
    let mut listing: Vec<(TokenId, Vec<ResourceId>)> = Vec::new();
    let mut i: usize = 0;
    while i < entries.len()
        invariant
            i <= entries.len(),
            source.len() == entries.len(),
            source == entries@.map_values(
                |e: (TokenId, &ResourceSet)| (e.0@, resource_set_contents(*e.1)),
            ),
            listing.len() == i,
            forall|j: int|
                #![trigger listing@[j]]
                0 <= j < i ==> listing@[j].0@ == source[j].0 && lists_set(
                    listing@[j].1.deep_view(),
                    source[j].1,
                ),
        decreases entries.len() - i,
    {
        let (token, resources) = entries[i];
        let items = resources.items();
        assert(items.deep_view() =~= items@);
        listing.push((token, items));
        i = i + 1;
    }
    proof {
        let view = listing.deep_view();
        assert forall|j: int| #![trigger view[j]] 0 <= j < view.len() implies view[j].0
            == source[j].0 && lists_set(view[j].1, source[j].1) by {
            assert(listing@[j].0@ == source[j].0);
        }
        lemma_listing_sets_of_listed_map(view, source, resources_map_contents(*map));
    }
    listing
}

/// Lists a map from tokens to overwrite maps, each inner map as a vector of pairs.
fn list_overwrites(map: &OverwritesMap) -> (listing: Vec<(TokenId, Vec<(ResourceId, ResourceId)>)>)
    ensures
        lists_map_of_maps(listing.deep_view(), overwrites_map_contents(*map)),
{
    let entries = map.entries();
    let ghost source = entries@.map_values(
        |e: (TokenId, &OverwriteMap)| (e.0@, overwrite_map_contents(*e.1)),
    );
    let mut listing: Vec<(TokenId, Vec<(ResourceId, ResourceId)>)> = Vec::new();
    let mut i: usize = 0;
    while i < entries.len()
        invariant
            i <= entries.len(),
            source.len() == entries.len(),
            source == entries@.map_values(
                |e: (TokenId, &OverwriteMap)| (e.0@, overwrite_map_contents(*e.1)),
            ),
            listing.len() == i,
            forall|j: int|
                #![trigger listing@[j]]
                0 <= j < i ==> listing@[j].0@ == source[j].0 && lists_map(
                    listing@[j].1.deep_view(),
                    source[j].1,
                ),
        decreases entries.len() - i,
    {
        let (token, overwrites) = entries[i];
        let pairs = overwrites.entries();
        assert(pairs.deep_view() =~= pairs@);
        listing.push((token, pairs));
        i = i + 1;
    }
    proof {
        let view = listing.deep_view();
        assert forall|j: int| #![trigger view[j]] 0 <= j < view.len() implies view[j].0
            == source[j].0 && lists_map(view[j].1, source[j].1) by {
            assert(listing@[j].0@ == source[j].0);
        }
        lemma_listing_maps_of_listed_map(view, source, overwrites_map_contents(*map));
    }
    listing
}

/// Lists a map from tokens to priority vectors, copying each vector.
fn list_priorities(map: &PrioritiesMap) -> (listing: Vec<(TokenId, Vec<u8>)>)
    ensures
        lists_map(listing.deep_view(), priorities_map_contents(*map)),
{
    let entries = map.entries();
    let ghost source = entries@.map_values(|e: (TokenId, &Vec<u8>)| (e.0@, e.1@));
    let mut listing: Vec<(TokenId, Vec<u8>)> = Vec::new();
    let mut i: usize = 0;
    while i < entries.len()
        invariant
            i <= entries.len(),
            source.len() == entries.len(),
            source == entries@.map_values(|e: (TokenId, &Vec<u8>)| (e.0@, e.1@)),
            listing.len() == i,
            forall|j: int|
                #![trigger listing@[j]]
                0 <= j < i ==> listing@[j].0@ == source[j].0 && listing@[j].1.deep_view()
                    == source[j].1,
        decreases entries.len() - i,
    {
        let (token, priorities) = entries[i];
        let copy = priorities.clone();
        assert(copy.deep_view() =~= priorities@);
        listing.push((token, copy));
        i = i + 1;
    }
    proof {
        let view = listing.deep_view();
        assert forall|j: int| #![trigger view[j]] 0 <= j < view.len() implies view[j]
            == source[j] by {
            assert(listing@[j].0@ == source[j].0);
        }
        lemma_listing_of_listed_map(view, source, priorities_map_contents(*map));
    }
    listing
}

impl MultiResourceState {
    /// Takes a snapshot of the resource bookkeeping `multiresource`.
    pub fn from(multiresource: MultiResource) -> (state: MultiResourceState)
        ensures
            lists_multiresource(state, multiresource),
    {
        MultiResourceState::from_ref(&multiresource)
    }

    /// Takes a snapshot of the resource bookkeeping `multiresource`, which stays with the caller.
    pub fn from_ref(multiresource: &MultiResource) -> (state: MultiResourceState)
        ensures
            lists_multiresource(state, *multiresource),
    {
        MultiResourceState {
            pending_resources: list_resources(&multiresource.pending_resources),
            active_resources: list_resources(&multiresource.active_resources),
            resource_overwrites: list_overwrites(&multiresource.resource_overwrites),
            active_resources_priorities: list_priorities(
                &multiresource.active_resources_priorities,
            ),
        }
    }
}

impl RMRKState {
    /// Takes a snapshot of the collection `rmrk`.
    pub fn from(rmrk: &RMRKToken) -> (state: RMRKState)
        ensures
            is_snapshot_of(state, *rmrk),
    {
        let children_status = rmrk.nesting.children_status.entries();
        let equipped_tokens = rmrk.equipped_tokens.items();
        RMRKState {
            name: rmrk.name.clone(),
            symbol: rmrk.symbol.clone(),
            admin: rmrk.admin,
            pending_children: list_children(&rmrk.nesting.pending_children),
            accepted_children: list_children(&rmrk.nesting.accepted_children),
            children_status,
            multiresource: MultiResourceState::from_ref(&rmrk.multiresource),
            resource_id: rmrk.resource_id,
            equipped_tokens,
        }
    }
}

impl Default for MultiResourceState {
    /// The snapshot of empty resource bookkeeping: every list empty.
    fn default() -> (state: MultiResourceState)
        ensures
            state.pending_resources@ == Seq::<(TokenId, Vec<ResourceId>)>::empty(),
            state.active_resources@ == Seq::<(TokenId, Vec<ResourceId>)>::empty(),
            state.resource_overwrites@ == Seq::<(TokenId, Vec<(ResourceId, ResourceId)>)>::empty(),
            state.active_resources_priorities@ == Seq::<(TokenId, Vec<u8>)>::empty(),
    {
        MultiResourceState {
            pending_resources: Vec::new(),
            active_resources: Vec::new(),
            resource_overwrites: Vec::new(),
            active_resources_priorities: Vec::new(),
        }
    }
}

impl Default for RMRKState {
    /// The snapshot of an empty, unnamed collection: empty strings, zero addresses and
    /// every list empty.
    fn default() -> (state: RMRKState)
        ensures
            state.name@ == Seq::<char>::empty(),
            state.symbol@ == Seq::<char>::empty(),
            state.admin@ == Seq::new(32, |i: int| 0u8),
            state.pending_children@ == Seq::<(TokenId, Vec<CollectionAndToken>)>::empty(),
            state.accepted_children@ == Seq::<(TokenId, Vec<CollectionAndToken>)>::empty(),
            state.children_status@ == Seq::<(CollectionAndToken, ChildStatus)>::empty(),
            state.multiresource.pending_resources@ == Seq::<(TokenId, Vec<ResourceId>)>::empty(),
            state.multiresource.active_resources@ == Seq::<(TokenId, Vec<ResourceId>)>::empty(),
            state.multiresource.resource_overwrites@ == Seq::<
                (TokenId, Vec<(ResourceId, ResourceId)>),
            >::empty(),
            state.multiresource.active_resources_priorities@ == Seq::<(TokenId, Vec<u8>)>::empty(),
            state.resource_id@ == Seq::new(32, |i: int| 0u8),
            state.equipped_tokens@ == Seq::<TokenId>::empty(),
    {
        RMRKState {
            name: String::new(),
            symbol: String::new(),
            admin: ActorId([0u8; 32]),
            pending_children: Vec::new(),
            accepted_children: Vec::new(),
            children_status: Vec::new(),
            multiresource: MultiResourceState::default(),
            resource_id: ActorId([0u8; 32]),
            equipped_tokens: Vec::new(),
        }
    }
}

} // verus!
