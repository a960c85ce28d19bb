use vstd::prelude::*;
use crate::collections::{
    children_map_contents, overwrites_map_contents, priorities_map_contents,
    resources_map_contents, status_map_contents, token_set_contents,
};
use crate::listing::{keys_of, lists_map, lists_map_of_maps, lists_map_of_sets, lists_set};
use crate::state::{is_snapshot_of, lists_multiresource, MultiResource, MultiResourceState, RMRKState, RMRKToken};

verus! {

/// The map that a sequence of entries spells out: each key that occurs, with the value
/// of one of its occurrences (its only one, when no key repeats).
pub open spec fn map_of_entries<K, V>(entries: Seq<(K, V)>) -> Map<K, V> {
    Map::new(
        |k: K| keys_of(entries).contains(k),
        |k: K| entries[keys_of(entries).index_of(k)].1,
    )
}

/// The map of sets that a sequence of set listings spells out.
pub open spec fn map_of_set_listings<K, T>(entries: Seq<(K, Seq<T>)>) -> Map<K, Set<T>> {
    map_of_entries(entries).map_values(|items: Seq<T>| items.to_set())
}

/// The map of maps that a sequence of map listings spells out.
pub open spec fn map_of_map_listings<K, A, B>(entries: Seq<(K, Seq<(A, B)>)>) -> Map<
    K,
    Map<A, B>,
> {
    map_of_entries(entries).map_values(|pairs: Seq<(A, B)>| map_of_entries(pairs))
}

/// A listing of a set loses nothing and repeats nothing: the set is the set of its
/// items, it is finite, and it has exactly as many elements as the listing has items.
pub proof fn listed_set_is_recovered<T>(items: Seq<T>, s: Set<T>)
    requires
        lists_set(items, s),
    ensures
        items.to_set() == s,
        s.finite(),
        s.len() == items.len(),
{
    items.unique_seq_to_set();
}

/// A listing of a map loses nothing and repeats nothing: the map is rebuilt from the
/// listing, its keys are finitely many, and there are exactly as many as entries.
pub proof fn listed_map_is_recovered<K, V>(entries: Seq<(K, V)>, m: Map<K, V>)
    requires
        lists_map(entries, m),
    ensures
        map_of_entries(entries) == m,
        m.dom().finite(),
        m.dom().len() == entries.len(),
{
    let keys = keys_of(entries);
    assert forall|k: K| #[trigger] m.contains_key(k) implies keys.contains(k) by {
        let i = choose|i: int| #![trigger entries[i]] 0 <= i < entries.len() && entries[i].0 == k;
        assert(keys[i] == k);
    }
    assert forall|k: K| #[trigger] keys.contains(k) implies m.contains_key(k) && m[k] == entries[keys.index_of(k)].1 by {
        let i = keys.index_of(k);
        assert(keys[i] == k);
        assert(entries[i].0 == k);
    }
    assert(map_of_entries(entries) =~= m);
    assert(keys.to_set() =~= m.dom());
    keys.unique_seq_to_set();
}

/// A listing of a map of sets loses nothing: the map of sets is rebuilt from the
/// listing, and there are exactly as many keys as entries.
pub proof fn listed_map_of_sets_is_recovered<K, T>(entries: Seq<(K, Seq<T>)>, m: Map<K, Set<T>>)
    requires
        lists_map_of_sets(entries, m),
    ensures
        map_of_set_listings(entries) == m,
        m.dom().finite(),
        m.dom().len() == entries.len(),
{
    let keys = keys_of(entries);
    assert forall|k: K| #[trigger] m.contains_key(k) implies keys.contains(k) by {
        let i = choose|i: int| #![trigger entries[i]] 0 <= i < entries.len() && entries[i].0 == k;
        assert(keys[i] == k);
    }
    assert forall|k: K| #[trigger] keys.contains(k) implies m.contains_key(k) && m[k]
        == entries[keys.index_of(k)].1.to_set() by {
        let i = keys.index_of(k);
        assert(keys[i] == k);
        assert(entries[i].0 == k);
    }
    assert(map_of_set_listings(entries) =~= m);
    assert(keys.to_set() =~= m.dom());
    keys.unique_seq_to_set();
}

/// A listing of a map of maps loses nothing: the map of maps is rebuilt from the
/// listing, and there are exactly as many keys as entries.
pub proof fn listed_map_of_maps_is_recovered<K, A, B>(
    entries: Seq<(K, Seq<(A, B)>)>,
    m: Map<K, Map<A, B>>,
)
    requires
        lists_map_of_maps(entries, m),
    ensures
        map_of_map_listings(entries) == m,
        m.dom().finite(),
        m.dom().len() == entries.len(),
{
    let keys = keys_of(entries);
    assert forall|k: K| #[trigger] m.contains_key(k) implies keys.contains(k) by {
        let i = choose|i: int| #![trigger entries[i]] 0 <= i < entries.len() && entries[i].0 == k;
        assert(keys[i] == k);
    }
    assert forall|k: K| #[trigger] keys.contains(k) implies m.contains_key(k) && m[k]
        == map_of_entries(entries[keys.index_of(k)].1) by {
        let i = keys.index_of(k);
        assert(keys[i] == k);
        assert(entries[i].0 == k);
        listed_map_is_recovered(entries[i].1, m[k]);
    }
    assert(map_of_map_listings(entries) =~= m);
    assert(keys.to_set() =~= m.dom());
    keys.unique_seq_to_set();
}

/// A snapshot of the resource bookkeeping loses nothing: every map of `multiresource`
/// is rebuilt from its listing in `state`.
pub proof fn resource_snapshot_is_lossless(state: MultiResourceState, multiresource: MultiResource)
    requires
        lists_multiresource(state, multiresource),
    ensures
        resources_map_contents(multiresource.pending_resources) == map_of_set_listings(
            state.pending_resources.deep_view(),
        ),
        resources_map_contents(multiresource.active_resources) == map_of_set_listings(
            state.active_resources.deep_view(),
        ),
        overwrites_map_contents(multiresource.resource_overwrites) == map_of_map_listings(
            state.resource_overwrites.deep_view(),
        ),
        priorities_map_contents(multiresource.active_resources_priorities) == map_of_entries(
            state.active_resources_priorities.deep_view(),
        ),
{
    listed_map_of_sets_is_recovered(
        state.pending_resources.deep_view(),
        resources_map_contents(multiresource.pending_resources),
    );
    listed_map_of_sets_is_recovered(
        state.active_resources.deep_view(),
        resources_map_contents(multiresource.active_resources),
    );
    listed_map_of_maps_is_recovered(
        state.resource_overwrites.deep_view(),
        overwrites_map_contents(multiresource.resource_overwrites),
    );
    listed_map_is_recovered(
        state.active_resources_priorities.deep_view(),
        priorities_map_contents(multiresource.active_resources_priorities),
    );
}

/// A snapshot of a collection loses nothing: its name, symbol and addresses are those of
/// the collection, and every map and set of the collection is rebuilt from its listing.
pub proof fn snapshot_is_lossless(state: RMRKState, rmrk: RMRKToken)
    requires
        is_snapshot_of(state, rmrk),
    ensures
        state.name@ == rmrk.name@,
        state.symbol@ == rmrk.symbol@,
        state.admin == rmrk.admin,
        state.resource_id == rmrk.resource_id,
        children_map_contents(rmrk.nesting.pending_children) == map_of_set_listings(
            state.pending_children.deep_view(),
        ),
        children_map_contents(rmrk.nesting.accepted_children) == map_of_set_listings(
            state.accepted_children.deep_view(),
        ),
        status_map_contents(rmrk.nesting.children_status) == map_of_entries(
            state.children_status.deep_view(),
        ),
        token_set_contents(rmrk.equipped_tokens) == state.equipped_tokens.deep_view().to_set(),
        resources_map_contents(rmrk.multiresource.pending_resources) == map_of_set_listings(
            state.multiresource.pending_resources.deep_view(),
        ),
        resources_map_contents(rmrk.multiresource.active_resources) == map_of_set_listings(
            state.multiresource.active_resources.deep_view(),
        ),
        overwrites_map_contents(rmrk.multiresource.resource_overwrites) == map_of_map_listings(
            state.multiresource.resource_overwrites.deep_view(),
        ),
        priorities_map_contents(rmrk.multiresource.active_resources_priorities)
            == map_of_entries(state.multiresource.active_resources_priorities.deep_view()),
{
    listed_map_of_sets_is_recovered(
        state.pending_children.deep_view(),
        children_map_contents(rmrk.nesting.pending_children),
    );
    listed_map_of_sets_is_recovered(
        state.accepted_children.deep_view(),
        children_map_contents(rmrk.nesting.accepted_children),
    );
    listed_map_is_recovered(
        state.children_status.deep_view(),
        status_map_contents(rmrk.nesting.children_status),
    );
    resource_snapshot_is_lossless(state.multiresource, rmrk.multiresource);
}

/// Two snapshots of one collection differ at most in the order of their lists: they have
/// the same name, symbol and addresses, every list of one has as many entries as the
/// same list of the other, and both spell out the same maps and sets.
pub proof fn snapshots_agree_up_to_order(first: RMRKState, second: RMRKState, rmrk: RMRKToken)
    requires
        is_snapshot_of(first, rmrk),
        is_snapshot_of(second, rmrk),
    ensures
        first.name@ == second.name@,
        first.symbol@ == second.symbol@,
        first.admin == second.admin,
        first.resource_id == second.resource_id,
        first.pending_children.len() == second.pending_children.len(),
        map_of_set_listings(first.pending_children.deep_view()) == map_of_set_listings(
            second.pending_children.deep_view(),
        ),
        first.accepted_children.len() == second.accepted_children.len(),
        map_of_set_listings(first.accepted_children.deep_view()) == map_of_set_listings(
            second.accepted_children.deep_view(),
        ),
        first.children_status.len() == second.children_status.len(),
        map_of_entries(first.children_status.deep_view()) == map_of_entries(
            second.children_status.deep_view(),
        ),
        first.equipped_tokens.len() == second.equipped_tokens.len(),
        first.equipped_tokens.deep_view().to_set() == second.equipped_tokens.deep_view().to_set(),
        first.multiresource.pending_resources.len() == second.multiresource.pending_resources.len(),
        map_of_set_listings(first.multiresource.pending_resources.deep_view())
            == map_of_set_listings(second.multiresource.pending_resources.deep_view()),
        first.multiresource.active_resources.len() == second.multiresource.active_resources.len(),
        map_of_set_listings(first.multiresource.active_resources.deep_view())
            == map_of_set_listings(second.multiresource.active_resources.deep_view()),
        first.multiresource.resource_overwrites.len()
            == second.multiresource.resource_overwrites.len(),
        map_of_map_listings(first.multiresource.resource_overwrites.deep_view())
            == map_of_map_listings(second.multiresource.resource_overwrites.deep_view()),
        first.multiresource.active_resources_priorities.len()
            == second.multiresource.active_resources_priorities.len(),
        map_of_entries(first.multiresource.active_resources_priorities.deep_view())
            == map_of_entries(second.multiresource.active_resources_priorities.deep_view()),
{
    snapshot_is_lossless(first, rmrk);
    snapshot_is_lossless(second, rmrk);
    let nesting = rmrk.nesting;
    let resources = rmrk.multiresource;
    listed_map_of_sets_is_recovered(first.pending_children.deep_view(), children_map_contents(nesting.pending_children));
    listed_map_of_sets_is_recovered(second.pending_children.deep_view(), children_map_contents(nesting.pending_children));
    listed_map_of_sets_is_recovered(first.accepted_children.deep_view(), children_map_contents(nesting.accepted_children));
    listed_map_of_sets_is_recovered(second.accepted_children.deep_view(), children_map_contents(nesting.accepted_children));
    listed_map_is_recovered(first.children_status.deep_view(), status_map_contents(nesting.children_status));
    listed_map_is_recovered(second.children_status.deep_view(), status_map_contents(nesting.children_status));
    listed_set_is_recovered(first.equipped_tokens.deep_view(), token_set_contents(rmrk.equipped_tokens));
    listed_set_is_recovered(second.equipped_tokens.deep_view(), token_set_contents(rmrk.equipped_tokens));
    listed_map_of_sets_is_recovered(first.multiresource.pending_resources.deep_view(), resources_map_contents(resources.pending_resources));
    listed_map_of_sets_is_recovered(second.multiresource.pending_resources.deep_view(), resources_map_contents(resources.pending_resources));
    listed_map_of_sets_is_recovered(first.multiresource.active_resources.deep_view(), resources_map_contents(resources.active_resources));
    listed_map_of_sets_is_recovered(second.multiresource.active_resources.deep_view(), resources_map_contents(resources.active_resources));
    listed_map_of_maps_is_recovered(first.multiresource.resource_overwrites.deep_view(), overwrites_map_contents(resources.resource_overwrites));
    listed_map_of_maps_is_recovered(second.multiresource.resource_overwrites.deep_view(), overwrites_map_contents(resources.resource_overwrites));
    listed_map_is_recovered(first.multiresource.active_resources_priorities.deep_view(), priorities_map_contents(resources.active_resources_priorities));
    listed_map_is_recovered(second.multiresource.active_resources_priorities.deep_view(), priorities_map_contents(resources.active_resources_priorities));
}

} // verus!
