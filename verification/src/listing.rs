use vstd::prelude::*;

verus! {

/// `items` names every element of `s`, each exactly once.
pub open spec fn lists_set<T>(items: Seq<T>, s: Set<T>) -> bool {
    &&& items.no_duplicates()
    &&& items.to_set() == s
}

/// The keys of a sequence of entries, in order.
pub open spec fn keys_of<K, V>(entries: Seq<(K, V)>) -> Seq<K> {
    entries.map_values(|e: (K, V)| e.0)
}

/// `entries` names every key of `m` exactly once, each with its value in `m`.
pub open spec fn lists_map<K, V>(entries: Seq<(K, V)>, m: Map<K, V>) -> bool {
    &&& keys_of(entries).no_duplicates()
    &&& forall|i: int| #![trigger entries[i]]
        0 <= i < entries.len() ==> m.contains_key(entries[i].0) && m[entries[i].0] == entries[i].1
    &&& forall|k: K| #[trigger] m.contains_key(k) ==> exists|i: int|
        #![trigger entries[i]]
        0 <= i < entries.len() && entries[i].0 == k
}

/// `entries` names every key of `m` exactly once, each with a listing of the set that
/// `m` holds under it.
pub open spec fn lists_map_of_sets<K, T>(entries: Seq<(K, Seq<T>)>, m: Map<K, Set<T>>) -> bool {
    &&& keys_of(entries).no_duplicates()
    &&& forall|i: int| #![trigger entries[i]]
        0 <= i < entries.len() ==> m.contains_key(entries[i].0) && lists_set(
            entries[i].1,
            m[entries[i].0],
        )
    &&& forall|k: K| #[trigger] m.contains_key(k) ==> exists|i: int|
        #![trigger entries[i]]
        0 <= i < entries.len() && entries[i].0 == k
}

/// `entries` names every key of `m` exactly once, each with a listing of the map that
/// `m` holds under it.
pub open spec fn lists_map_of_maps<K, A, B>(
    entries: Seq<(K, Seq<(A, B)>)>,
    m: Map<K, Map<A, B>>,
) -> bool {
    &&& keys_of(entries).no_duplicates()
    &&& forall|i: int| #![trigger entries[i]]
        0 <= i < entries.len() ==> m.contains_key(entries[i].0) && lists_map(
            entries[i].1,
            m[entries[i].0],
        )
    &&& forall|k: K| #[trigger] m.contains_key(k) ==> exists|i: int|
        #![trigger entries[i]]
        0 <= i < entries.len() && entries[i].0 == k
}

} // verus!

verus! {

/// Listing each set of a listed map of sets gives a listing of the map of sets.
pub(crate) proof fn lemma_listing_sets_of_listed_map<K, T>(
    listing: Seq<(K, Seq<T>)>,
    entries: Seq<(K, Set<T>)>,
    m: Map<K, Set<T>>,
)
    requires
        lists_map(entries, m),
        listing.len() == entries.len(),
        forall|j: int|
            #![trigger listing[j]]
            0 <= j < listing.len() ==> listing[j].0 == entries[j].0 && lists_set(
                listing[j].1,
                entries[j].1,
            ),
    ensures
        lists_map_of_sets(listing, m),
{
    assert(keys_of(listing) =~= keys_of(entries)) by {
        assert forall|j: int| 0 <= j < listing.len() implies keys_of(listing)[j] == keys_of(
            entries,
        )[j] by {
            assert(listing[j].0 == entries[j].0);
        }
    }
    assert forall|j: int| #![trigger listing[j]] 0 <= j < listing.len() implies m.contains_key(
        listing[j].0,
    ) && lists_set(listing[j].1, m[listing[j].0]) by {
        assert(entries[j].0 == listing[j].0);
    }
    assert forall|k: K| #[trigger] m.contains_key(k) implies exists|i: int|
        #![trigger listing[i]]
        0 <= i < listing.len() && listing[i].0 == k by {
        let i = choose|i: int| #![trigger entries[i]] 0 <= i < entries.len() && entries[i].0 == k;
        assert(listing[i].0 == k);
    }
}

/// Listing each map of a listed map of maps gives a listing of the map of maps.
pub(crate) proof fn lemma_listing_maps_of_listed_map<K, A, B>(
    listing: Seq<(K, Seq<(A, B)>)>,
    entries: Seq<(K, Map<A, B>)>,
    m: Map<K, Map<A, B>>,
)
    requires
        lists_map(entries, m),
        listing.len() == entries.len(),
        forall|j: int|
            #![trigger listing[j]]
            0 <= j < listing.len() ==> listing[j].0 == entries[j].0 && lists_map(
                listing[j].1,
                entries[j].1,
            ),
    ensures
        lists_map_of_maps(listing, m),
{
    assert(keys_of(listing) =~= keys_of(entries)) by {
        assert forall|j: int| 0 <= j < listing.len() implies keys_of(listing)[j] == keys_of(
            entries,
        )[j] by {
            assert(listing[j].0 == entries[j].0);
        }
    }
    assert forall|j: int| #![trigger listing[j]] 0 <= j < listing.len() implies m.contains_key(
        listing[j].0,
    ) && lists_map(listing[j].1, m[listing[j].0]) by {
        assert(entries[j].0 == listing[j].0);
    }
    assert forall|k: K| #[trigger] m.contains_key(k) implies exists|i: int|
        #![trigger listing[i]]
        0 <= i < listing.len() && listing[i].0 == k by {
        let i = choose|i: int| #![trigger entries[i]] 0 <= i < entries.len() && entries[i].0 == k;
        assert(listing[i].0 == k);
    }
}

/// A sequence equal entry by entry to a listing of a map is a listing of it too.
pub(crate) proof fn lemma_listing_of_listed_map<K, V>(
    listing: Seq<(K, V)>,
    entries: Seq<(K, V)>,
    m: Map<K, V>,
)
    requires
        lists_map(entries, m),
        listing.len() == entries.len(),
        forall|j: int| #![trigger listing[j]] 0 <= j < listing.len() ==> listing[j] == entries[j],
    ensures
        lists_map(listing, m),
{
    assert(listing =~= entries) by {
        assert forall|j: int| 0 <= j < listing.len() implies listing[j] == entries[j] by {}
    }
}

} // verus!
