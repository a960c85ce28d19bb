use rmrk_token::{
    ActorId, ChildSet, ChildStatus, ChildrenMap, MultiResource, MultiResourceState, Nesting,
    OverwriteMap, OverwritesMap, PrioritiesMap, RMRKState, RMRKToken, ResourceSet, ResourcesMap,
    StatusMap, TokenId, TokenSet,
};

fn actor(n: u8) -> ActorId {
    ActorId([n; 32])
}

fn token(n: u64) -> TokenId {
    TokenId([n, 0, 0, 0])
}

fn child_set(children: &[(u8, u64)]) -> ChildSet {
    let mut set = ChildSet::new();
    for (collection, id) in children {
        set.insert((actor(*collection), token(*id)));
    }
    set
}

fn resource_set(ids: &[u8]) -> ResourceSet {
    let mut set = ResourceSet::new();
    for id in ids {
        set.insert(*id);
    }
    set
}

fn empty_multiresource() -> MultiResource {
    MultiResource {
        pending_resources: ResourcesMap::new(),
        active_resources: ResourcesMap::new(),
        resource_overwrites: OverwritesMap::new(),
        active_resources_priorities: PrioritiesMap::new(),
    }
}

fn empty_collection(name: &str, symbol: &str) -> RMRKToken {
    RMRKToken {
        name: name.to_string(),
        symbol: symbol.to_string(),
        admin: actor(1),
        nesting: Nesting {
            pending_children: ChildrenMap::new(),
            accepted_children: ChildrenMap::new(),
            children_status: StatusMap::new(),
        },
        multiresource: empty_multiresource(),
        resource_id: actor(2),
        equipped_tokens: TokenSet::new(),
    }
}

/// Sorts a listing of child sets by token, and each set by collection and token.
fn sorted_children(mut listing: Vec<(TokenId, Vec<(ActorId, TokenId)>)>) -> Vec<(u64, Vec<(u8, u64)>)> {
    listing.sort_by_key(|e| e.0 .0);
    listing
        .into_iter()
        .map(|(t, children)| {
            let mut plain: Vec<(u8, u64)> = children.iter().map(|(a, t)| (a.0[0], t.0[0])).collect();
            plain.sort();
            (t.0[0], plain)
        })
        .collect()
}

fn sorted_resources(mut listing: Vec<(TokenId, Vec<u8>)>) -> Vec<(u64, Vec<u8>)> {
    listing.sort_by_key(|e| e.0 .0);
    listing
        .into_iter()
        .map(|(t, mut ids)| {
            ids.sort();
            (t.0[0], ids)
        })
        .collect()
}

fn populated_collection() -> RMRKToken {
    let mut rmrk = empty_collection("Kittens", "KIT");
    rmrk.nesting.pending_children.insert(token(1), child_set(&[(7, 10), (7, 11)]));
    rmrk.nesting.pending_children.insert(token(2), child_set(&[(8, 3)]));
    rmrk.nesting.accepted_children.insert(token(1), child_set(&[(9, 4)]));
    rmrk.nesting.children_status.insert((actor(7), token(10)), ChildStatus::Pending);
    rmrk.nesting.children_status.insert((actor(7), token(11)), ChildStatus::Pending);
    rmrk.nesting.children_status.insert((actor(9), token(4)), ChildStatus::Accepted);
    rmrk.multiresource.pending_resources.insert(token(1), resource_set(&[5, 6]));
    rmrk.multiresource.active_resources.insert(token(1), resource_set(&[1, 2, 3]));
    rmrk.multiresource.active_resources.insert(token(3), resource_set(&[]));
    let mut overwrites = OverwriteMap::new();
    overwrites.insert(5, 1);
    overwrites.insert(6, 2);
    rmrk.multiresource.resource_overwrites.insert(token(1), overwrites);
    rmrk.multiresource.active_resources_priorities.insert(token(1), vec![3, 1, 2]);
    rmrk.equipped_tokens.insert(token(2));
    rmrk.equipped_tokens.insert(token(3));
    rmrk
}

#[test]
fn snapshot_of_empty_collection() {
    let rmrk = empty_collection("Kittens", "KIT");
    let state = RMRKState::from(&rmrk);
    assert_eq!(state.name, "Kittens");
    assert_eq!(state.symbol, "KIT");
    assert_eq!(state.admin, actor(1));
    assert_eq!(state.resource_id, actor(2));
    assert!(state.pending_children.is_empty());
    assert!(state.accepted_children.is_empty());
    assert!(state.children_status.is_empty());
    assert!(state.equipped_tokens.is_empty());
    assert!(state.multiresource.pending_resources.is_empty());
    assert!(state.multiresource.active_resources.is_empty());
    assert!(state.multiresource.resource_overwrites.is_empty());
    assert!(state.multiresource.active_resources_priorities.is_empty());
}

#[test]
fn snapshot_lists_children() {
    let rmrk = populated_collection();
    let state = RMRKState::from(&rmrk);
    assert_eq!(
        sorted_children(state.pending_children),
        vec![(1, vec![(7, 10), (7, 11)]), (2, vec![(8, 3)])]
    );
    assert_eq!(sorted_children(state.accepted_children), vec![(1, vec![(9, 4)])]);
}

#[test]
fn snapshot_lists_children_status() {
    let rmrk = populated_collection();
    let state = RMRKState::from(&rmrk);
    let mut status: Vec<(u8, u64, ChildStatus)> = state
        .children_status
        .iter()
        .map(|((a, t), s)| (a.0[0], t.0[0], *s))
        .collect();
    status.sort_by_key(|e| (e.0, e.1));
    assert_eq!(
        status,
        vec![
            (7, 10, ChildStatus::Pending),
            (7, 11, ChildStatus::Pending),
            (9, 4, ChildStatus::Accepted),
        ]
    );
}

#[test]
fn snapshot_lists_equipped_tokens() {
    let rmrk = populated_collection();
    let state = RMRKState::from(&rmrk);
    let mut equipped: Vec<u64> = state.equipped_tokens.iter().map(|t| t.0[0]).collect();
    equipped.sort();
    assert_eq!(equipped, vec![2, 3]);
}

#[test]
fn snapshot_lists_resources() {
    let rmrk = populated_collection();
    let state = RMRKState::from(&rmrk);
    let resources = state.multiresource;
    assert_eq!(sorted_resources(resources.pending_resources), vec![(1, vec![5, 6])]);
    assert_eq!(
        sorted_resources(resources.active_resources),
        vec![(1, vec![1, 2, 3]), (3, vec![])]
    );
    assert_eq!(resources.resource_overwrites.len(), 1);
    let (t, mut pairs) = resources.resource_overwrites[0].clone();
    pairs.sort();
    assert_eq!(t, token(1));
    assert_eq!(pairs, vec![(5, 1), (6, 2)]);
    // Priorities keep their order: they are a vector, not a set.
    assert_eq!(resources.active_resources_priorities, vec![(token(1), vec![3, 1, 2])]);
}

#[test]
fn multiresource_snapshot_from_owned_bookkeeping() {
    let mut multiresource = empty_multiresource();
    multiresource.pending_resources.insert(token(4), resource_set(&[9]));
    multiresource.active_resources_priorities.insert(token(4), vec![0]);
    let state = MultiResourceState::from(multiresource);
    assert_eq!(state.pending_resources, vec![(token(4), vec![9])]);
    assert!(state.active_resources.is_empty());
    assert!(state.resource_overwrites.is_empty());
    assert_eq!(state.active_resources_priorities, vec![(token(4), vec![0])]);
}

#[test]
fn snapshot_loses_nothing() {
    // Rebuilding the maps from the snapshot gives back what was inserted.
    let rmrk = populated_collection();
    let state = RMRKState::from(&rmrk);
    let mut rebuilt = std::collections::HashMap::new();
    for (t, children) in &state.pending_children {
        let set: std::collections::HashSet<(ActorId, TokenId)> = children.iter().copied().collect();
        assert_eq!(set.len(), children.len());
        assert!(rebuilt.insert(*t, set).is_none());
    }
    assert_eq!(rebuilt.len(), 2);
    assert_eq!(rebuilt[&token(2)].len(), 1);
    assert!(rebuilt[&token(1)].contains(&(actor(7), token(11))));
}

#[test]
fn two_snapshots_agree_up_to_order() {
    let rmrk = populated_collection();
    let first = RMRKState::from(&rmrk);
    let second = RMRKState::from(&rmrk);
    assert_eq!(first.name, second.name);
    assert_eq!(sorted_children(first.pending_children), sorted_children(second.pending_children));
    assert_eq!(
        sorted_resources(first.multiresource.active_resources),
        sorted_resources(second.multiresource.active_resources)
    );
    assert_eq!(first.equipped_tokens.len(), second.equipped_tokens.len());
}

#[test]
fn default_snapshots_are_empty() {
    let state = RMRKState::default();
    assert_eq!(state.name, "");
    assert_eq!(state.symbol, "");
    assert_eq!(state.admin, ActorId([0; 32]));
    assert_eq!(state.resource_id, ActorId([0; 32]));
    assert!(state.pending_children.is_empty());
    assert!(state.equipped_tokens.is_empty());
    let resources = MultiResourceState::default();
    assert!(resources.pending_resources.is_empty());
    assert!(resources.active_resources_priorities.is_empty());
}

#[test]
fn set_insert_reports_whether_new() {
    let mut set = ResourceSet::new();
    assert!(set.insert(3));
    assert!(!set.insert(3));
    assert_eq!(set.items(), vec![3]);
    let mut tokens = TokenSet::new();
    assert!(tokens.insert(token(1)));
    assert!(!tokens.insert(token(1)));
    assert_eq!(tokens.items(), vec![token(1)]);
    let mut children = ChildSet::new();
    assert!(children.insert((actor(1), token(1))));
    assert!(!children.insert((actor(1), token(1))));
    assert_eq!(children.items(), vec![(actor(1), token(1))]);
}

#[test]
fn map_insert_returns_previous_value() {
    let mut status = StatusMap::new();
    assert_eq!(status.insert((actor(1), token(1)), ChildStatus::Pending), None);
    assert_eq!(
        status.insert((actor(1), token(1)), ChildStatus::Accepted),
        Some(ChildStatus::Pending)
    );
    assert_eq!(status.entries(), vec![((actor(1), token(1)), ChildStatus::Accepted)]);
    let mut overwrites = OverwriteMap::new();
    assert_eq!(overwrites.insert(1, 2), None);
    assert_eq!(overwrites.insert(1, 3), Some(2));
    assert_eq!(overwrites.entries(), vec![(1, 3)]);
    let mut priorities = PrioritiesMap::new();
    assert_eq!(priorities.insert(token(1), vec![1]), None);
    assert_eq!(priorities.insert(token(1), vec![2, 1]), Some(vec![1]));
    let mut children = ChildrenMap::new();
    assert!(children.insert(token(1), child_set(&[(1, 1)])).is_none());
    let previous = children.insert(token(1), child_set(&[(2, 2)]));
    assert_eq!(previous.map(|set| set.items()), Some(vec![(actor(1), token(1))]));
}

#[test]
fn rmrk_owner_default_is_zero_account() {
    let owner = rmrk_token::RMRKOwner::default();
    assert_eq!(owner.token_id, None);
    assert_eq!(owner.owner_id, ActorId([0; 32]));
}
