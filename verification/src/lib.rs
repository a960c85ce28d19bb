//! Data model and state snapshots of an RMRK nestable, multi-resource NFT collection.
//!
//! The live state of a collection keeps its children and resources in hash maps
//! and hash sets; the snapshot handed out to readers lists the same contents as
//! vectors of key/value pairs.
mod collections;
mod laws;
mod listing;
mod messages;
mod primitives;
mod state;

pub use collections::{
    child_set_contents, children_map_contents, overwrite_map_contents, overwrites_map_contents,
    priorities_map_contents, resource_set_contents, resources_map_contents, status_map_contents,
    token_set_contents, ChildSet, ChildrenMap, OverwriteMap, OverwritesMap, PrioritiesMap,
    ResourceSet, ResourcesMap, StatusMap, TokenSet,
};
pub use listing::{keys_of, lists_map, lists_map_of_maps, lists_map_of_sets, lists_set};
pub use primitives::{ActorId, BaseId, ChildStatus, CollectionAndToken, PartId, ResourceId, TokenId};
pub use state::{is_snapshot_of, lists_multiresource, MultiResource, MultiResourceState, Nesting, RMRKState, RMRKToken};
pub use messages::{BasicResource, ComposedResource, InitRMRK, RMRKAction, RMRKEvent, RMRKOwner, Resource, SlotResource};
pub use laws::{listed_map_is_recovered, listed_map_of_maps_is_recovered, listed_map_of_sets_is_recovered, listed_set_is_recovered, map_of_entries, map_of_map_listings, map_of_set_listings, resource_snapshot_is_lossless, snapshot_is_lossless, snapshots_agree_up_to_order};
