use vstd::prelude::*;
use crate::primitives::{ActorId, BaseId, ChildStatus, CollectionAndToken, PartId, ResourceId, TokenId};

verus! {

/// A plain resource: media and metadata locations.
#[derive(Clone, Debug, PartialEq, Eq)]
pub struct BasicResource {
    /// Location of the media, such as an IPFS hash.
    pub src: String,
    /// Location of a thumbnail, if there is one.
    pub thumb: Option<String>,
    /// Location of the metadata.
    pub metadata_uri: String,
}

/// A resource made of parts of a base.
#[derive(Clone, Debug, PartialEq, Eq)]
pub struct ComposedResource {
    pub src: String,
    pub thumb: String,
    pub metadata_uri: String,
    /// The base program the parts belong to.
    pub base: BaseId,
    /// The parts of the base that make up the resource.
    pub parts: Vec<PartId>,
}

/// A resource that fits into one slot of a base.
#[derive(Clone, Debug, PartialEq, Eq)]
pub struct SlotResource {
    pub src: String,
    pub thumb: String,
    pub metadata_uri: String,
    /// The base program the slot belongs to.
    pub base: BaseId,
    /// The slot part.
    pub slot: PartId,
}

/// A resource entry of the resource storage program.
#[derive(Clone, Debug, PartialEq, Eq)]
pub enum Resource {
    Basic(BasicResource),
    Slot(SlotResource),
    Composed(ComposedResource),
}

/// Owner of an RMRK token: a parent token (in the collection `owner_id`), or, when
/// `token_id` is `None`, the account `owner_id` itself.
#[derive(Clone, Debug, PartialEq, Eq)]
pub struct RMRKOwner {
    pub token_id: Option<TokenId>,
    pub owner_id: ActorId,
}

/// Parameters of a new collection.
#[derive(Debug)]
pub struct InitRMRK {
    pub name: String,
    pub symbol: String,
    pub resource_name: String,
    pub resource_hash: Option<[u8; 32]>,
    pub nft_hash: Option<[u8; 32]>,
}

/// Requests that a collection handles.
#[derive(Debug)]
pub enum RMRKAction {
    /// Mints `token_id` as a child of `parent_token_id` in the collection `parent_id`.
    /// Replies [`RMRKEvent::MintToNft`].
    MintToNft { parent_id: ActorId, parent_token_id: TokenId, token_id: TokenId },
    /// Mints `token_id` to the account `root_owner`, which must not be zero.
    /// Replies [`RMRKEvent::MintToRootOwner`].
    MintToRootOwner { root_owner: ActorId, token_id: TokenId },
    /// Sent by a child collection: adds `child_token_id` as a pending child of
    /// `parent_token_id`. Replies [`RMRKEvent::PendingChild`].
    AddChild { parent_token_id: TokenId, child_token_id: TokenId },
    /// Moves a pending child to the accepted children. Replies [`RMRKEvent::AcceptedChild`].
    AcceptChild { parent_token_id: TokenId, child_contract_id: ActorId, child_token_id: TokenId },
    /// Rejects a pending child and burns it in its collection.
    /// Replies [`RMRKEvent::RejectedChild`].
    RejectChild { parent_token_id: TokenId, child_contract_id: ActorId, child_token_id: TokenId },
    /// Removes an accepted child and burns it in its collection.
    /// Replies [`RMRKEvent::RemovedChild`].
    RemoveChild { parent_token_id: TokenId, child_contract_id: ActorId, child_token_id: TokenId },
    /// Sent by a child collection: moves a child from `from` to `to`, keeping its status when
    /// both have the same root owner and making it pending otherwise.
    /// Replies [`RMRKEvent::ChildTransferred`].
    TransferChild { from: TokenId, to: TokenId, child_token_id: TokenId },
    /// Asks for the root owner of a token. Replies [`RMRKEvent::RootOwner`].
    RootOwner(TokenId),
    /// Sent by a child collection: adds `child_token_id` as an accepted child of
    /// `parent_token_id`. Replies [`RMRKEvent::AcceptedChild`].
    AddAcceptedChild { parent_token_id: TokenId, child_token_id: TokenId },
    /// Adds a resource entry to the resource storage program (admin only).
    /// Replies [`RMRKEvent::ResourceEntryAdded`].
    AddResourceEntry { resource_id: ResourceId, resource: Resource },
    /// Proposes a resource for a token, possibly overwriting an active one.
    /// Replies [`RMRKEvent::ResourceAdded`].
    AddResource { token_id: TokenId, resource_id: u8, overwrite_id: u8 },
    /// Moves a resource from the pending to the active resources.
    /// Replies [`RMRKEvent::ResourceAccepted`].
    AcceptResource { token_id: TokenId, resource_id: u8 },
    /// Drops a resource from the pending resources. Replies [`RMRKEvent::ResourceRejected`].
    RejectResource { token_id: TokenId, resource_id: u8 },
    /// Sets the priorities of the active resources, one per active resource.
    /// Replies [`RMRKEvent::PrioritySet`].
    SetPriority { token_id: TokenId, priorities: Vec<u8> },
    /// Equips a child's slot resource into a parent's composed resource.
    /// Replies [`RMRKEvent::TokenEquipped`].
    Equip {
        token_id: TokenId,
        resource_id: ResourceId,
        equippable: CollectionAndToken,
        equippable_resource_id: ResourceId,
    },
    /// Sent by a child collection: checks that a parent can take the child into a slot.
    /// Replies [`RMRKEvent::EquippableIsOk`].
    CheckEquippable {
        parent_token_id: TokenId,
        child_token_id: TokenId,
        resource_id: ResourceId,
        slot_id: PartId,
    },
    /// Checks that a token has a slot resource for the given base and slot.
    /// Replies [`RMRKEvent::SlotResourceIsOk`].
    CheckSlotResource {
        token_id: TokenId,
        resource_id: ResourceId,
        base_id: BaseId,
        slot_id: PartId,
    },
}

/// Replies of a collection.
#[derive(Debug)]
pub enum RMRKEvent {
    MintToNft { parent_id: ActorId, parent_token_id: TokenId, token_id: TokenId },
    MintToRootOwner { root_owner: ActorId, token_id: TokenId },
    Approval { root_owner: ActorId, approved_account: ActorId, token_id: TokenId },
    PendingChild { child_token_address: ActorId, child_token_id: TokenId, parent_token_id: TokenId },
    AcceptedChild { child_contract_id: ActorId, child_token_id: TokenId, parent_token_id: TokenId },
    RootOwner(ActorId),
    RejectedChild { child_contract_id: ActorId, child_token_id: TokenId, parent_token_id: TokenId },
    RemovedChild { child_contract_id: ActorId, child_token_id: TokenId, parent_token_id: TokenId },
    ChildAdded { parent_token_id: TokenId, child_token_id: TokenId, child_status: ChildStatus },
    ChildBurnt { parent_token_id: TokenId, child_token_id: TokenId },
    ChildTransferred {
        from: TokenId,
        to: TokenId,
        child_contract_id: ActorId,
        child_token_id: TokenId,
    },
    TokenBurnt(TokenId),
    Transfer { to: ActorId, token_id: TokenId },
    TransferToNft { to: ActorId, token_id: TokenId, destination_id: TokenId },
    Owner { token_id: Option<TokenId>, owner_id: ActorId },
    ResourceEntryAdded(Resource),
    ResourceAdded { token_id: TokenId, resource_id: ResourceId, overwrite_id: ResourceId },
    ResourceAccepted { token_id: TokenId, resource_id: ResourceId },
    ResourceRejected { token_id: TokenId, resource_id: ResourceId },
    PrioritySet { token_id: TokenId, priorities: Vec<u8> },
    ResourceInited { resource_id: ActorId },
    SlotResourceIsOk,
    TokenEquipped {
        token_id: TokenId,
        resource_id: ResourceId,
        slot_id: PartId,
        equippable: CollectionAndToken,
    },
    EquippableIsOk,
}

impl Default for RMRKOwner {
    /// An owner with no parent token and the zero account.
    fn default() -> (owner: RMRKOwner)
        ensures
            owner.token_id is None,
            owner.owner_id@ == Seq::new(32, |i: int| 0u8),
    {
        RMRKOwner { token_id: None, owner_id: ActorId([0u8; 32]) }
    }
}

} // verus!
