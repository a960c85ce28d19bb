use vstd::prelude::*;

verus! {

/// The address of a program or a user: 32 raw bytes.
#[derive(Clone, Copy, Debug, PartialEq, Eq, Hash, Default)]
pub struct ActorId(pub [u8; 32]);

impl View for ActorId {
    type V = Seq<u8>;

    open spec fn view(&self) -> Seq<u8> {
        self.0@
    }
}

impl DeepView for ActorId {
    type V = Seq<u8>;

    open spec fn deep_view(&self) -> Seq<u8> {
        self.0@
    }
}

/// A 256-bit token identifier, as four 64-bit limbs, least significant first.
#[derive(Clone, Copy, Debug, PartialEq, Eq, Hash, Default)]
pub struct TokenId(pub [u64; 4]);

impl View for TokenId {
    type V = Seq<u64>;

    open spec fn view(&self) -> Seq<u64> {
        self.0@
    }
}

impl DeepView for TokenId {
    type V = Seq<u64>;

    open spec fn deep_view(&self) -> Seq<u64> {
        self.0@
    }
}

/// A child token: the collection (program) it lives in and its id there.
pub type CollectionAndToken = (ActorId, TokenId);

/// Identifier of a resource entry in the resource storage program.
pub type ResourceId = u8;

/// Identifier of a part of a base.
pub type PartId = u32;

/// Address of a base program.
pub type BaseId = ActorId;

} // verus!

verus! {

/// Whether a child token has been accepted by its parent.
#[derive(Clone, Copy, Debug, PartialEq, Eq)]
pub enum ChildStatus {
    Pending,
    Accepted,
}

impl View for ChildStatus {
    type V = ChildStatus;

    open spec fn view(&self) -> ChildStatus {
        *self
    }
}

impl DeepView for ChildStatus {
    type V = ChildStatus;

    open spec fn deep_view(&self) -> ChildStatus {
        *self
    }
}

} // verus!
