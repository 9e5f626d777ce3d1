//! Asset handles as plain values: the id that a handle holds, and whether the
//! handle keeps its asset alive.
//!
//! The types follow bevy's `HandleId` and `Handle<T>`. A type uuid stands
//! here as the `u128` that `Uuid::as_u128` gives, and the asset type that a
//! handle is typed with is the uuid inside its id.

use vstd::prelude::*;

verus! {

/// What a handle points at.
#[derive(Clone, Copy, Debug, PartialEq, Eq, Structural)]
pub enum HandleId {
    /// A loaded asset: the uuid of its asset type, then its identity among
    /// the assets. The identity does not depend on the type.
    Id(u128, u64),
    /// An asset that is still looked up by its path and has no identity yet.
    /// The path is not recorded, since nothing here reads it.
    AssetPathId,
}

impl HandleId {
    /// The identity of the asset, where one has been assigned.
    pub open spec fn identity(self) -> Option<u64> {
        match self {
            HandleId::Id(_, id) => Some(id),
            HandleId::AssetPathId => None,
        }
    }

    /// The uuid of the asset type, where the id carries one.
    pub open spec fn type_uuid(self) -> Option<u128> {
        match self {
            HandleId::Id(type_uuid, _) => Some(type_uuid),
            HandleId::AssetPathId => None,
        }
    }

    /// The id of the asset with identity `id`, of the asset type `type_uuid`.
    pub fn new(type_uuid: u128, id: u64) -> (handle_id: HandleId)
        ensures
            handle_id == HandleId::Id(type_uuid, id),
    {
        HandleId::Id(type_uuid, id)
    }
}

/// Whether a handle takes part in counting the references to its asset.
#[derive(Clone, Copy, Debug, PartialEq, Eq, Structural)]
pub enum HandleType {
    /// The handle does not keep the asset loaded.
    Weak,
    /// The handle keeps the asset loaded for as long as it lives.
    Strong,
}

/// A reference to an asset.
///
/// Two handles are equal when they agree on the id and on being weak or
/// strong. (bevy compares the ids alone.)
#[derive(Clone, Copy, Debug, PartialEq, Eq, Structural)]
pub struct Handle {
    pub id: HandleId,
    pub handle_type: HandleType,
}

impl Handle {
    /// A weak handle to the asset that `id` names.
    pub fn weak(id: HandleId) -> (handle: Handle)
        ensures
            handle == (Handle { id, handle_type: HandleType::Weak }),
    {
        Handle { id, handle_type: HandleType::Weak }
    }

    /// A strong handle to the asset that `id` names.
    pub fn strong(id: HandleId) -> (handle: Handle)
        ensures
            handle == (Handle { id, handle_type: HandleType::Strong }),
    {
        Handle { id, handle_type: HandleType::Strong }
    }

    /// Whether the handle leaves the lifetime of its asset to others.
    pub fn is_weak(&self) -> (weak: bool)
        ensures
            weak == (self.handle_type == HandleType::Weak),
    {
        match self.handle_type {
            HandleType::Weak => true,
            HandleType::Strong => false,
        }
    }
}

} // verus!
