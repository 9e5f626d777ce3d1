//! Mapping a handle of one asset type to a weak handle of another.

use vstd::prelude::*;
use crate::handle::{Handle, HandleId, HandleType};

verus! {

/// Why a handle could not be mapped.
#[derive(Clone, Copy, Debug, PartialEq, Eq, Structural)]
pub enum MapHandleError {
    /// The asset is still pending and has no id assigned.
    PendingAsset,
}

/// What mapping a handle that holds `id` to the asset type `type_uuid` gives.
///
/// The id of a loaded asset keeps the identity and takes the new type uuid,
/// and the handle around it is weak. The id of a pending asset cannot be
/// mapped.
pub open spec fn mapped_weak(id: HandleId, type_uuid: u128) -> Result<Handle, MapHandleError> {
    match id {
        HandleId::Id(_, identity) => Ok(
            Handle { id: HandleId::Id(type_uuid, identity), handle_type: HandleType::Weak },
        ),
        HandleId::AssetPathId => Err(MapHandleError::PendingAsset),
    }
}

/// Handles that can be mapped to another asset type.
///
/// The asset id is preserved, so that all handles pointing to asset *a* of
/// one type point to asset *b* of the other type when mapped, and to *a*
/// again when mapped back.
pub trait MapHandle {
    /// The id that the handle holds.
    spec fn handle_id(&self) -> HandleId;

    /// Maps the handle to a weak handle of the asset type `type_uuid`.
    ///
    /// Succeeds exactly when the asset is loaded, with a weak handle that
    /// holds the same identity under the type uuid `type_uuid`; whether `self`
    /// is weak or strong, and which type it had, plays no part. Fails with
    /// [`MapHandleError::PendingAsset`] exactly when the asset is pending,
    /// whatever `type_uuid` is. The caller may make the result strong through
    /// the asset collection of the new type.
    fn map_weak(&self, type_uuid: u128) -> (mapped: Result<Handle, MapHandleError>)
        ensures
            mapped == mapped_weak(self.handle_id(), type_uuid),
            self.handle_id() matches HandleId::Id(_, identity) ==> mapped matches Ok(handle)
                && handle.id == HandleId::Id(type_uuid, identity)
                && handle.handle_type == HandleType::Weak,
            self.handle_id() is AssetPathId <==> mapped matches Err(MapHandleError::PendingAsset),
    ;
}

impl MapHandle for Handle {
    open spec fn handle_id(&self) -> HandleId {
        self.id
    }

    fn map_weak(&self, type_uuid: u128) -> (mapped: Result<Handle, MapHandleError>) {
        match self.id {
            HandleId::AssetPathId => Err(MapHandleError::PendingAsset),
            HandleId::Id(_, id) => {
                let handle_id = HandleId::new(type_uuid, id);
                Ok(Handle::weak(handle_id))
            },
        }
    }
}

/// Mapping is its own inverse on loaded assets: a handle of the asset type
/// `home` that is mapped to any type `away` and then back to `home` holds the
/// id it began with. The handle that comes back is weak, so it is the very
/// handle that went in whenever that one was weak.
pub proof fn lemma_map_weak_round_trip(handle: Handle, home: u128, away: u128)
    requires
        handle.handle_id().type_uuid() == Some(home),
    ensures
        mapped_weak(handle.handle_id(), away) matches Ok(mapped) && mapped_weak(
            mapped.handle_id(),
            home,
        ) matches Ok(back) && {
            &&& back.handle_id() == handle.handle_id()
            &&& back.handle_type == HandleType::Weak
            &&& handle.handle_type == HandleType::Weak ==> back == handle
        },
{
}

/// Mapping one handle of a loaded asset to one asset type twice gives two
/// handles that hold the identity of the asset they were made from, and so
/// agree with each other. Mapping either of them to that type once more
/// changes nothing.
pub proof fn lemma_map_weak_twice(
    handle: Handle,
    type_uuid: u128,
    first: Result<Handle, MapHandleError>,
    second: Result<Handle, MapHandleError>,
)
    requires
        handle.handle_id() is Id,
        first == mapped_weak(handle.handle_id(), type_uuid),
        second == mapped_weak(handle.handle_id(), type_uuid),
    ensures
        first matches Ok(a) && second matches Ok(b) && {
            &&& a.handle_id().identity() == handle.handle_id().identity()
            &&& b.handle_id().identity() == handle.handle_id().identity()
            &&& a == b
            &&& mapped_weak(a.handle_id(), type_uuid) == Ok::<Handle, MapHandleError>(a)
        },
{
}

} // verus!
