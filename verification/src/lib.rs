//! Mapping of asset handles from one asset type to another.
//!
//! A handle names an asset by an id. Once the asset is loaded, the id holds
//! the uuid of the asset type that the handle is typed with, and the identity
//! of the asset, which does not depend on the type. [`MapHandle::map_weak`]
//! turns a handle of one asset type into a weak handle of another type that
//! holds the same identity; the lemmas beside it show that the identity
//! survives the change and that mapping back undoes it.
//!
//! Handles stand here as plain values. A caller that has handles of bevy
//! reads them into [`Handle`], and builds the handle of the new type from
//! the id that comes back.

pub mod handle;
pub mod map_handle;

pub use handle::{Handle, HandleId, HandleType};
pub use map_handle::{MapHandle, MapHandleError};
