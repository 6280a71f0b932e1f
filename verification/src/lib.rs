//! Role-based access control and pause gating for a stateful host object.
//!
//! A host carries a [`RoleRegistry`] and a [`PauseGate`] and offers their
//! operations through [`AccessControl`] and [`Pausable`]. The registry keeps,
//! for each named role, its members and the name of the role that
//! administers it; whoever changes a role has to hold that admin role.
//!
//! The host's surroundings stay outside: an operation takes the identities
//! of a call as an [`AuthorizationContext`], hands back the [`Event`]s that it
//! produced for the host to log, and returns an [`Error`] for the host to
//! abort with. What the operations do is stated over [`RegistryView`], and
//! what holds of every registry is proved in [`laws`].

pub mod access_control;
pub mod composition;
pub mod context;
pub mod error;
pub mod event;
pub mod laws;
pub mod model;
pub mod pausable;
pub mod role_data;
pub mod status_message;
pub mod storage;

pub use access_control::{AccessControl, RoleRegistry};
pub use composition::{init_macro, require, Capability, InitElement, InitError, RequireError};
pub use context::{AccountId, AuthorizationContext};
pub use error::{Error, ErrorView};
pub use event::{Event, EventView};
pub use model::{RegistryView, RoleView, DEFAULT_ADMIN};
pub use pausable::{Pausable, PauseGate};
pub use role_data::{RoleData, RoleRecord};
pub use status_message::{StatusMessage, MANAGER, MINTER};
pub use storage::StorageKey;
