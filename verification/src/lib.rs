//! A type-keyed container of shared resources with run-time borrow checking.
//!
//! The [`Resources`] container holds at most one value of each stored type,
//! filed in a [`RawStore`] under a key derived from the type's identity.
//! Stored values are reached through guards that behave like references:
//! any number of shared guards ([`Ref`]), or exactly one exclusive guard
//! ([`RefMut`]), may be live for a value at a time. A request that conflicts
//! with a live guard fails immediately with
//! [`AccessError::AlreadyBorrowed`]; nothing blocks, waits, or retries.
//!
//! Admission of a borrow is decided per slot by the state machine stated in
//! [`BorrowState`] and its transition functions, and proved there to admit
//! any number of readers or one writer, never both. The container's slots
//! enforce that discipline with an atomic count, so a [`ResourcesSync`]
//! handle derived with [`Resources::sync()`] may be sent to, and used from,
//! several threads at once; every storable type is therefore required to be
//! thread-safe (see [`Resource`]). The handle borrows the container for its
//! whole lifetime, so no value can be inserted or removed while a handle
//! exists, and neither guards nor handles can outlive the container.

mod errors;
mod resource;
mod store;
mod tracker;

pub use errors::AccessError;
pub use resource::Ref;
pub use resource::RefMut;
pub use resource::Resource;
pub use resource::ResourceCell;
pub use store::RawStore;
pub use store::Resources;
pub use store::ResourcesSync;
pub use store::lemma_insert_replaces;
pub use store::lemma_slot_independence;
pub use tracker::BorrowState;
pub use tracker::BorrowTracker;
pub use tracker::all_released;
pub use tracker::exclusive_released;
pub use tracker::exclusive_requested;
pub use tracker::lemma_admission;
pub use tracker::lemma_exclusive_excludes;
pub use tracker::lemma_release_readmits;
pub use tracker::lemma_shared_compatible;
pub use tracker::lemma_transitions_preserve_wf;
pub use tracker::outstanding;
pub use tracker::shared_released;
pub use tracker::shared_requested;
