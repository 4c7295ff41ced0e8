//! A capability abstraction over two reference-counted smart-pointer
//! flavors: a single-owner one and a shared one. Downstream code picks a
//! family marker at compile time and works with strong and weak handles
//! through uniform traits, without hard-coding which flavor it uses.
//!
//! Allocation and reference-count bookkeeping are carried out by an explicit
//! [`store::Store`], a verified model of a reference-counted heap. Every
//! operation states exactly how it moves the strong count, the weak count,
//! and the payload of the allocation it touches.

pub mod store;
pub mod concrete;
pub mod laws;
pub mod traits;

pub use concrete::arc::ArcHandle;
pub use concrete::arc::ArcMark;
pub use concrete::arc::WeakArcHandle;
pub use concrete::arc::WeakArcMark;
pub use concrete::rc::RcHandle;
pub use concrete::rc::RcMark;
pub use concrete::rc::WeakRcHandle;
pub use concrete::rc::WeakRcMark;
pub use store::Slot;
pub use store::Store;
pub use traits::CloneSmartPointer;
pub use traits::Pinned;
pub use traits::RefCounted;
pub use traits::SmartPointer;
pub use traits::SmartPointerFamily;
pub use traits::WeakFamily;
pub use traits::WeakPointer;
