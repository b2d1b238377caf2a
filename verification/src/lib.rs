//! Dual-ownership dispatch over foreign engine object handles.
//!
//! A game engine's object store owns the real instances; this library
//! models that store as the single owner of every object, with handles as
//! identities into it, so that mutation behaves alias-based: what one
//! handle writes, every handle to the same object sees. On top of the
//! handles it verifies the two mechanisms built on them: an initialization
//! wrapper that ties a base object to a derived object during
//! construction, and a type-erased object reference that lets signal
//! emission treat "borrowed from inside one of the object's own methods"
//! and "owned from outside" uniformly.

pub mod initer;
pub mod obj;
pub mod signal;

pub use initer::Initer;
pub use obj::Base;
pub use obj::Gd;
pub use obj::Object;
pub use obj::ObjectStore;
pub use signal::AnySignalObject;
pub use signal::ErasedSignalObj;
