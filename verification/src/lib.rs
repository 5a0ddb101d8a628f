//! A double-ended bump allocator for the bootstrap phase of a kernel or
//! embedded runtime, together with the small map shim that early user code
//! relies on before a hashing allocator-backed map is available.

pub mod align;
pub mod collections;
pub mod early;

pub use collections::HashMap;
pub use early::AllocError;
pub use early::AllocResult;
pub use early::AllocatorModel;
pub use early::EarlyAllocator;
