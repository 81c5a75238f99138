//! A pool of locks, one per key, that creates a lock when its key is first
//! asked for and removes it again when nobody refers to it and the value
//! behind it is empty.
pub mod blocking;
pub mod empty;
pub mod inner;
pub mod protocol;
pub mod raw;

pub use blocking::map_guard;
pub use blocking::KeyMutex;
pub use blocking::KeyRwLock;
pub use blocking::LockResult;
pub use blocking::OwnedMutexGuard;
pub use blocking::OwnedReadGuard;
pub use blocking::OwnedWriteGuard;
pub use blocking::Poisoned;
pub use empty::Empty;
