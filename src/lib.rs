//! Seeded, fixed-width gxhash hashing with an incremental, hashlib-style
//! digest object, a name registry and the inline/offload decision for
//! asynchronous hashing.

pub mod encoding;
pub mod provider;
pub mod width;
pub mod hashlib;
pub mod buffer;
pub mod registry;
pub mod invoker;
pub mod workload;
