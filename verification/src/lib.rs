//! Argument buffers for smart contract calls, and the method metadata rules
//! that decide how a contract trait's methods are turned into endpoints,
//! events, callbacks and storage accessors.
pub mod arg_buffer;
pub mod payable;
pub mod metadata;
pub mod method;
