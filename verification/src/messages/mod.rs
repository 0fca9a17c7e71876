//! Messages exchanged with the kernel: the records of the wire format, the
//! requests parsed from it and the replies written to it.
pub mod argument;
pub mod codec;
pub mod fuse_abi;
pub mod reply;
pub mod request;
