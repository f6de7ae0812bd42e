//! Execution control plane for commands run inside an enclave runtime.

pub mod ident;
pub mod laws;
pub mod pal;
pub mod server;
pub mod symlink;
pub mod table;
pub mod timer;
