use vstd::prelude::*;

verus! {

/// Default cap, in bytes, on one encoded or decoded message: 100 MiB.
pub const DEFAULT_GRPC_SERVER_MESSAGE_LEN: usize = 100 * 1024 * 1024;

} // verus!
