//! The identity of the one client handle of a process: which service it
//! speaks to, and where. Both are fixed.

use vstd::prelude::*;

verus! {

/// The name under which the client presents itself.
pub const SERVICE_NAME: &'static str = "volo-example";

/// The address at which the service listens.
pub const SERVER_ADDRESS: &'static str = "127.0.0.1:10818";

} // verus!
