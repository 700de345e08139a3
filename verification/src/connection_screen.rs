//! The connection screen: lets the user pick a server from the configured
//! list. The screen itself holds no state; drawing and key handling live with
//! the surrounding runtime and read the functional models.

use vstd::prelude::*;

verus! {

/// The server-connection selection screen.
pub struct ConnectionScreen {}

impl ConnectionScreen {
    /// A fresh connection screen.
    pub fn new() -> (r: Self)
    {
        ConnectionScreen {}
    }
}

} // verus!
