//! The connection-edit screen: where a server connection is added or edited.
//! The screen itself holds no state; drawing and key handling live with the
//! surrounding runtime.

use vstd::prelude::*;

verus! {

/// The server-connection edit screen.
pub struct ConnectionEditScreen {}

impl ConnectionEditScreen {
    /// A fresh connection-edit screen.
    pub fn new() -> (r: Self)
    {
        ConnectionEditScreen {}
    }
}

} // verus!
