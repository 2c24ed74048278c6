//! The configuration record that identifies one backend worker.

use vstd::prelude::*;

verus! {

/// One backend worker: its route name, the local port its RPC server
/// listens on, the filesystem path of its installation, and an optional
/// sub-route that distinguishes several entry points of one model.
///
/// The path is carried as plain text; only the process-launching shell
/// around the library ever treats it as a filesystem path.
pub struct ModelConfig {
    pub name: String,
    pub port: u16,
    pub path: String,
    pub sub_route: Option<String>,
}

impl ModelConfig {
    /// The optional sub-route, as a sequence view for contracts.
    pub open spec fn sub_route_view(&self) -> Option<Seq<char>> {
        match self.sub_route {
            Some(ref s) => Some(s@),
            None => None,
        }
    }
}

} // verus!
