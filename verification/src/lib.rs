pub mod endpoint;
pub mod gate;
pub mod ident;
pub mod listing;
pub mod spool_path;
pub mod store;

use vstd::prelude::*;

verus! {

/// Runtime options of the spool service: where items are stored and where
/// the service listens.
pub struct Options {
    pub spool_dir: String,
    pub port: u16,
}

impl Options {
    /// The defaults the service starts with when nothing is configured.
    pub fn new_default() -> (o: Options)
        ensures
            o.spool_dir@ == "/tmp"@,
            o.port == 8080,
    {
        Options { spool_dir: "/tmp".to_owned(), port: 8080 }
    }
}

} // verus!
