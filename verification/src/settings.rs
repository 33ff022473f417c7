use vstd::prelude::*;

verus! {

/// The server's settings: where its database is and where it listens.
#[derive(Debug, Clone)]
pub struct Settings {
    pub database_url: String,
    pub server_url: String,
}

} // verus!
