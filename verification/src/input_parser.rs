//! Configuration the service is started with.

use vstd::prelude::*;

verus! {

/// Start-up arguments: how many workers complete tasks, and the address and
/// port the server listens on. The command line is read by the embedding
/// application, which fills this in.
pub struct ServerStartArguments {
    /// Amount of workers that will be completing the tasks.
    pub workers_count: usize,
    /// Server address.
    pub address: String,
    /// Server port.
    pub port: u16,
}

impl Default for ServerStartArguments {
    /// One worker, listening on 127.0.0.1:8080.
    fn default() -> (r: ServerStartArguments)
        ensures
            r.workers_count == 1,
            r.address@ == "127.0.0.1"@,
            r.port == 8080,
    {
        ServerStartArguments {
            workers_count: 1,
            address: "127.0.0.1".to_owned(),
            port: 8080,
        }
    }
}

} // verus!
