//! The status endpoint's response shape: a snapshot of the backing store's
//! version and connection counts, stamped with the current time.

use vstd::prelude::*;

use crate::clock::now_millis;

verus! {

/// The backing store as the status endpoint reports it.
pub struct Database {
    pub version: String,
    pub max_connections: u16,
    pub opened_connections: u16,
}

/// The dependencies section of the status report.
pub struct Dependencies {
    pub database: Database,
}

/// The whole status report; `updated_at` is milliseconds since the Unix
/// epoch, stamped when the report is assembled.
pub struct Status {
    pub updated_at: i64,
    pub dependencies: Dependencies,
}

impl Status {
    /// Assemble a report from the store's answers, stamped with the current
    /// time.
    pub fn new(version: String, max_connections: u16, opened_connections: u16) -> (r: Status)
        ensures
            r.dependencies.database.version == version,
            r.dependencies.database.max_connections == max_connections,
            r.dependencies.database.opened_connections == opened_connections,
    {
        Status {
            updated_at: now_millis(),
            dependencies: Dependencies {
                database: Database { version, max_connections, opened_connections },
            },
        }
    }
}

} // verus!
