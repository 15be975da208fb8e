//! Health endpoints' pure parts: the fixed service answer, and the shape
//! of the database health answer.

use vstd::prelude::*;

verus! {

/// The service health answer.
#[derive(Debug, Clone)]
pub struct HealthResponse {
    /// Always `ok` while the process serves.
    pub status: String,
    /// A short human-readable line.
    pub message: String,
}

/// The database health answer.
#[derive(Debug, Clone)]
pub struct DatabaseHealthResponse {
    /// `ok` where the store answered the probe.
    pub status: String,
    /// The store's database name.
    pub database: String,
    /// Whether the store answered.
    pub connected: bool,
    /// A short human-readable line.
    pub message: String,
}

/// The fixed answer of the service health endpoint.
pub fn health_response() -> (r: HealthResponse)
    ensures
        r.status@ == "ok"@,
        r.message@ == "Cynnycty backend is running"@,
{
    HealthResponse {
        status: "ok".to_owned(),
        message: "Cynnycty backend is running".to_owned(),
    }
}

/// The answer of the database health endpoint where the store answered
/// the probe.
pub fn database_health_response(database: String) -> (r: DatabaseHealthResponse)
    ensures
        r.status@ == "ok"@,
        r.database == database,
        r.connected,
        r.message@ == "Database connection is healthy"@,
{
    DatabaseHealthResponse {
        status: "ok".to_owned(),
        database,
        connected: true,
        message: "Database connection is healthy".to_owned(),
    }
}

} // verus!
