//! Access-key handle for a separate data-platform service.
//!
//! The signing scheme of that service is not part of the session engine;
//! this type only carries the credentials and endpoint it will need.

use vstd::prelude::*;

verus! {

/// Credentials and endpoint for the data-platform service.
pub struct Odps<'a> {
    pub ak: &'a str,
    pub sk: &'a str,
    pub endpoint: &'a str,
}

impl<'a> Odps<'a> {
    /// Builds a handle from an access key, a secret key and an endpoint.
    pub fn new(ak: &'a str, sk: &'a str, endpoint: &'a str) -> (r: Self)
        ensures
            r.ak == ak,
            r.sk == sk,
            r.endpoint == endpoint,
    {
        Odps { ak, sk, endpoint }
    }

    /// Reserved entry point for project lookup; the request signing it needs
    /// is not implemented, so it deliberately does nothing yet.
    pub fn get_project(project_name: &str, schema_name: Option<&str>) {
    }
}

} // verus!
