//! Requests to the local asset-export service that unpacks game content.
//!
//! The functions here decide what is asked for: the endpoint's address and
//! the folder or file it is asked to work on. Sending is up to the caller.
use vstd::prelude::*;
use vstd::string::*;

verus! {

/// Address of the export service; each endpoint's path is appended to it.
pub const SERVICE_ROOT: &'static str = "http://127.0.0.1:8001";

/// Seconds that a request may take before it is given up.
pub const REQUEST_TIMEOUT_SECS: u64 = 3600;

/// A form post to the export service with a single `path` field.
pub struct ServiceRequest {
    pub url: String,
    pub path: String,
}

/// The full address of endpoint `endpoint` of the export service.
pub fn generate_request(endpoint: &str) -> (r: String)
    ensures
        r@ == SERVICE_ROOT@ + endpoint@,
{
    let root = String::from_str(SERVICE_ROOT);
    root.concat(endpoint)
}

fn path_request(endpoint: &str, path: &str) -> (r: ServiceRequest)
    ensures
        r.url@ == SERVICE_ROOT@ + endpoint@,
        r.path@ == path@,
{
    ServiceRequest { url: generate_request(endpoint), path: String::from_str(path) }
}

/// Asks the service to open the game folder `path`.
pub fn load_folder(path: &str) -> (r: ServiceRequest)
    ensures
        r.url@ == SERVICE_ROOT@ + "/LoadFolder"@,
        r.path@ == path@,
{
    path_request("/LoadFolder", path)
}

/// Asks the service to open the single archive `path`.
pub fn load_file(path: &str) -> (r: ServiceRequest)
    ensures
        r.url@ == SERVICE_ROOT@ + "/LoadFile"@,
        r.path@ == path@,
{
    path_request("/LoadFile", path)
}

/// Asks the service to export what it has loaded as a project under `path`.
pub fn extract_unity_project_to(path: &str) -> (r: ServiceRequest)
    ensures
        r.url@ == SERVICE_ROOT@ + "/Export/UnityProject"@,
        r.path@ == path@,
{
    path_request("/Export/UnityProject", path)
}

/// Asks the service to export the primary content it has loaded under `path`.
pub fn extract_primary_content_to(path: &str) -> (r: ServiceRequest)
    ensures
        r.url@ == SERVICE_ROOT@ + "/Export/PrimaryContent"@,
        r.path@ == path@,
{
    path_request("/Export/PrimaryContent", path)
}

} // verus!
