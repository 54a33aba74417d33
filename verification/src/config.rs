use vstd::prelude::*;

verus! {

/// The single audience value tokens are issued for and checked against.
pub const AUD: &'static str = "openad-user";

/// The document-store connection settings.
pub struct Database {
    pub url: String,
}

/// The cache-store connection settings.
pub struct CacheDB {
    pub url: String,
}

/// Per-backend launch parameters for a notebook service.
pub struct Notebook {
    pub url: String,
    pub pull_policy: String,
    pub working_dir: Option<String>,
    pub volume_mnt_path: Option<String>,
    pub env: Option<Vec<String>>,
    pub secret: Option<String>,
    pub command: Option<Vec<String>>,
    pub args: Option<Vec<String>>,
    pub start_up_url: Option<String>,
    pub max_idle_time: Option<u64>,
}

/// The process-wide immutable configuration: constructed once during
/// bootstrap and passed by shared reference into every component,
/// never mutated afterwards. The key material stays in the signing
/// collaborator's own container types.
pub struct Configuration {
    pub encoder: jsonwebtoken::EncodingKey,
    pub decoder: jsonwebtoken::DecodingKey,
    pub db: Database,
    pub cache: CacheDB,
    pub notebooks: Vec<(String, Notebook)>,
}

/// Choose between the deployed and the local connection URL of a
/// backing store.
pub fn select_url(url: String, url_local: String, local: bool) -> (r: String)
    ensures
        local ==> r == url_local,
        !local ==> r == url,
{
    if local {
        url_local
    } else {
        url
    }
}

} // verus!
