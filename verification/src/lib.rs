//! Decision logic of a self-updating launcher: which release to fetch, when to
//! look for one, and what to hand to the wrapped binary.

pub mod chain;
pub mod gatekeeper;
pub mod github;
pub mod launcher;
pub mod paths;
pub mod pipeline;
pub mod platform;
pub mod probe;
pub mod remote;
pub mod report;
pub mod runs;
pub mod text;
pub mod version;

pub use chain::{get_error_chain, join_error_chain};
pub use github::{Release, ReleaseAsset};
pub use platform::{
    find_download, Platform, APIKEY_ENV_VAR, CHECKED_MARKER_NAME, DOWNLOADS_NAME,
};
pub use probe::{get_local_version, read_local_version, LocalVersionError};
pub use remote::{get_remote_version, latest_release_request, ApiRequest, RemoteError};
pub use version::{Precedence, SemanticVersion};
