//! Concurrent search for the first valid download URL in a finite candidate
//! space, with a verified core: candidate generation, URL construction,
//! probe classification, and the bounded-concurrency search session with
//! its first-result-wins, cancel-on-found discipline.

pub mod cli;
pub mod download;
pub mod errors;
pub mod generator;
pub mod probe;
pub mod session;
pub mod url;

pub use cli::{SearchConfig, confirm_download, parse_args, usage_message};
pub use download::DownloadProgress;
pub use errors::DownloadError;
pub use generator::generate_z_values;
pub use probe::ProbeOutcome;
pub use session::{DispatchDecision, SearchSession, SearchState};
pub use url::{build_url, file_name_of, output_path};
