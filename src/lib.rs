//! Locating and tailing a game client's live log file.
//!
//! The library holds the decisions of a log watcher: which paths to try, how
//! content is fingerprinted, and the state machine that debounces and
//! deduplicates change signals. The caller performs the file system work and
//! hands the results in as plain values.
pub mod fingerprint;
pub mod paths;
pub mod session;
pub mod requests;

pub use fingerprint::hash_content;
pub use paths::{candidate_paths, first_existing, get_default_paths, paths_under, platform_root, Platform};
pub use requests::{announce, content_result, is_log_name, location_result, names_log, LogError};
pub use session::{Command, Event, Notice, Phase, Step, WatchSession, DEBOUNCE_MS, RETRY_MS, WAIT_MS};
