//! Verified core of a small tune catalog and static asset service.
//!
//! The service exposes four GET routes: the home page, a JSON listing of the
//! audio files in the tunes directory, a single tune by file name, and
//! arbitrary static assets. Everything the handlers decide or compute —
//! which directory entries count as tunes, the JSON body of the listing,
//! how a request path is dispatched, which HTTP status each filesystem
//! outcome maps to — lives here, verified. The surrounding binary performs
//! the filesystem reads and runs the HTTP listener, handing this crate
//! plain values and sending its replies back out.

pub mod catalog;
pub mod json;
pub mod response;
pub mod route;

pub use catalog::collect_tunes;
pub use catalog::is_tune_name;
pub use json::render_songs_json;
pub use response::DirListing;
pub use response::FetchOutcome;
pub use response::Reply;
pub use response::status_for_asset;
pub use response::status_for_page;
pub use response::tunes_reply;
pub use route::Route;
pub use route::route;
pub use route::song_path;
