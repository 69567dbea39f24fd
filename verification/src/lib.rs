//! An HTTP client layer for a remote file-storage API: request dispatch in
//! three transfer styles (RPC, upload, download), authorization header
//! selection, a resumable download protocol, and lazy paginated directory
//! listing.
//!
//! The network exchange itself is left to the embedding application; this
//! crate builds the outgoing request, classifies the response, and drives the
//! retry and pagination state machines, all under verified contracts.

mod client;
mod decimal;
mod download;
mod listing;
mod request;
mod response;
mod types;

pub use client::NoauthDefaultClient;
pub use client::TeamAuthDefaultClient;
pub use client::UserAuthDefaultClient;
pub use download::ResumableDownload;
pub use listing::normalize_list_path;
pub use listing::DirectoryIterator;
pub use listing::ListingPage;
pub use listing::Metadata;
pub use listing::Step;
pub use request::build_request;
pub use request::range_header_value;
pub use request::user_agent;
pub use request::BuiltRequest;
pub use request::RequestBody;
pub use response::body_result;
pub use response::check_status;
pub use response::download_result;
pub use response::HttpRequestResultRaw;
pub use types::Endpoint;
pub use types::Error;
pub use types::ParamsType;
pub use types::Style;
pub use types::TeamSelect;
