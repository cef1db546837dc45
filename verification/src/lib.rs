//! The decisions of a service that downloads debug files from several kinds of sources.
//!
//! Every function here decides something: what to request, what a response means, when to try
//! again and what to report. Talking to servers and disks is left to the caller, who performs the
//! steps that are returned and hands back what came of them.

pub mod duration;
pub mod error;
pub mod filesystem;
pub mod headers;
pub mod http;
pub mod location;
pub mod measure;
pub mod response;
pub mod retry;
pub mod service;
pub mod source;
pub mod stream;

pub use duration::Duration;
pub use error::{CacheEntry, CacheError, ErrorChain};
