//! Fetches a named gopher picture from a remote base URL and saves it as
//! `<name>.png`.
//!
//! The library holds every decision of a fetch: which URL to ask, whether a
//! reply is worth saving, under which file name, and what the caller is told.
//! The network request and the file write are performed by the caller, which
//! hands their outcomes back as plain values.

pub mod error;
pub mod fetch;
pub mod lemmas;

pub use error::{Error, Failure};
pub use fetch::{
    BASE_URL, Fetcher, Reply, STATUS_OK, Save, file_name_for, handle_reply, handle_saved,
};
