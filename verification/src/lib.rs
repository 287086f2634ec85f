//! A read-through cache engine for small binary assets ("icons") keyed by
//! asset id.
//!
//! The engine decides which cache file to consult for an asset, whether what
//! it holds is usable, stale or absent, and whether a remote fetch has to be
//! started. It performs no I/O: every request is a small state machine that
//! hands out one [`protocol::Action`] at a time and takes the outcome back as
//! a [`protocol::Event`].

pub mod check;
pub mod check_script;
pub mod fetch;
pub mod get;
pub mod get_script;
pub mod path;
pub mod probe;
pub mod protocol;
pub mod request;
pub mod respond;
pub mod status;
mod text;
pub mod world;

pub use crate::check::check_icon;
pub use crate::get::get_icon;
pub use crate::path::resolve_icon_path;
pub use crate::request::{AssetIconCheck, AssetIconRequest};
