//! The logic of a timeline client for Misskey instances: reading notes and
//! users from the server, keeping the timeline, caching avatars.
use vstd::prelude::*;

pub mod api;
pub mod asset;
pub mod gui;
pub mod http;
pub mod model;
pub mod payload;
pub mod timeline;

verus! {

/// The instance this client talks to.
pub const INSTANCE: &'static str = "bunne.garden";

} // verus!
