//! Messages of the application window.
use vstd::prelude::*;

use crate::http::HttpMsg;

verus! {

/// What the application window receives from its components.
pub enum AppMsg {
    /// A component asks for a download.
    HttpRequest(HttpMsg),
    /// A download is over.
    HttpResponse(HttpMsg),
}

} // verus!
