//! Static file responses.

use vstd::prelude::*;

verus! {

/// The response that serves a static file; it carries nothing yet.
pub struct FileRsp {}

} // verus!
