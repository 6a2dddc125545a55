//! The structured form of one command-line invocation.

use vstd::prelude::*;

verus! {

/// One capture request: the url to archive, an optional output path, and an
/// optional explicit browser executable.  Built once from the command line
/// and never changed afterwards.
pub struct CaptureRequest {
    pub url: String,
    pub output: Option<String>,
    pub browser: Option<String>,
}

impl CaptureRequest {
    /// A request is well formed when its url is non-empty.
    pub open spec fn wf(self) -> bool {
        self.url@.len() > 0
    }

    /// Builds a request from the parsed command line, field for field;
    /// an empty url is rejected.
    pub fn new(url: String, output: Option<String>, browser: Option<String>) -> (r: Option<
        CaptureRequest,
    >)
        ensures
            r is Some <==> url@.len() > 0,
            r matches Some(req) ==> req.url == url && req.output == output && req.browser
                == browser && req.wf(),
    {
        if url.as_str().is_empty() {
            None
        } else {
            Some(CaptureRequest { url, output, browser })
        }
    }
}

} // verus!
