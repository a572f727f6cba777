//! Experimental single-line GPU renderer: readiness bookkeeping only.

use vstd::prelude::*;
use vstd::string::StringExecFns;

verus! {

/// Line renderer that becomes ready after its first accepted draw request.
pub struct GpuLineRenderer {
    pub ready: bool,
}

impl GpuLineRenderer {
    pub fn new() -> (r: Self)
        ensures
            !r.ready,
    {
        GpuLineRenderer { ready: false }
    }

    /// Accepts a line draw request with `label_count` X labels and `series_count`
    /// series. An empty request is refused and leaves the renderer as it was.
    pub fn render_line(&mut self, label_count: usize, series_count: usize) -> (r: Result<(), String>)
        ensures
            (label_count == 0 || series_count == 0) <==> r is Err,
            r is Err ==> r->Err_0@ == "empty line draw request"@ && final(self).ready == old(self).ready,
            r is Ok ==> final(self).ready,
    {
        if label_count == 0 || series_count == 0 {
            return Err(String::from_str("empty line draw request"));
        }
        self.ready = true;
        Ok(())
    }
}

impl Default for GpuLineRenderer {
    fn default() -> (r: Self)
        ensures
            !r.ready,
    {
        Self::new()
    }
}

} // verus!
