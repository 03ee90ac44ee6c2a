//! Startup configuration: the window metrics the embedding program hands to
//! window creation.  Parsing a size out of the command line is the
//! program's own business; the library only fixes what the metrics are and
//! what they default to.

use vstd::prelude::*;

verus! {

/// A width and height in pixels.
#[derive(Clone, Copy, Debug, PartialEq, Eq, Structural)]
pub struct Size2 {
    pub width: u32,
    pub height: u32,
}

/// What startup was asked for: the metrics of the window to open.
#[derive(Clone, Copy, Debug, PartialEq, Eq, Structural)]
pub struct StartInfo {
    pub metrics: Size2,
}

impl Default for StartInfo {
    /// The default window metrics, when the command line asks for nothing
    /// else.
    fn default() -> (s: StartInfo)
        ensures
            s.metrics == (Size2 { width: 960, height: 540 }),
    {
        StartInfo { metrics: Size2 { width: 960, height: 540 } }
    }
}

impl StartInfo {
    /// Startup with explicitly requested metrics.
    pub fn with_metrics(width: u32, height: u32) -> (s: StartInfo)
        ensures
            s.metrics == (Size2 { width, height }),
    {
        StartInfo { metrics: Size2 { width, height } }
    }
}

} // verus!
