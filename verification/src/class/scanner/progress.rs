use vstd::prelude::*;

verus! {

/// Progress tracker for displaying progress during scanning
#[derive(Debug)]
pub struct ProgressTracker {}

impl Default for ProgressTracker {
    fn default() -> Self {
        ProgressTracker {  }
    }
}

impl ProgressTracker {
    /// Create a new progress tracker
    pub fn new() -> Self {
        ProgressTracker {  }
    }

    /// Tells whether a progress bar is shown for this many items: only for more than ten
    pub fn shows_bar(&self, total: usize) -> (shown: bool)
        ensures
            shown == (total > 10),
    {
        total > 10
    }

    /// Tells whether the message of the bar is renewed at this count: at the first item, at
    /// every tenth and at the last
    pub fn renews_message(&self, current_count: usize, total: usize) -> (renewed: bool)
        ensures
            renewed == (current_count % 10 == 0 || current_count == 1 || current_count == total),
    {
        current_count % 10 == 0 || current_count == 1 || current_count == total
    }
}

} // verus!
