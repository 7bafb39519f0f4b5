//! What is shown of a transfer from a remote while it runs and when it is
//! done.

use vstd::prelude::*;

verus! {

/// The counters of a transfer, as the backend reports them.
#[derive(Debug, Clone, Copy, PartialEq, Eq, Structural)]
pub struct TransferStats {
    pub total_objects: usize,
    pub indexed_objects: usize,
    pub received_objects: usize,
    pub local_objects: usize,
    pub total_deltas: usize,
    pub indexed_deltas: usize,
    pub received_bytes: usize,
}

/// The line that a transfer under way shows.
#[derive(Debug, Clone, Copy, PartialEq, Eq, Structural)]
pub enum ProgressLine {
    /// Every object is in; deltas are being resolved.
    ResolvingDeltas { indexed: usize, total: usize },
    /// Objects are coming in.
    Receiving { received: usize, total: usize, indexed: usize, bytes: usize },
    /// There is nothing to show yet.
    Quiet,
}

/// The line that closes a transfer.
#[derive(Debug, Clone, Copy, PartialEq, Eq, Structural)]
pub struct TransferSummary {
    pub indexed: usize,
    pub total: usize,
    pub bytes: usize,
    /// The number of objects that were found locally, where any were.
    pub reused: Option<usize>,
}

impl TransferStats {
    /// The line to show for these counters: deltas once every object is
    /// received, objects while some are still to come, nothing while the
    /// total is unknown.
    pub open spec fn spec_progress(self) -> ProgressLine {
        if self.received_objects == self.total_objects {
            ProgressLine::ResolvingDeltas { indexed: self.indexed_deltas, total: self.total_deltas }
        } else if self.total_objects > 0 {
            ProgressLine::Receiving {
                received: self.received_objects,
                total: self.total_objects,
                indexed: self.indexed_objects,
                bytes: self.received_bytes,
            }
        } else {
            ProgressLine::Quiet
        }
    }

    /// The line to show for these counters.
    #[verifier::when_used_as_spec(spec_progress)]
    pub fn progress(self) -> (r: ProgressLine)
        ensures
            r == self.spec_progress(),
    {
        if self.received_objects == self.total_objects {
            ProgressLine::ResolvingDeltas { indexed: self.indexed_deltas, total: self.total_deltas }
        } else if self.total_objects > 0 {
            ProgressLine::Receiving {
                received: self.received_objects,
                total: self.total_objects,
                indexed: self.indexed_objects,
                bytes: self.received_bytes,
            }
        } else {
            ProgressLine::Quiet
        }
    }

    /// The line that closes the transfer; it names the objects found locally
    /// only where there were any.
    pub open spec fn spec_summary(self) -> TransferSummary {
        TransferSummary {
            indexed: self.indexed_objects,
            total: self.total_objects,
            bytes: self.received_bytes,
            reused: if self.local_objects > 0 {
                Some(self.local_objects)
            } else {
                None
            },
        }
    }

    /// The line that closes the transfer.
    #[verifier::when_used_as_spec(spec_summary)]
    pub fn summary(self) -> (r: TransferSummary)
        ensures
            r == self.spec_summary(),
    {
        TransferSummary {
            indexed: self.indexed_objects,
            total: self.total_objects,
            bytes: self.received_bytes,
            reused: if self.local_objects > 0 {
                Some(self.local_objects)
            } else {
                None
            },
        }
    }
}

} // verus!
