use vstd::prelude::*;

verus! {

/// Failures of the selection monitor.
#[derive(Clone, Debug)]
pub enum ClipboardError {
    /// A blocking task could not be run.
    SpawnBlockingTask { message: String },
    /// A selection backend could not be built.
    InitializeX11Clipboard { message: String },
    /// Content could not be written to a selection.
    PasteToX11Clipboard { message: String },
}

} // verus!
