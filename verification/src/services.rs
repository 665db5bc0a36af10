use vstd::prelude::*;

verus! {

/// Runs work posted by view models on the runtime of the view model thread.
pub struct VMDispatcher();

/// The clipboard of the windowing system.
pub struct Clipboard {}

} // verus!
