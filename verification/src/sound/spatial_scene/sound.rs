use vstd::prelude::*;

use std::sync::atomic::AtomicBool;
use std::sync::atomic::Ordering;

verus! {

/// The removal flag that a spatial scene shares with its handle.
#[derive(Debug)]
pub struct SpatialSceneShared {
    removed: AtomicBool,
}

impl SpatialSceneShared {
    /// Creates the flag of a scene that is not marked for removal.
    pub fn new() -> Self {
        Self { removed: AtomicBool::new(false) }
    }

    /// Returns whether the scene has been marked for removal. The flag is
    /// set from another thread, so nothing is known of the result here.
    pub fn is_marked_for_removal(&self) -> bool {
        self.removed.load(Ordering::SeqCst)
    }

    /// Marks the scene for removal.
    pub fn mark_for_removal(&self) {
        self.removed.store(true, Ordering::SeqCst);
    }
}

} // verus!
