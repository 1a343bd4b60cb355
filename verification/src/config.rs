//! The persisted form of a tracklist. Only the shape of the data and the
//! conversion from a live tracklist live here; reading and writing the file
//! itself is the persistence collaborator's business.

use vstd::prelude::*;

use crate::track::TrackInfo;

verus! {

/// File extension used for saved tracklist files.
pub const TRACKLIST_EXTENSION: &'static str = "tapt";

/// What a saved tracklist holds: the ordered file paths, nothing more. The
/// current index, knobs and session are runtime state and are not persisted.
pub struct TracklistConfig {
    pub paths: Vec<String>,
}

impl TracklistConfig {
    /// An empty tracklist.
    pub fn new() -> (r: TracklistConfig)
        ensures
            r.paths@ =~= Seq::<String>::empty(),
    {
        TracklistConfig { paths: Vec::new() }
    }
}

impl Default for TracklistConfig {
    /// The fallback when a saved tracklist cannot be read: empty.
    fn default() -> (r: TracklistConfig)
        ensures
            r.paths@ =~= Seq::<String>::empty(),
    {
        TracklistConfig::new()
    }
}

/// The compute half of tracklist persistence.
pub struct ConfigManager {}

impl ConfigManager {
    /// What gets saved for a tracklist: its paths, in playlist order.
    pub fn tracklist_to_config(tracklist: &Vec<TrackInfo>) -> (r: TracklistConfig)
        ensures
            r.paths@.len() == tracklist@.len(),
            forall|i: int| 0 <= i < tracklist@.len() ==> r.paths@[i] == tracklist@[i].path,
    {
        let mut paths: Vec<String> = Vec::new();
        let mut i: usize = 0;
        while i < tracklist.len()
            invariant
                i <= tracklist@.len(),
                paths@.len() == i,
                forall|j: int| 0 <= j < i ==> paths@[j] == tracklist@[j].path,
            decreases tracklist@.len() - i,
        {
            paths.push(tracklist[i].path.clone());
            i = i + 1;
        }
        TracklistConfig { paths }
    }
}

} // verus!
