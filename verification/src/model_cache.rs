//! Single-flight cache for an expensive in-memory local model.
//!
//! One slot remembers which model path is currently loaded.  Getting a model
//! for a path that matches the slot reuses the loaded weights and performs no
//! disk load; any other path (or an empty slot) replaces the slot and counts
//! one load.  After a transcription the slot is conditionally cleared,
//! depending on a keep-loaded flag (off by default; turned on for long-lived
//! listening sessions).  The model bytes themselves live with the caller —
//! this type decides when a disk load happens and what the slot holds, and a
//! live inference state obtained from a hit is never invalidated by a later
//! unload.

use vstd::prelude::*;
use crate::errors::TranscribeError;
use crate::text::str_eq;

verus! {

/// What a successful [`ModelCache::get_model`] call did.
#[derive(Debug, Clone, Copy, PartialEq, Eq, Structural)]
pub enum ModelAccess {
    /// The slot already held this path; the caller reuses the loaded weights.
    Reused,
    /// The caller must load the model from disk; the slot now remembers it.
    Loaded,
}

/// The cache slot, the keep-loaded flag, and a count of disk loads performed.
pub struct ModelCache {
    /// The path of the model currently loaded, if any.
    pub slot: Option<String>,
    /// Whether to keep the model loaded after a transcription.
    pub keep_loaded: bool,
    /// How many disk loads this cache has ever requested.
    pub loads: u64,
}

impl ModelCache {
    /// Whether the slot currently holds exactly this path.
    pub open spec fn holds(self, path: Seq<char>) -> bool {
        match self.slot {
            Option::Some(p) => p@ == path,
            Option::None => false,
        }
    }

    /// An empty cache: nothing loaded, models unloaded after each use.
    pub fn new() -> (c: Self)
        ensures
            c.slot is None,
            c.keep_loaded == false,
            c.loads == 0,
    {
        ModelCache { slot: Option::None, keep_loaded: false, loads: 0 }
    }

    /// Get the model for `path`, reusing the slot when the path matches and
    /// requesting a fresh disk load otherwise.  `path_exists` reports whether
    /// the path names a file on disk; it is consulted only when a load is
    /// needed.  An empty path is a configuration error; a missing file is a
    /// model-not-found error.  On an error nothing changes.
    pub fn get_model(&mut self, path: &str, path_exists: bool) -> (r: Result<
        ModelAccess,
        TranscribeError,
    >)
        requires
            old(self).loads < u64::MAX,
        ensures
            final(self).keep_loaded == old(self).keep_loaded,
            final(self).model() == spec_get_model(old(self).model(), path@, path_exists).0,
            ({
                let o = spec_get_model(old(self).model(), path@, path_exists).1;
                &&& (r == Result::<ModelAccess, TranscribeError>::Ok(ModelAccess::Reused)) == (o
                    == GetOutcome::Reused)
                &&& (r == Result::<ModelAccess, TranscribeError>::Ok(ModelAccess::Loaded)) == (o
                    == GetOutcome::Loaded)
                &&& (r is Err) == (o == GetOutcome::ErrConfig || o == GetOutcome::ErrNotFound)
            }),
            old(self).holds(path@) ==> {
                &&& r == Result::<ModelAccess, TranscribeError>::Ok(ModelAccess::Reused)
                &&& final(self).slot == old(self).slot
                &&& final(self).loads == old(self).loads
            },
            !old(self).holds(path@) && path@.len() == 0 ==> {
                &&& r == Result::<ModelAccess, TranscribeError>::Err(
                    TranscribeError::Configuration,
                )
                &&& final(self).slot == old(self).slot
                &&& final(self).loads == old(self).loads
            },
            !old(self).holds(path@) && path@.len() > 0 && !path_exists ==> {
                &&& r matches Result::Err(e) && e matches TranscribeError::ModelNotFound {
                    path: p,
                } && p@ == path@
                &&& final(self).slot == old(self).slot
                &&& final(self).loads == old(self).loads
            },
            !old(self).holds(path@) && path@.len() > 0 && path_exists ==> {
                &&& r == Result::<ModelAccess, TranscribeError>::Ok(ModelAccess::Loaded)
                &&& final(self).holds(path@)
                &&& final(self).loads == old(self).loads + 1
            },
    {
        let hit = match &self.slot {
            Option::Some(p) => str_eq(p.as_str(), path),
            Option::None => false,
        };
        if hit {
            return Result::Ok(ModelAccess::Reused);
        }
        if path.unicode_len() == 0 {
            return Result::Err(TranscribeError::Configuration);
        }
        if !path_exists {
            return Result::Err(TranscribeError::ModelNotFound { path: path.to_owned() });
        }
        self.slot = Option::Some(path.to_owned());
        self.loads = self.loads + 1;
        Result::Ok(ModelAccess::Loaded)
    }

    /// Clear the slot, freeing the model's memory.
    pub fn unload_model(&mut self)
        ensures
            final(self).slot is None,
            final(self).keep_loaded == old(self).keep_loaded,
            final(self).loads == old(self).loads,
    {
        self.slot = Option::None;
    }

    /// Choose whether models stay loaded after each transcription.
    pub fn set_keep_loaded(&mut self, keep: bool)
        ensures
            final(self).keep_loaded == keep,
            final(self).slot == old(self).slot,
            final(self).loads == old(self).loads,
    {
        self.keep_loaded = keep;
    }

    /// Whether models currently stay loaded after use.
    pub fn should_keep_loaded(&self) -> (r: bool)
        ensures
            r == self.keep_loaded,
    {
        self.keep_loaded
    }

    /// Called after a transcription: unload the slot unless the keep-loaded
    /// flag is set.
    pub fn maybe_unload(&mut self)
        ensures
            final(self).keep_loaded == old(self).keep_loaded,
            final(self).loads == old(self).loads,
            old(self).keep_loaded ==> final(self).slot == old(self).slot,
            !old(self).keep_loaded ==> final(self).slot is None,
            final(self).model() == spec_maybe_unload(old(self).model()),
    {
        if !self.should_keep_loaded() {
            self.unload_model();
        }
    }
}

/// Spec-level image of a [`ModelCache`]: the loaded path, the keep-loaded
/// flag and the number of disk loads, as mathematical values.
pub ghost struct CacheModel {
    pub slot: Option<Seq<char>>,
    pub keep_loaded: bool,
    pub loads: nat,
}

/// Spec-level outcome of a get.
#[derive(PartialEq, Eq, Structural)]
pub ghost enum GetOutcome {
    Reused,
    Loaded,
    ErrConfig,
    ErrNotFound,
}

impl ModelCache {
    /// The mathematical state of this cache.
    pub open spec fn model(self) -> CacheModel {
        CacheModel {
            slot: match self.slot {
                Option::Some(p) => Option::Some(p@),
                Option::None => Option::None,
            },
            keep_loaded: self.keep_loaded,
            loads: self.loads as nat,
        }
    }
}

impl CacheModel {
    /// Whether the slot holds exactly this path.
    pub open spec fn holds(self, path: Seq<char>) -> bool {
        self.slot == Option::Some(path)
    }
}

/// The functional meaning of [`ModelCache::get_model`]: the state after the
/// call and what the call did.
pub open spec fn spec_get_model(m: CacheModel, path: Seq<char>, exists: bool) -> (
    CacheModel,
    GetOutcome,
) {
    if m.holds(path) {
        (m, GetOutcome::Reused)
    } else if path.len() == 0 {
        (m, GetOutcome::ErrConfig)
    } else if !exists {
        (m, GetOutcome::ErrNotFound)
    } else {
        (
            CacheModel { slot: Option::Some(path), loads: m.loads + 1, ..m },
            GetOutcome::Loaded,
        )
    }
}

/// The functional meaning of [`ModelCache::maybe_unload`].
pub open spec fn spec_maybe_unload(m: CacheModel) -> CacheModel {
    if m.keep_loaded {
        m
    } else {
        CacheModel { slot: Option::None, ..m }
    }
}

/// Law: getting the same path twice performs exactly one disk load.  The
/// first call loads (when the slot did not already hold the path) and the
/// second call reuses the slot without loading.
pub proof fn lemma_same_path_loads_once(m0: CacheModel, path: Seq<char>)
    requires
        path.len() > 0,
    ensures
        ({
            let (m1, o1) = spec_get_model(m0, path, true);
            let (m2, o2) = spec_get_model(m1, path, true);
            &&& o2 == GetOutcome::Reused
            &&& m2 == m1
            &&& !m0.holds(path) ==> o1 == GetOutcome::Loaded && m1.loads == m0.loads + 1
        }),
{
}

/// Law: getting a different path after a load performs a second disk load
/// and evicts the first path from the slot.
pub proof fn lemma_other_path_reloads(m0: CacheModel, path: Seq<char>, other: Seq<char>)
    requires
        path.len() > 0,
        other.len() > 0,
        path != other,
        !m0.holds(path),
    ensures
        ({
            let (m1, o1) = spec_get_model(m0, path, true);
            let (m2, o2) = spec_get_model(m1, other, true);
            &&& o1 == GetOutcome::Loaded
            &&& o2 == GetOutcome::Loaded
            &&& m2.loads == m0.loads + 2
            &&& m2.slot == Option::Some(other)
        }),
{
}

/// Law: with the keep-loaded flag off, the conditional unload after a
/// transcription clears the slot, so a further get of the same path loads
/// from disk again; with the flag on the slot survives and the get reuses it.
pub proof fn lemma_keep_loaded_policy(m0: CacheModel, path: Seq<char>)
    requires
        path.len() > 0,
    ensures
        ({
            let (m1, o1) = spec_get_model(m0, path, true);
            let m2 = spec_maybe_unload(m1);
            let (m3, o3) = spec_get_model(m2, path, true);
            &&& !m1.keep_loaded ==> m2.slot is None && o3 == GetOutcome::Loaded && m3.loads
                == m1.loads + 1
            &&& m1.keep_loaded ==> m2 == m1 && o3 == GetOutcome::Reused && m3 == m1
        }),
{
}

} // verus!

