//! The calibration-artifact cache: each artifact is loaded at most once per
//! (instrument, kind, scale factor) and then only read.
use vstd::prelude::*;
use crate::frame::{Frame, FrameModel};
use crate::instrument::Instrument;

verus! {

/// Kinds of calibration artifact.
#[derive(Clone, Copy, PartialEq, Eq, Structural, Debug)]
pub enum CalType {
    FlatField,
    Mask,
}

/// What an artifact is cached under.
#[derive(Clone, Copy, PartialEq, Eq, Structural, Debug)]
pub struct CacheKey {
    pub instrument: Instrument,
    pub cal_type: CalType,
    pub scale_factor: u32,
}

/// An artifact as loaded: `None` when it could not be found or read.
pub open spec fn artifact_model(a: Option<Frame>) -> Option<FrameModel> {
    match a {
        Some(f) => Some(f@),
        None => None,
    }
}

/// The entry of `key` in `s`, the latest one first.
pub open spec fn find_entry(s: Seq<(CacheKey, Option<FrameModel>)>, key: CacheKey) -> Option<Option<FrameModel>>
    decreases s.len(),
{
    if s.len() == 0 {
        None
    } else if s.last().0 == key {
        Some(s.last().1)
    } else {
        find_entry(s.drop_last(), key)
    }
}

/// Artifacts by key; an entry whose artifact is `None` records that the
/// artifact is absent, so that it is not looked for again.
pub struct ArtifactCache {
    entries: Vec<(CacheKey, Option<Frame>)>,
}

impl ArtifactCache {
    pub closed spec fn model(&self) -> Seq<(CacheKey, Option<FrameModel>)> {
        Seq::new(self.entries@.len(), |i: int| (self.entries@[i].0, artifact_model(self.entries@[i].1)))
    }

    /// What the cache holds for `key`: `None` if it has not been populated,
    /// else the artifact that was stored, itself `None` when absent.
    pub open spec fn lookup(&self, key: CacheKey) -> Option<Option<FrameModel>> {
        find_entry(self.model(), key)
    }

    /// An empty cache.
    pub fn new() -> (r: ArtifactCache)
        ensures
            forall|k: CacheKey| #[trigger] r.lookup(k).is_none(),
    {
        let r = ArtifactCache { entries: Vec::new() };
        assert forall|k: CacheKey| #[trigger] r.lookup(k).is_none() by {
            assert(r.model().len() == 0);
        }
        r
    }

    fn index_of(&self, key: CacheKey) -> (r: Option<usize>)
        ensures
            match r {
                Some(i) => i < self.entries@.len() && self.lookup(key) == Some(artifact_model(self.entries@[i as int].1)),
                None => self.lookup(key).is_none(),
            },
    {
        let mut i: usize = self.entries.len();
        assert(self.model().subrange(0, i as int) =~= self.model());
        while i > 0
            invariant
                i <= self.entries@.len(),
                find_entry(self.model(), key) == find_entry(self.model().subrange(0, i as int), key),
            decreases i,
        {
            let ghost s = self.model().subrange(0, i as int);
            assert(s.drop_last() =~= self.model().subrange(0, i - 1));
            if self.entries[i - 1].0 == key {
                return Some(i - 1);
            }
            i = i - 1;
        }
        assert(self.model().subrange(0, 0).len() == 0);
        None
    }

    /// The cached entry for `key`: `None` on the first request, which the
    /// caller answers by loading the artifact and calling `store`.
    pub fn get(&self, key: CacheKey) -> (r: Option<&Option<Frame>>)
        ensures
            match r {
                Some(a) => self.lookup(key) == Some(artifact_model(*a)),
                None => self.lookup(key).is_none(),
            },
    {
        match self.index_of(key) {
            Some(i) => Some(&self.entries[i].1),
            None => None,
        }
    }

    /// Records the artifact loaded for `key`. A key is populated once: if it
    /// already has an entry, that entry stays and `artifact` is dropped.
    /// Every other key keeps what it had.
    pub fn store(&mut self, key: CacheKey, artifact: Option<Frame>)
        ensures
            final(self).lookup(key) == (if old(self).lookup(key).is_some() {
                old(self).lookup(key)
            } else {
                Some(artifact_model(artifact))
            }),
            forall|k: CacheKey| k != key ==> #[trigger] final(self).lookup(k) == old(self).lookup(k),
    {
        if self.index_of(key).is_some() {
            return;
        }
        let ghost before = self.model();
        self.entries.push((key, artifact));
        assert(self.model().drop_last() =~= before);
    }
}

} // verus!
