//! The fingerprint model and the entries it describes.
//!
//! A `Cha` is a coarse, comparable snapshot of filesystem metadata: enough to
//! notice that content changed, cheap enough to take on every navigation. A
//! `File` pairs a location with the fingerprint taken when it was listed.

use vstd::prelude::*;

verus! {

/// Coarse metadata fingerprint: kind code, byte length and modification time.
///
/// `valid` is false only for the sentinel produced by [`Cha::dummy`], which
/// stands for "no known fingerprint" and hits nothing, so a staleness check
/// against it always reports stale.
#[derive(Clone, Copy, Debug, PartialEq, Eq, Structural)]
pub struct Cha {
    /// Application-chosen code for the entry's kind (file, directory, link).
    pub kind: u8,
    /// Length in bytes.
    pub len: u64,
    /// Modification time, seconds since an application-chosen epoch.
    pub mtime: u64,
    /// False only for the unknown-fingerprint sentinel.
    pub valid: bool,
}

impl Cha {
    /// The tolerant equality used to decide whether content changed enough to
    /// warrant redisplay: the coarse fields agree and neither side is the
    /// unknown sentinel.
    pub open spec fn spec_hits(self, other: Cha) -> bool {
        self.valid && other.valid && self.kind == other.kind && self.len == other.len
            && self.mtime == other.mtime
    }

    /// Executable form of [`Cha::spec_hits`].
    pub fn hits(self, other: Cha) -> (r: bool)
        ensures
            r == self.spec_hits(other),
    {
        self.valid && other.valid && self.kind == other.kind && self.len == other.len
            && self.mtime == other.mtime
    }

    /// The unknown-fingerprint sentinel: hits nothing, not even itself.
    pub fn dummy() -> (r: Cha)
        ensures
            !r.valid,
            forall|c: Cha| !r.spec_hits(c) && !c.spec_hits(r),
    {
        Cha { kind: 0, len: 0, mtime: 0, valid: false }
    }
}

/// A filesystem entry: its location and the fingerprint it was listed with.
#[derive(Clone, Debug)]
pub struct File {
    /// The location, as the path string the application navigates by.
    pub url: String,
    /// The fingerprint taken when the entry was listed.
    pub cha: Cha,
}

} // verus!
