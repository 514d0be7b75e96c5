//! A fingerprint of the clipboard taken before an upload, to tell afterwards whether the user
//! has copied something else in the meantime.
use vstd::prelude::*;
use crate::clipboard::adapter::{strings_view, ClipboardContent, ContentV};

verus! {

/// The clipboard as remembered: file lists in full, images by their SHA-256 digest.
#[derive(Debug, Clone, PartialEq, Eq)]
pub enum Snapshot {
    Files(Vec<String>),
    ImageSha256([u8; 32]),
    Other,
    Empty,
}

/// The mathematical value of a snapshot.
pub enum SnapshotV {
    Files(Seq<Seq<char>>),
    ImageSha256(Seq<u8>),
    Other,
    Empty,
}

impl View for Snapshot {
    type V = SnapshotV;

    open spec fn view(&self) -> SnapshotV {
        match self {
            Snapshot::Files(v) => SnapshotV::Files(strings_view(v@)),
            Snapshot::ImageSha256(h) => SnapshotV::ImageSha256(h@),
            Snapshot::Other => SnapshotV::Other,
            Snapshot::Empty => SnapshotV::Empty,
        }
    }
}

/// The SHA-256 digest of `data`.
pub uninterp spec fn sha256_digest(data: Seq<u8>) -> Seq<u8>;

/// Computes the SHA-256 digest of `data`.
///
/// Trusted: `sha2::Sha256` (`new`, `update`, `finalize`). The digest is a function of the
/// bytes alone, named `sha256_digest`; the array type fixes its 32-byte length.
#[verifier::external_body]
fn sha256(data: &[u8]) -> (r: [u8; 32])
    ensures
        r@ == sha256_digest(data@),
{
    let mut h = <sha2::Sha256 as sha2::Digest>::new();
    sha2::Digest::update(&mut h, data);
    sha2::Digest::finalize(h).into()
}

/// The snapshot of clipboard content.
pub open spec fn snapshot_of_spec(c: ContentV) -> SnapshotV {
    match c {
        ContentV::Files(p) => SnapshotV::Files(p),
        ContentV::Image(b) => SnapshotV::ImageSha256(sha256_digest(b)),
        ContentV::Other => SnapshotV::Other,
        ContentV::Empty => SnapshotV::Empty,
    }
}

/// Unchanged means: the same file list in the same order, or an image with the same digest.
/// Any change of kind, and "other" or empty content, counts as changed.
pub open spec fn snapshot_matches_spec(s: SnapshotV, c: ContentV) -> bool {
    match (s, c) {
        (SnapshotV::Files(a), ContentV::Files(b)) => a == b,
        (SnapshotV::ImageSha256(h), ContentV::Image(b)) => sha256_digest(b) == h,
        _ => false,
    }
}

fn copy_strings(v: &Vec<String>) -> (r: Vec<String>)
    ensures
        strings_view(r@) == strings_view(v@),
{
    let mut out: Vec<String> = Vec::new();
    let mut i: usize = 0;
    while i < v.len()
        invariant
            i <= v.len(),
            out@.len() == i,
            forall|j: int| 0 <= j < i ==> (#[trigger] out@[j])@ == v@[j]@,
        decreases v.len() - i,
    {
        out.push(v[i].clone());
        i = i + 1;
    }
    assert(strings_view(out@) =~= strings_view(v@));
    out
}

fn same_strings(a: &Vec<String>, b: &Vec<String>) -> (r: bool)
    ensures
        r == (strings_view(a@) == strings_view(b@)),
{
    if a.len() != b.len() {
        assert(strings_view(a@).len() != strings_view(b@).len());
        return false;
    }
    let mut i: usize = 0;
    while i < a.len()
        invariant
            a.len() == b.len(),
            i <= a.len(),
            forall|j: int| 0 <= j < i ==> (#[trigger] a@[j])@ == b@[j]@,
        decreases a.len() - i,
    {
        if a[i] != b[i] {
            assert(strings_view(a@)[i as int] != strings_view(b@)[i as int]);
            return false;
        }
        i = i + 1;
    }
    assert(strings_view(a@) =~= strings_view(b@));
    true
}

fn same_digest(a: &[u8; 32], b: &[u8; 32]) -> (r: bool)
    ensures
        r == (a@ == b@),
{
    let mut i: usize = 0;
    while i < 32
        invariant
            i <= 32,
            a@.len() == 32,
            b@.len() == 32,
            forall|j: int| 0 <= j < i ==> a@[j] == b@[j],
        decreases 32 - i,
    {
        if a[i] != b[i] {
            return false;
        }
        i = i + 1;
    }
    assert(a@ =~= b@);
    true
}

impl Snapshot {
    /// Remember the given clipboard content.
    pub fn of(content: &ClipboardContent) -> (r: Snapshot)
        ensures
            r@ == snapshot_of_spec(content@),
    {
        match content {
            ClipboardContent::Files(p) => Snapshot::Files(copy_strings(p)),
            ClipboardContent::Image(bytes) => Snapshot::ImageSha256(sha256(bytes.as_slice())),
            ClipboardContent::Other => Snapshot::Other,
            ClipboardContent::Empty => Snapshot::Empty,
        }
    }

    /// True iff the current clipboard content is indistinguishable from this snapshot
    /// by the app's comparison rules. Any kind transition is "changed".
    pub fn matches(&self, current: &ClipboardContent) -> (r: bool)
        ensures
            r == snapshot_matches_spec(self@, current@),
    {
        match (self, current) {
            (Snapshot::Files(a), ClipboardContent::Files(b)) => same_strings(a, b),
            (Snapshot::ImageSha256(hash), ClipboardContent::Image(bytes)) => {
                let got = sha256(bytes.as_slice());
                same_digest(&got, hash)
            },
            _ => false,
        }
    }
}

/// A snapshot matches the content it was taken of exactly when that content is a file list
/// or an image.
pub proof fn lemma_snapshot_matches_its_own_content(c: ContentV)
    ensures
        snapshot_matches_spec(snapshot_of_spec(c), c) <==> (c is Files || c is Image),
{
}

/// A snapshot never matches content of another kind.
pub proof fn lemma_kind_change_is_a_change(c1: ContentV, c2: ContentV)
    requires
        !(c1 is Files && c2 is Files),
        !(c1 is Image && c2 is Image),
    ensures
        !snapshot_matches_spec(snapshot_of_spec(c1), c2),
{
}

} // verus!
