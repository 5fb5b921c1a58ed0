//! What a build produced: recognising artifacts by their extension, and
//! merging what the post-processor derived from them.

use vstd::prelude::*;

use crate::config::{strings_view, Triplet};
use crate::model::Error;

verus! {

/// What `Path::extension` gives for a path.
pub uninterp spec fn extension_of(path: Seq<char>) -> Option<Seq<char>>;

/// What `Path::parent` gives for a path.
pub uninterp spec fn parent_of(path: Seq<char>) -> Option<Seq<char>>;

/// Relies on `std::path::Path::extension`: the extension of the path's file
/// name, if it has one. A path held in a `String` is valid UTF-8, so the
/// lossless conversion back to a `String` keeps it.
#[verifier::external_body]
fn extension(path: &str) -> (r: Option<String>)
    ensures
        r is Some <==> extension_of(path@) is Some,
        r is Some ==> r->0@ == extension_of(path@)->0,
{
    std::path::Path::new(path).extension().map(|e| e.to_string_lossy().into_owned())
}

/// Relies on `std::path::Path::parent`: the path without its last component,
/// if it has one.
#[verifier::external_body]
pub(crate) fn parent(path: &str) -> (r: Option<String>)
    ensures
        r is Some <==> parent_of(path@) is Some,
        r is Some ==> r->0@ == parent_of(path@)->0,
{
    std::path::Path::new(path).parent().map(|p| p.to_string_lossy().into_owned())
}

pub open spec fn spec_has_extension(path: Seq<char>, ext: Seq<char>) -> bool {
    extension_of(path) == Some(ext)
}

/// Whether the path's extension is `ext`.
pub fn has_extension(path: &str, ext: &str) -> (r: bool)
    ensures
        r == spec_has_extension(path@, ext@),
{
    match extension(path) {
        Some(e) => e == ext.to_owned(),
        None => false,
    }
}

/// Index of the first artifact with extension `ext`.
pub open spec fn is_first_with_extension(artifacts: Seq<Seq<char>>, ext: Seq<char>, i: int) -> bool {
    0 <= i < artifacts.len() && spec_has_extension(artifacts[i], ext) && forall|j: int|
        0 <= j < i ==> !spec_has_extension(#[trigger] artifacts[j], ext)
}

/// The first artifact with extension `ext`, by its index.
pub fn find_artifact(artifacts: &Vec<String>, ext: &str) -> (r: Option<usize>)
    ensures
        r is None <==> forall|j: int|
            0 <= j < artifacts@.len() ==> !spec_has_extension(
                #[trigger] strings_view(artifacts@)[j],
                ext@,
            ),
        r is Some ==> is_first_with_extension(strings_view(artifacts@), ext@, r->0 as int),
{
    let ghost a = strings_view(artifacts@);
    let mut i: usize = 0;
    while i < artifacts.len()
        invariant
            i <= artifacts@.len(),
            a == strings_view(artifacts@),
            forall|j: int| 0 <= j < i ==> !spec_has_extension(#[trigger] a[j], ext@),
        decreases artifacts@.len() - i,
    {
        if has_extension(artifacts[i].as_str(), ext) {
            assert(spec_has_extension(a[i as int], ext@));
            return Some(i);
        }
        i = i + 1;
    }
    None
}

/// Whether the post-processor is run on an artifact: native WebAssembly
/// binaries are.
pub fn needs_post_processing(triplet: Triplet, path: &str) -> (r: bool)
    ensures
        r == (triplet == Triplet::WasmNative && spec_has_extension(path@, "wasm"@)),
{
    triplet == Triplet::WasmNative && has_extension(path, "wasm")
}

/// The produced artifacts, each followed by what was derived from it.
pub open spec fn merged(produced: Seq<Seq<char>>, derived: Seq<Seq<Seq<char>>>) -> Seq<Seq<char>>
    decreases produced.len(),
{
    if produced.len() == 0 || derived.len() == 0 {
        seq![]
    } else {
        merged(produced.drop_last(), derived.drop_last()) + seq![produced.last()] + derived.last()
    }
}

/// The artifact list of a build: `derived[i]` is what the post-processor
/// derived from `produced[i]`.
pub fn merge_artifacts(produced: &Vec<String>, derived: &Vec<Vec<String>>) -> (r: Vec<String>)
    requires
        produced@.len() == derived@.len(),
    ensures
        strings_view(r@) == merged(
            strings_view(produced@),
            derived@.map_values(|d: Vec<String>| strings_view(d@)),
        ),
{
    let ghost p = strings_view(produced@);
    let ghost d = derived@.map_values(|d: Vec<String>| strings_view(d@));
    let mut r: Vec<String> = Vec::new();
    let mut i: usize = 0;
    while i < produced.len()
        invariant
            i <= produced@.len() == derived@.len(),
            p == strings_view(produced@),
            d == derived@.map_values(|d: Vec<String>| strings_view(d@)),
            strings_view(r@) == merged(p.take(i as int), d.take(i as int)),
        decreases produced@.len() - i,
    {
        assert(p.take(i + 1).drop_last() =~= p.take(i as int));
        assert(d.take(i + 1).drop_last() =~= d.take(i as int));
        let ghost before = strings_view(r@);
        r.push(produced[i].clone());
        let ghost mid = strings_view(r@);
        assert(mid =~= before + seq![p[i as int]]);
        let ds = &derived[i];
        let mut k: usize = 0;
        while k < ds.len()
            invariant
                k <= ds@.len(),
                strings_view(r@) == mid + strings_view(ds@).take(k as int),
            decreases ds@.len() - k,
        {
            let ghost b = strings_view(r@);
            r.push(ds[k].clone());
            assert(strings_view(r@) =~= b.push(ds@[k as int]@));
            assert(strings_view(ds@).take(k + 1) =~= strings_view(ds@).take(k as int).push(
                ds@[k as int]@,
            ));
            assert(strings_view(r@) =~= mid + strings_view(ds@).take(k + 1));
            k = k + 1;
        }
        assert(strings_view(ds@).take(k as int) =~= d[i as int]);
        i = i + 1;
    }
    assert(p.take(i as int) =~= p);
    assert(d.take(i as int) =~= d);
    r
}

} // verus!
