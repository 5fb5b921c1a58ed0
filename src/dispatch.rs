//! The test dispatcher: a state machine that asks for each target to be
//! built, then for each build to be run, and aggregates the outcomes. The
//! caller performs each action and reports back what came of it.

use vstd::prelude::*;

use crate::config::{strings_view, Triplet};
use crate::executor::{find_artifact, is_first_with_extension, parent, parent_of, spec_has_extension};
use crate::model::Error;

verus! {

/// Where the built tests are run.
#[derive(Clone, Copy, Debug, PartialEq, Eq, Structural)]
pub enum Runtime {
    /// A standalone script runtime (node.js).
    Script,
    /// The headless-browser harness, the default.
    Browser,
}

/// Picks the runtime from the script-runtime flag.
pub fn select_runtime(use_script_runtime: bool) -> (r: Runtime)
    ensures
        r == (if use_script_runtime { Runtime::Script } else { Runtime::Browser }),
{
    if use_script_runtime {
        Runtime::Script
    } else {
        Runtime::Browser
    }
}

pub open spec fn native_needs_script_runtime_message() -> Seq<char> {
    "running tests for the native wasm target is currently only supported with `--nodejs`"@
}

pub open spec fn runtime_missing_message() -> Seq<char> {
    "node.js not found; please install it!"@
}

/// The executable names under which the script runtime is looked for, in
/// the order in which they are tried.
pub open spec fn spec_runtime_candidates(on_windows: bool) -> Seq<Seq<char>> {
    if on_windows {
        seq!["node.exe"@, "nodejs"@, "node"@]
    } else {
        seq!["nodejs"@, "node"@]
    }
}

pub fn script_runtime_candidates(on_windows: bool) -> (r: Vec<String>)
    ensures
        strings_view(r@) == spec_runtime_candidates(on_windows),
{
    let mut r: Vec<String> = Vec::new();
    if on_windows {
        r.push(String::from_str("node.exe"));
    }
    r.push(String::from_str("nodejs"));
    r.push(String::from_str("node"));
    assert(strings_view(r@) =~= spec_runtime_candidates(on_windows));
    r
}

/// The first candidate that is available; `available[i]` tells whether
/// `candidates[i]` was found. None found is a configuration error.
pub fn choose_script_runtime(candidates: &Vec<String>, available: &Vec<bool>) -> (r: Result<
    String,
    Error,
>)
    requires
        candidates@.len() == available@.len(),
    ensures
        r is Err <==> forall|j: int| 0 <= j < available@.len() ==> !available@[j],
        r is Err ==> r->Err_0.is_configuration_error(runtime_missing_message()),
        r is Ok ==> exists|i: int|
            0 <= i < available@.len() && available@[i] && r->Ok_0@ == candidates@[i]@ && forall|
                j: int,
            |
                0 <= j < i ==> !available@[j],
{
    let mut i: usize = 0;
    while i < available.len()
        invariant
            i <= available@.len() == candidates@.len(),
            forall|j: int| 0 <= j < i ==> !available@[j],
        decreases available@.len() - i,
    {
        if available[i] {
            return Ok(candidates[i].clone());
        }
        i = i + 1;
    }
    Err(Error::ConfigurationError(String::from_str("node.js not found; please install it!")))
}

/// A run of the script runtime: its arguments and the directory to run in.
#[derive(Clone, Debug)]
pub struct ScriptRun {
    pub args: Vec<String>,
    pub working_dir: String,
}

pub open spec fn missing_artifact(e: Error, ext: Seq<char>) -> bool {
    match e {
        Error::MissingArtifact(x) => x@ == ext,
        _ => false,
    }
}

pub open spec fn has_artifact(a: Seq<Seq<char>>, ext: Seq<char>) -> bool {
    exists|i: int| 0 <= i < a.len() && spec_has_extension(#[trigger] a[i], ext)
}

/// The first artifact with extension `ext`.
pub open spec fn first_artifact(a: Seq<Seq<char>>, ext: Seq<char>) -> Seq<char> {
    a[choose|i: int| is_first_with_extension(a, ext, i)]
}

/// The artifact in whose directory the script runtime runs: the WebAssembly
/// binary for Emscripten WebAssembly, whose loader expects the files beside
/// it, and the script itself otherwise.
pub open spec fn run_dir_artifact(triplet: Triplet, a: Seq<Seq<char>>) -> Seq<char> {
    if triplet == Triplet::WasmEmscripten {
        first_artifact(a, "wasm"@)
    } else {
        first_artifact(a, "js"@)
    }
}

fn first_of(artifacts: &Vec<String>, ext: &str) -> (r: Result<usize, Error>)
    ensures
        r is Err <==> !has_artifact(strings_view(artifacts@), ext@),
        r is Err ==> missing_artifact(r->Err_0, ext@),
        r is Ok ==> r->Ok_0 < artifacts@.len() && artifacts@[r->Ok_0 as int]@ == first_artifact(
            strings_view(artifacts@),
            ext@,
        ),
{
    let ghost a = strings_view(artifacts@);
    match find_artifact(artifacts, ext) {
        Some(i) => {
            assert(is_first_with_extension(a, ext@, i as int));
            let ghost c = choose|j: int| is_first_with_extension(a, ext@, j);
            assert(is_first_with_extension(a, ext@, c));
            assert(c == i as int) by {
                if c < i {
                    assert(!spec_has_extension(a[c], ext@));
                } else if c > i {
                    assert(!spec_has_extension(a[i as int], ext@));
                }
            }
            Ok(i)
        },
        None => {
            assert(!has_artifact(a, ext@));
            Err(Error::MissingArtifact(ext.to_owned()))
        },
    }
}

/// How the script runtime runs a build: on the first script artifact,
/// followed by the passthrough arguments, in the directory of
/// `run_dir_artifact`. A missing artifact breaks the build's contract and is
/// reported as `Error::MissingArtifact`.
pub fn plan_script_run(triplet: Triplet, artifacts: &Vec<String>, passthrough: &Vec<String>) -> (r:
    Result<ScriptRun, Error>)
    ensures
        ({
            let a = strings_view(artifacts@);
            &&& !has_artifact(a, "js"@) ==> r is Err && missing_artifact(r->Err_0, "js"@)
            &&& has_artifact(a, "js"@) && triplet == Triplet::WasmEmscripten && !has_artifact(
                a,
                "wasm"@,
            ) ==> r is Err && missing_artifact(r->Err_0, "wasm"@)
            &&& has_artifact(a, "js"@) && (triplet == Triplet::WasmEmscripten ==> has_artifact(
                a,
                "wasm"@,
            )) ==> {
                &&& r is Ok <==> parent_of(run_dir_artifact(triplet, a)) is Some
                &&& r is Err ==> missing_artifact(r->Err_0, "directory"@)
            }
            &&& r is Ok ==> {
                &&& strings_view(r->Ok_0.args@) == seq![first_artifact(a, "js"@)] + strings_view(
                    passthrough@,
                )
                &&& r->Ok_0.working_dir@ == parent_of(run_dir_artifact(triplet, a))->0
            }
        }),
{
    let js = first_of(artifacts, "js");
    let js = match js {
        Ok(i) => i,
        Err(e) => return Err(e),
    };
    let dir_source = if triplet == Triplet::WasmEmscripten {
        match first_of(artifacts, "wasm") {
            Ok(i) => i,
            Err(e) => return Err(e),
        }
    } else {
        js
    };
    let working_dir = match parent(artifacts[dir_source].as_str()) {
        Some(d) => d,
        None => return Err(Error::MissingArtifact(String::from_str("directory"))),
    };
    let mut args: Vec<String> = Vec::new();
    args.push(artifacts[js].clone());
    let mut k: usize = 0;
    while k < passthrough.len()
        invariant
            k <= passthrough@.len(),
            strings_view(args@) == seq![artifacts@[js as int]@] + strings_view(passthrough@).take(
                k as int,
            ),
        decreases passthrough@.len() - k,
    {
        let ghost b = strings_view(args@);
        args.push(passthrough[k].clone());
        assert(strings_view(args@) =~= b.push(passthrough@[k as int]@));
        assert(strings_view(passthrough@).take(k + 1) =~= strings_view(passthrough@).take(
            k as int,
        ).push(passthrough@[k as int]@));
        k = k + 1;
    }
    assert(strings_view(passthrough@).take(k as int) =~= strings_view(passthrough@));
    Ok(ScriptRun { args, working_dir })
}

} // verus!
