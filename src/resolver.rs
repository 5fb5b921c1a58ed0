//! Target resolution: which package, and which of its targets, are in play.

use vstd::prelude::*;

use crate::model::{targets_view, Error, KindSet, Package, Project, Target, TargetKind};

verus! {

/// An explicit choice of one target of a package.
#[derive(Clone, Debug)]
pub enum TargetSelector {
    Library,
    Binary(String),
    Example(String),
    Benchmark(String),
}

/// How many of the four selector flags are given.
pub open spec fn selector_count(
    lib: bool,
    bin: Option<String>,
    example: Option<String>,
    bench: Option<String>,
) -> nat {
    (if lib { 1nat } else { 0nat }) + (if bin is Some { 1nat } else { 0nat }) + (if example is Some {
        1nat
    } else {
        0nat
    }) + (if bench is Some { 1nat } else { 0nat })
}

pub open spec fn package_missing_message(name: Seq<char>) -> Seq<char> {
    "package `"@ + name + "` not found"@
}

pub open spec fn conflicting_selectors_message() -> Seq<char> {
    "at most one of the library, binary, example and benchmark selectors may be given"@
}

/// Index of the first package with the given name.
pub open spec fn is_first_named(packages: Seq<Package>, name: Seq<char>, i: int) -> bool {
    0 <= i < packages.len() && packages[i].name@ == name && forall|j: int|
        0 <= j < i ==> packages[j].name@ != name
}

/// Index of the first target that a selector accepts.
pub open spec fn is_first_accepted(
    sel: TargetSelector,
    targets: Seq<(TargetKind, Seq<char>)>,
    i: int,
) -> bool {
    0 <= i < targets.len() && sel.accepts(targets[i]) && forall|j: int|
        0 <= j < i ==> !sel.accepts(targets[j])
}

/// The targets of a package whose kind a filter admits, in order.
pub open spec fn filtered(targets: Seq<(TargetKind, Seq<char>)>, filter: KindSet) -> Seq<
    (TargetKind, Seq<char>),
> {
    targets.filter(|t: (TargetKind, Seq<char>)| filter.has(t.0))
}

impl TargetSelector {
    pub open spec fn accepts(&self, t: (TargetKind, Seq<char>)) -> bool {
        match self {
            TargetSelector::Library => t.0 == TargetKind::Lib,
            TargetSelector::Binary(n) => t.0 == TargetKind::Bin && t.1 == n@,
            TargetSelector::Example(n) => t.0 == TargetKind::Example && t.1 == n@,
            TargetSelector::Benchmark(n) => t.0 == TargetKind::Bench && t.1 == n@,
        }
    }

    pub open spec fn missing_message(&self) -> Seq<char> {
        match self {
            TargetSelector::Library => "no library targets found"@,
            TargetSelector::Binary(n) => "no bin target named `"@ + n@ + "`"@,
            TargetSelector::Example(n) => "no example target named `"@ + n@ + "`"@,
            TargetSelector::Benchmark(n) => "no bench target named `"@ + n@ + "`"@,
        }
    }

    /// The selector given by the four selector flags, if any; two or more
    /// of them together are rejected rather than one taking precedence.
    pub fn from_flags(
        lib: bool,
        bin: Option<String>,
        example: Option<String>,
        bench: Option<String>,
    ) -> (r: Result<Option<TargetSelector>, Error>)
        ensures
            selector_count(lib, bin, example, bench) > 1 <==> r is Err,
            r is Err ==> r->Err_0.is_configuration_error(conflicting_selectors_message()),
            selector_count(lib, bin, example, bench) == 0 ==> r matches Ok(None),
            selector_count(lib, bin, example, bench) == 1 ==> {
                &&& lib ==> r == Ok::<Option<TargetSelector>, Error>(Some(TargetSelector::Library))
                &&& bin is Some ==> r == Ok::<Option<TargetSelector>, Error>(
                    Some(TargetSelector::Binary(bin->0)),
                )
                &&& example is Some ==> r == Ok::<Option<TargetSelector>, Error>(
                    Some(TargetSelector::Example(example->0)),
                )
                &&& bench is Some ==> r == Ok::<Option<TargetSelector>, Error>(
                    Some(TargetSelector::Benchmark(bench->0)),
                )
            },
    {
        let count: usize = (if lib { 1 } else { 0 }) + (if bin.is_some() { 1 } else { 0 }) + (
        if example.is_some() {
            1
        } else {
            0
        }) + (if bench.is_some() { 1 } else { 0 });
        if count > 1 {
            return Err(
                Error::ConfigurationError(
                    String::from_str(
                        "at most one of the library, binary, example and benchmark selectors may be given",
                    ),
                ),
            );
        }
        if lib {
            Ok(Some(TargetSelector::Library))
        } else if let Some(n) = bin {
            Ok(Some(TargetSelector::Binary(n)))
        } else if let Some(n) = example {
            Ok(Some(TargetSelector::Example(n)))
        } else if let Some(n) = bench {
            Ok(Some(TargetSelector::Benchmark(n)))
        } else {
            Ok(None)
        }
    }

    pub fn accepts_target(&self, t: &Target) -> (r: bool)
        ensures
            r == self.accepts(t@),
    {
        match self {
            TargetSelector::Library => t.kind == TargetKind::Lib,
            TargetSelector::Binary(n) => t.kind == TargetKind::Bin && t.name == *n,
            TargetSelector::Example(n) => t.kind == TargetKind::Example && t.name == *n,
            TargetSelector::Benchmark(n) => t.kind == TargetKind::Bench && t.name == *n,
        }
    }

    fn missing_target(&self) -> (r: Error)
        ensures
            r.is_configuration_error(self.missing_message()),
    {
        let m = match self {
            TargetSelector::Library => String::from_str("no library targets found"),
            TargetSelector::Binary(n) => {
                let mut m = String::from_str("no bin target named `");
                m.append(n.as_str());
                m.append("`");
                m
            },
            TargetSelector::Example(n) => {
                let mut m = String::from_str("no example target named `");
                m.append(n.as_str());
                m.append("`");
                m
            },
            TargetSelector::Benchmark(n) => {
                let mut m = String::from_str("no bench target named `");
                m.append(n.as_str());
                m.append("`");
                m
            },
        };
        Error::ConfigurationError(m)
    }
}

/// The package named `name`, or the project's default package when no name
/// is given. An unknown name is an error, never a fallback to the default.
pub fn select_package<'a>(project: &'a Project, name: &Option<String>) -> (r: Result<
    &'a Package,
    Error,
>)
    requires
        project.wf(),
    ensures
        name is None ==> r is Ok && *r->Ok_0 == project.packages@[project.default_package as int],
        name is Some ==> (r is Ok <==> exists|i: int|
            0 <= i < project.packages@.len() && project.packages@[i].name@ == name->0@),
        name is Some && r is Ok ==> exists|i: int|
            is_first_named(project.packages@, name->0@, i) && *r->Ok_0 == project.packages@[i],
        name is Some && r is Err ==> r->Err_0.is_configuration_error(
            package_missing_message(name->0@),
        ),
{
    match name {
        None => Ok(&project.packages[project.default_package]),
        Some(n) => {
            let mut i: usize = 0;
            while i < project.packages.len()
                invariant
                    i <= project.packages@.len(),
                    project.wf(),
                    *name == Some(*n),
                    forall|j: int| 0 <= j < i ==> project.packages@[j].name@ != n@,
                decreases project.packages@.len() - i,
            {
                if project.packages[i].name == *n {
                    return Ok(&project.packages[i]);
                }
                i = i + 1;
            }
            let mut m = String::from_str("package `");
            m.append(n.as_str());
            m.append("` not found");
            Err(Error::ConfigurationError(m))
        },
    }
}

/// With a selector, the single target that it names (an error when the
/// package has none); without one, every target whose kind `filter` admits.
pub fn select_targets(package: &Package, selector: &Option<TargetSelector>, filter: KindSet) -> (r:
    Result<Vec<Target>, Error>)
    ensures
        selector is None ==> r is Ok && targets_view(r->Ok_0@) == filtered(
            targets_view(package.targets@),
            filter,
        ),
        selector is Some ==> (r is Ok <==> exists|i: int|
            0 <= i < package.targets@.len() && selector->0.accepts(package.targets@[i]@)),
        selector is Some && r is Ok ==> r->Ok_0@.len() == 1 && exists|i: int|
            is_first_accepted(selector->0, targets_view(package.targets@), i) && r->Ok_0@[0]@
                == package.targets@[i]@,
        selector is Some && r is Err ==> r->Err_0.is_configuration_error(
            selector->0.missing_message(),
        ),
{
    match selector {
        Some(sel) => {
            let mut i: usize = 0;
            while i < package.targets.len()
                invariant
                    i <= package.targets@.len(),
                    *selector == Some(*sel),
                    forall|j: int| 0 <= j < i ==> !sel.accepts(#[trigger] package.targets@[j]@),
                decreases package.targets@.len() - i,
            {
                if sel.accepts_target(&package.targets[i]) {
                    let mut v: Vec<Target> = Vec::new();
                    v.push(package.targets[i].duplicate());
                    assert(is_first_accepted(*sel, targets_view(package.targets@), i as int));
                    return Ok(v);
                }
                i = i + 1;
            }
            Err(sel.missing_target())
        },
        None => {
            let ghost all = targets_view(package.targets@);
            let ghost pred = |t: (TargetKind, Seq<char>)| filter.has(t.0);
            let mut v: Vec<Target> = Vec::new();
            let mut i: usize = 0;
            while i < package.targets.len()
                invariant
                    i <= package.targets@.len(),
                    selector is None,
                    all == targets_view(package.targets@),
                    pred == (|t: (TargetKind, Seq<char>)| filter.has(t.0)),
                    targets_view(v@) == all.take(i as int).filter(pred),
                decreases package.targets@.len() - i,
            {
                let t = &package.targets[i];
                proof {
                    reveal(Seq::filter);
                    assert(all.take(i + 1).drop_last() =~= all.take(i as int));
                    assert(all.take(i + 1).last() == t@);
                }
                if filter.contains(t.kind) {
                    let d = t.duplicate();
                    let ghost before = v@;
                    v.push(d);
                    assert(targets_view(v@) =~= targets_view(before).push(d@));
                }
                i = i + 1;
            }
            assert(all.take(i as int) =~= all);
            Ok(v)
        },
    }
}

} // verus!
