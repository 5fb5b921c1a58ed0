//! The project model and the small value types shared by every component.

use vstd::prelude::*;

verus! {

/// What a compilation target produces.
#[derive(Clone, Copy, Debug, PartialEq, Eq, Structural)]
pub enum TargetKind {
    Lib,
    Bin,
    Example,
    Bench,
    Test,
}

/// One compilation target of a package.
#[derive(Clone, Debug)]
pub struct Target {
    pub kind: TargetKind,
    pub name: String,
}

impl View for Target {
    type V = (TargetKind, Seq<char>);

    open spec fn view(&self) -> (TargetKind, Seq<char>) {
        (self.kind, self.name@)
    }
}

/// The views of a sequence of targets.
pub open spec fn targets_view(ts: Seq<Target>) -> Seq<(TargetKind, Seq<char>)> {
    ts.map_values(|t: Target| t@)
}

impl Target {
    pub fn new(kind: TargetKind, name: String) -> (r: Target)
        ensures
            r.kind == kind,
            r.name@ == name@,
    {
        Target { kind, name }
    }

    /// A copy of the target, field for field.
    pub fn duplicate(&self) -> (r: Target)
        ensures
            r@ == self@,
    {
        Target { kind: self.kind, name: self.name.clone() }
    }
}

/// A package: its name and its targets, in declaration order.
#[derive(Clone, Debug)]
pub struct Package {
    pub name: String,
    pub targets: Vec<Target>,
}

/// The read-only project model: its packages and which one is the default.
#[derive(Clone, Debug)]
pub struct Project {
    pub packages: Vec<Package>,
    pub default_package: usize,
}

impl Project {
    /// The default package designates one of the packages.
    pub open spec fn wf(&self) -> bool {
        self.default_package < self.packages@.len()
    }

    pub fn new(packages: Vec<Package>, default_package: usize) -> (r: Option<Project>)
        ensures
            r.is_some() <==> default_package < packages@.len(),
            r matches Some(p) ==> p.wf() && p.packages@ == packages@
                && p.default_package == default_package,
    {
        if default_package < packages.len() {
            Some(Project { packages, default_package })
        } else {
            None
        }
    }
}

/// A set of target kinds, used as the default filter of target selection.
#[derive(Clone, Copy, Debug, PartialEq, Eq, Structural)]
pub struct KindSet {
    pub lib: bool,
    pub bin: bool,
    pub example: bool,
    pub bench: bool,
    pub test: bool,
}

impl KindSet {
    pub open spec fn has(&self, kind: TargetKind) -> bool {
        match kind {
            TargetKind::Lib => self.lib,
            TargetKind::Bin => self.bin,
            TargetKind::Example => self.example,
            TargetKind::Bench => self.bench,
            TargetKind::Test => self.test,
        }
    }

    pub fn contains(&self, kind: TargetKind) -> (r: bool)
        ensures
            r == self.has(kind),
    {
        match kind {
            TargetKind::Lib => self.lib,
            TargetKind::Bin => self.bin,
            TargetKind::Example => self.example,
            TargetKind::Bench => self.bench,
            TargetKind::Test => self.test,
        }
    }

    /// The kinds that are run as tests: libraries, binaries and test targets.
    pub fn testable() -> (r: KindSet)
        ensures
            forall|k: TargetKind| r.has(k) <==> (k == TargetKind::Lib || k == TargetKind::Bin
                || k == TargetKind::Test),
    {
        KindSet { lib: true, bin: true, example: false, bench: false, test: true }
    }
}

/// Whether runtime-exit semantics are linked in.
#[derive(Clone, Copy, Debug, PartialEq, Eq, Structural)]
pub enum Profile {
    Main,
    Test,
}

#[derive(Clone, Copy, Debug, PartialEq, Eq, Structural)]
pub enum BuildType {
    Debug,
    Release,
}

#[derive(Clone, Copy, Debug, PartialEq, Eq, Structural)]
pub enum MessageFormat {
    Human,
    Json,
}

/// Status with which the process ends when a test failed or a linker
/// argument cannot be passed on.
pub const FAILURE_STATUS: i32 = 101;

/// Status with which the process ends after a build-only run.
pub const SUCCESS_STATUS: i32 = 0;

/// The errors of the resolver, the configuration builder and the dispatcher.
#[derive(Clone, Debug)]
pub enum Error {
    /// A user-correctable problem: an unknown package or target, an
    /// unsupported flag combination, a missing external tool.
    ConfigurationError(String),
    /// The toolchain failed; it has already reported the details.
    BuildError,
    /// A declared linker argument holds whitespace and cannot be passed on;
    /// the process is to abort with `FAILURE_STATUS`.
    UnquotableLinkArg(String),
    /// A build did not produce an artifact that it must have produced.
    MissingArtifact(String),
}

impl Error {
    /// A configuration error with exactly the message `m`.
    pub open spec fn is_configuration_error(&self, m: Seq<char>) -> bool {
        match self {
            Error::ConfigurationError(s) => s@ == m,
            _ => false,
        }
    }

    /// The status with which the process ends at once on this error, if it
    /// is one that aborts.
    pub open spec fn spec_abort_status(&self) -> Option<i32> {
        if self is UnquotableLinkArg {
            Some(FAILURE_STATUS)
        } else {
            None
        }
    }

    pub fn abort_status(&self) -> (r: Option<i32>)
        ensures
            r == self.spec_abort_status(),
    {
        match self {
            Error::UnquotableLinkArg(_) => Some(FAILURE_STATUS),
            _ => None,
        }
    }
}

} // verus!
