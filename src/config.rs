//! The configuration builder: from the command's flags, the project's
//! declared linker arguments and the located toolchain, one build
//! configuration per target.

use vstd::prelude::*;

use crate::model::{BuildType, Error, MessageFormat, Package, Profile, Target, FAILURE_STATUS};

verus! {

/// The platform triplet, which selects the compilation backend.
#[derive(Clone, Copy, Debug, PartialEq, Eq, Structural)]
pub enum Triplet {
    /// `asmjs-unknown-emscripten`, the default.
    AsmJsEmscripten,
    /// `wasm32-unknown-emscripten`.
    WasmEmscripten,
    /// `wasm32-unknown-unknown`.
    WasmNative,
}

impl Triplet {
    pub open spec fn spec_name(self) -> Seq<char> {
        match self {
            Triplet::AsmJsEmscripten => "asmjs-unknown-emscripten"@,
            Triplet::WasmEmscripten => "wasm32-unknown-emscripten"@,
            Triplet::WasmNative => "wasm32-unknown-unknown"@,
        }
    }

    pub open spec fn spec_is_emscripten(self) -> bool {
        self != Triplet::WasmNative
    }

    pub open spec fn spec_is_wasm(self) -> bool {
        self != Triplet::AsmJsEmscripten
    }

    pub fn name(&self) -> (r: String)
        ensures
            r@ == self.spec_name(),
    {
        match self {
            Triplet::AsmJsEmscripten => String::from_str("asmjs-unknown-emscripten"),
            Triplet::WasmEmscripten => String::from_str("wasm32-unknown-emscripten"),
            Triplet::WasmNative => String::from_str("wasm32-unknown-unknown"),
        }
    }

    /// Whether the Emscripten toolchain builds for this triplet.
    pub fn is_emscripten(&self) -> (r: bool)
        ensures
            r == self.spec_is_emscripten(),
    {
        !matches!(self, Triplet::WasmNative)
    }

    /// Whether this triplet produces WebAssembly.
    pub fn is_wasm(&self) -> (r: bool)
        ensures
            r == self.spec_is_wasm(),
    {
        !matches!(self, Triplet::AsmJsEmscripten)
    }
}

/// The triplet that two triplet flags select: native WebAssembly if its flag
/// is set, else Emscripten WebAssembly if its flag is set, else asm.js.
pub fn resolve_triplet(native_wasm: bool, emscripten_wasm: bool) -> (r: Triplet)
    ensures
        (r == Triplet::WasmNative) <==> native_wasm,
        (r == Triplet::WasmEmscripten) <==> (!native_wasm && emscripten_wasm),
        (r == Triplet::AsmJsEmscripten) <==> (!native_wasm && !emscripten_wasm),
{
    if native_wasm {
        Triplet::WasmNative
    } else if emscripten_wasm {
        Triplet::WasmEmscripten
    } else {
        Triplet::AsmJsEmscripten
    }
}

pub open spec fn spec_effective_build_type(requested: BuildType, triplet: Triplet) -> BuildType {
    if triplet == Triplet::WasmNative {
        BuildType::Release
    } else {
        requested
    }
}

/// The build type that is used: the requested one, except that a debug
/// build for native WebAssembly is known to be broken and becomes a release
/// build.
pub fn resolve_build_type(requested: BuildType, triplet: Triplet) -> (r: BuildType)
    ensures
        r == spec_effective_build_type(requested, triplet),
{
    if forces_release(requested, triplet) {
        BuildType::Release
    } else {
        requested
    }
}

/// Whether `resolve_build_type` overrides the request, which the caller
/// reports as a warning.
pub fn forces_release(requested: BuildType, triplet: Triplet) -> (r: bool)
    ensures
        r == (requested == BuildType::Debug && triplet == Triplet::WasmNative),
{
    requested == BuildType::Debug && triplet == Triplet::WasmNative
}

/// The effective build type of native WebAssembly is always a release
/// build, a requested release build is never changed, and resolving the
/// resolved type again changes nothing.
pub proof fn lemma_build_type_override(requested: BuildType, triplet: Triplet)
    ensures
        spec_effective_build_type(BuildType::Debug, Triplet::WasmNative) == BuildType::Release,
        spec_effective_build_type(BuildType::Release, triplet) == BuildType::Release,
        spec_effective_build_type(spec_effective_build_type(requested, triplet), triplet)
            == spec_effective_build_type(requested, triplet),
{
}

/// The characters with the Unicode `White_Space` property.
pub open spec fn is_white_space(c: char) -> bool {
    ('\u{9}' <= c <= '\u{d}') || c == ' ' || c == '\u{85}' || c == '\u{a0}' || c == '\u{1680}'
        || ('\u{2000}' <= c <= '\u{200a}') || c == '\u{2028}' || c == '\u{2029}' || c
        == '\u{202f}' || c == '\u{205f}' || c == '\u{3000}'
}

/// Whether `c` has the Unicode `White_Space` property.
pub fn char_is_whitespace(c: char) -> (r: bool)
    ensures
        r == is_white_space(c),
{
    ('\u{9}' <= c && c <= '\u{d}') || c == ' ' || c == '\u{85}' || c == '\u{a0}' || c
        == '\u{1680}' || ('\u{2000}' <= c && c <= '\u{200a}') || c == '\u{2028}' || c
        == '\u{2029}' || c == '\u{202f}' || c == '\u{205f}' || c == '\u{3000}'
}

pub open spec fn contains_white_space(s: Seq<char>) -> bool {
    exists|i: int| 0 <= i < s.len() && is_white_space(#[trigger] s[i])
}

/// Whether the string holds a whitespace character.
pub fn has_whitespace(s: &str) -> (r: bool)
    ensures
        r == contains_white_space(s@),
{
    let n = s.unicode_len();
    let mut i: usize = 0;
    while i < n
        invariant
            i <= n,
            n == s@.len(),
            forall|j: int| 0 <= j < i ==> !is_white_space(#[trigger] s@[j]),
        decreases n - i,
    {
        if char_is_whitespace(s.get_char(i)) {
            return true;
        }
        i = i + 1;
    }
    false
}

/// The state of a left-to-right scan of `s` for words: the words completed
/// so far and the word in progress.
pub open spec fn word_scan(s: Seq<char>) -> (Seq<Seq<char>>, Seq<char>)
    decreases s.len(),
{
    if s.len() == 0 {
        (seq![], seq![])
    } else {
        let (ws, cur) = word_scan(s.drop_last());
        if is_white_space(s.last()) {
            if cur.len() > 0 {
                (ws.push(cur), seq![])
            } else {
                (ws, seq![])
            }
        } else {
            (ws, cur.push(s.last()))
        }
    }
}

/// The maximal runs of non-whitespace characters of `s`, in order.
pub open spec fn words(s: Seq<char>) -> Seq<Seq<char>> {
    let (ws, cur) = word_scan(s);
    if cur.len() > 0 {
        ws.push(cur)
    } else {
        ws
    }
}

pub open spec fn strings_view(v: Seq<String>) -> Seq<Seq<char>> {
    v.map_values(|x: String| x@)
}

fn push_str(v: &mut Vec<String>, s: &str)
    ensures
        strings_view(final(v)@) == strings_view(old(v)@).push(s@),
{
    v.push(s.to_owned());
    assert(strings_view(final(v)@) =~= strings_view(old(v)@).push(s@));
}

/// The whitespace-separated words of a feature list.
pub fn split_features(s: &str) -> (r: Vec<String>)
    ensures
        strings_view(r@) == words(s@),
{
    let n = s.unicode_len();
    let mut r: Vec<String> = Vec::new();
    let mut start: usize = 0;
    let mut i: usize = 0;
    while i < n
        invariant
            start <= i <= n,
            n == s@.len(),
            word_scan(s@.take(i as int)) == (strings_view(r@), s@.subrange(start as int, i as int)),
        decreases n - i,
    {
        let c = s.get_char(i);
        assert(s@.take(i + 1).drop_last() =~= s@.take(i as int));
        assert(s@.take(i + 1).last() == c);
        if char_is_whitespace(c) {
            if start < i {
                push_str(&mut r, s.substring_char(start, i));
            }
            start = i + 1;
        } else {
            assert(s@.subrange(start as int, i + 1) =~= s@.subrange(start as int, i as int).push(c));
        }
        i = i + 1;
    }
    assert(s@.take(n as int) =~= s@);
    if start < n {
        push_str(&mut r, s.substring_char(start, n));
    }
    r
}

/// Where the Emscripten toolchain was found: its root, its internal
/// compiler, and the optional auxiliary tool.
#[derive(Clone, Debug)]
pub struct EmscriptenPaths {
    pub root: String,
    pub llvm: String,
    pub binaryen: Option<String>,
}

impl View for EmscriptenPaths {
    type V = (Seq<char>, Seq<char>, Option<Seq<char>>);

    open spec fn view(&self) -> (Seq<char>, Seq<char>, Option<Seq<char>>) {
        (
            self.root@,
            self.llvm@,
            match self.binaryen {
                Some(b) => Some(b@),
                None => None,
            },
        )
    }
}

pub open spec fn pairs_view(v: Seq<(String, String)>) -> Seq<(Seq<char>, Seq<char>)> {
    v.map_values(|p: (String, String)| (p.0@, p.1@))
}

fn push_pair(v: &mut Vec<(String, String)>, k: &str, x: &str)
    ensures
        pairs_view(final(v)@) == pairs_view(old(v)@).push((k@, x@)),
{
    v.push((k.to_owned(), x.to_owned()));
    assert(pairs_view(final(v)@) =~= pairs_view(old(v)@).push((k@, x@)));
}

/// The linker flags that the toolchain needs: for the Emscripten family, the
/// runtime-exit switch, which keeps the exit runtime for tests only.
pub open spec fn toolchain_flags(triplet: Triplet, profile: Profile) -> Seq<Seq<char>> {
    if triplet.spec_is_emscripten() {
        seq![
            "-C"@,
            "link-arg=-s"@,
            "-C"@,
            "link-arg=NO_EXIT_RUNTIME="@ + if profile == Profile::Main {
                "1"@
            } else {
                "0"@
            },
        ]
    } else {
        seq![]
    }
}

/// Each declared linker argument as a flag pair of its own.
pub open spec fn link_arg_flags(args: Seq<Seq<char>>) -> Seq<Seq<char>>
    decreases args.len(),
{
    if args.len() == 0 {
        seq![]
    } else {
        link_arg_flags(args.drop_last()) + seq!["-C"@, "link-arg="@ + args.last()]
    }
}

/// Full debug information, requested for debug builds of native WebAssembly.
pub open spec fn debug_info_flags(triplet: Triplet, requested: BuildType) -> Seq<Seq<char>> {
    if triplet == Triplet::WasmNative && requested == BuildType::Debug {
        seq!["-C"@, "debuginfo=2"@]
    } else {
        seq![]
    }
}

/// The declared linker arguments, none when none are declared.
pub open spec fn declared_args(link_args: Option<Vec<String>>) -> Seq<Seq<char>> {
    match link_args {
        Some(a) => strings_view(a@),
        None => seq![],
    }
}

pub open spec fn located_view(e: Option<EmscriptenPaths>) -> Option<
    (Seq<char>, Seq<char>, Option<Seq<char>>),
> {
    match e {
        Some(p) => Some(p@),
        None => None,
    }
}

pub open spec fn expected_rustflags(
    triplet: Triplet,
    profile: Profile,
    requested: BuildType,
    args: Seq<Seq<char>>,
) -> Seq<Seq<char>> {
    toolchain_flags(triplet, profile) + link_arg_flags(args) + debug_info_flags(triplet, requested)
}

/// The environment that the toolchain is given: the Emscripten paths for the
/// Emscripten family, and incremental compilation switched off for native
/// WebAssembly where an override of it is set.
pub open spec fn expected_environment(
    triplet: Triplet,
    emscripten: Option<(Seq<char>, Seq<char>, Option<Seq<char>>)>,
    incremental_override_set: bool,
) -> Seq<(Seq<char>, Seq<char>)> {
    (if triplet.spec_is_emscripten() && emscripten is Some {
        let (root, llvm, binaryen) = emscripten->0;
        seq![("EMSCRIPTEN"@, root), ("EMSCRIPTEN_FASTCOMP"@, llvm), ("LLVM"@, llvm)] + match binaryen {
            Some(b) => seq![("BINARYEN"@, b)],
            None => seq![],
        }
    } else {
        seq![]
    }) + if triplet == Triplet::WasmNative && incremental_override_set {
        seq![("CARGO_INCREMENTAL"@, "0"@)]
    } else {
        seq![]
    }
}

pub open spec fn expected_paths(
    triplet: Triplet,
    emscripten: Option<(Seq<char>, Seq<char>, Option<Seq<char>>)>,
) -> Seq<Seq<char>> {
    if triplet.spec_is_emscripten() && emscripten is Some {
        seq![(emscripten->0).0]
    } else {
        seq![]
    }
}

/// Index of the first declared linker argument that holds whitespace.
pub open spec fn is_first_unquotable(args: Seq<Seq<char>>, i: int) -> bool {
    0 <= i < args.len() && contains_white_space(args[i]) && forall|j: int|
        0 <= j < i ==> !contains_white_space(#[trigger] args[j])
}

/// The error for a linker argument that cannot be passed on: it carries the
/// argument itself.
pub open spec fn is_unquotable_error(e: Error, args: Seq<Seq<char>>) -> bool {
    match e {
        Error::UnquotableLinkArg(a) => exists|i: int| is_first_unquotable(args, i) && a@ == args[i],
        _ => false,
    }
}

/// The error for an unquotable linker argument aborts the process with the
/// failure status, and it only comes where a declared argument holds
/// whitespace; as it replaces the configuration, no build is made with it.
pub proof fn lemma_unquotable_aborts(e: Error, args: Seq<Seq<char>>)
    requires
        is_unquotable_error(e, args),
    ensures
        e.spec_abort_status() == Some(FAILURE_STATUS),
        exists|i: int| 0 <= i < args.len() && contains_white_space(#[trigger] args[i]),
{
}

/// Appends each declared linker argument as a flag pair; an argument that
/// holds whitespace cannot be quoted and is an error.
pub fn apply_user_link_args(flags: &mut Vec<String>, args: &Vec<String>) -> (r: Result<(), Error>)
    ensures
        r is Err <==> exists|i: int|
            0 <= i < args@.len() && contains_white_space(#[trigger] strings_view(args@)[i]),
        r is Err ==> is_unquotable_error(r->Err_0, strings_view(args@)),
        r is Ok ==> strings_view(final(flags)@) == strings_view(old(flags)@) + link_arg_flags(
            strings_view(args@),
        ),
{
    let ghost a = strings_view(args@);
    let mut i: usize = 0;
    while i < args.len()
        invariant
            i <= args@.len(),
            a == strings_view(args@),
            forall|j: int| 0 <= j < i ==> !contains_white_space(#[trigger] args@[j]@),
            strings_view(flags@) == strings_view(old(flags)@) + link_arg_flags(a.take(i as int)),
        decreases args@.len() - i,
    {
        let arg = &args[i];
        if has_whitespace(arg.as_str()) {
            assert(forall|j: int| 0 <= j < i ==> #[trigger] a[j] == args@[j]@);
            assert(is_first_unquotable(a, i as int));
            assert(contains_white_space(a[i as int]));
            return Err(Error::UnquotableLinkArg(arg.clone()));
        }
        assert(a.take(i + 1).drop_last() =~= a.take(i as int));
        let mut f = String::from_str("link-arg=");
        f.append(arg.as_str());
        push_str(flags, "-C");
        push_str(flags, f.as_str());
        assert(strings_view(flags@) =~= strings_view(old(flags)@) + link_arg_flags(
            a.take(i + 1),
        ));
        i = i + 1;
    }
    assert(a.take(i as int) =~= a);
    assert(forall|j: int| 0 <= j < args@.len() ==> #[trigger] a[j] == args@[j]@);
    Ok(())
}

/// The flags of the command that shape a build.
#[derive(Clone, Debug)]
pub struct BuildFlags {
    pub target_webasm: bool,
    pub target_webasm_emscripten: bool,
    pub release: bool,
    pub features: Option<String>,
    pub no_default_features: bool,
    pub all_features: bool,
    pub use_system_emscripten: bool,
    pub message_format: MessageFormat,
    pub verbose: bool,
}

impl BuildFlags {
    pub open spec fn spec_triplet(&self) -> Triplet {
        if self.target_webasm {
            Triplet::WasmNative
        } else if self.target_webasm_emscripten {
            Triplet::WasmEmscripten
        } else {
            Triplet::AsmJsEmscripten
        }
    }

    pub open spec fn spec_requested_build_type(&self) -> BuildType {
        if self.release {
            BuildType::Release
        } else {
            BuildType::Debug
        }
    }

    pub open spec fn spec_features(&self) -> Seq<Seq<char>> {
        match self.features {
            Some(f) => words(f@),
            None => seq![],
        }
    }

    pub fn triplet(&self) -> (r: Triplet)
        ensures
            r == self.spec_triplet(),
    {
        resolve_triplet(self.target_webasm, self.target_webasm_emscripten)
    }

    pub fn requested_build_type(&self) -> (r: BuildType)
        ensures
            r == self.spec_requested_build_type(),
    {
        if self.release {
            BuildType::Release
        } else {
            BuildType::Debug
        }
    }

    pub fn build_type(&self) -> (r: BuildType)
        ensures
            r == spec_effective_build_type(self.spec_requested_build_type(), self.spec_triplet()),
    {
        resolve_build_type(self.requested_build_type(), self.triplet())
    }

    /// Whether the Emscripten toolchain has to be located for this build.
    pub fn needs_emscripten(&self) -> (r: bool)
        ensures
            r == self.spec_triplet().spec_is_emscripten(),
    {
        self.triplet().is_emscripten()
    }

    pub fn features(&self) -> (r: Vec<String>)
        ensures
            strings_view(r@) == self.spec_features(),
    {
        match &self.features {
            Some(f) => split_features(f.as_str()),
            None => {
                let r: Vec<String> = Vec::new();
                assert(strings_view(r@) =~= seq![]);
                r
            },
        }
    }
}

/// One canonical build configuration, for one target and profile.
#[derive(Clone, Debug)]
pub struct BuildConfiguration {
    pub package: String,
    pub target: Target,
    pub profile: Profile,
    pub triplet: Triplet,
    pub build_type: BuildType,
    pub features: Vec<String>,
    pub no_default_features: bool,
    pub enable_all_features: bool,
    pub extra_paths: Vec<String>,
    pub extra_rustflags: Vec<String>,
    pub extra_environment: Vec<(String, String)>,
    pub message_format: MessageFormat,
    pub is_verbose: bool,
}

/// The paths and the environment that the toolchain is given.
pub fn toolchain_environment(
    triplet: Triplet,
    emscripten: &Option<EmscriptenPaths>,
    incremental_override_set: bool,
) -> (r: (Vec<String>, Vec<(String, String)>))
    ensures
        strings_view(r.0@) == expected_paths(
            triplet,
            located_view(*emscripten),
        ),
        pairs_view(r.1@) == expected_environment(
            triplet,
            located_view(*emscripten),
            incremental_override_set,
        ),
{
    let mut paths: Vec<String> = Vec::new();
    let mut env: Vec<(String, String)> = Vec::new();
    if triplet.is_emscripten() {
        if let Some(e) = emscripten {
            push_str(&mut paths, e.root.as_str());
            push_pair(&mut env, "EMSCRIPTEN", e.root.as_str());
            push_pair(&mut env, "EMSCRIPTEN_FASTCOMP", e.llvm.as_str());
            push_pair(&mut env, "LLVM", e.llvm.as_str());
            if let Some(b) = &e.binaryen {
                push_pair(&mut env, "BINARYEN", b.as_str());
            }
        }
    }
    if triplet == Triplet::WasmNative && incremental_override_set {
        push_pair(&mut env, "CARGO_INCREMENTAL", "0");
    }
    assert(strings_view(paths@) =~= expected_paths(
        triplet,
        located_view(*emscripten),
    ));
    assert(pairs_view(env@) =~= expected_environment(
        triplet,
        located_view(*emscripten),
        incremental_override_set,
    ));
    (paths, env)
}

/// The configuration for building `target` of `package` with `profile`.
/// `link_args` are the project's declared linker arguments; `emscripten` is
/// where the Emscripten toolchain was found, if it was looked for and found;
/// `incremental_override_set` tells whether an incremental-compilation
/// override is set in the environment. A declared linker argument that holds
/// whitespace makes it fail with `Error::UnquotableLinkArg`, and only then.
pub fn prepare_configuration(
    flags: &BuildFlags,
    link_args: &Option<Vec<String>>,
    emscripten: &Option<EmscriptenPaths>,
    incremental_override_set: bool,
    package: &Package,
    target: &Target,
    profile: Profile,
) -> (r: Result<BuildConfiguration, Error>)
    ensures
        r is Err <==> exists|i: int|
            0 <= i < declared_args(*link_args).len() && contains_white_space(
                #[trigger] declared_args(*link_args)[i],
            ),
        r is Err ==> is_unquotable_error(
            r->Err_0,
            declared_args(*link_args),
        ),
        r is Ok ==> {
            let c = r->Ok_0;
            let ems = located_view(*emscripten);
            &&& c.package@ == package.name@
            &&& c.target@ == target@
            &&& c.profile == profile
            &&& c.triplet == flags.spec_triplet()
            &&& c.build_type == spec_effective_build_type(
                flags.spec_requested_build_type(),
                flags.spec_triplet(),
            )
            &&& strings_view(c.features@) == flags.spec_features()
            &&& c.no_default_features == flags.no_default_features
            &&& c.enable_all_features == flags.all_features
            &&& strings_view(c.extra_paths@) == expected_paths(flags.spec_triplet(), ems)
            &&& strings_view(c.extra_rustflags@) == expected_rustflags(
                flags.spec_triplet(),
                profile,
                flags.spec_requested_build_type(),
                declared_args(*link_args),
            )
            &&& pairs_view(c.extra_environment@) == expected_environment(
                flags.spec_triplet(),
                ems,
                incremental_override_set,
            )
            &&& c.message_format == flags.message_format
            &&& c.is_verbose == flags.verbose
        },
{
    let triplet = flags.triplet();
    let requested = flags.requested_build_type();
    let (extra_paths, extra_environment) = toolchain_environment(
        triplet,
        emscripten,
        incremental_override_set,
    );
    let mut rustflags: Vec<String> = Vec::new();
    if triplet.is_emscripten() {
        push_str(&mut rustflags, "-C");
        push_str(&mut rustflags, "link-arg=-s");
        push_str(&mut rustflags, "-C");
        let mut f = String::from_str("link-arg=NO_EXIT_RUNTIME=");
        if profile == Profile::Main {
            f.append("1");
        } else {
            f.append("0");
        }
        push_str(&mut rustflags, f.as_str());
    }
    assert(strings_view(rustflags@) =~= toolchain_flags(triplet, profile));
    let ghost before_args = strings_view(rustflags@);
    match link_args {
        Some(args) => {
            assert(declared_args(*link_args) == strings_view(args@));
            let applied = apply_user_link_args(&mut rustflags, args);
            if let Err(e) = applied {
                return Err(e);
            }
        },
        None => {
            assert(link_arg_flags(seq![]) =~= seq![]);
        },
    }
    let ghost before_debug = strings_view(rustflags@);
    if triplet == Triplet::WasmNative && requested == BuildType::Debug {
        push_str(&mut rustflags, "-C");
        push_str(&mut rustflags, "debuginfo=2");
    }
    assert(strings_view(rustflags@) =~= before_debug + debug_info_flags(triplet, requested));
    Ok(
        BuildConfiguration {
            package: package.name.clone(),
            target: target.duplicate(),
            profile,
            triplet,
            build_type: flags.build_type(),
            features: flags.features(),
            no_default_features: flags.no_default_features,
            enable_all_features: flags.all_features,
            extra_paths,
            extra_rustflags: rustflags,
            extra_environment,
            message_format: flags.message_format,
            is_verbose: flags.verbose,
        },
    )
}

} // verus!
