use cargo_web::config::{
    has_whitespace, prepare_configuration, resolve_build_type, resolve_triplet, split_features,
    toolchain_environment, BuildFlags, EmscriptenPaths, Triplet,
};
use cargo_web::model::{BuildType, Error, MessageFormat, Package, Profile, Target, TargetKind};

fn flags(webasm: bool, emscripten_wasm: bool, release: bool) -> BuildFlags {
    BuildFlags {
        target_webasm: webasm,
        target_webasm_emscripten: emscripten_wasm,
        release,
        features: None,
        no_default_features: false,
        all_features: false,
        use_system_emscripten: false,
        message_format: MessageFormat::Human,
        verbose: false,
    }
}

fn package() -> Package {
    Package {
        name: "app".to_string(),
        targets: vec![Target::new(TargetKind::Lib, "app".to_string())],
    }
}

fn paths(binaryen: Option<&str>) -> EmscriptenPaths {
    EmscriptenPaths {
        root: "/emsdk/emscripten".to_string(),
        llvm: "/emsdk/fastcomp".to_string(),
        binaryen: binaryen.map(|b| b.to_string()),
    }
}

fn strs(v: &[String]) -> Vec<&str> {
    v.iter().map(|s| s.as_str()).collect()
}

#[test]
fn every_flag_combination_resolves_one_triplet() {
    assert_eq!(resolve_triplet(false, false), Triplet::AsmJsEmscripten);
    assert_eq!(resolve_triplet(false, true), Triplet::WasmEmscripten);
    assert_eq!(resolve_triplet(true, false), Triplet::WasmNative);
    assert_eq!(resolve_triplet(true, true), Triplet::WasmNative);
}

#[test]
fn triplet_names() {
    assert_eq!(Triplet::AsmJsEmscripten.name(), "asmjs-unknown-emscripten");
    assert_eq!(Triplet::WasmEmscripten.name(), "wasm32-unknown-emscripten");
    assert_eq!(Triplet::WasmNative.name(), "wasm32-unknown-unknown");
    assert!(Triplet::WasmEmscripten.is_emscripten() && Triplet::WasmEmscripten.is_wasm());
    assert!(!Triplet::WasmNative.is_emscripten());
    assert!(!Triplet::AsmJsEmscripten.is_wasm());
}

#[test]
fn native_debug_becomes_release() {
    assert_eq!(resolve_build_type(BuildType::Debug, Triplet::WasmNative), BuildType::Release);
    assert_eq!(resolve_build_type(BuildType::Release, Triplet::WasmNative), BuildType::Release);
    assert_eq!(resolve_build_type(BuildType::Debug, Triplet::WasmEmscripten), BuildType::Debug);
    assert_eq!(
        resolve_build_type(resolve_build_type(BuildType::Debug, Triplet::WasmNative), Triplet::WasmNative),
        BuildType::Release
    );
    assert!(cargo_web::config::forces_release(BuildType::Debug, Triplet::WasmNative));
    assert!(!cargo_web::config::forces_release(BuildType::Release, Triplet::WasmNative));
}

#[test]
fn features_split_on_whitespace() {
    assert_eq!(split_features("a b"), vec!["a", "b"]);
    assert_eq!(split_features("  serde\tstd\n  nightly "), vec!["serde", "std", "nightly"]);
    assert_eq!(split_features("x\u{3000}y"), vec!["x", "y"]);
    assert!(split_features("").is_empty());
    assert!(split_features("   ").is_empty());
}

#[test]
fn whitespace_detection() {
    assert!(cargo_web::config::char_is_whitespace(' '));
    assert!(cargo_web::config::char_is_whitespace('\u{2028}'));
    assert!(!cargo_web::config::char_is_whitespace('x'));
    assert!(!cargo_web::config::char_is_whitespace('\u{200b}'));
    assert!(has_whitespace("a b"));
    assert!(has_whitespace("a\tb"));
    assert!(has_whitespace("\u{a0}"));
    assert!(!has_whitespace("-lfoo"));
    assert!(!has_whitespace(""));
}

#[test]
fn emscripten_test_build_keeps_exit_runtime() {
    let c = prepare_configuration(
        &flags(false, true, false),
        &None,
        &Some(paths(Some("/emsdk/binaryen"))),
        false,
        &package(),
        &package().targets[0],
        Profile::Test,
    )
    .unwrap();
    assert_eq!(
        strs(&c.extra_rustflags),
        vec!["-C", "link-arg=-s", "-C", "link-arg=NO_EXIT_RUNTIME=0"]
    );
    assert_eq!(strs(&c.extra_paths), vec!["/emsdk/emscripten"]);
    let env: Vec<(&str, &str)> =
        c.extra_environment.iter().map(|(k, v)| (k.as_str(), v.as_str())).collect();
    assert_eq!(
        env,
        vec![
            ("EMSCRIPTEN", "/emsdk/emscripten"),
            ("EMSCRIPTEN_FASTCOMP", "/emsdk/fastcomp"),
            ("LLVM", "/emsdk/fastcomp"),
            ("BINARYEN", "/emsdk/binaryen"),
        ]
    );
    assert_eq!(c.triplet, Triplet::WasmEmscripten);
    assert_eq!(c.build_type, BuildType::Debug);
    assert_eq!(c.package, "app");
    assert_eq!(c.profile, Profile::Test);
}

#[test]
fn main_build_drops_exit_runtime_and_appends_link_args() {
    let mut f = flags(false, false, true);
    f.features = Some("one two".to_string());
    f.no_default_features = true;
    f.message_format = MessageFormat::Json;
    f.verbose = true;
    let c = prepare_configuration(
        &f,
        &Some(vec!["-lfoo".to_string(), "--bar".to_string()]),
        &None,
        true,
        &package(),
        &package().targets[0],
        Profile::Main,
    )
    .unwrap();
    assert_eq!(
        strs(&c.extra_rustflags),
        vec![
            "-C",
            "link-arg=-s",
            "-C",
            "link-arg=NO_EXIT_RUNTIME=1",
            "-C",
            "link-arg=-lfoo",
            "-C",
            "link-arg=--bar"
        ]
    );
    assert!(c.extra_environment.is_empty());
    assert!(c.extra_paths.is_empty());
    assert_eq!(strs(&c.features), vec!["one", "two"]);
    assert!(c.no_default_features && !c.enable_all_features);
    assert_eq!(c.message_format, MessageFormat::Json);
    assert!(c.is_verbose);
    assert_eq!(c.build_type, BuildType::Release);
}

#[test]
fn native_debug_build_gets_debuginfo_and_no_incremental() {
    let c = prepare_configuration(
        &flags(true, false, false),
        &None,
        &Some(paths(None)),
        true,
        &package(),
        &package().targets[0],
        Profile::Test,
    )
    .unwrap();
    assert_eq!(strs(&c.extra_rustflags), vec!["-C", "debuginfo=2"]);
    let env: Vec<(&str, &str)> =
        c.extra_environment.iter().map(|(k, v)| (k.as_str(), v.as_str())).collect();
    assert_eq!(env, vec![("CARGO_INCREMENTAL", "0")]);
    assert!(c.extra_paths.is_empty());
    assert_eq!(c.build_type, BuildType::Release);
}

#[test]
fn native_without_incremental_override_sets_nothing() {
    let (p, env) = toolchain_environment(Triplet::WasmNative, &None, false);
    assert!(p.is_empty() && env.is_empty());
}

#[test]
fn link_arg_with_space_is_rejected_with_abort_status() {
    let r = prepare_configuration(
        &flags(false, false, false),
        &Some(vec!["-lok".to_string(), "-l foo".to_string(), "-x y".to_string()]),
        &None,
        false,
        &package(),
        &package().targets[0],
        Profile::Test,
    );
    match r {
        Err(e) => {
            assert_eq!(e.abort_status(), Some(101));
            match e {
                Error::UnquotableLinkArg(a) => assert_eq!(a, "-l foo"),
                other => panic!("unexpected error {:?}", other),
            }
        }
        Ok(_) => panic!("a link argument with a space was accepted"),
    }
}

#[test]
fn other_errors_do_not_abort() {
    assert_eq!(Error::BuildError.abort_status(), None);
    assert_eq!(Error::ConfigurationError("x".to_string()).abort_status(), None);
}
