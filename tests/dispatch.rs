use cargo_web::config::Triplet;
use cargo_web::dispatch::{
    choose_script_runtime, plan_script_run, script_runtime_candidates, select_runtime, Runtime,
};
use cargo_web::executor::{find_artifact, has_extension, merge_artifacts, needs_post_processing};
use cargo_web::model::Error;
use cargo_web::session::{Action, Event, Session};

fn owned(v: &[&str]) -> Vec<String> {
    v.iter().map(|s| s.to_string()).collect()
}

fn drive(s: &mut Session, events: &[Event]) -> Vec<Action> {
    events.iter().map(|e| s.step(*e)).collect()
}

#[test]
fn build_failure_stops_remaining_builds() {
    let mut s = Session::new(4, false, Runtime::Browser, Triplet::AsmJsEmscripten).unwrap();
    let acts = drive(&mut s, &[Event::Start, Event::Built, Event::Built, Event::BuildFailed]);
    assert_eq!(
        acts,
        vec![Action::Build(0), Action::Build(1), Action::Build(2), Action::AbortBuild]
    );
    assert!(s.is_finished());
}

#[test]
fn one_failed_run_fails_the_whole_command() {
    let mut s = Session::new(3, false, Runtime::Script, Triplet::WasmEmscripten).unwrap();
    let acts = drive(
        &mut s,
        &[
            Event::Start,
            Event::Built,
            Event::Built,
            Event::Built,
            Event::Ran(true),
            Event::Ran(false),
            Event::Ran(true),
        ],
    );
    assert_eq!(
        acts,
        vec![
            Action::Build(0),
            Action::Build(1),
            Action::Build(2),
            Action::Run(0),
            Action::Run(1),
            Action::Run(2),
            Action::Exit(101),
        ]
    );
    assert!(s.any_failure);
}

#[test]
fn all_passing_runs_succeed() {
    let mut s = Session::new(2, false, Runtime::Browser, Triplet::AsmJsEmscripten).unwrap();
    let acts = drive(&mut s, &[Event::Start, Event::Built, Event::Built, Event::Ran(true), Event::Ran(true)]);
    assert_eq!(acts.last(), Some(&Action::Succeed(false)));
}

#[test]
fn native_success_is_announced() {
    let mut s = Session::new(1, false, Runtime::Script, Triplet::WasmNative).unwrap();
    let acts = drive(&mut s, &[Event::Start, Event::Built, Event::Ran(true)]);
    assert_eq!(acts, vec![Action::Build(0), Action::Run(0), Action::Succeed(true)]);
}

#[test]
fn build_only_exits_zero_after_builds() {
    let mut s = Session::new(2, true, Runtime::Browser, Triplet::AsmJsEmscripten).unwrap();
    let acts = drive(&mut s, &[Event::Start, Event::Built, Event::Built]);
    assert_eq!(acts, vec![Action::Build(0), Action::Build(1), Action::Exit(0)]);
    assert!(s.is_finished());
}

#[test]
fn no_targets() {
    let mut s = Session::new(0, false, Runtime::Browser, Triplet::AsmJsEmscripten).unwrap();
    assert_eq!(s.step(Event::Start), Action::Succeed(false));
    let mut s = Session::new(0, true, Runtime::Browser, Triplet::AsmJsEmscripten).unwrap();
    assert_eq!(s.step(Event::Start), Action::Exit(0));
}

#[test]
fn native_build_only_needs_no_runtime() {
    let mut s = Session::new(2, true, Runtime::Browser, Triplet::WasmNative).unwrap();
    let acts = drive(&mut s, &[Event::Start, Event::Built, Event::Built]);
    assert_eq!(acts, vec![Action::Build(0), Action::Build(1), Action::Exit(0)]);
    assert!(s.is_finished());
}

#[test]
fn later_pass_keeps_earlier_failure() {
    let mut s = Session::new(2, false, Runtime::Browser, Triplet::AsmJsEmscripten).unwrap();
    let acts = drive(&mut s, &[Event::Start, Event::Built, Event::Built, Event::Ran(false), Event::Ran(true)]);
    assert_eq!(acts.last(), Some(&Action::Exit(101)));
    assert!(s.any_failure);
}

#[test]
fn native_needs_script_runtime() {
    match Session::new(1, false, Runtime::Browser, Triplet::WasmNative) {
        Err(Error::ConfigurationError(m)) => assert!(m.contains("--nodejs")),
        other => panic!("unexpected {:?}", other),
    }
    assert_eq!(select_runtime(true), Runtime::Script);
    assert_eq!(select_runtime(false), Runtime::Browser);
}

#[test]
fn runtime_candidates_and_choice() {
    assert_eq!(script_runtime_candidates(true), owned(&["node.exe", "nodejs", "node"]));
    let c = script_runtime_candidates(false);
    assert_eq!(c, owned(&["nodejs", "node"]));
    assert_eq!(choose_script_runtime(&c, &vec![false, true]).unwrap(), "node");
    assert_eq!(choose_script_runtime(&c, &vec![true, true]).unwrap(), "nodejs");
    match choose_script_runtime(&c, &vec![false, false]) {
        Err(Error::ConfigurationError(m)) => assert_eq!(m, "node.js not found; please install it!"),
        other => panic!("unexpected {:?}", other),
    }
}

#[test]
fn extensions_are_read_from_paths() {
    assert!(has_extension("out/deps/app.js", "js"));
    assert!(!has_extension("out/deps/app.js.map", "js"));
    assert!(!has_extension("out/deps/js", "js"));
    let a = owned(&["t/a.wasm", "t/b.js", "t/c.js"]);
    assert_eq!(find_artifact(&a, "js"), Some(1));
    assert_eq!(find_artifact(&a, "data"), None);
    assert!(needs_post_processing(Triplet::WasmNative, "t/a.wasm"));
    assert!(!needs_post_processing(Triplet::WasmEmscripten, "t/a.wasm"));
    assert!(!needs_post_processing(Triplet::WasmNative, "t/a.js"));
}

#[test]
fn derived_artifacts_follow_their_source() {
    let produced = owned(&["a.wasm", "b.d"]);
    let derived = vec![owned(&["a.js"]), vec![]];
    assert_eq!(merge_artifacts(&produced, &derived), owned(&["a.wasm", "a.js", "b.d"]));
}

#[test]
fn emscripten_wasm_runs_in_the_wasm_directory() {
    let a = owned(&["target/js/app.js", "target/deps/app.wasm"]);
    let run = plan_script_run(Triplet::WasmEmscripten, &a, &owned(&["--nocapture"])).unwrap();
    assert_eq!(run.working_dir, "target/deps");
    assert_eq!(run.args, owned(&["target/js/app.js", "--nocapture"]));
}

#[test]
fn other_targets_run_in_the_script_directory() {
    let a = owned(&["target/js/app.js", "target/deps/app.wasm"]);
    let run = plan_script_run(Triplet::AsmJsEmscripten, &a, &vec![]).unwrap();
    assert_eq!(run.working_dir, "target/js");
    assert_eq!(run.args, owned(&["target/js/app.js"]));
}

#[test]
fn missing_artifacts_are_reported() {
    match plan_script_run(Triplet::AsmJsEmscripten, &owned(&["a.wasm"]), &vec![]) {
        Err(Error::MissingArtifact(x)) => assert_eq!(x, "js"),
        other => panic!("unexpected {:?}", other),
    }
    match plan_script_run(Triplet::WasmEmscripten, &owned(&["d/a.js"]), &vec![]) {
        Err(Error::MissingArtifact(x)) => assert_eq!(x, "wasm"),
        other => panic!("unexpected {:?}", other),
    }
}

#[test]
fn emscripten_wasm_run_with_absolute_paths() {
    let a = owned(&["/w/t/a.js", "/w/t/wasm/a.wasm"]);
    let run = plan_script_run(Triplet::WasmEmscripten, &a, &owned(&["--nocapture"])).unwrap();
    assert_eq!(run.working_dir, "/w/t/wasm");
    assert_eq!(run.args, owned(&["/w/t/a.js", "--nocapture"]));
    let run = plan_script_run(Triplet::WasmEmscripten, &a, &vec![]).unwrap();
    assert_eq!(run.working_dir, "/w/t/wasm");
    assert_eq!(run.args, owned(&["/w/t/a.js"]));
}
