use backend_supervisor::interpreter::select_interpreter;
use backend_supervisor::interpreter::venv_interpreter_path;
use backend_supervisor::paths::candidate_paths;
use backend_supervisor::paths::join_path;
use backend_supervisor::paths::select_backend_root;
use backend_supervisor::plan::plan_launch;
use backend_supervisor::platform::Platform;

#[test]
fn join_path_inserts_separator() {
    assert_eq!(join_path("a", "b"), "a/b");
    assert_eq!(join_path("/app", "backend"), "/app/backend");
}

#[test]
fn candidate_order_linux() {
    let cands = candidate_paths(Platform::Linux, "/app", "/cwd");
    assert_eq!(
        cands,
        vec![
            "/app/backend".to_string(),
            "/app/_up_/_up_/backend".to_string(),
            "/cwd/../../backend".to_string(),
            "/usr/lib/Verba/backend".to_string(),
            "/usr/lib/Verba/_up_/_up_/backend".to_string(),
        ]
    );
}

#[test]
fn candidate_order_windows_and_macos() {
    for p in [Platform::Windows, Platform::MacOs] {
        let cands = candidate_paths(p, "/app", "/cwd");
        assert_eq!(
            cands,
            vec![
                "/app/backend".to_string(),
                "/app/_up_/_up_/backend".to_string(),
                "/cwd/../../backend".to_string(),
            ]
        );
    }
}

#[test]
fn no_candidate_exists_returns_last() {
    for p in [Platform::Windows, Platform::MacOs, Platform::Linux] {
        let cands = candidate_paths(p, "/app", "/cwd");
        let fs: Vec<String> = vec![];
        let r = select_backend_root(&cands, &fs);
        assert!(!r.found);
        assert_eq!(&r.path, cands.last().unwrap());
    }
}

#[test]
fn first_existing_candidate_wins() {
    let cands = candidate_paths(Platform::Linux, "/app", "/cwd");
    let fs = vec![
        "/cwd/../../backend".to_string(),
        "/usr/lib/Verba/backend".to_string(),
    ];
    let r = select_backend_root(&cands, &fs);
    assert!(r.found);
    assert_eq!(r.path, "/cwd/../../backend");
}

#[test]
fn primary_candidate_wins_when_present() {
    let cands = candidate_paths(Platform::MacOs, "/app", "/cwd");
    let fs = vec!["/app/backend".to_string(), "/app/_up_/_up_/backend".to_string()];
    let r = select_backend_root(&cands, &fs);
    assert!(r.found);
    assert_eq!(r.path, "/app/backend");
}

#[test]
fn bundled_interpreter_preferred_on_every_platform() {
    assert_eq!(
        select_interpreter(Platform::Windows, "/r", true),
        "/r/venv/Scripts/python.exe"
    );
    assert_eq!(select_interpreter(Platform::MacOs, "/r", true), "/r/venv/bin/python3");
    assert_eq!(select_interpreter(Platform::Linux, "/r", true), "/r/venv/bin/python3");
}

#[test]
fn system_interpreter_when_no_bundled_runtime() {
    assert_eq!(select_interpreter(Platform::Windows, "/r", false), "python");
    assert_eq!(select_interpreter(Platform::MacOs, "/r", false), "python3");
    assert_eq!(select_interpreter(Platform::Linux, "/r", false), "python3");
}

#[test]
fn venv_interpreter_path_is_under_root() {
    assert_eq!(
        venv_interpreter_path(Platform::Windows, "/app/backend"),
        "/app/backend/venv/Scripts/python.exe"
    );
    assert_eq!(
        venv_interpreter_path(Platform::Linux, "/app/backend"),
        "/app/backend/venv/bin/python3"
    );
}

#[test]
fn scenario_backend_with_bundled_venv() {
    let fs = vec![
        "/app/backend".to_string(),
        "/app/backend/venv/bin/python3".to_string(),
    ];
    let plan = plan_launch(Platform::Linux, "/app", "/cwd", &fs);
    assert!(plan.root_found);
    assert_eq!(plan.backend_root, "/app/backend");
    assert_eq!(plan.interpreter, "/app/backend/venv/bin/python3");
    assert_eq!(plan.entry_point, "/app/backend/app.py");
}

#[test]
fn scenario_nested_fallback_root() {
    let fs = vec!["/app/_up_/_up_/backend".to_string()];
    let plan = plan_launch(Platform::Linux, "/app", "/cwd", &fs);
    assert!(plan.root_found);
    assert_eq!(plan.backend_root, "/app/_up_/_up_/backend");
    assert_eq!(plan.interpreter, "python3");
    assert_eq!(plan.entry_point, "/app/_up_/_up_/backend/app.py");
}

#[test]
fn scenario_nothing_found_still_plans() {
    let fs: Vec<String> = vec![];
    let plan = plan_launch(Platform::MacOs, "/app", "/cwd", &fs);
    assert!(!plan.root_found);
    assert_eq!(plan.backend_root, "/cwd/../../backend");
    assert_eq!(plan.interpreter, "python3");
    assert_eq!(plan.entry_point, "/cwd/../../backend/app.py");
}
