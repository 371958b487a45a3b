use backend_launcher::environment::{filter_search_path, keep_segment, sanitize_environment};
use backend_launcher::errors::BackendError;
use backend_launcher::paths::{candidate_directories, entry_path_in, join_path, resolve, BackendLocation};
use backend_launcher::runtime::{creation_plan, needs_creation, select_runtime};
use backend_launcher::supervisor::{Phase, Step, Supervisor, MAX_ATTEMPTS};

fn strings(v: &[&str]) -> Vec<String> {
    v.iter().map(|s| s.to_string()).collect()
}

fn location(entry: &str, dir: &str) -> BackendLocation {
    BackendLocation { entry_path: entry.to_string(), working_directory: dir.to_string() }
}

/// Drives the supervisor with `responses` and returns the final step, the
/// number of one-second waits asked for, and the progress notices.
fn drive(sup: &mut Supervisor, responses: &[bool]) -> (Step, usize, usize) {
    let mut step = sup.spawn_result(true);
    let mut waits = 0;
    let mut notices = 0;
    let mut next = 0;
    while let Step::WaitThenProbe { report_progress } = step {
        if report_progress {
            notices += 1;
        }
        waits += 1;
        let responded = responses.get(next).copied().unwrap_or(false);
        next += 1;
        step = sup.probe_result(responded);
    }
    (step, waits, notices)
}

#[test]
fn resource_root_copy_wins_over_working_directory() {
    let dirs = candidate_directories("/res", "/work");
    let r = resolve(&dirs, &vec![true, false, true]).unwrap();
    assert_eq!(r.entry_path, "/res/app.py");
    assert_eq!(r.working_directory, "/res");
}

#[test]
fn packaged_subdirectory_is_second() {
    let dirs = candidate_directories("/res", "/work");
    assert_eq!(dirs, strings(&["/res", "/res/_up_", "/work"]));
    let r = resolve(&dirs, &vec![false, true, true]).unwrap();
    assert_eq!(r.entry_path, "/res/_up_/app.py");
    assert_eq!(r.working_directory, "/res/_up_");
}

#[test]
fn no_candidate_is_not_found() {
    let dirs = candidate_directories("/res", "/work");
    assert!(matches!(resolve(&dirs, &vec![false, false, false]), Err(BackendError::NotFound)));
    assert!(matches!(resolve(&Vec::new(), &Vec::new()), Err(BackendError::NotFound)));
}

#[test]
fn path_joining() {
    assert_eq!(join_path("/a/b", "c"), "/a/b/c");
    assert_eq!(entry_path_in("/srv"), "/srv/app.py");
}

#[test]
fn search_path_keeps_system_entries_only() {
    assert_eq!(filter_search_path("/opt/ros/lib:/tmp/.mount_Abc123/usr/lib:/opt/other"), "/opt/ros/lib:/opt/other");
}

#[test]
fn search_path_edge_cases() {
    assert_eq!(filter_search_path(""), "");
    assert_eq!(filter_search_path("/home/me/lib"), "");
    assert_eq!(filter_search_path("/home/me/lib:/usr/lib/python3/dist-packages"), "/usr/lib/python3/dist-packages");
    assert_eq!(filter_search_path("/usr/a::/usr/b"), "/usr/a:/usr/b");
    assert!(keep_segment("/home/me/ros_ws/install"));
    assert!(!keep_segment("/tmp/.mount_x/opt/ros"));
}

#[test]
fn environment_drops_home_and_filters_path() {
    let env = vec![
        ("HOME".to_string(), "/home/me".to_string()),
        ("PYTHONHOME".to_string(), "/tmp/.mount_Abc123/usr".to_string()),
        ("PYTHONPATH".to_string(), "/opt/ros/lib:/tmp/.mount_Abc123/usr/lib:/opt/other".to_string()),
    ];
    let out = sanitize_environment(&env);
    assert_eq!(
        out,
        vec![
            ("HOME".to_string(), "/home/me".to_string()),
            ("PYTHONPATH".to_string(), "/opt/ros/lib:/opt/other".to_string()),
        ]
    );
    assert!(out.iter().all(|(k, _)| k != "PYTHONHOME"));
}

#[test]
fn environment_without_search_path_passes_through() {
    let env = vec![("PATH".to_string(), "/usr/bin".to_string()), ("LANG".to_string(), "C".to_string())];
    assert_eq!(sanitize_environment(&env), env);
    assert!(sanitize_environment(&Vec::new()).is_empty());
}

#[test]
fn bare_interpreter_without_runner() {
    let plan = select_runtime(&location("/res/app.py", "/res"), false, "/tmp");
    assert_eq!(plan.executable, "python3");
    assert_eq!(plan.arguments, strings(&["/res/app.py"]));
    assert_eq!(plan.isolated_environment, None);
    assert!(!needs_creation(&plan, false));
}

#[test]
fn isolated_runner_when_available() {
    let plan = select_runtime(&location("/res/app.py", "/res"), true, "/tmp");
    assert_eq!(plan.executable, "uv");
    assert_eq!(plan.arguments, strings(&["run", "--python", "python3", "/res/app.py"]));
    assert_eq!(plan.isolated_environment, Some("/tmp/backend-venv".to_string()));
    assert!(needs_creation(&plan, false));
    assert!(!needs_creation(&plan, true));
    let create = creation_plan("/tmp/backend-venv");
    assert_eq!(create.executable, "uv");
    assert_eq!(create.arguments, strings(&["venv", "--system-site-packages", "/tmp/backend-venv"]));
}

#[test]
fn ready_on_seventh_probe_after_seven_waits() {
    let mut sup = Supervisor::new();
    let mut responses = vec![false; 6];
    responses.push(true);
    let (step, waits, notices) = drive(&mut sup, &responses);
    assert_eq!(step, Step::Ready);
    assert_eq!(waits, 7);
    assert_eq!(notices, 2);
    assert_eq!(sup.phase, Phase::Ready);
    assert_eq!(sup.attempts, 7);
}

#[test]
fn silent_backend_times_out_and_keeps_running() {
    let mut sup = Supervisor::new();
    let (step, waits, notices) = drive(&mut sup, &[]);
    assert_eq!(step, Step::Failed { error: BackendError::ReadinessTimeout });
    assert_eq!(waits, 30);
    assert_eq!(notices, 6);
    assert_eq!(sup.attempts, MAX_ATTEMPTS);
    assert_eq!(sup.phase, Phase::TimedOut);
    assert!(sup.has_running_process());
    assert!(sup.stop());
}

#[test]
fn spawn_failure_is_reported() {
    let mut sup = Supervisor::new();
    assert_eq!(sup.spawn_result(false), Step::Failed { error: BackendError::SpawnError });
    assert_eq!(sup.phase, Phase::SpawnFailed);
    assert!(!sup.has_running_process());
    assert!(!sup.stop());
    assert_eq!(sup.probe_result(true), Step::Idle);
}

#[test]
fn stop_twice_kills_once() {
    let mut sup = Supervisor::new();
    let (step, _, _) = drive(&mut sup, &[true]);
    assert_eq!(step, Step::Ready);
    assert!(sup.stop());
    assert_eq!(sup.phase, Phase::Terminated);
    assert!(!sup.stop());
    assert_eq!(sup.phase, Phase::Terminated);
    let mut idle = Supervisor::new();
    assert!(!idle.stop());
    assert_eq!(idle.phase, Phase::Unstarted);
}

#[test]
fn start_from_working_directory_on_first_probe() {
    let dirs = candidate_directories("/res", "/work");
    let loc = resolve(&dirs, &vec![false, false, true]).unwrap();
    assert_eq!(loc.entry_path, "/work/app.py");
    assert_eq!(loc.working_directory, "/work");
    let mut sup = Supervisor::new();
    let (step, waits, _) = drive(&mut sup, &[true]);
    assert_eq!(step, Step::Ready);
    assert_eq!(waits, 1);
    assert_eq!(backend_launcher::supervisor::backend_address(), "http://localhost:8000");
}
