use backend_supervisor::launcher::launch_result;
use backend_supervisor::launcher::LaunchError;
use backend_supervisor::lifecycle::window_step;
use backend_supervisor::lifecycle::LifecycleEvent;
use backend_supervisor::lifecycle::WindowState;
use backend_supervisor::store::BackendProcess;
use backend_supervisor::store::ProcessHandle;
use backend_supervisor::supervisor::prepare_launch;
use backend_supervisor::supervisor::record_launch;
use backend_supervisor::supervisor::SetupError;
use backend_supervisor::supervisor::SetupReport;

#[test]
fn missing_resource_path_aborts_setup() {
    let r = prepare_launch(None, true);
    match r {
        Ok(_) => panic!("setup must abort without a resource path"),
        Err(e) => assert_eq!(e, SetupError::ResourceResolution),
    }
}

#[test]
fn resolved_resource_path_yields_a_plan() {
    let r = prepare_launch(Some(String::from("/resources/movie_api.py")), true);
    match r {
        Ok(plan) => {
            assert_eq!(plan.program, "python3");
            assert_eq!(plan.script_path, "/resources/movie_api.py");
        }
        Err(_) => panic!("setup must not abort once the path is resolved"),
    }
}

#[test]
fn successful_launch_installs_exactly_the_spawned_handle() {
    let mut store = BackendProcess::empty();
    let report = record_launch(&mut store, Ok(ProcessHandle { pid: 4021 }));
    assert_eq!(report, SetupReport::Started { pid: 4021 });
    assert_eq!(store.inspect(), Some(4021));
}

#[test]
fn failed_launch_leaves_no_process_and_setup_continues() {
    let mut store = BackendProcess::empty();
    let report = record_launch(
        &mut store,
        Err(LaunchError {
            cause: String::from("No such file or directory"),
        }),
    );
    // The call returned normally: a missing backend never fails the setup
    // path, it only leaves a diagnostic record and an empty slot.
    assert_eq!(
        report,
        SetupReport::NoBackend {
            cause: String::from("No such file or directory"),
        }
    );
    assert_eq!(store.inspect(), None);
}

#[test]
fn probe_failure_falls_back_then_failed_spawn_leaves_slot_empty() {
    // The probe of "python3 --version" fails on this simulated host, the
    // resolver falls back to "python", the launcher issues
    // "python /resources/movie_api.py", that spawn fails too: the slot
    // stays empty, a diagnostic is emitted, and the application goes on
    // to its window lifecycle.
    let plan = match prepare_launch(Some(String::from("/resources/movie_api.py")), false) {
        Ok(plan) => plan,
        Err(_) => panic!("setup must not abort once the path is resolved"),
    };
    assert_eq!(plan.program, "python");
    assert_eq!(plan.script_path, "/resources/movie_api.py");

    let result = launch_result(Err(String::from("No such file or directory")));
    let mut store = BackendProcess::empty();
    let report = record_launch(&mut store, result);
    assert!(matches!(report, SetupReport::NoBackend { .. }));
    assert_eq!(store.inspect(), None);

    let state = window_step(WindowState::Alive, LifecycleEvent::WindowDestroyed);
    assert_eq!(state, WindowState::Destroyed);
    assert_eq!(store.inspect(), None);
}
