use backend_supervisor::store::BackendProcess;
use backend_supervisor::store::ProcessHandle;

#[test]
fn empty_store_observes_no_process() {
    let mut store = BackendProcess::empty();
    assert_eq!(store.pid(), None);
    assert_eq!(store.inspect(), None);
}

#[test]
fn installed_handle_is_observed_with_its_identifier() {
    let mut store = BackendProcess::empty();
    store.install(ProcessHandle { pid: 1234 });
    assert_eq!(store.pid(), Some(1234));
    assert_eq!(store.inspect(), Some(1234));
}

#[test]
fn install_overwrites_previous_handle() {
    let mut store = BackendProcess::empty();
    store.install(ProcessHandle { pid: 1 });
    store.install(ProcessHandle { pid: 2 });
    assert_eq!(store.inspect(), Some(2));
}

#[test]
fn lock_accessors_see_whole_slot_values_in_either_order() {
    // A setup-path access and a lifecycle-event-path access, serialized by
    // the exclusive-access accessor: each observation is the entire slot,
    // fully "no process" or fully one handle, never an intermediate.
    let mut store = BackendProcess::empty();

    let before: Option<u32> = store.with_lock(|slot| {
        let seen = match slot {
            Some(handle) => Some(handle.pid),
            None => None,
        };
        (slot, seen)
    });
    assert_eq!(before, None);

    let installed: Option<u32> = store.with_lock(|_slot| {
        let handle = ProcessHandle { pid: 77 };
        (Some(handle), Some(handle.pid))
    });
    assert_eq!(installed, Some(77));

    let after: Option<u32> = store.with_lock(|slot| {
        let seen = match slot {
            Some(handle) => Some(handle.pid),
            None => None,
        };
        (slot, seen)
    });
    assert_eq!(after, Some(77));
}
