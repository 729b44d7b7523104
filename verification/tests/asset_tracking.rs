use gs_rendering::asset_tracking::ResourceHandles;

#[test]
fn test_resource_handles_initial_state() {
    let handles = ResourceHandles::default();
    assert!(handles.is_all_done());
    assert!(handles.waiting_len() == 0);
    assert!(handles.finished_len() == 0);
}

#[test]
fn test_resource_handles_waiting() {
    let mut handles = ResourceHandles::default();
    // With the queue tracking plain handle identifiers, a pending entry
    // needs no engine infrastructure.
    handles.register(1);
    assert!(!handles.is_all_done());
    assert!(handles.waiting_len() == 1);
    assert!(handles.finished_len() == 0);
}

#[test]
fn polling_pass_moves_all_loaded_entries() {
    let mut handles = ResourceHandles::default();
    handles.register(10);
    handles.register(11);
    handles.register(12);
    assert!(!handles.is_all_done());
    let flags = vec![true, true, true];
    handles.process_frame(&flags);
    assert!(handles.is_all_done());
    assert!(handles.waiting_len() == 0);
    assert!(handles.finished_len() == 3);
}

#[test]
fn polling_pass_keeps_unready_entries_in_order() {
    let mut handles = ResourceHandles::default();
    handles.register(20);
    handles.register(21);
    handles.register(22);
    let flags = vec![false, true, false];
    handles.process_frame(&flags);
    assert!(!handles.is_all_done());
    assert!(handles.waiting_len() == 2);
    assert!(handles.finished_len() == 1);
    // The entry that finished is gone for good; the two unready ones
    // are revisited by the next pass and move over once they load.
    let flags = vec![true, true];
    handles.process_frame(&flags);
    assert!(handles.is_all_done());
    assert!(handles.waiting_len() == 0);
    assert!(handles.finished_len() == 3);
}

#[test]
fn polling_pass_on_empty_queue_stays_done() {
    let mut handles = ResourceHandles::default();
    assert!(handles.is_all_done());
    let flags: Vec<bool> = Vec::new();
    handles.process_frame(&flags);
    assert!(handles.is_all_done());
    assert!(handles.finished_len() == 0);
}
