use rknn_rs::output::{OutputBatch, OutputFetch, OutputRequest, RawOutput};

fn filled_slot(index: u32, buf: usize, size: u32) -> RawOutput {
    RawOutput { want_float: true, is_prealloc: false, index, buf, size }
}

fn ready(fetch: OutputFetch) -> OutputBatch {
    match fetch {
        OutputFetch::Ready(b) => b,
        other => panic!("expected a ready batch, got {:?}", other),
    }
}

#[test]
fn index_past_outputs_is_refused_before_any_call() {
    let r = OutputRequest::new(11, 2, 5, true);
    let e = r.expect_err("index 5 of 2 outputs must be refused");
    assert_eq!(e.0, "output index 5 out of range (model has 2 outputs)");
}

#[test]
fn index_equal_to_output_count_is_refused() {
    let e = OutputRequest::new(11, 3, 3, false).unwrap_err();
    assert_eq!(e.0, "output index 3 out of range (model has 3 outputs)");
    let e = OutputRequest::new(11, 0, 0, false).unwrap_err();
    assert_eq!(e.0, "output index 0 out of range (model has 0 outputs)");
}

#[test]
fn request_names_every_slot_zeroed() {
    let req = OutputRequest::new(11, 3, 1, true).unwrap();
    assert_eq!(req.context(), 11);
    assert_eq!(req.index(), 1);
    let slots = req.slots();
    assert_eq!(slots.len(), 3);
    for (i, s) in slots.iter().enumerate() {
        assert_eq!(*s, RawOutput { want_float: true, is_prealloc: false, index: i as u32, buf: 0, size: 0 });
    }
    let req = OutputRequest::new(11, 2, 0, false).unwrap();
    assert!(req.slots().iter().all(|s| !s.want_float && !s.is_prealloc));
}

#[test]
fn second_of_two_outputs_as_floats() {
    let req = OutputRequest::new(42, 2, 1, true).unwrap();
    let filled = vec![filled_slot(0, 0, 0), filled_slot(1, 0x1000, 40)];
    let mut batch = ready(req.settle(0, filled.clone(), 4));
    assert_eq!(batch.context(), 42);
    assert_eq!(batch.index(), 1);
    assert_eq!(batch.addr(), 0x1000);
    assert_eq!(batch.len(), 10);
    assert_eq!(batch.slot_count(), 2);
    let released = batch.release().expect("first release hands back the batch");
    assert_eq!(released, filled);
    assert_eq!(batch.slot_count(), 0);
    assert!(batch.release().is_none());
    assert!(batch.release().is_none());
}

#[test]
fn element_count_truncates() {
    let req = OutputRequest::new(1, 1, 0, false).unwrap();
    let batch = ready(req.settle(0, vec![filled_slot(0, 0x2000, 10)], 4));
    assert_eq!(batch.len(), 2);
    let req = OutputRequest::new(1, 1, 0, false).unwrap();
    let batch = ready(req.settle(0, vec![filled_slot(0, 0x2000, 3)], 1));
    assert_eq!(batch.len(), 3);
}

#[test]
fn failed_acquisition_releases_nothing() {
    let req = OutputRequest::new(1, 2, 0, true).unwrap();
    match req.settle(-5, vec![filled_slot(0, 0x10, 4), filled_slot(1, 0x20, 4)], 4) {
        OutputFetch::Failed(e) => assert_eq!(e.0, "rknn_outputs_get failed. exit code:-5"),
        other => panic!("unexpected {:?}", other),
    }
}

#[test]
fn null_requested_slot_releases_whole_batch() {
    let req = OutputRequest::new(1, 3, 2, true).unwrap();
    let filled = vec![filled_slot(0, 0x10, 4), filled_slot(1, 0x20, 4), filled_slot(2, 0, 0)];
    match req.settle(0, filled.clone(), 4) {
        OutputFetch::ReleaseThenFail(rel, e) => {
            assert_eq!(rel, filled);
            assert_eq!(e.0, "rknn_outputs_get returned null buffer for output index 2");
        }
        other => panic!("unexpected {:?}", other),
    }
}
