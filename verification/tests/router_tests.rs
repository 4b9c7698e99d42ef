use mqtt_core::router::{Publish, Route, Router, RouterService, SlotPoll};

// Handler factories and handler slots are opaque to the library; small
// integers stand in for both, so a route decision can be checked by the
// slot value it names.
fn compiled_service() -> RouterService<u32> {
    let router: Router<u32> = Router::new()
        .resource(b"sensors/+/temp", 1)
        .resource(b"alerts/#", 2)
        .default_resource(0);
    let factory = router.into_factory();
    let mut fut = factory.new_service();
    fut.default_ready::<u8>(Ok(0)).unwrap();
    fut.slots_ready::<u8>(vec![Ok(1), Ok(2)]).unwrap()
}

#[test]
fn scenario_two_routes_and_default() {
    let svc = compiled_service();

    let p1 = Publish::new(b"sensors/3/temp".to_vec(), b"21".to_vec());
    let r1 = svc.call(&p1);
    assert!(matches!(r1, Route::Matched(0)));
    assert_eq!(*svc.handler_for(r1), 1);

    let p2 = Publish::new(b"alerts/fire/now".to_vec(), Vec::new());
    let r2 = svc.call(&p2);
    assert!(matches!(r2, Route::Matched(1)));
    assert_eq!(*svc.handler_for(r2), 2);

    let p3 = Publish::new(b"other/topic".to_vec(), Vec::new());
    let r3 = svc.call(&p3);
    assert!(matches!(r3, Route::Fallback));
    assert_eq!(*svc.handler_for(r3), 0);
}

#[test]
fn exact_match_goes_to_its_handler() {
    let router: Router<u32> = Router::new().resource(b"a/b", 7).resource(b"a/+", 8);
    let mut fut = router.into_factory().new_service();
    fut.default_ready::<u8>(Ok(0)).unwrap();
    let svc = fut.slots_ready::<u8>(vec![Ok(7), Ok(8)]).unwrap();

    // The first registered match wins, even when a later pattern matches too.
    let r = svc.call(&Publish::new(b"a/b".to_vec(), Vec::new()));
    assert!(matches!(r, Route::Matched(0)));
    assert_eq!(*svc.handler_for(r), 7);

    let r = svc.call(&Publish::new(b"a/c".to_vec(), Vec::new()));
    assert!(matches!(r, Route::Matched(1)));
    assert_eq!(*svc.handler_for(r), 8);
}

#[test]
fn unmatched_publish_goes_to_default() {
    let svc = compiled_service();
    for topic in [&b"sensors/3/hum"[..], b"", b"sensor", b"alertsx"] {
        let r = svc.call(&Publish::new(topic.to_vec(), Vec::new()));
        assert!(matches!(r, Route::Fallback));
        assert_eq!(*svc.handler_for(r), 0);
    }
}

#[test]
fn topic_is_not_rewritten_by_dispatch() {
    let svc = compiled_service();
    let p = Publish::new(b"sensors/3/temp".to_vec(), Vec::new());
    svc.call(&p);
    assert_eq!(p.publish_topic(), &b"sensors/3/temp".to_vec());
}

#[test]
fn default_slot_failure_aborts_construction_with_its_error() {
    let router: Router<u32> = Router::new().resource(b"a", 1);
    let factory = router.into_factory();
    let mut fut = factory.new_service::<u32>();
    // The default's error wins even though a route slot also failed.
    assert_eq!(fut.default_ready::<u8>(Err(9)), Err(9));
}

#[test]
fn route_slot_failure_aborts_construction_with_first_error() {
    let router: Router<u32> = Router::new().resource(b"a", 1).resource(b"b", 2).resource(b"c", 3);
    let mut fut = router.into_factory().new_service();
    fut.default_ready::<u8>(Ok(0)).unwrap();
    let res = fut.slots_ready::<u8>(vec![Ok(1), Err(4), Err(5)]);
    assert_eq!(res.err(), Some(4));
}

#[test]
fn construction_succeeds_only_when_every_slot_did() {
    let router: Router<u32> = Router::new().resource(b"a", 1).resource(b"b", 2);
    let mut fut = router.into_factory().new_service();
    fut.default_ready::<u8>(Ok(10)).unwrap();
    let svc = fut.slots_ready::<u8>(vec![Ok(11), Ok(12)]).unwrap();
    assert_eq!(*svc.handler_for(Route::Matched(0)), 11);
    assert_eq!(*svc.handler_for(Route::Matched(1)), 12);
    assert_eq!(*svc.handler_for(Route::Fallback), 10);
}

#[test]
fn dispatch_invokes_the_matched_handler_exactly_once() {
    let svc = compiled_service();
    let count = std::cell::Cell::new(0);
    let seen = std::cell::Cell::new(0u32);
    let r: Result<(), u8> = svc.dispatch(Publish::new(b"alerts/fire".to_vec(), Vec::new()), |h, p| {
        count.set(count.get() + 1);
        seen.set(*h);
        assert_eq!(p.publish_topic(), &b"alerts/fire".to_vec());
        Err(42)
    });
    assert_eq!(r, Err(42));
    assert_eq!(count.get(), 1);
    assert_eq!(seen.get(), 2);
}

#[test]
fn dispatch_delivers_unmatched_publishes_to_the_default_slot() {
    let svc = compiled_service();
    let seen = std::cell::Cell::new(99u32);
    let r: Result<(), u8> = svc.dispatch(Publish::new(b"no/route".to_vec(), Vec::new()), |h, _p| {
        seen.set(*h);
        Ok(())
    });
    assert_eq!(r, Ok(()));
    assert_eq!(seen.get(), 0);
}

#[test]
fn readiness_is_ready_only_when_every_slot_is() {
    let svc = compiled_service();
    assert!(matches!(
        svc.poll_ready::<u8>(vec![SlotPoll::Ready, SlotPoll::Ready]),
        SlotPoll::Ready
    ));
    assert!(matches!(
        svc.poll_ready::<u8>(vec![SlotPoll::Pending, SlotPoll::Ready]),
        SlotPoll::Pending
    ));
    assert!(matches!(
        svc.poll_ready::<u8>(vec![SlotPoll::Ready, SlotPoll::Pending]),
        SlotPoll::Pending
    ));
    assert!(matches!(
        svc.poll_ready::<u8>(vec![SlotPoll::Pending, SlotPoll::Pending]),
        SlotPoll::Pending
    ));
}

#[test]
fn readiness_reports_the_first_slot_failure() {
    let svc = compiled_service();
    assert!(matches!(
        svc.poll_ready::<u8>(vec![SlotPoll::Pending, SlotPoll::Failed(3)]),
        SlotPoll::Failed(3)
    ));
    assert!(matches!(
        svc.poll_ready::<u8>(vec![SlotPoll::Failed(1), SlotPoll::Failed(2)]),
        SlotPoll::Failed(1)
    ));
}

#[test]
fn compiled_table_is_unaffected_by_later_configurations() {
    let svc_a = compiled_service();
    let svc_b = compiled_service();

    // A new configuration with an extra route compiles to its own table.
    let wider: Router<u32> = Router::new()
        .resource(b"sensors/+/temp", 1)
        .resource(b"alerts/#", 2)
        .resource(b"other/#", 3);
    let mut fut = wider.into_factory().new_service();
    fut.default_ready::<u8>(Ok(0)).unwrap();
    let svc_new = fut.slots_ready::<u8>(vec![Ok(1), Ok(2), Ok(3)]).unwrap();

    // Existing sessions still route by the table they were built with, and
    // route alike.
    let p = Publish::new(b"other/topic".to_vec(), Vec::new());
    assert!(matches!(svc_a.call(&p), Route::Fallback));
    assert!(matches!(svc_b.call(&p), Route::Fallback));
    assert!(matches!(svc_new.call(&p), Route::Matched(2)));
}

#[test]
fn empty_router_routes_everything_to_default() {
    let router: Router<u32> = Router::new();
    let mut fut = router.into_factory().new_service();
    fut.default_ready::<u8>(Ok(0)).unwrap();
    let svc = fut.slots_ready::<u8>(Vec::new()).unwrap();
    let r = svc.call(&Publish::new(b"any/topic".to_vec(), Vec::new()));
    assert!(matches!(r, Route::Fallback));
    assert!(matches!(svc.poll_ready::<u8>(Vec::new()), SlotPoll::Ready));
}
