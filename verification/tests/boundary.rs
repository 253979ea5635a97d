use pool_registry::error::{catch_err, ErrorCode, Failure, FailureKind, LastError};
use pool_registry::operation::{PendingOperation, Phase};
use pool_registry::pool::{
    indy_vdr_pool_close, indy_vdr_pool_create_from_genesis_file, indy_vdr_pool_get_transactions,
    indy_vdr_pool_submit_request,
};
use pool_registry::registry::RegistryError;
use pool_registry::reply::{request_reply, transactions_reply, RequestResult};
use pool_registry::table::HandleTable;
use std::cell::{Cell, RefCell};
use std::rc::Rc;

/// A callback that counts how often it runs and keeps what it was given.
#[derive(Clone, Default)]
struct Recorder {
    calls: Rc<RefCell<Vec<(ErrorCode, String)>>>,
}

impl Recorder {
    fn call(&self, code: ErrorCode, reply: String) {
        self.calls.borrow_mut().push((code, reply));
    }

    fn calls(&self) -> Vec<(ErrorCode, String)> {
        self.calls.borrow().clone()
    }
}

/// A pool that parks the operations it is asked to run.
#[derive(Default)]
struct Pool {
    name: &'static str,
    parked: RefCell<Vec<PendingOperation<Recorder>>>,
    sent: RefCell<Vec<String>>,
    refuse: bool,
}

impl Pool {
    fn named(name: &'static str) -> Pool {
        Pool { name, ..Pool::default() }
    }

    fn park(&self, op: PendingOperation<Recorder>) -> Result<(), Failure> {
        if self.refuse {
            return Err(Failure::with_text(FailureKind::Unavailable, "pool is shutting down"));
        }
        self.parked.borrow_mut().push(op);
        Ok(())
    }
}

fn lines(items: &[&str]) -> Vec<String> {
    items.iter().map(|item| item.to_string()).collect()
}

/// Ends a parked listing as the completion of the pool would.
fn finish_listing(
    mut op: PendingOperation<Recorder>,
    result: Result<Vec<String>, Failure>,
    slot: &mut LastError,
) {
    let (code, reply) = transactions_reply(result, slot);
    if let Some(invocation) = op.complete(code, reply) {
        invocation.callback.call(invocation.code, invocation.reply);
    }
    assert_eq!(op.current_phase(), Phase::CallbackFired);
}

#[test]
fn create_returns_a_fresh_nonzero_handle() {
    let mut pools: HandleTable<Pool> = HandleTable::new();
    let first = indy_vdr_pool_create_from_genesis_file(&mut pools, Ok(Pool::named("a")));
    let second = indy_vdr_pool_create_from_genesis_file(&mut pools, Ok(Pool::named("b")));
    assert_eq!(first, Ok(1));
    assert_eq!(second, Ok(2));
    assert_eq!(pools.lookup(1).unwrap().name, "a");
    assert_eq!(pools.lookup(2).unwrap().name, "b");
}

#[test]
fn create_passes_on_the_failure_to_open() {
    let mut pools: HandleTable<Pool> = HandleTable::new();
    let failure = Failure::with_text(FailureKind::Config, "genesis file is empty");
    let res = indy_vdr_pool_create_from_genesis_file(&mut pools, Err(failure.clone()));
    assert_eq!(res, Err(failure));
    assert!(pools.lookup(1).is_err());
    let mut slot = LastError::new();
    assert_eq!(catch_err(res.map(|_| ErrorCode::Success), &mut slot), ErrorCode::Config);
    assert_eq!(slot.get().unwrap().message(), "genesis file is empty");
}

#[test]
fn scenario_create_then_list_transactions() {
    let mut pools: HandleTable<Pool> = HandleTable::new();
    let mut slot = LastError::new();
    let recorder = Recorder::default();
    let h1 = indy_vdr_pool_create_from_genesis_file(&mut pools, Ok(Pool::named("main")))
        .unwrap();
    assert_ne!(h1, 0);

    let res = indy_vdr_pool_get_transactions(&pools, h1, Some(recorder.clone()), |pool, op| {
        pool.park(op)
    });
    assert_eq!(catch_err(res, &mut slot), ErrorCode::Success);
    // Accepted, not yet completed: the callback has not run.
    assert!(recorder.calls().is_empty());

    let op = pools.lookup(h1).unwrap().parked.borrow_mut().pop().unwrap();
    assert_eq!(op.current_phase(), Phase::Dispatched);
    finish_listing(op, Ok(lines(&["genesis 1", "genesis 2"])), &mut slot);
    assert_eq!(recorder.calls(), vec![(ErrorCode::Success, "genesis 1\ngenesis 2".to_string())]);
    assert!(!recorder.calls()[0].1.is_empty());
    assert_eq!(slot.get(), None);
}

#[test]
fn scenario_listing_that_the_pool_fails() {
    let mut pools: HandleTable<Pool> = HandleTable::new();
    let mut slot = LastError::new();
    let recorder = Recorder::default();
    let h1 = pools.create(Pool::named("main"));
    let res = indy_vdr_pool_get_transactions(&pools, h1, Some(recorder.clone()), |pool, op| {
        pool.park(op)
    });
    assert_eq!(res, Ok(ErrorCode::Success));
    let op = pools.lookup(h1).unwrap().parked.borrow_mut().pop().unwrap();
    finish_listing(op, Err(Failure::with_text(FailureKind::Timeout, "no reply")), &mut slot);
    assert_eq!(recorder.calls(), vec![(ErrorCode::Timeout, String::new())]);
    assert_eq!(slot.get().unwrap().kind(), FailureKind::Timeout);
}

#[test]
fn listing_without_callback_is_an_input_error() {
    let mut pools: HandleTable<Pool> = HandleTable::new();
    let h1 = pools.create(Pool::named("main"));
    let started = Cell::new(false);
    let res = indy_vdr_pool_get_transactions(&pools, h1, None::<Recorder>, |pool, op| {
        started.set(true);
        pool.park(op)
    });
    let failure = res.unwrap_err();
    assert_eq!(failure.kind(), FailureKind::Input);
    assert_eq!(failure.message(), "No callback provided");
    assert!(!started.get());
    let mut slot = LastError::new();
    assert_eq!(catch_err(Err(failure), &mut slot), ErrorCode::Input);
}

#[test]
fn listing_on_unknown_pool_is_refused() {
    let pools: HandleTable<Pool> = HandleTable::new();
    let recorder = Recorder::default();
    let started = Cell::new(false);
    let res = indy_vdr_pool_get_transactions(&pools, 1, Some(recorder.clone()), |pool, op| {
        started.set(true);
        pool.park(op)
    });
    let mut slot = LastError::new();
    assert_eq!(catch_err(res, &mut slot), ErrorCode::UnknownResource);
    assert!(!started.get());
    assert!(recorder.calls().is_empty());
    // The detail names what was unknown: the pool.
    let detail = slot.get().unwrap();
    assert_eq!(detail.kind(), FailureKind::UnknownResource);
    assert_eq!(detail.message(), "Unknown pool handle");
    assert!(detail.message().contains("pool"));
    assert!(!detail.message().contains("request"));
}

#[test]
fn missing_callback_is_reported_before_the_unknown_pool() {
    let pools: HandleTable<Pool> = HandleTable::new();
    let res = indy_vdr_pool_get_transactions(&pools, 9, None::<Recorder>, |pool, op| pool.park(op));
    assert_eq!(res.unwrap_err().kind(), FailureKind::Input);
}

#[test]
fn listing_that_cannot_be_started_fails_at_once() {
    let mut pools: HandleTable<Pool> = HandleTable::new();
    let h1 = pools.create(Pool { refuse: true, ..Pool::named("closing") });
    let recorder = Recorder::default();
    let res = indy_vdr_pool_get_transactions(&pools, h1, Some(recorder.clone()), |pool, op| {
        pool.park(op)
    });
    let mut slot = LastError::new();
    assert_eq!(catch_err(res, &mut slot), ErrorCode::Unavailable);
    assert_eq!(slot.get().unwrap().message(), "pool is shutting down");
    assert!(recorder.calls().is_empty());
}

#[test]
fn submit_sends_the_request_and_delivers_the_reply() {
    let mut pools: HandleTable<Pool> = HandleTable::new();
    let mut requests: HandleTable<String> = HandleTable::new();
    let mut slot = LastError::new();
    let recorder = Recorder::default();
    let pool_handle = pools.create(Pool::named("main"));
    let request_handle = requests.create("{\"op\":\"GET_TXN\"}".to_string());

    let res = indy_vdr_pool_submit_request(
        &pools,
        &mut requests,
        pool_handle,
        request_handle,
        Some(recorder.clone()),
        |pool, request, op| {
            pool.sent.borrow_mut().push(request);
            pool.park(op)
        },
    );
    assert_eq!(catch_err(res, &mut slot), ErrorCode::Success);
    let pool = pools.lookup(pool_handle).unwrap();
    assert_eq!(pool.sent.borrow().clone(), vec!["{\"op\":\"GET_TXN\"}".to_string()]);
    // The request left its table.
    assert_eq!(requests.lookup(request_handle), Err(RegistryError::UnknownHandle));

    let mut op = pool.parked.borrow_mut().pop().unwrap();
    let (code, reply) = request_reply(Ok(RequestResult::Reply("{\"result\":{}}".to_string())), &mut slot);
    let invocation = op.complete(code, reply).unwrap();
    invocation.callback.call(invocation.code, invocation.reply);
    assert_eq!(recorder.calls(), vec![(ErrorCode::Success, "{\"result\":{}}".to_string())]);
}

#[test]
fn scenario_request_submitted_twice() {
    let mut pools: HandleTable<Pool> = HandleTable::new();
    let mut requests: HandleTable<String> = HandleTable::new();
    let mut slot = LastError::new();
    let pool_handle = pools.create(Pool::named("main"));
    let request_handle = requests.create("request".to_string());

    let first = Recorder::default();
    let res = indy_vdr_pool_submit_request(
        &pools,
        &mut requests,
        pool_handle,
        request_handle,
        Some(first.clone()),
        |pool, request, op| {
            pool.sent.borrow_mut().push(request);
            pool.park(op)
        },
    );
    assert_eq!(catch_err(res, &mut slot), ErrorCode::Success);

    let second = Recorder::default();
    let sent_again = Cell::new(false);
    let res = indy_vdr_pool_submit_request(
        &pools,
        &mut requests,
        pool_handle,
        request_handle,
        Some(second.clone()),
        |pool, _request, op| {
            sent_again.set(true);
            pool.park(op)
        },
    );
    assert_eq!(catch_err(res, &mut slot), ErrorCode::UnknownRequest);
    assert!(!sent_again.get());
    assert!(second.calls().is_empty());
    let pool = pools.lookup(pool_handle).unwrap();
    assert_eq!(pool.sent.borrow().len(), 1);
    assert_eq!(pool.parked.borrow().len(), 1);
    let detail = slot.get().unwrap();
    assert_eq!(detail.kind(), FailureKind::UnknownRequest);
    assert_eq!(detail.message(), "Unknown request handle");
}

#[test]
fn submit_of_a_request_that_never_was_is_refused() {
    let mut pools: HandleTable<Pool> = HandleTable::new();
    let mut requests: HandleTable<String> = HandleTable::new();
    let pool_handle = pools.create(Pool::named("main"));
    let res = indy_vdr_pool_submit_request(
        &pools,
        &mut requests,
        pool_handle,
        1,
        Some(Recorder::default()),
        |pool, _request, op| pool.park(op),
    );
    assert_eq!(res.unwrap_err().kind(), FailureKind::UnknownRequest);
}

#[test]
fn submit_to_unknown_pool_keeps_the_request() {
    let pools: HandleTable<Pool> = HandleTable::new();
    let mut requests: HandleTable<String> = HandleTable::new();
    let request_handle = requests.create("request".to_string());
    let res = indy_vdr_pool_submit_request(
        &pools,
        &mut requests,
        3,
        request_handle,
        Some(Recorder::default()),
        |pool, _request, op| pool.park(op),
    );
    let failure = res.unwrap_err();
    assert_eq!(failure.kind(), FailureKind::UnknownResource);
    assert_eq!(failure.message(), "Unknown pool handle");
    assert_eq!(requests.lookup(request_handle), Ok(&"request".to_string()));
}

#[test]
fn submit_without_callback_keeps_the_request() {
    let mut pools: HandleTable<Pool> = HandleTable::new();
    let mut requests: HandleTable<String> = HandleTable::new();
    let pool_handle = pools.create(Pool::named("main"));
    let request_handle = requests.create("request".to_string());
    let res = indy_vdr_pool_submit_request(
        &pools,
        &mut requests,
        pool_handle,
        request_handle,
        None::<Recorder>,
        |pool, _request, op| pool.park(op),
    );
    let failure = res.unwrap_err();
    assert_eq!(failure.kind(), FailureKind::Input);
    assert_eq!(failure.message(), "No callback provided");
    assert_eq!(requests.lookup(request_handle), Ok(&"request".to_string()));
}

#[test]
fn submit_that_cannot_be_sent_still_consumes_the_request() {
    let mut pools: HandleTable<Pool> = HandleTable::new();
    let mut requests: HandleTable<String> = HandleTable::new();
    let pool_handle = pools.create(Pool { refuse: true, ..Pool::named("closing") });
    let request_handle = requests.create("request".to_string());
    let recorder = Recorder::default();
    let res = indy_vdr_pool_submit_request(
        &pools,
        &mut requests,
        pool_handle,
        request_handle,
        Some(recorder.clone()),
        |pool, _request, op| pool.park(op),
    );
    assert_eq!(res.unwrap_err().kind(), FailureKind::Unavailable);
    assert_eq!(requests.lookup(request_handle), Err(RegistryError::UnknownHandle));
    assert!(recorder.calls().is_empty());
}

#[test]
fn close_removes_the_pool() {
    let mut pools: HandleTable<Pool> = HandleTable::new();
    let handle = pools.create(Pool::named("main"));
    assert_eq!(indy_vdr_pool_close(&mut pools, handle), Ok(ErrorCode::Success));
    assert!(pools.lookup(handle).is_err());
}

#[test]
fn close_of_unknown_pool_is_refused_and_changes_nothing() {
    let mut pools: HandleTable<Pool> = HandleTable::new();
    let handle = pools.create(Pool::named("main"));
    let res = indy_vdr_pool_close(&mut pools, handle + 1);
    let mut slot = LastError::new();
    assert_eq!(catch_err(res, &mut slot), ErrorCode::UnknownResource);
    assert_eq!(slot.get().unwrap().message(), "Unknown pool handle");
    assert_eq!(pools.lookup(handle).unwrap().name, "main");
}

#[test]
fn close_twice_fails_the_second_time() {
    let mut pools: HandleTable<Pool> = HandleTable::new();
    let handle = pools.create(Pool::named("main"));
    assert_eq!(indy_vdr_pool_close(&mut pools, handle), Ok(ErrorCode::Success));
    assert_eq!(
        indy_vdr_pool_close(&mut pools, handle).unwrap_err().kind(),
        FailureKind::UnknownResource
    );
}

#[test]
fn scenario_close_then_list_transactions() {
    let mut pools: HandleTable<Pool> = HandleTable::new();
    let mut slot = LastError::new();
    let h1 = pools.create(Pool::named("main"));
    assert_eq!(catch_err(indy_vdr_pool_close(&mut pools, h1), &mut slot), ErrorCode::Success);
    let recorder = Recorder::default();
    let started = Cell::new(false);
    let res = indy_vdr_pool_get_transactions(&pools, h1, Some(recorder.clone()), |pool, op| {
        started.set(true);
        pool.park(op)
    });
    assert_eq!(catch_err(res, &mut slot), ErrorCode::UnknownResource);
    assert!(!started.get());
    assert!(recorder.calls().is_empty());
}

#[test]
fn scenario_close_while_a_listing_is_in_flight() {
    let mut pools: HandleTable<Rc<Pool>> = HandleTable::new();
    let mut slot = LastError::new();
    let recorder = Recorder::default();
    let pool = Rc::new(Pool::named("main"));
    let h1 = pools.create(pool.clone());
    let res = indy_vdr_pool_get_transactions(&pools, h1, Some(recorder.clone()), |pool, op| {
        pool.park(op)
    });
    assert_eq!(res, Ok(ErrorCode::Success));
    let op = pool.parked.borrow_mut().pop().unwrap();

    // The pool leaves the table before the operation completes.
    assert_eq!(indy_vdr_pool_close(&mut pools, h1), Ok(ErrorCode::Success));
    assert!(pools.lookup(h1).is_err());
    assert_eq!(op.current_phase(), Phase::Dispatched);
    assert!(recorder.calls().is_empty());

    finish_listing(op, Ok(lines(&["t1"])), &mut slot);
    assert_eq!(recorder.calls(), vec![(ErrorCode::Success, "t1".to_string())]);
}

#[test]
fn handles_of_closed_pools_are_not_reused() {
    let mut pools: HandleTable<Pool> = HandleTable::new();
    let h1 = indy_vdr_pool_create_from_genesis_file(&mut pools, Ok(Pool::named("a")))
        .unwrap();
    indy_vdr_pool_close(&mut pools, h1).unwrap();
    let h2 = indy_vdr_pool_create_from_genesis_file(&mut pools, Ok(Pool::named("b")))
        .unwrap();
    assert_ne!(h1, h2);
    assert!(pools.lookup(h1).is_err());
    assert_eq!(pools.lookup(h2).unwrap().name, "b");
}
