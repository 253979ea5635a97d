//! The operations that cross the boundary: create a pool, list its
//! transactions, submit a request to it, close it.
//!
//! Each takes the tables it works on and answers with `Ok` or with the
//! failure that refuses the call; `catch_err` turns that answer into the
//! boundary code. The work of the pool itself is the caller's: it is handed
//! in as the result of opening a pool, or as the function that starts the
//! asynchronous operation on the pool that was looked up.
use crate::error::{ErrorCode, Failure, FailureKind, FailureView};
use crate::operation::PendingOperation;
use crate::table::{
    lemma_removed_handle_stays_dead, table_inv, table_run, table_step, HandleTable, TableOp,
    TableState,
};
use vstd::prelude::*;

verus! {

/// The refusal of a call that lacks its completion callback.
pub open spec fn missing_callback() -> FailureView {
    FailureView { kind: FailureKind::Input, message: "No callback provided"@ }
}

/// The refusal of a pool handle that names no live pool.
pub open spec fn unknown_pool() -> FailureView {
    FailureView { kind: FailureKind::UnknownResource, message: "Unknown pool handle"@ }
}

/// The refusal of a request handle that names no pending request.
pub open spec fn unknown_request() -> FailureView {
    FailureView { kind: FailureKind::UnknownRequest, message: "Unknown request handle"@ }
}

/// Why a transaction listing is refused before anything is started; `None`
/// where it is admitted. The callback is looked at first, then the pool.
pub open spec fn listing_refusal(pools: Set<usize>, pool_handle: usize, has_callback: bool)
    -> Option<FailureView> {
    if !has_callback {
        Some(missing_callback())
    } else if !pools.contains(pool_handle) {
        Some(unknown_pool())
    } else {
        None
    }
}

/// Why a submission is refused before anything is sent; `None` where it is
/// admitted. The callback is looked at first, then the pool, then the
/// request.
pub open spec fn submit_refusal(
    pools: Set<usize>,
    requests: Set<usize>,
    pool_handle: usize,
    request_handle: usize,
    has_callback: bool,
) -> Option<FailureView> {
    if !has_callback {
        Some(missing_callback())
    } else if !pools.contains(pool_handle) {
        Some(unknown_pool())
    } else if !requests.contains(request_handle) {
        Some(unknown_request())
    } else {
        None
    }
}

/// What the call answers once the pool was asked to start the operation.
pub open spec fn dispatch_outcome(started: Result<(), Failure>) -> Result<ErrorCode, Failure> {
    match started {
        Ok(_) => Ok(ErrorCode::Success),
        Err(failure) => Err(failure),
    }
}

/// Registers a pool that was opened from its genesis file and answers with
/// its handle, which is fresh and not zero. Where opening the pool failed,
/// that failure is the answer and the table stays as it was.
pub fn indy_vdr_pool_create_from_genesis_file<R>(
    pools: &mut HandleTable<R>,
    opened: Result<R, Failure>,
) -> (res: Result<usize, Failure>)
    requires
        old(pools).issued() < usize::MAX,
    ensures
        match opened {
            Ok(pool) => {
                &&& res matches Ok(handle)
                &&& handle == old(pools).issued() + 1
                &&& !old(pools).live().contains_key(handle)
                &&& final(pools).issued() == handle
                &&& final(pools).live() == old(pools).live().insert(handle, pool)
                &&& final(pools).state() == table_step(old(pools).state(), TableOp::Create)
            },
            Err(failure) => {
                &&& res == Err::<usize, Failure>(failure)
                &&& final(pools).live() == old(pools).live()
                &&& final(pools).issued() == old(pools).issued()
            },
        },
{
    match opened {
        Ok(pool) => Ok(pools.create(pool)),
        Err(failure) => Err(failure),
    }
}

/// Starts a transaction listing on the pool under `pool_handle`. Refused
/// without a callback or with an unknown handle, and then `start` is not
/// called. Otherwise `start` is called once, with the pool and the pending
/// operation that owns the callback, and its answer decides.
pub fn indy_vdr_pool_get_transactions<R, C, F>(
    pools: &HandleTable<R>,
    pool_handle: usize,
    cb: Option<C>,
    start: F,
) -> (res: Result<ErrorCode, Failure>) where F: FnOnce(&R, PendingOperation<C>) -> Result<(), Failure>
    requires
        listing_refusal(pools.live().dom(), pool_handle, cb is Some) is None ==> call_requires(
            start,
            (&pools.live()[pool_handle], PendingOperation::dispatched(cb->0)),
        ),
    ensures
        match listing_refusal(pools.live().dom(), pool_handle, cb is Some) {
            Some(refusal) => res matches Err(failure) && failure@ == refusal,
            None => exists|started: Result<(), Failure>|
                call_ensures(
                    start,
                    (&pools.live()[pool_handle], PendingOperation::dispatched(cb->0)),
                    started,
                ) && res == dispatch_outcome(started),
        },
{
    let cb = match cb {
        Some(cb) => cb,
        None => {
            return Err(Failure::with_text(FailureKind::Input, "No callback provided"));
        },
    };
    let pool = match pools.lookup(pool_handle) {
        Ok(pool) => pool,
        Err(_) => {
            return Err(Failure::with_text(FailureKind::UnknownResource, "Unknown pool handle"));
        },
    };
    let started = start(pool, PendingOperation::new(cb));
    let res = match started {
        Ok(_) => Ok(ErrorCode::Success),
        Err(failure) => Err(failure),
    };
    // `started` is the answer that the postcondition speaks of.
    assert(res == dispatch_outcome(started));
    res
}

/// Submits the request under `request_handle` to the pool under
/// `pool_handle`. Refused without a callback, with an unknown pool or with an
/// unknown request: `send` is then not called and no request is taken. Once
/// admitted, the request leaves its table for good and `send` is called once,
/// with the pool, the request and the pending operation that owns the
/// callback; its answer decides.
pub fn indy_vdr_pool_submit_request<R, Q, C, F>(
    pools: &HandleTable<R>,
    requests: &mut HandleTable<Q>,
    pool_handle: usize,
    request_handle: usize,
    cb: Option<C>,
    send: F,
) -> (res: Result<ErrorCode, Failure>) where
    F: FnOnce(&R, Q, PendingOperation<C>) -> Result<(), Failure>,

    requires
        submit_refusal(
            pools.live().dom(),
            old(requests).live().dom(),
            pool_handle,
            request_handle,
            cb is Some,
        ) is None ==> call_requires(
            send,
            (
                &pools.live()[pool_handle],
                old(requests).live()[request_handle],
                PendingOperation::dispatched(cb->0),
            ),
        ),
    ensures
        final(requests).issued() == old(requests).issued(),
        match submit_refusal(
            pools.live().dom(),
            old(requests).live().dom(),
            pool_handle,
            request_handle,
            cb is Some,
        ) {
            Some(refusal) => {
                &&& res matches Err(failure)
                &&& failure@ == refusal
                &&& final(requests).live() == old(requests).live()
            },
            None => {
                &&& final(requests).live() == old(requests).live().remove(request_handle)
                &&& final(requests).state() == table_step(
                    old(requests).state(),
                    TableOp::Remove(request_handle),
                )
                &&& exists|started: Result<(), Failure>|
                    call_ensures(
                        send,
                        (
                            &pools.live()[pool_handle],
                            old(requests).live()[request_handle],
                            PendingOperation::dispatched(cb->0),
                        ),
                        started,
                    ) && res == dispatch_outcome(started)
            },
        },
{
    let cb = match cb {
        Some(cb) => cb,
        None => {
            return Err(Failure::with_text(FailureKind::Input, "No callback provided"));
        },
    };
    let pool = match pools.lookup(pool_handle) {
        Ok(pool) => pool,
        Err(_) => {
            return Err(Failure::with_text(FailureKind::UnknownResource, "Unknown pool handle"));
        },
    };
    let request = match requests.remove(request_handle) {
        Ok(request) => request,
        Err(_) => {
            return Err(
                Failure::with_text(FailureKind::UnknownRequest, "Unknown request handle"),
            );
        },
    };
    let started = send(pool, request, PendingOperation::new(cb));
    let res = match started {
        Ok(_) => Ok(ErrorCode::Success),
        Err(failure) => Err(failure),
    };
    // `started` is the answer that the postcondition speaks of.
    assert(res == dispatch_outcome(started));
    res
}

/// Closes the pool under `pool_handle`: takes it out of the table and drops
/// it. Operations that were started on it are not touched. An unknown handle
/// is refused and the table stays as it was.
pub fn indy_vdr_pool_close<R>(pools: &mut HandleTable<R>, pool_handle: usize) -> (res: Result<
    ErrorCode,
    Failure,
>)
    ensures
        final(pools).issued() == old(pools).issued(),
        final(pools).state() == table_step(old(pools).state(), TableOp::Remove(pool_handle)),
        old(pools).live().contains_key(pool_handle) ==> res == Ok::<ErrorCode, Failure>(
            ErrorCode::Success,
        ) && final(pools).live() == old(pools).live().remove(pool_handle),
        !old(pools).live().contains_key(pool_handle) ==> (res matches Err(failure) && failure@
            == unknown_pool()) && final(pools).live() == old(pools).live(),
{
    match pools.remove(pool_handle) {
        Ok(_) => Ok(ErrorCode::Success),
        Err(_) => Err(Failure::with_text(FailureKind::UnknownResource, "Unknown pool handle")),
    }
}

/// A request is consumed at most once. After a submission was admitted,
/// whatever is created in or removed from the request table afterwards, every
/// later submission of the same request handle is refused; with a callback
/// and a live pool it is refused as an unknown request.
pub proof fn lemma_request_is_consumed_once(
    requests: TableState,
    later: Seq<TableOp>,
    first_pools: Set<usize>,
    first_pool: usize,
    second_pools: Set<usize>,
    second_pool: usize,
    second_has_callback: bool,
    request_handle: usize,
)
    requires
        table_inv(requests),
        requests.issued + later.len() < usize::MAX,
        submit_refusal(first_pools, requests.live, first_pool, request_handle, true) is None,
    ensures
        ({
            let after = table_run(
                table_step(requests, TableOp::Remove(request_handle)),
                later,
            );
            let second = submit_refusal(
                second_pools,
                after.live,
                second_pool,
                request_handle,
                second_has_callback,
            );
            &&& second is Some
            &&& second_has_callback && second_pools.contains(second_pool) ==> second == Some(
                unknown_request(),
            )
        }),
{
    let ops = seq![TableOp::Remove(request_handle)] + later;
    assert(ops.take(0) =~= Seq::<TableOp>::empty());
    assert(ops.take(ops.len() as int) =~= ops);
    lemma_run_after_first(requests, TableOp::Remove(request_handle), later);
    lemma_removed_handle_stays_dead(requests, ops, 0, ops.len() as int, request_handle);
}

/// A closed pool is gone. After a pool was closed, whatever is created in or
/// removed from the pool table afterwards, every later listing on the same
/// handle is refused; with a callback it is refused as an unknown pool.
pub proof fn lemma_closed_pool_is_refused(
    pools: TableState,
    later: Seq<TableOp>,
    pool_handle: usize,
    has_callback: bool,
)
    requires
        table_inv(pools),
        pools.issued + later.len() < usize::MAX,
        pools.live.contains(pool_handle),
    ensures
        ({
            let after = table_run(table_step(pools, TableOp::Remove(pool_handle)), later);
            let refusal = listing_refusal(after.live, pool_handle, has_callback);
            &&& refusal is Some
            &&& has_callback ==> refusal == Some(unknown_pool())
        }),
{
    let ops = seq![TableOp::Remove(pool_handle)] + later;
    assert(ops.take(0) =~= Seq::<TableOp>::empty());
    assert(ops.take(ops.len() as int) =~= ops);
    lemma_run_after_first(pools, TableOp::Remove(pool_handle), later);
    lemma_removed_handle_stays_dead(pools, ops, 0, ops.len() as int, pool_handle);
}

proof fn lemma_run_after_first(s: TableState, first: TableOp, later: Seq<TableOp>)
    ensures
        table_run(s, seq![first] + later) == table_run(table_step(s, first), later),
    decreases later.len(),
{
    let ops = seq![first] + later;
    if later.len() == 0 {
        assert(ops.drop_last() =~= Seq::<TableOp>::empty());
        assert(table_run(s, ops.drop_last()) == s);
        assert(ops.last() == first);
    } else {
        lemma_run_after_first(s, first, later.drop_last());
        assert(ops.drop_last() =~= seq![first] + later.drop_last());
        assert(ops.last() == later.last());
    }
}

} // verus!
