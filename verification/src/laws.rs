//! What holds of every pool, whatever is done with it.

use crate::model::PoolEvent;
use crate::model::PoolModel;
use crate::protocol::ProtocolEvent;
use crate::protocol::ProtocolModel;
use clickhouse::Client;
use vstd::prelude::*;

verus! {

/// The clients of a pool are either idle or out on lease, and never more are
/// out than the pool was built with. A caller with a permit is lent a client
/// exactly while fewer are out, and a client is taken back exactly while one
/// is out.
pub proof fn outstanding_is_bounded(pool: PoolModel, held: Client)
    requires
        pool.wf(),
    ensures
        pool.idle.len() + pool.outstanding() == pool.capacity,
        pool.outstanding() <= pool.capacity,
        pool.acquire().1 is Some <==> pool.outstanding() < pool.capacity,
        pool.release(Some(held)).1 is None <==> pool.outstanding() > 0,
{
}

/// An acquisition keeps the pool within its capacity. Where it lends a client,
/// one more is out afterwards; where it does not, the pool is unchanged.
pub proof fn acquire_keeps_capacity(pool: PoolModel)
    requires
        pool.wf(),
    ensures
        pool.acquire().0.wf(),
        pool.acquire().0.capacity == pool.capacity,
        pool.acquire().1 is Some ==> pool.acquire().0.outstanding() == pool.outstanding() + 1,
        pool.acquire().1 is None ==> pool.acquire().0 == pool,
{
}

/// A release keeps the pool within its capacity. Where it takes the client
/// back, one less is out afterwards; where it does not, the pool and the lease
/// are unchanged.
pub proof fn release_keeps_capacity(pool: PoolModel, held: Option<Client>)
    requires
        pool.wf(),
    ensures
        pool.release(held).0.wf(),
        pool.release(held).0.capacity == pool.capacity,
        held is Some && pool.release(held).1 is None ==> pool.release(held).0.outstanding()
            == pool.outstanding() - 1,
        !(held is Some && pool.release(held).1 is None) ==> pool.release(held) == (pool, held),
{
}

/// After any history of acquisitions and releases the pool is within its
/// capacity, and the leases that the history left active are the clients that
/// it took out of the store.
pub proof fn history_keeps_capacity(pool: PoolModel, history: Seq<PoolEvent>)
    requires
        pool.wf(),
    ensures
        pool.run(history).wf(),
        pool.run(history).capacity == pool.capacity,
        pool.run(history).outstanding() == pool.outstanding() + pool.live_leases(history),
    decreases history.len(),
{
    if history.len() > 0 {
        history_keeps_capacity(pool, history.drop_last());
    }
}

/// On a pool that starts with all its clients idle, no history of acquisitions
/// and releases leaves more leases active than the pool has clients.
pub proof fn live_leases_never_exceed_capacity(pool: PoolModel, history: Seq<PoolEvent>)
    requires
        pool.idle.len() == pool.capacity,
    ensures
        0 <= pool.live_leases(history) <= pool.capacity,
        pool.live_leases(history) == pool.capacity ==> pool.run(history).acquire().1 is None,
{
    history_keeps_capacity(pool, history);
}

/// Releasing a lease a second time changes neither the pool nor the lease:
/// the store gains the client of a lease once at most.
pub proof fn second_release_changes_nothing(pool: PoolModel, held: Option<Client>)
    ensures
        ({
            let (after, left) = pool.release(held);
            &&& after.release(left) == (after, left)
            &&& after.release(left).0.idle.len() <= pool.idle.len() + 1
        }),
{
}

/// A client that is acquired and released is back where it was, and is the
/// one that the next acquisition lends: in a pool of one client, every lease
/// holds that client.
pub proof fn released_client_is_lent_again(pool: PoolModel)
    requires
        pool.wf(),
        pool.idle.len() > 0,
    ensures
        ({
            let (lent, client) = pool.acquire();
            let (back, left) = lent.release(client);
            &&& client is Some
            &&& left is None
            &&& back == pool
            &&& back.acquire().1 == client
        }),
{
    assert(pool.idle.drop_last().push(pool.idle.last()) =~= pool.idle);
}

/// A pool without clients lends nothing, whatever was done with it before.
pub proof fn empty_pool_lends_nothing(pool: PoolModel)
    requires
        pool.wf(),
        pool.capacity == 0,
    ensures
        pool.acquire() == (pool, None::<Client>),
{
}

/// While every permit is accounted for, the store holds a client for every
/// permit that is free or in the hands of an admitted caller: whoever was
/// admitted finds a client, and is never turned away for want of one.
pub proof fn admitted_caller_finds_a_client(state: ProtocolModel)
    requires
        state.wf(),
    ensures
        state.free + state.admitted <= state.pool.idle.len(),
        state.admitted > 0 ==> state.pool.acquire().1 is Some,
{
}

/// No step of a caller or of the semaphore loses a permit or a client.
pub proof fn step_keeps_permits_accounted(state: ProtocolModel, event: ProtocolEvent)
    requires
        state.wf(),
    ensures
        state.step(event).wf(),
        state.step(event).pool.capacity == state.pool.capacity,
{
}

/// From a pool with all its clients idle and all its permits free, whatever
/// callers and the semaphore do in whatever order, an admitted caller finds a
/// client in the store. A permit counts as free only once it is dropped, and
/// the pool hands it out only after the client is back.
pub proof fn permit_holder_always_finds_a_client(pool: PoolModel, history: Seq<ProtocolEvent>)
    requires
        pool.idle.len() == pool.capacity,
    ensures
        ProtocolModel::fresh(pool).run(history).wf(),
        ProtocolModel::fresh(pool).run(history).pool.capacity == pool.capacity,
        ProtocolModel::fresh(pool).run(history).admitted > 0 ==> ProtocolModel::fresh(pool).run(
            history,
        ).pool.acquire().1 is Some,
    decreases history.len(),
{
    if history.len() > 0 {
        permit_holder_always_finds_a_client(pool, history.drop_last());
        step_keeps_permits_accounted(
            ProtocolModel::fresh(pool).run(history.drop_last()),
            history.last(),
        );
    }
}

} // verus!
