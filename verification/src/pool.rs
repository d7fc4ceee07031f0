//! The pool, its store of idle clients, and the leases it hands out.

use crate::error::Error;
use crate::gate::initial_permits;
use crate::gate::new_gate;
use crate::gate::MAX_PERMITS;
use crate::handle::endpoint;
use crate::handle::connect;
use crate::model::PoolModel;
use clickhouse::Client;
use std::sync::Arc;
use tokio::sync::AcquireError;
use tokio::sync::OwnedSemaphorePermit;
use tokio::sync::Semaphore;
use vstd::prelude::*;

verus! {

/// A pool of ClickHouse clients with a fixed capacity.
pub struct ConnectionPool {
    clients: Vec<Client>,
    count: usize,
    semaphore: Arc<Semaphore>,
}

/// A lease: one client of the pool together with the permit that admitted its
/// holder. It stays active until [`ConnectionPool::take_back`] takes the
/// client back. A lease that is dropped while active takes its client with
/// it, so every lease is to be handed back.
#[must_use]
#[derive(Debug)]
pub struct ClientWrapper {
    held: Option<(Client, OwnedSemaphorePermit)>,
}

impl View for ConnectionPool {
    type V = PoolModel;

    closed spec fn view(&self) -> PoolModel {
        PoolModel { idle: self.clients@, capacity: self.count as nat }
    }
}

impl View for ClientWrapper {
    type V = Option<Client>;

    /// The client that the lease holds, if it is still active.
    closed spec fn view(&self) -> Option<Client> {
        match self.held {
            Some((client, _)) => Some(client),
            None => None,
        }
    }
}

impl ConnectionPool {
    /// Every pool keeps its store within its capacity.
    #[verifier::type_invariant]
    closed spec fn inv(self) -> bool {
        self@.wf()
    }

    /// The semaphore that admits callers to the pool.
    pub closed spec fn gate(self) -> Arc<Semaphore> {
        self.semaphore
    }

    /// Builds a pool around clients that already exist. All of them start
    /// idle, and the semaphore gets one permit for each.
    pub fn from_clients(clients: Vec<Client>) -> (pool: ConnectionPool)
        requires
            clients@.len() <= MAX_PERMITS,
        ensures
            pool@.idle == clients@,
            pool@.capacity == clients@.len(),
            initial_permits(*pool.gate()) == clients@.len(),
    {
        let count = clients.len();
        ConnectionPool { clients, count, semaphore: Arc::new(new_gate(count)) }
    }

    /// Spawns a new connection pool, given the address to the ClickHouse
    /// server, and the maximum number of connections that the pool can spawn.
    ///
    /// The clients are created one after another; the first one that fails
    /// ends the construction with its error, and the clients made so far are
    /// dropped. As creating a client opens no connection, none fails. A pool
    /// of zero clients is legal: its semaphore never admits anybody.
    pub fn spawn(params: &str, count: usize) -> (r: Result<ConnectionPool, Error>)
        requires
            count <= MAX_PERMITS,
        ensures
            r matches Ok(pool) && {
                &&& pool@.capacity == count
                &&& pool@.idle.len() == count
                &&& forall|i: int| 0 <= i < count ==> endpoint(#[trigger] pool@.idle[i]) == params@
                &&& initial_permits(*pool.gate()) == count
            },
    {
        let mut clients: Vec<Client> = Vec::new();
        let mut made: usize = 0;
        while made < count
            invariant
                made <= count,
                clients@.len() == made,
                forall|i: int| 0 <= i < made ==> endpoint(#[trigger] clients@[i]) == params@,
            decreases count - made,
        {
            match connect(params) {
                Ok(client) => clients.push(client),
                Err(err) => {
                    return Err(err);
                },
            }
            made += 1;
        }
        Ok(ConnectionPool::from_clients(clients))
    }

    /// The semaphore to wait at before calling [`ConnectionPool::acquire`].
    ///
    /// It hands out its permits in the order in which they were asked for, so
    /// no caller waits forever while leases keep being released. A caller who
    /// stops waiting has taken nothing.
    pub fn semaphore(&self) -> (gate: &Arc<Semaphore>)
        ensures
            *gate == self.gate(),
    {
        &self.semaphore
    }

    /// The number of clients the pool was built with.
    pub fn capacity(&self) -> (n: usize)
        ensures
            n == self@.capacity,
            self@.wf(),
    {
        proof {
            use_type_invariant(self);
        }
        self.count
    }

    /// The number of clients in the store.
    pub fn idle_count(&self) -> (n: usize)
        ensures
            n == self@.idle.len(),
            self@.wf(),
    {
        proof {
            use_type_invariant(self);
        }
        self.clients.len()
    }

    /// The number of clients out on lease.
    pub fn outstanding(&self) -> (n: usize)
        ensures
            n == self@.outstanding(),
            self@.wf(),
    {
        proof {
            use_type_invariant(self);
        }
        self.count - self.clients.len()
    }

    /// Acquires a client from the pool, given the outcome of waiting at its
    /// semaphore.
    ///
    /// A closed semaphore admits nobody. With a permit, the client put back
    /// last leaves the store and is bound to the permit in a lease. Should the
    /// store be empty all the same, the call fails and hands the permit back
    /// with the error, for the caller to drop at once.
    pub fn acquire(&mut self, admission: Result<OwnedSemaphorePermit, AcquireError>) -> (r: Result<
        ClientWrapper,
        (Error, Option<OwnedSemaphorePermit>),
    >)
        ensures
            final(self).gate() == old(self).gate(),
            final(self)@.wf(),
            match admission {
                Err(_) => {
                    &&& final(self)@ == old(self)@
                    &&& r matches Err((Error::AcquireError, None))
                },
                Ok(permit) => match old(self)@.acquire() {
                    (after, Some(client)) => {
                        &&& final(self)@ == after
                        &&& r matches Ok(lease)
                        &&& lease@ == Some(client)
                        &&& lease.permit() == Some(permit)
                    },
                    (after, None) => {
                        &&& final(self)@ == after
                        &&& r matches Err((Error::Unknown, Some(unused)))
                        &&& unused == permit
                    },
                },
            },
    {
        proof {
            use_type_invariant(&*self);
        }
        let permit = match admission {
            Ok(permit) => permit,
            Err(err) => {
                return Err((Error::from(err), None));
            },
        };
        // The store is moved out while it changes and put back afterwards, so
        // that the pool is never left half changed.
        let mut clients: Vec<Client> = Vec::new();
        core::mem::swap(&mut self.clients, &mut clients);
        let popped = clients.pop();
        self.clients = clients;
        match popped {
            Some(client) => Ok(ClientWrapper { held: Some((client, permit)) }),
            None => Err((Error::Unknown, Some(permit))),
        }
    }

    /// Takes back the client of `lease` and hands out the permit that the
    /// lease held, for the caller to drop.
    ///
    /// The client is in the store when the permit comes out, and the permit
    /// frees its unit of the semaphore only when it is dropped: nobody is
    /// admitted on that unit before the client is there to be lent. A lease
    /// that was handed back before holds nothing, and handing it back again
    /// changes nothing and yields no permit. Nor does the pool take a client
    /// while none of its own is out.
    pub fn take_back(&mut self, lease: &mut ClientWrapper) -> (permit: Option<OwnedSemaphorePermit>)
        ensures
            final(self).gate() == old(self).gate(),
            final(self)@.wf(),
            (final(self)@, final(lease)@) == old(self)@.release(old(lease)@),
            permit == (if old(lease)@ is Some && final(lease)@ is None {
                old(lease).permit()
            } else {
                None
            }),
            permit is Some ==> final(lease).permit() is None,
            permit is None ==> *final(lease) == *old(lease),
    {
        proof {
            use_type_invariant(&*self);
        }
        if self.clients.len() >= self.count {
            return None;
        }
        match lease.held.take() {
            Some((client, permit)) => {
                let mut clients: Vec<Client> = Vec::new();
                core::mem::swap(&mut self.clients, &mut clients);
                clients.push(client);
                self.clients = clients;
                Some(permit)
            },
            None => None,
        }
    }
}

impl ClientWrapper {
    /// The permit that the lease holds, if it is still active.
    pub closed spec fn permit(self) -> Option<OwnedSemaphorePermit> {
        match self.held {
            Some((_, permit)) => Some(permit),
            None => None,
        }
    }

    /// Whether the lease still holds its client.
    pub open spec fn active(&self) -> bool {
        self@ is Some
    }

    /// A lease holds its permit exactly as long as it holds its client: once
    /// handed back, it has no permit left.
    pub proof fn permit_goes_with_client(self)
        ensures
            self.permit() is Some <==> self@ is Some,
    {
    }

    /// Whether the lease still holds its client.
    #[verifier::when_used_as_spec(active)]
    pub fn is_active(&self) -> (b: bool)
        ensures
            b == self.active(),
            b == self.permit() is Some,
    {
        self.held.is_some()
    }

    /// Accesses the `Client`.
    pub fn client(&self) -> (client: &Client)
        requires
            self.active(),
        ensures
            self@ == Some(*client),
    {
        match &self.held {
            Some((client, _)) => client,
            None => vstd::pervasive::unreached(),
        }
    }

    /// Mutably accesses the `Client`.
    pub fn client_mut(&mut self) -> (client: &mut Client)
        requires
            old(self).active(),
        ensures
            old(self)@ == Some(*client),
            final(self)@ == Some(*final(client)),
            final(self).permit() == old(self).permit(),
    {
        match &mut self.held {
            Some((client, _)) => client,
            None => vstd::pervasive::unreached(),
        }
    }
}

} // verus!
