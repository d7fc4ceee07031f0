//! The pool as a mathematical value, and what acquiring and releasing do to it.

use clickhouse::Client;
use vstd::prelude::*;

verus! {

/// What a pool is, as far as its contracts are concerned: the idle clients,
/// oldest first, and the number of clients the pool was built with.
pub struct PoolModel {
    pub idle: Seq<Client>,
    pub capacity: nat,
}

/// One use of a pool by a caller who holds a permit: an acquisition, or the
/// release of a lease that holds the given client, or nothing.
pub enum PoolEvent {
    Acquire,
    Release(Option<Client>),
}

impl PoolModel {
    /// The store never holds more clients than the pool was built with.
    pub open spec fn wf(self) -> bool {
        self.idle.len() <= self.capacity
    }

    /// The number of clients that are out on lease.
    pub open spec fn outstanding(self) -> nat {
        (self.capacity - self.idle.len()) as nat
    }

    /// An acquisition by a caller who holds a permit: the pool afterwards, and
    /// the client that was lent. The client put back last leaves first; an
    /// empty store lends nothing and stays as it is.
    pub open spec fn acquire(self) -> (PoolModel, Option<Client>) {
        if self.idle.len() > 0 {
            (
                PoolModel { idle: self.idle.drop_last(), capacity: self.capacity },
                Some(self.idle.last()),
            )
        } else {
            (self, None)
        }
    }

    /// The release of a lease that holds `held`, as `take_back` performs it:
    /// the pool afterwards, and what the lease still holds. A client comes
    /// back only from a lease that holds one, and only while a client of the
    /// pool is out.
    pub open spec fn release(self, held: Option<Client>) -> (PoolModel, Option<Client>) {
        match held {
            Some(client) if self.idle.len() < self.capacity => (
                PoolModel { idle: self.idle.push(client), capacity: self.capacity },
                None,
            ),
            _ => (self, held),
        }
    }

    /// The pool after one event.
    pub open spec fn step(self, event: PoolEvent) -> PoolModel {
        match event {
            PoolEvent::Acquire => self.acquire().0,
            PoolEvent::Release(held) => self.release(held).0,
        }
    }

    /// By how much one event changes the number of active leases: an
    /// acquisition that lends a client makes one more, a release that returns
    /// one makes one less.
    pub open spec fn leases_added(self, event: PoolEvent) -> int {
        match event {
            PoolEvent::Acquire => if self.acquire().1 is Some {
                1
            } else {
                0
            },
            PoolEvent::Release(held) => if held is Some && self.release(held).1 is None {
                -1
            } else {
                0
            },
        }
    }

    /// The pool after a history of events, oldest first.
    pub open spec fn run(self, history: Seq<PoolEvent>) -> PoolModel
        decreases history.len(),
    {
        if history.len() == 0 {
            self
        } else {
            self.run(history.drop_last()).step(history.last())
        }
    }

    /// The number of leases that a history of events leaves active, counted
    /// event by event.
    pub open spec fn live_leases(self, history: Seq<PoolEvent>) -> int
        decreases history.len(),
    {
        if history.len() == 0 {
            0
        } else {
            self.live_leases(history.drop_last()) + self.run(history.drop_last()).leases_added(
                history.last(),
            )
        }
    }
}

} // verus!
