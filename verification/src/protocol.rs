//! The pool together with its semaphore: where the permits are while callers
//! come and go.
//!
//! The pool's own contracts say nothing of the semaphore's state, which
//! changes behind every shared reference to it. This model counts the permits
//! by who holds them, on the understanding that the semaphore gives out only
//! the permits it was created with and gets back only those that are dropped.

use crate::model::PoolModel;
use clickhouse::Client;
use vstd::prelude::*;

verus! {

/// A pool and the whereabouts of its permits.
pub struct ProtocolModel {
    pub pool: PoolModel,
    /// Permits that the semaphore has to give.
    pub free: nat,
    /// Permits of callers that were admitted and have not acquired yet.
    pub admitted: nat,
    /// Permits bound in active leases.
    pub leased: nat,
    /// Permits that the pool handed to a caller and that are not dropped yet.
    pub handed_back: nat,
}

/// One step of a caller or of the semaphore.
pub enum ProtocolEvent {
    /// The semaphore gives a permit to a caller that waits for one.
    Admit,
    /// An admitted caller acquires with its permit.
    Acquire,
    /// The holder of an active lease with this client hands the lease back.
    TakeBack(Client),
    /// A caller drops a permit that the pool handed to it.
    DropPermit,
}

impl ProtocolModel {
    /// A pool with all its clients idle and all its permits free.
    pub open spec fn fresh(pool: PoolModel) -> ProtocolModel {
        ProtocolModel { pool, free: pool.capacity, admitted: 0, leased: 0, handed_back: 0 }
    }

    /// Every permit is in one place, there are as many as the pool has
    /// clients, and the active leases hold the clients that are out.
    pub open spec fn wf(self) -> bool {
        &&& self.pool.wf()
        &&& self.leased == self.pool.outstanding()
        &&& self.free + self.admitted + self.leased + self.handed_back == self.pool.capacity
    }

    /// The state after one event. An event that cannot happen in a state
    /// (no free permit to give, nobody admitted, no lease, no permit to drop)
    /// leaves it as it is.
    pub open spec fn step(self, event: ProtocolEvent) -> ProtocolModel {
        match event {
            ProtocolEvent::Admit => if self.free > 0 {
                ProtocolModel {
                    free: (self.free - 1) as nat,
                    admitted: self.admitted + 1,
                    ..self
                }
            } else {
                self
            },
            ProtocolEvent::Acquire => if self.admitted > 0 {
                let (after, lent) = self.pool.acquire();
                if lent is Some {
                    ProtocolModel {
                        pool: after,
                        admitted: (self.admitted - 1) as nat,
                        leased: self.leased + 1,
                        ..self
                    }
                } else {
                    ProtocolModel {
                        pool: after,
                        admitted: (self.admitted - 1) as nat,
                        handed_back: self.handed_back + 1,
                        ..self
                    }
                }
            } else {
                self
            },
            ProtocolEvent::TakeBack(client) => if self.leased > 0 {
                let (after, left) = self.pool.release(Some(client));
                if left is None {
                    ProtocolModel {
                        pool: after,
                        leased: (self.leased - 1) as nat,
                        handed_back: self.handed_back + 1,
                        ..self
                    }
                } else {
                    self
                }
            } else {
                self
            },
            ProtocolEvent::DropPermit => if self.handed_back > 0 {
                ProtocolModel {
                    free: self.free + 1,
                    handed_back: (self.handed_back - 1) as nat,
                    ..self
                }
            } else {
                self
            },
        }
    }

    /// The state after a history of events, oldest first.
    pub open spec fn run(self, history: Seq<ProtocolEvent>) -> ProtocolModel
        decreases history.len(),
    {
        if history.len() == 0 {
            self
        } else {
            self.run(history.drop_last()).step(history.last())
        }
    }
}

} // verus!
