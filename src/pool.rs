//! The tracing side of a connection pool: what it reports when it is created
//! and around each checkout. Records wait in the pool's outbox until the
//! runtime takes them for publication.

use vstd::prelude::*;

use crate::cmap::{
    cmap_fields, cmap_message, CmapEvent, ConnectionCheckedOutEvent, ConnectionCheckoutFailedEvent,
    ConnectionCheckoutStartedEvent, ConnectionPoolOptions, ConnectionTracingEventEmitter,
    PoolCreatedEvent,
};
use crate::event::{is_debug_record, ServerAddress, TracingEvent};
use crate::repr::ConnectionCheckoutFailedReason;

verus! {

/// The generation of a pool; clearing the pool starts a new one.
#[derive(Clone, Copy, Debug, PartialEq, Eq, Structural)]
pub struct PoolGeneration {
    pub count: u32,
}

impl PoolGeneration {
    /// The first generation of a pool.
    pub fn normal() -> (r: PoolGeneration)
        ensures
            r.count == 0,
    {
        PoolGeneration { count: 0 }
    }
}

/// Whether `after` is `before` followed by the record of `event` made by
/// `handler`, or equals `before` when there is no handler.
pub open spec fn records_event(
    handler: Option<ConnectionTracingEventEmitter>,
    before: Seq<TracingEvent>,
    after: Seq<TracingEvent>,
    event: CmapEvent,
) -> bool {
    match handler {
        None => after == before,
        Some(h) => {
            &&& after.len() == before.len() + 1
            &&& after.subrange(0, before.len() as int) == before
            &&& is_debug_record(
                after.last(),
                "db.connection"@,
                Some(cmap_message(event)),
                h.client_fields() + cmap_fields(event),
            )
        },
    }
}

/// A connection pool as far as tracing is concerned.
pub struct ConnectionPool {
    address: ServerAddress,
    generation: PoolGeneration,
    tracing_handler: Option<ConnectionTracingEventEmitter>,
    emitted: Vec<TracingEvent>,
}

impl ConnectionPool {
    /// The address of the pool's server.
    pub closed spec fn address_spec(&self) -> ServerAddress {
        self.address
    }

    /// The pool's current generation.
    pub closed spec fn generation_spec(&self) -> PoolGeneration {
        self.generation
    }

    /// The emitter that turns the pool's events into records, if any.
    pub closed spec fn handler(&self) -> Option<ConnectionTracingEventEmitter> {
        self.tracing_handler
    }

    /// The records not yet taken from the pool, oldest first.
    pub closed spec fn pending(&self) -> Seq<TracingEvent> {
        self.emitted@
    }

    /// A pool for `address`; its creation is recorded with the given options.
    pub fn new(
        address: ServerAddress,
        options: Option<ConnectionPoolOptions>,
        tracing_handler: Option<ConnectionTracingEventEmitter>,
    ) -> (r: ConnectionPool)
        ensures
            r.address_spec() == address,
            r.generation_spec().count == 0,
            r.handler() == tracing_handler,
            records_event(
                tracing_handler,
                Seq::empty(),
                r.pending(),
                CmapEvent::PoolCreated(PoolCreatedEvent { address, options }),
            ),
    {
        let mut pool = ConnectionPool {
            address: address.clone(),
            generation: PoolGeneration::normal(),
            tracing_handler,
            emitted: Vec::new(),
        };
        pool.emit_event(CmapEvent::PoolCreated(PoolCreatedEvent { address, options }));
        pool
    }

    /// A pool for `address` with no tracing handler.
    pub fn new_mocked(address: ServerAddress) -> (r: ConnectionPool)
        ensures
            r.address_spec() == address,
            r.generation_spec().count == 0,
            r.handler() is None,
            r.pending().len() == 0,
    {
        ConnectionPool {
            address,
            generation: PoolGeneration::normal(),
            tracing_handler: None,
            emitted: Vec::new(),
        }
    }

    /// Records `event` with the pool's tracing handler, if it has one.
    pub fn emit_event(&mut self, event: CmapEvent)
        ensures
            final(self).address_spec() == old(self).address_spec(),
            final(self).generation_spec() == old(self).generation_spec(),
            final(self).handler() == old(self).handler(),
            records_event(old(self).handler(), old(self).pending(), final(self).pending(), event),
    {
        match &self.tracing_handler {
            Some(h) => {
                let record = h.handle_event(event);
                self.emitted.push(record);
                assert(self.emitted@.subrange(0, old(self).emitted@.len() as int) =~= old(
                    self,
                ).emitted@);
            },
            None => {},
        }
    }

    /// Records the start of a checkout.
    pub fn check_out_started(&mut self)
        ensures
            final(self).address_spec() == old(self).address_spec(),
            final(self).generation_spec() == old(self).generation_spec(),
            final(self).handler() == old(self).handler(),
            records_event(
                old(self).handler(),
                old(self).pending(),
                final(self).pending(),
                CmapEvent::ConnectionCheckoutStarted(
                    ConnectionCheckoutStartedEvent { address: old(self).address_spec() },
                ),
            ),
    {
        let address = self.address.clone();
        self.emit_event(
            CmapEvent::ConnectionCheckoutStarted(ConnectionCheckoutStartedEvent { address }),
        );
    }

    /// Records how a checkout ended: the identifier of the connection handed
    /// out, or `None` when establishing one failed.
    pub fn check_out_finished(&mut self, connection_id: Option<u32>)
        ensures
            final(self).address_spec() == old(self).address_spec(),
            final(self).generation_spec() == old(self).generation_spec(),
            final(self).handler() == old(self).handler(),
            records_event(
                old(self).handler(),
                old(self).pending(),
                final(self).pending(),
                match connection_id {
                    Some(id) => CmapEvent::ConnectionCheckedOut(
                        ConnectionCheckedOutEvent {
                            address: old(self).address_spec(),
                            connection_id: id,
                        },
                    ),
                    None => CmapEvent::ConnectionCheckoutFailed(
                        ConnectionCheckoutFailedEvent {
                            address: old(self).address_spec(),
                            reason: ConnectionCheckoutFailedReason::ConnectionError,
                        },
                    ),
                },
            ),
    {
        let address = self.address.clone();
        match connection_id {
            Some(id) => self.emit_event(
                CmapEvent::ConnectionCheckedOut(ConnectionCheckedOutEvent { address, connection_id: id }),
            ),
            None => self.emit_event(
                CmapEvent::ConnectionCheckoutFailed(
                    ConnectionCheckoutFailedEvent {
                        address,
                        reason: ConnectionCheckoutFailedReason::ConnectionError,
                    },
                ),
            ),
        }
    }

    /// The pool's current generation.
    pub fn generation(&self) -> (r: PoolGeneration)
        ensures
            r == self.generation_spec(),
    {
        self.generation
    }

    /// Takes the pending records, oldest first, leaving none.
    pub fn take_emitted(&mut self) -> (r: Vec<TracingEvent>)
        ensures
            r@ == old(self).pending(),
            final(self).pending().len() == 0,
            final(self).address_spec() == old(self).address_spec(),
            final(self).generation_spec() == old(self).generation_spec(),
            final(self).handler() == old(self).handler(),
    {
        let mut taken: Vec<TracingEvent> = Vec::new();
        std::mem::swap(&mut taken, &mut self.emitted);
        taken
    }
}

} // verus!
