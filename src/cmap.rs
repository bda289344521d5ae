//! Events of the connection pool.

use vstd::prelude::*;

use crate::command::{client_id_names, service_id_field};
use crate::event::{
    address_fields, address_names, client_id_fields, field_names, group_field_names,
    lemma_address_names, name_if, fields_view, is_debug_record, optional_field, optional_text,
    push_address_fields, push_field, push_optional_field, start_event, FieldValue, FieldView,
    ServerAddress, TracingEvent, TracingEventValue,
};
use crate::repr::{
    checkout_failed_reason_text, closed_reason_text, object_id_representation,
    ConnectionCheckoutFailedReason, ConnectionClosedReason,
};

verus! {

broadcast use vstd::string::group_string_axioms;

/// Target of connection-pool events.
pub const CONNECTION_TRACING_EVENT_TARGET: &'static str = "db.connection";

/// The pool options reported when a pool is created.
#[derive(Clone, Debug)]
pub struct ConnectionPoolOptions {
    pub max_idle_time_ms: Option<u128>,
    pub max_pool_size: Option<u32>,
    pub min_pool_size: Option<u32>,
}

/// A pool was created.
pub struct PoolCreatedEvent {
    pub address: ServerAddress,
    pub options: Option<ConnectionPoolOptions>,
}

/// A pool was marked ready.
pub struct PoolReadyEvent {
    pub address: ServerAddress,
}

/// A pool was cleared, for the given service when it serves several.
pub struct PoolClearedEvent {
    pub address: ServerAddress,
    pub service_id: Option<[u8; 12]>,
}

/// A pool was closed.
pub struct PoolClosedEvent {
    pub address: ServerAddress,
}

/// A connection was created.
pub struct ConnectionCreatedEvent {
    pub address: ServerAddress,
    pub connection_id: u32,
}

/// A connection finished its handshake.
pub struct ConnectionReadyEvent {
    pub address: ServerAddress,
    pub connection_id: u32,
}

/// A connection was closed.
pub struct ConnectionClosedEvent {
    pub address: ServerAddress,
    pub connection_id: u32,
    pub reason: ConnectionClosedReason,
}

/// A checkout began.
pub struct ConnectionCheckoutStartedEvent {
    pub address: ServerAddress,
}

/// A checkout failed.
pub struct ConnectionCheckoutFailedEvent {
    pub address: ServerAddress,
    pub reason: ConnectionCheckoutFailedReason,
}

/// A connection was checked out.
pub struct ConnectionCheckedOutEvent {
    pub address: ServerAddress,
    pub connection_id: u32,
}

/// A connection was checked back in.
pub struct ConnectionCheckedInEvent {
    pub address: ServerAddress,
    pub connection_id: u32,
}

/// The optional fields of a pool-created event.
pub open spec fn pool_options_fields(options: Option<ConnectionPoolOptions>) -> Seq<FieldView> {
    match options {
        Some(o) => optional_field(
            "max_idle_time_ms"@,
            match o.max_idle_time_ms {
                Some(v) => Some(FieldValue::U128(v)),
                None => None,
            },
        ) + optional_field(
            "max_pool_size"@,
            match o.max_pool_size {
                Some(v) => Some(FieldValue::U64(v as u64)),
                None => None,
            },
        ) + optional_field(
            "min_pool_size"@,
            match o.min_pool_size {
                Some(v) => Some(FieldValue::U64(v as u64)),
                None => None,
            },
        ),
        None => Seq::empty(),
    }
}

/// The address fields followed by the driver's connection identifier.
pub open spec fn connection_id_fields(address: ServerAddress, connection_id: u32) -> Seq<FieldView> {
    address_fields(address) + seq![("driver_connection_id"@, FieldValue::I64(connection_id as i64))]
}

/// Any connection-pool event.
pub enum CmapEvent {
    PoolCreated(PoolCreatedEvent),
    PoolReady(PoolReadyEvent),
    PoolCleared(PoolClearedEvent),
    PoolClosed(PoolClosedEvent),
    ConnectionCreated(ConnectionCreatedEvent),
    ConnectionReady(ConnectionReadyEvent),
    ConnectionClosed(ConnectionClosedEvent),
    ConnectionCheckoutStarted(ConnectionCheckoutStartedEvent),
    ConnectionCheckoutFailed(ConnectionCheckoutFailedEvent),
    ConnectionCheckedOut(ConnectionCheckedOutEvent),
    ConnectionCheckedIn(ConnectionCheckedInEvent),
}

/// The message of the record of a connection-pool event.
pub open spec fn cmap_message(e: CmapEvent) -> Seq<char> {
    match e {
        CmapEvent::PoolCreated(_) => "Connection pool created"@,
        CmapEvent::PoolReady(_) => "Connection pool ready"@,
        CmapEvent::PoolCleared(_) => "Connection pool cleared"@,
        CmapEvent::PoolClosed(_) => "Connection pool closed"@,
        CmapEvent::ConnectionCreated(_) => "Connection created"@,
        CmapEvent::ConnectionReady(_) => "Connection ready"@,
        CmapEvent::ConnectionClosed(_) => "Connection closed"@,
        CmapEvent::ConnectionCheckoutStarted(_) => "Connection checkout started"@,
        CmapEvent::ConnectionCheckoutFailed(_) => "Connection checkout failed"@,
        CmapEvent::ConnectionCheckedOut(_) => "Connection checked out"@,
        CmapEvent::ConnectionCheckedIn(_) => "Connection checked in"@,
    }
}

/// The fields, besides `client_id`, of the record of a connection-pool event.
pub open spec fn cmap_fields(e: CmapEvent) -> Seq<FieldView> {
    match e {
        CmapEvent::PoolCreated(ev) => address_fields(ev.address) + pool_options_fields(ev.options),
        CmapEvent::PoolReady(ev) => address_fields(ev.address),
        CmapEvent::PoolCleared(ev) => address_fields(ev.address) + service_id_field(ev.service_id),
        CmapEvent::PoolClosed(ev) => address_fields(ev.address),
        CmapEvent::ConnectionCreated(ev) => connection_id_fields(ev.address, ev.connection_id),
        CmapEvent::ConnectionReady(ev) => connection_id_fields(ev.address, ev.connection_id),
        CmapEvent::ConnectionClosed(ev) => connection_id_fields(ev.address, ev.connection_id)
            + seq![("reason"@, FieldValue::Text(closed_reason_text(ev.reason)))],
        CmapEvent::ConnectionCheckoutStarted(ev) => address_fields(ev.address),
        CmapEvent::ConnectionCheckoutFailed(ev) => address_fields(ev.address) + seq![
            ("reason"@, FieldValue::Text(checkout_failed_reason_text(ev.reason))),
        ],
        CmapEvent::ConnectionCheckedOut(ev) => connection_id_fields(ev.address, ev.connection_id),
        CmapEvent::ConnectionCheckedIn(ev) => connection_id_fields(ev.address, ev.connection_id),
    }
}

/// The settings of a connection emitter as they are seen in contracts.
pub struct ClientIdSettings {
    pub client_id: Option<Seq<char>>,
    pub attach_client_id: bool,
}

/// Turns connection-pool events into debug-level records at the connection
/// target.
pub struct ConnectionTracingEventEmitter {
    client_id: Option<String>,
    attach_client_id: bool,
}

impl View for ConnectionTracingEventEmitter {
    type V = ClientIdSettings;

    closed spec fn view(&self) -> ClientIdSettings {
        ClientIdSettings {
            client_id: optional_text(self.client_id),
            attach_client_id: self.attach_client_id,
        }
    }
}

impl ConnectionTracingEventEmitter {
    /// An emitter that keeps the client identifier without attaching it.
    pub fn new(client_id: Option<String>) -> (r: ConnectionTracingEventEmitter)
        ensures
            r@.client_id == optional_text(client_id),
            !r@.attach_client_id,
    {
        ConnectionTracingEventEmitter { client_id, attach_client_id: false }
    }

    /// An emitter whose events carry the client identifier, when there is one,
    /// in a `client_id` field, as test builds need.
    pub fn new_attaching_client_id(client_id: Option<String>) -> (r: ConnectionTracingEventEmitter)
        ensures
            r@.client_id == optional_text(client_id),
            r@.attach_client_id,
    {
        ConnectionTracingEventEmitter { client_id, attach_client_id: true }
    }

    /// The `client_id` field of this emitter's records.
    pub open spec fn client_fields(&self) -> Seq<FieldView> {
        client_id_fields(self@.attach_client_id, self@.client_id)
    }

    /// A record with `message` and the address fields.
    fn address_record(&self, message: &str, address: &ServerAddress) -> (r: TracingEvent)
        ensures
            is_debug_record(
                r,
                "db.connection"@,
                Some(message@),
                self.client_fields() + address_fields(*address),
            ),
    {
        let mut r = start_event(
            CONNECTION_TRACING_EVENT_TARGET,
            Some(message),
            self.attach_client_id,
            &self.client_id,
        );
        push_address_fields(&mut r.fields, address);
        r
    }

    /// A record with `message`, the address fields and the connection identifier.
    fn connection_record(&self, message: &str, address: &ServerAddress, connection_id: u32) -> (r:
        TracingEvent)
        ensures
            is_debug_record(
                r,
                "db.connection"@,
                Some(message@),
                self.client_fields() + connection_id_fields(*address, connection_id),
            ),
    {
        let mut r = self.address_record(message, address);
        push_field(&mut r.fields, "driver_connection_id", TracingEventValue::I64(connection_id as i64));
        assert(fields_view(r.fields@) =~= self.client_fields() + connection_id_fields(
            *address,
            connection_id,
        ));
        r
    }

    /// The record of a pool-created event, with the pool options that are set.
    pub fn handle_pool_created_event(&self, event: PoolCreatedEvent) -> (r: TracingEvent)
        ensures
            is_debug_record(
                r,
                "db.connection"@,
                Some("Connection pool created"@),
                self.client_fields() + address_fields(event.address) + pool_options_fields(
                    event.options,
                ),
            ),
    {
        let mut r = self.address_record("Connection pool created", &event.address);
        let ghost before = fields_view(r.fields@);
        match &event.options {
            Some(o) => {
                let idle = match o.max_idle_time_ms {
                    Some(v) => Some(TracingEventValue::U128(v)),
                    None => None,
                };
                push_optional_field(&mut r.fields, "max_idle_time_ms", idle);
                let max = match o.max_pool_size {
                    Some(v) => Some(TracingEventValue::U64(v as u64)),
                    None => None,
                };
                push_optional_field(&mut r.fields, "max_pool_size", max);
                let min = match o.min_pool_size {
                    Some(v) => Some(TracingEventValue::U64(v as u64)),
                    None => None,
                };
                push_optional_field(&mut r.fields, "min_pool_size", min);
            },
            None => {},
        }
        assert(fields_view(r.fields@) =~= before + pool_options_fields(event.options));
        r
    }

    /// The record of a pool-ready event.
    pub fn handle_pool_ready_event(&self, event: PoolReadyEvent) -> (r: TracingEvent)
        ensures
            is_debug_record(
                r,
                "db.connection"@,
                Some("Connection pool ready"@),
                self.client_fields() + address_fields(event.address),
            ),
    {
        self.address_record("Connection pool ready", &event.address)
    }

    /// The record of a pool-cleared event.
    pub fn handle_pool_cleared_event(&self, event: PoolClearedEvent) -> (r: TracingEvent)
        ensures
            is_debug_record(
                r,
                "db.connection"@,
                Some("Connection pool cleared"@),
                self.client_fields() + address_fields(event.address) + service_id_field(
                    event.service_id,
                ),
            ),
    {
        let mut r = self.address_record("Connection pool cleared", &event.address);
        let value = match event.service_id {
            Some(id) => Some(TracingEventValue::String(object_id_representation(id))),
            None => None,
        };
        push_optional_field(&mut r.fields, "service_id", value);
        r
    }

    /// The record of a pool-closed event.
    pub fn handle_pool_closed_event(&self, event: PoolClosedEvent) -> (r: TracingEvent)
        ensures
            is_debug_record(
                r,
                "db.connection"@,
                Some("Connection pool closed"@),
                self.client_fields() + address_fields(event.address),
            ),
    {
        self.address_record("Connection pool closed", &event.address)
    }

    /// The record of a connection-created event.
    pub fn handle_connection_created_event(&self, event: ConnectionCreatedEvent) -> (r: TracingEvent)
        ensures
            is_debug_record(
                r,
                "db.connection"@,
                Some("Connection created"@),
                self.client_fields() + connection_id_fields(event.address, event.connection_id),
            ),
    {
        self.connection_record("Connection created", &event.address, event.connection_id)
    }

    /// The record of a connection-ready event.
    pub fn handle_connection_ready_event(&self, event: ConnectionReadyEvent) -> (r: TracingEvent)
        ensures
            is_debug_record(
                r,
                "db.connection"@,
                Some("Connection ready"@),
                self.client_fields() + connection_id_fields(event.address, event.connection_id),
            ),
    {
        self.connection_record("Connection ready", &event.address, event.connection_id)
    }

    /// The record of a connection-closed event, with the reason as text.
    pub fn handle_connection_closed_event(&self, event: ConnectionClosedEvent) -> (r: TracingEvent)
        ensures
            is_debug_record(
                r,
                "db.connection"@,
                Some("Connection closed"@),
                self.client_fields() + connection_id_fields(event.address, event.connection_id)
                    + seq![("reason"@, FieldValue::Text(closed_reason_text(event.reason)))],
            ),
    {
        let mut r = self.connection_record("Connection closed", &event.address, event.connection_id);
        let ghost before = fields_view(r.fields@);
        let reason = event.reason.tracing_representation();
        let ghost text = reason@;
        push_field(&mut r.fields, "reason", TracingEventValue::String(reason));
        assert(fields_view(r.fields@) =~= before + seq![("reason"@, FieldValue::Text(text))]);
        r
    }

    /// The record of a checkout-started event.
    pub fn handle_connection_checkout_started_event(
        &self,
        event: ConnectionCheckoutStartedEvent,
    ) -> (r: TracingEvent)
        ensures
            is_debug_record(
                r,
                "db.connection"@,
                Some("Connection checkout started"@),
                self.client_fields() + address_fields(event.address),
            ),
    {
        self.address_record("Connection checkout started", &event.address)
    }

    /// The record of a checkout-failed event, with the reason as text.
    pub fn handle_connection_checkout_failed_event(&self, event: ConnectionCheckoutFailedEvent) -> (r:
        TracingEvent)
        ensures
            is_debug_record(
                r,
                "db.connection"@,
                Some("Connection checkout failed"@),
                self.client_fields() + address_fields(event.address) + seq![
                    ("reason"@, FieldValue::Text(checkout_failed_reason_text(event.reason))),
                ],
            ),
    {
        let mut r = self.address_record("Connection checkout failed", &event.address);
        let ghost before = fields_view(r.fields@);
        let reason = event.reason.tracing_representation();
        let ghost text = reason@;
        push_field(&mut r.fields, "reason", TracingEventValue::String(reason));
        assert(fields_view(r.fields@) =~= before + seq![("reason"@, FieldValue::Text(text))]);
        r
    }

    /// The record of a checked-out event.
    pub fn handle_connection_checked_out_event(&self, event: ConnectionCheckedOutEvent) -> (r:
        TracingEvent)
        ensures
            is_debug_record(
                r,
                "db.connection"@,
                Some("Connection checked out"@),
                self.client_fields() + connection_id_fields(event.address, event.connection_id),
            ),
    {
        self.connection_record("Connection checked out", &event.address, event.connection_id)
    }

    /// The record of a checked-in event.
    pub fn handle_connection_checked_in_event(&self, event: ConnectionCheckedInEvent) -> (r:
        TracingEvent)
        ensures
            is_debug_record(
                r,
                "db.connection"@,
                Some("Connection checked in"@),
                self.client_fields() + connection_id_fields(event.address, event.connection_id),
            ),
    {
        self.connection_record("Connection checked in", &event.address, event.connection_id)
    }

    /// The record of any connection-pool event.
    pub fn handle_event(&self, event: CmapEvent) -> (r: TracingEvent)
        ensures
            is_debug_record(
                r,
                "db.connection"@,
                Some(cmap_message(event)),
                self.client_fields() + cmap_fields(event),
            ),
    {
        match event {
            CmapEvent::PoolCreated(e) => {
                let ghost ev = CmapEvent::PoolCreated(e);
                let r = self.handle_pool_created_event(e);
                assert(fields_view(r.fields@) =~= self.client_fields() + cmap_fields(ev));
                r
            },
            CmapEvent::PoolReady(e) => self.handle_pool_ready_event(e),
            CmapEvent::PoolCleared(e) => {
                let ghost ev = CmapEvent::PoolCleared(e);
                let r = self.handle_pool_cleared_event(e);
                assert(fields_view(r.fields@) =~= self.client_fields() + cmap_fields(ev));
                r
            },
            CmapEvent::PoolClosed(e) => self.handle_pool_closed_event(e),
            CmapEvent::ConnectionCreated(e) => self.handle_connection_created_event(e),
            CmapEvent::ConnectionReady(e) => self.handle_connection_ready_event(e),
            CmapEvent::ConnectionClosed(e) => {
                let ghost ev = CmapEvent::ConnectionClosed(e);
                let r = self.handle_connection_closed_event(e);
                assert(fields_view(r.fields@) =~= self.client_fields() + cmap_fields(ev));
                r
            },
            CmapEvent::ConnectionCheckoutStarted(e) => self.handle_connection_checkout_started_event(e),
            CmapEvent::ConnectionCheckoutFailed(e) => {
                let ghost ev = CmapEvent::ConnectionCheckoutFailed(e);
                let r = self.handle_connection_checkout_failed_event(e);
                assert(fields_view(r.fields@) =~= self.client_fields() + cmap_fields(ev));
                r
            },
            CmapEvent::ConnectionCheckedOut(e) => self.handle_connection_checked_out_event(e),
            CmapEvent::ConnectionCheckedIn(e) => self.handle_connection_checked_in_event(e),
        }
    }
}

/// The names of the fields, besides `client_id`, of the record of a
/// connection-pool event.
pub open spec fn cmap_field_names(e: CmapEvent) -> Set<Seq<char>> {
    match e {
        CmapEvent::PoolCreated(ev) => address_names(ev.address).union(
            match ev.options {
                Some(o) => name_if("max_idle_time_ms"@, o.max_idle_time_ms is Some).union(
                    name_if("max_pool_size"@, o.max_pool_size is Some),
                ).union(name_if("min_pool_size"@, o.min_pool_size is Some)),
                None => Set::empty(),
            },
        ),
        CmapEvent::PoolReady(ev) => address_names(ev.address),
        CmapEvent::PoolCleared(ev) => address_names(ev.address).union(
            name_if("service_id"@, ev.service_id is Some),
        ),
        CmapEvent::PoolClosed(ev) => address_names(ev.address),
        CmapEvent::ConnectionCreated(ev) => address_names(ev.address).insert("driver_connection_id"@),
        CmapEvent::ConnectionReady(ev) => address_names(ev.address).insert("driver_connection_id"@),
        CmapEvent::ConnectionClosed(ev) => address_names(ev.address).insert(
            "driver_connection_id"@,
        ).insert("reason"@),
        CmapEvent::ConnectionCheckoutStarted(ev) => address_names(ev.address),
        CmapEvent::ConnectionCheckoutFailed(ev) => address_names(ev.address).insert("reason"@),
        CmapEvent::ConnectionCheckedOut(ev) => address_names(ev.address).insert(
            "driver_connection_id"@,
        ),
        CmapEvent::ConnectionCheckedIn(ev) => address_names(ev.address).insert(
            "driver_connection_id"@,
        ),
    }
}

/// Field-set completeness of connection-pool records: for every kind, the
/// record's names are exactly the kind's names, the optional ones when their
/// values are present, and `client_id` when it is attached.
pub proof fn lemma_cmap_field_set(attach: bool, client_id: Option<Seq<char>>, e: CmapEvent)
    ensures
        field_names(client_id_fields(attach, client_id) + cmap_fields(e)) == client_id_names(
            attach,
            client_id,
        ).union(cmap_field_names(e)),
{
    broadcast use group_field_names;

    assert(field_names(client_id_fields(attach, client_id)) =~= client_id_names(attach, client_id));
    let a = match e {
        CmapEvent::PoolCreated(ev) => ev.address,
        CmapEvent::PoolReady(ev) => ev.address,
        CmapEvent::PoolCleared(ev) => ev.address,
        CmapEvent::PoolClosed(ev) => ev.address,
        CmapEvent::ConnectionCreated(ev) => ev.address,
        CmapEvent::ConnectionReady(ev) => ev.address,
        CmapEvent::ConnectionClosed(ev) => ev.address,
        CmapEvent::ConnectionCheckoutStarted(ev) => ev.address,
        CmapEvent::ConnectionCheckoutFailed(ev) => ev.address,
        CmapEvent::ConnectionCheckedOut(ev) => ev.address,
        CmapEvent::ConnectionCheckedIn(ev) => ev.address,
    };
    lemma_address_names(a);
    match e {
        CmapEvent::PoolCreated(ev) => {
            match ev.options {
                Some(o) => {
                    assert(field_names(pool_options_fields(ev.options)) =~= name_if(
                        "max_idle_time_ms"@,
                        o.max_idle_time_ms is Some,
                    ).union(name_if("max_pool_size"@, o.max_pool_size is Some)).union(
                        name_if("min_pool_size"@, o.min_pool_size is Some),
                    ));
                },
                None => {
                    assert(field_names(pool_options_fields(ev.options)) =~= Set::<Seq<char>>::empty());
                },
            }
        },
        _ => {},
    }
    assert(field_names(client_id_fields(attach, client_id) + cmap_fields(e)) =~= client_id_names(
        attach,
        client_id,
    ).union(cmap_field_names(e)));
}

} // verus!
