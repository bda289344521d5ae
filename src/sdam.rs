//! Events of server discovery and monitoring.

use vstd::prelude::*;

use crate::command::DEFAULT_MAX_DOCUMENT_LENGTH_BYTES;
use crate::event::{
    address_fields, address_names, client_id_fields, field_names, group_field_names,
    lemma_address_names, lemma_field_names_two, fields_view, is_debug_record, optional_text,
    push_address_fields, push_field, start_event, FieldValue, FieldView, ServerAddress,
    TracingEvent, TracingEventValue,
};
use crate::payload::serialize_command_or_reply;
use crate::repr::{
    description_representation, description_rendering, lower_hex, object_id_representation,
    SerializedKind,
};
use crate::command::{client_id_names, payload_text, EmitterSettings};

verus! {

broadcast use vstd::string::group_string_axioms;

/// Target of server discovery and monitoring events.
pub const SDAM_TRACING_EVENT_TARGET: &'static str = "db.sdam";

/// A description as handed to the emitter: the BSON bytes of its serializable
/// projection, or the text of the error that serializing it gave.
pub type SerializedDescription = Result<Vec<u8>, String>;

/// The description of a server changed.
pub struct ServerDescriptionChangedEvent {
    pub address: ServerAddress,
    pub topology_id: [u8; 12],
    pub previous_description: SerializedDescription,
    pub new_description: SerializedDescription,
}

/// A server is being monitored.
pub struct ServerOpeningEvent {
    pub address: ServerAddress,
    pub topology_id: [u8; 12],
}

/// A server is no longer monitored.
pub struct ServerClosedEvent {
    pub address: ServerAddress,
    pub topology_id: [u8; 12],
}

/// The description of the topology changed.
pub struct TopologyDescriptionChangedEvent {
    pub topology_id: [u8; 12],
    pub previous_description: SerializedDescription,
    pub new_description: SerializedDescription,
}

/// A topology is being monitored.
pub struct TopologyOpeningEvent {
    pub topology_id: [u8; 12],
}

/// A topology is no longer monitored.
pub struct TopologyClosedEvent {
    pub topology_id: [u8; 12],
}

/// A heartbeat was sent.
pub struct ServerHeartbeatStartedEvent {
    pub server_address: ServerAddress,
}

/// A heartbeat succeeded; `reply` is the BSON encoding of the server's reply.
pub struct ServerHeartbeatSucceededEvent {
    pub duration_ms: u64,
    pub reply: Vec<u8>,
    pub server_address: ServerAddress,
}

/// A heartbeat failed.
pub struct ServerHeartbeatFailedEvent {
    pub duration_ms: u64,
    pub server_address: ServerAddress,
}

/// The `topology_id` field.
pub open spec fn topology_id_field(id: [u8; 12]) -> Seq<FieldView> {
    seq![("topology_id"@, FieldValue::Text(lower_hex(id@)))]
}

/// The fields of a description change, given the two renderings.
pub open spec fn description_fields(previous: Seq<char>, new: Seq<char>) -> Seq<FieldView> {
    seq![
        ("previous_description"@, FieldValue::Text(previous)),
        ("new_description"@, FieldValue::Text(new)),
    ]
}

/// The `awaited` field, which is always false for now.
pub open spec fn awaited_field() -> Seq<FieldView> {
    seq![("awaited"@, FieldValue::Bool(false))]
}

/// The duration and reply fields of a successful heartbeat.
pub open spec fn heartbeat_reply_fields(duration_ms: u64, reply: Seq<char>) -> Seq<FieldView> {
    seq![("duration_ms"@, FieldValue::U64(duration_ms)), ("reply"@, FieldValue::Text(reply))]
}

/// Turns server discovery and monitoring events into debug-level records at
/// the SDAM target. These records have no message.
pub struct SdamTracingEventEmitter {
    max_document_length_bytes: usize,
    client_id: Option<String>,
    attach_client_id: bool,
}

impl View for SdamTracingEventEmitter {
    type V = EmitterSettings;

    closed spec fn view(&self) -> EmitterSettings {
        EmitterSettings {
            max_document_length_bytes: self.max_document_length_bytes as nat,
            client_id: optional_text(self.client_id),
            attach_client_id: self.attach_client_id,
        }
    }
}

impl SdamTracingEventEmitter {
    /// An emitter with the given byte budget for heartbeat replies (1000 when
    /// absent) that keeps the client identifier without attaching it.
    pub fn new(max_document_length_bytes: Option<usize>, client_id: Option<String>) -> (r:
        SdamTracingEventEmitter)
        ensures
            r@.max_document_length_bytes == match max_document_length_bytes {
                Some(n) => n as nat,
                None => DEFAULT_MAX_DOCUMENT_LENGTH_BYTES as nat,
            },
            r@.client_id == optional_text(client_id),
            !r@.attach_client_id,
    {
        let max = match max_document_length_bytes {
            Some(n) => n,
            None => DEFAULT_MAX_DOCUMENT_LENGTH_BYTES,
        };
        SdamTracingEventEmitter { max_document_length_bytes: max, client_id, attach_client_id: false }
    }

    /// Like `new`, but every event carries the client identifier, when there is
    /// one, in a `client_id` field, as test builds need.
    pub fn new_attaching_client_id(
        max_document_length_bytes: Option<usize>,
        client_id: Option<String>,
    ) -> (r: SdamTracingEventEmitter)
        ensures
            r@.max_document_length_bytes == match max_document_length_bytes {
                Some(n) => n as nat,
                None => DEFAULT_MAX_DOCUMENT_LENGTH_BYTES as nat,
            },
            r@.client_id == optional_text(client_id),
            r@.attach_client_id,
    {
        let mut r = Self::new(max_document_length_bytes, client_id);
        r.attach_client_id = true;
        r
    }

    /// The `client_id` field of this emitter's records.
    pub open spec fn client_fields(&self) -> Seq<FieldView> {
        client_id_fields(self@.attach_client_id, self@.client_id)
    }

    fn empty_record(&self) -> (r: TracingEvent)
        ensures
            is_debug_record(r, "db.sdam"@, None, self.client_fields()),
    {
        start_event(SDAM_TRACING_EVENT_TARGET, None, self.attach_client_id, &self.client_id)
    }

    fn server_record(&self, address: &ServerAddress, topology_id: [u8; 12]) -> (r: TracingEvent)
        ensures
            is_debug_record(
                r,
                "db.sdam"@,
                None,
                self.client_fields() + address_fields(*address) + topology_id_field(topology_id),
            ),
    {
        let mut r = self.empty_record();
        push_address_fields(&mut r.fields, address);
        let ghost before = fields_view(r.fields@);
        let id = object_id_representation(topology_id);
        push_field(&mut r.fields, "topology_id", TracingEventValue::String(id));
        assert(fields_view(r.fields@) =~= before + topology_id_field(topology_id));
        r
    }

    fn topology_record(&self, topology_id: [u8; 12]) -> (r: TracingEvent)
        ensures
            is_debug_record(
                r,
                "db.sdam"@,
                None,
                self.client_fields() + topology_id_field(topology_id),
            ),
    {
        let mut r = self.empty_record();
        let ghost before = fields_view(r.fields@);
        let id = object_id_representation(topology_id);
        push_field(&mut r.fields, "topology_id", TracingEventValue::String(id));
        assert(fields_view(r.fields@) =~= before + topology_id_field(topology_id));
        r
    }

    /// Appends the two description fields.
    fn push_descriptions(
        fields: &mut Vec<(String, TracingEventValue)>,
        kind: SerializedKind,
        previous: &SerializedDescription,
        new: &SerializedDescription,
    )
        ensures
            fields_view(final(fields)@) == fields_view(old(fields)@) + description_fields(
                description_rendering(kind, *previous),
                description_rendering(kind, *new),
            ),
    {
        let p = description_representation(kind, previous);
        let n = description_representation(kind, new);
        push_field(fields, "previous_description", TracingEventValue::String(p));
        push_field(fields, "new_description", TracingEventValue::String(n));
        assert(fields_view(fields@) =~= fields_view(old(fields)@) + description_fields(
            description_rendering(kind, *previous),
            description_rendering(kind, *new),
        ));
    }

    /// The record of a server description change, with both descriptions rendered.
    pub fn handle_server_description_changed_event(&self, event: ServerDescriptionChangedEvent) -> (r:
        TracingEvent)
        ensures
            is_debug_record(
                r,
                "db.sdam"@,
                None,
                self.client_fields() + address_fields(event.address) + topology_id_field(
                    event.topology_id,
                ) + description_fields(
                    description_rendering(
                        SerializedKind::ServerDescription,
                        event.previous_description,
                    ),
                    description_rendering(SerializedKind::ServerDescription, event.new_description),
                ),
            ),
    {
        let mut r = self.server_record(&event.address, event.topology_id);
        Self::push_descriptions(
            &mut r.fields,
            SerializedKind::ServerDescription,
            &event.previous_description,
            &event.new_description,
        );
        r
    }

    /// The record of a server-opening event.
    pub fn handle_server_opening_event(&self, event: ServerOpeningEvent) -> (r: TracingEvent)
        ensures
            is_debug_record(
                r,
                "db.sdam"@,
                None,
                self.client_fields() + address_fields(event.address) + topology_id_field(
                    event.topology_id,
                ),
            ),
    {
        self.server_record(&event.address, event.topology_id)
    }

    /// The record of a server-closed event.
    pub fn handle_server_closed_event(&self, event: ServerClosedEvent) -> (r: TracingEvent)
        ensures
            is_debug_record(
                r,
                "db.sdam"@,
                None,
                self.client_fields() + address_fields(event.address) + topology_id_field(
                    event.topology_id,
                ),
            ),
    {
        self.server_record(&event.address, event.topology_id)
    }

    /// The record of a topology description change, with both descriptions rendered.
    pub fn handle_topology_description_changed_event(
        &self,
        event: TopologyDescriptionChangedEvent,
    ) -> (r: TracingEvent)
        ensures
            is_debug_record(
                r,
                "db.sdam"@,
                None,
                self.client_fields() + topology_id_field(event.topology_id) + description_fields(
                    description_rendering(
                        SerializedKind::TopologyDescription,
                        event.previous_description,
                    ),
                    description_rendering(
                        SerializedKind::TopologyDescription,
                        event.new_description,
                    ),
                ),
            ),
    {
        let mut r = self.topology_record(event.topology_id);
        Self::push_descriptions(
            &mut r.fields,
            SerializedKind::TopologyDescription,
            &event.previous_description,
            &event.new_description,
        );
        r
    }

    /// The record of a topology-opening event.
    pub fn handle_topology_opening_event(&self, event: TopologyOpeningEvent) -> (r: TracingEvent)
        ensures
            is_debug_record(
                r,
                "db.sdam"@,
                None,
                self.client_fields() + topology_id_field(event.topology_id),
            ),
    {
        self.topology_record(event.topology_id)
    }

    /// The record of a topology-closed event.
    pub fn handle_topology_closed_event(&self, event: TopologyClosedEvent) -> (r: TracingEvent)
        ensures
            is_debug_record(
                r,
                "db.sdam"@,
                None,
                self.client_fields() + topology_id_field(event.topology_id),
            ),
    {
        self.topology_record(event.topology_id)
    }

    /// The record of a heartbeat-started event.
    pub fn handle_server_heartbeat_started_event(&self, event: ServerHeartbeatStartedEvent) -> (r:
        TracingEvent)
        ensures
            is_debug_record(
                r,
                "db.sdam"@,
                None,
                self.client_fields() + address_fields(event.server_address) + awaited_field(),
            ),
    {
        let mut r = self.empty_record();
        push_address_fields(&mut r.fields, &event.server_address);
        let ghost before = fields_view(r.fields@);
        push_field(&mut r.fields, "awaited", TracingEventValue::Bool(false));
        assert(fields_view(r.fields@) =~= before + awaited_field());
        r
    }

    /// The record of a successful heartbeat, with the reply truncated to the byte budget.
    pub fn handle_server_heartbeat_succeeded_event(&self, event: ServerHeartbeatSucceededEvent) -> (r:
        TracingEvent)
        ensures
            is_debug_record(
                r,
                "db.sdam"@,
                None,
                self.client_fields() + address_fields(event.server_address) + heartbeat_reply_fields(
                    event.duration_ms,
                    payload_text(event.reply@, self@.max_document_length_bytes),
                ) + awaited_field(),
            ),
    {
        let mut r = self.empty_record();
        push_address_fields(&mut r.fields, &event.server_address);
        let ghost before = fields_view(r.fields@);
        push_field(&mut r.fields, "duration_ms", TracingEventValue::U64(event.duration_ms));
        let reply = serialize_command_or_reply(event.reply.as_slice(), self.max_document_length_bytes);
        push_field(&mut r.fields, "reply", TracingEventValue::String(reply));
        push_field(&mut r.fields, "awaited", TracingEventValue::Bool(false));
        let ghost middle = heartbeat_reply_fields(
            event.duration_ms,
            payload_text(event.reply@, self@.max_document_length_bytes),
        );
        assert(fields_view(r.fields@) =~= before + middle + awaited_field());
        r
    }

    /// The record of a failed heartbeat.
    pub fn handle_server_heartbeat_failed_event(&self, event: ServerHeartbeatFailedEvent) -> (r:
        TracingEvent)
        ensures
            is_debug_record(
                r,
                "db.sdam"@,
                None,
                self.client_fields() + address_fields(event.server_address) + seq![
                    ("duration_ms"@, FieldValue::U64(event.duration_ms)),
                ] + awaited_field(),
            ),
    {
        let mut r = self.empty_record();
        push_address_fields(&mut r.fields, &event.server_address);
        let ghost before = fields_view(r.fields@);
        push_field(&mut r.fields, "duration_ms", TracingEventValue::U64(event.duration_ms));
        push_field(&mut r.fields, "awaited", TracingEventValue::Bool(false));
        assert(fields_view(r.fields@) =~= before + seq![
            ("duration_ms"@, FieldValue::U64(event.duration_ms)),
        ] + awaited_field());
        r
    }
}

/// Field-set completeness of server discovery and monitoring records: server
/// events carry the address and `topology_id`, topology events `topology_id`
/// alone, description changes add both descriptions, and heartbeats carry the
/// address and `awaited`, with `duration_ms` once finished and `reply` on
/// success; `client_id` joins them when it is attached.
pub proof fn lemma_sdam_field_sets(
    attach: bool,
    client_id: Option<Seq<char>>,
    address: ServerAddress,
    topology_id: [u8; 12],
    previous: Seq<char>,
    new: Seq<char>,
    duration_ms: u64,
    reply: Seq<char>,
)
    ensures
        field_names(client_id_fields(attach, client_id) + address_fields(address) + topology_id_field(
            topology_id,
        )) == client_id_names(attach, client_id).union(address_names(address)).insert(
            "topology_id"@,
        ),
        field_names(client_id_fields(attach, client_id) + address_fields(address) + topology_id_field(
            topology_id,
        ) + description_fields(previous, new)) == client_id_names(attach, client_id).union(
            address_names(address),
        ).insert("topology_id"@).insert("previous_description"@).insert("new_description"@),
        field_names(client_id_fields(attach, client_id) + topology_id_field(topology_id))
            == client_id_names(attach, client_id).insert("topology_id"@),
        field_names(client_id_fields(attach, client_id) + topology_id_field(topology_id)
            + description_fields(previous, new)) == client_id_names(attach, client_id).insert(
            "topology_id"@,
        ).insert("previous_description"@).insert("new_description"@),
        field_names(client_id_fields(attach, client_id) + address_fields(address) + awaited_field())
            == client_id_names(attach, client_id).union(address_names(address)).insert("awaited"@),
        field_names(client_id_fields(attach, client_id) + address_fields(address)
            + heartbeat_reply_fields(duration_ms, reply) + awaited_field()) == client_id_names(
            attach,
            client_id,
        ).union(address_names(address)).insert("duration_ms"@).insert("reply"@).insert("awaited"@),
        field_names(client_id_fields(attach, client_id) + address_fields(address) + seq![
            ("duration_ms"@, FieldValue::U64(duration_ms)),
        ] + awaited_field()) == client_id_names(attach, client_id).union(address_names(address)).insert(
            "duration_ms"@,
        ).insert("awaited"@),
{
    broadcast use group_field_names;

    let c = client_id_fields(attach, client_id);
    let a = address_fields(address);
    assert(field_names(c) =~= client_id_names(attach, client_id));
    lemma_address_names(address);
    assert(field_names(topology_id_field(topology_id)) =~= set!["topology_id"@]);
    assert(field_names(awaited_field()) =~= set!["awaited"@]);
    assert(field_names(seq![("duration_ms"@, FieldValue::U64(duration_ms))]) =~= set!["duration_ms"@]);
    lemma_field_names_two(
        ("previous_description"@, FieldValue::Text(previous)),
        ("new_description"@, FieldValue::Text(new)),
    );
    lemma_field_names_two(("duration_ms"@, FieldValue::U64(duration_ms)), ("reply"@, FieldValue::Text(reply)));
    assert(field_names(description_fields(previous, new)) =~= set![
        "previous_description"@,
        "new_description"@,
    ]);
    assert(field_names(heartbeat_reply_fields(duration_ms, reply)) =~= set!["duration_ms"@, "reply"@]);
    assert(field_names(c + a + topology_id_field(topology_id)) =~= client_id_names(
        attach,
        client_id,
    ).union(address_names(address)).insert("topology_id"@));
    assert(field_names(c + a + topology_id_field(topology_id) + description_fields(previous, new))
        =~= client_id_names(attach, client_id).union(address_names(address)).insert(
        "topology_id"@,
    ).insert("previous_description"@).insert("new_description"@));
    assert(field_names(c + topology_id_field(topology_id)) =~= client_id_names(
        attach,
        client_id,
    ).insert("topology_id"@));
    assert(field_names(c + topology_id_field(topology_id) + description_fields(previous, new))
        =~= client_id_names(attach, client_id).insert("topology_id"@).insert(
        "previous_description"@,
    ).insert("new_description"@));
    assert(field_names(c + a + awaited_field()) =~= client_id_names(attach, client_id).union(
        address_names(address),
    ).insert("awaited"@));
    assert(field_names(c + a + heartbeat_reply_fields(duration_ms, reply) + awaited_field())
        =~= client_id_names(attach, client_id).union(address_names(address)).insert(
        "duration_ms"@,
    ).insert("reply"@).insert("awaited"@));
    assert(field_names(c + a + seq![("duration_ms"@, FieldValue::U64(duration_ms))] + awaited_field())
        =~= client_id_names(attach, client_id).union(address_names(address)).insert(
        "duration_ms"@,
    ).insert("awaited"@));
}

} // verus!
