//! Events of command execution: started, succeeded and failed.

use vstd::prelude::*;

use crate::event::{
    address_fields, client_id_fields, field_lookup, field_names, group_field_names, lemma_field_names_four,
    lemma_field_names_three, name_if, lemma_lookup_absent, lemma_lookup_past, fields_view, optional_field, optional_text,
    push_address_fields, push_field, push_optional_field, start_event, FieldValue, FieldView,
    ServerAddress, TracingEvent, TracingEventValue,
};
use crate::level::TracingOrLogLevel;
use crate::payload::{serialize_command_or_reply, truncated_text};
use crate::repr::{lower_hex, object_id_representation, rendering, SerializedKind};

verus! {

broadcast use vstd::string::group_string_axioms;

/// Target of command events.
pub const COMMAND_TRACING_EVENT_TARGET: &'static str = "db.command";

/// Byte budget for serialized commands and replies when none is configured.
pub const DEFAULT_MAX_DOCUMENT_LENGTH_BYTES: usize = 1000;

/// The connection a command ran on.
#[derive(Clone, Debug)]
pub struct ConnectionInfo {
    /// The driver's identifier of the connection.
    pub id: u32,
    /// The server's identifier of the connection, when it reported one.
    pub server_id: Option<i64>,
    pub address: ServerAddress,
}

/// The classification of a command error that matters for logging.
#[derive(Clone, Copy, Debug, PartialEq, Eq, Structural)]
pub enum ErrorKind {
    /// The error text may hold sensitive data and must not be logged.
    Redacted,
    /// Any other error.
    Other,
}

/// A command error: its kind and its display text.
#[derive(Clone, Debug)]
pub struct CommandError {
    pub kind: ErrorKind,
    pub message: String,
}

/// A command was sent; `command` is its BSON encoding.
pub struct CommandStartedEvent {
    pub command: Vec<u8>,
    pub db: String,
    pub command_name: String,
    pub request_id: i32,
    pub connection: ConnectionInfo,
    pub service_id: Option<[u8; 12]>,
}

/// A command succeeded; `reply` is the BSON encoding of the server's reply.
pub struct CommandSucceededEvent {
    pub duration_ms: u64,
    pub reply: Vec<u8>,
    pub db: String,
    pub command_name: String,
    pub request_id: i32,
    pub connection: ConnectionInfo,
    pub service_id: Option<[u8; 12]>,
}

/// A command failed.
pub struct CommandFailedEvent {
    pub duration_ms: u64,
    pub db: String,
    pub command_name: String,
    pub failure: CommandError,
    pub request_id: i32,
    pub connection: ConnectionInfo,
    pub service_id: Option<[u8; 12]>,
}

/// The connection fields shared by command events.
pub open spec fn connection_fields(c: ConnectionInfo) -> Seq<FieldView> {
    seq![("driver_connection_id"@, FieldValue::I64(c.id as i64))] + optional_field(
        "server_connection_id"@,
        match c.server_id {
            Some(id) => Some(FieldValue::I64(id)),
            None => None,
        },
    ) + address_fields(c.address)
}

/// The `service_id` field, present when the event has a service identifier.
pub open spec fn service_id_field(service_id: Option<[u8; 12]>) -> Seq<FieldView> {
    optional_field(
        "service_id"@,
        match service_id {
            Some(id) => Some(FieldValue::Text(lower_hex(id@))),
            None => None,
        },
    )
}

/// The serialized form of a BSON document as it appears in a field: its
/// rendering truncated to the byte budget.
pub open spec fn payload_text(document: Seq<u8>, max_length_bytes: nat) -> Seq<char> {
    truncated_text(rendering(SerializedKind::Document, document), max_length_bytes)
}

/// The fields of a command-started event under a byte budget.
pub open spec fn command_started_fields(e: CommandStartedEvent, max_length_bytes: nat) -> Seq<
    FieldView,
> {
    seq![
        ("command"@, FieldValue::Text(payload_text(e.command@, max_length_bytes))),
        ("database_name"@, FieldValue::Text(e.db@)),
        ("command_name"@, FieldValue::Text(e.command_name@)),
        ("request_id"@, FieldValue::I64(e.request_id as i64)),
    ] + connection_fields(e.connection) + service_id_field(e.service_id)
}

/// The fields of a command-succeeded event under a byte budget.
pub open spec fn command_succeeded_fields(e: CommandSucceededEvent, max_length_bytes: nat) -> Seq<
    FieldView,
> {
    seq![
        ("reply"@, FieldValue::Text(payload_text(e.reply@, max_length_bytes))),
        ("database_name"@, FieldValue::Text(e.db@)),
        ("command_name"@, FieldValue::Text(e.command_name@)),
        ("request_id"@, FieldValue::I64(e.request_id as i64)),
    ] + connection_fields(e.connection) + service_id_field(e.service_id) + seq![
        ("duration_ms"@, FieldValue::U64(e.duration_ms)),
    ]
}

/// The `failure` field: the error's text, left out when the error is redacted.
pub open spec fn failure_field(failure: CommandError) -> Seq<FieldView> {
    if failure.kind == ErrorKind::Redacted {
        Seq::empty()
    } else {
        seq![("failure"@, FieldValue::Text(failure.message@))]
    }
}

/// The fields of a command-failed event.
pub open spec fn command_failed_fields(e: CommandFailedEvent) -> Seq<FieldView> {
    failure_field(e.failure) + seq![
        ("database_name"@, FieldValue::Text(e.db@)),
        ("command_name"@, FieldValue::Text(e.command_name@)),
        ("request_id"@, FieldValue::I64(e.request_id as i64)),
    ] + connection_fields(e.connection) + service_id_field(e.service_id) + seq![
        ("duration_ms"@, FieldValue::U64(e.duration_ms)),
    ]
}

/// Appends the connection fields of a command event.
fn push_connection_fields(fields: &mut Vec<(String, TracingEventValue)>, c: &ConnectionInfo)
    ensures
        fields_view(final(fields)@) == fields_view(old(fields)@) + connection_fields(*c),
{
    push_field(fields, "driver_connection_id", TracingEventValue::I64(c.id as i64));
    let server_id = match c.server_id {
        Some(id) => Some(TracingEventValue::I64(id)),
        None => None,
    };
    push_optional_field(fields, "server_connection_id", server_id);
    push_address_fields(fields, &c.address);
    assert(fields_view(fields@) =~= fields_view(old(fields)@) + connection_fields(*c));
}

/// Appends the `service_id` field when there is a service identifier.
fn push_service_id_field(fields: &mut Vec<(String, TracingEventValue)>, service_id: Option<[u8; 12]>)
    ensures
        fields_view(final(fields)@) == fields_view(old(fields)@) + service_id_field(service_id),
{
    let value = match service_id {
        Some(id) => Some(TracingEventValue::String(object_id_representation(id))),
        None => None,
    };
    push_optional_field(fields, "service_id", value);
}

/// The settings of an emitter as they are seen in contracts.
pub struct EmitterSettings {
    pub max_document_length_bytes: nat,
    pub client_id: Option<Seq<char>>,
    pub attach_client_id: bool,
}

/// Turns command events into debug-level records at the command target.
pub struct CommandTracingEventEmitter {
    max_document_length_bytes: usize,
    client_id: Option<String>,
    attach_client_id: bool,
}

impl View for CommandTracingEventEmitter {
    type V = EmitterSettings;

    closed spec fn view(&self) -> EmitterSettings {
        EmitterSettings {
            max_document_length_bytes: self.max_document_length_bytes as nat,
            client_id: optional_text(self.client_id),
            attach_client_id: self.attach_client_id,
        }
    }
}

impl CommandTracingEventEmitter {
    /// An emitter with the given byte budget (1000 when absent). The client
    /// identifier is kept but not attached to events.
    pub fn new(max_document_length_bytes: Option<usize>, client_id: Option<String>) -> (r:
        CommandTracingEventEmitter)
        ensures
            r@.max_document_length_bytes == match max_document_length_bytes {
                Some(n) => n as nat,
                None => DEFAULT_MAX_DOCUMENT_LENGTH_BYTES as nat,
            },
            r@.client_id == optional_text(client_id),
            !r@.attach_client_id,
    {
        let max = match max_document_length_bytes {
            Some(n) => n,
            None => DEFAULT_MAX_DOCUMENT_LENGTH_BYTES,
        };
        CommandTracingEventEmitter { max_document_length_bytes: max, client_id, attach_client_id: false }
    }

    /// Like `new`, but every event carries the client identifier, when there is
    /// one, in a `client_id` field, as test builds need.
    pub fn new_attaching_client_id(
        max_document_length_bytes: Option<usize>,
        client_id: Option<String>,
    ) -> (r: CommandTracingEventEmitter)
        ensures
            r@.max_document_length_bytes == match max_document_length_bytes {
                Some(n) => n as nat,
                None => DEFAULT_MAX_DOCUMENT_LENGTH_BYTES as nat,
            },
            r@.client_id == optional_text(client_id),
            r@.attach_client_id,
    {
        let mut r = Self::new(max_document_length_bytes, client_id);
        r.attach_client_id = true;
        r
    }

    /// The record of a command-started event.
    pub fn handle_command_started_event(&self, event: CommandStartedEvent) -> (r: TracingEvent)
        ensures
            r.level == TracingOrLogLevel::Debug,
            r.target@ == "db.command"@,
            r.message matches Some(m) && m@ == "Command started"@,
            fields_view(r.fields@) == client_id_fields(self@.attach_client_id, self@.client_id)
                + command_started_fields(event, self@.max_document_length_bytes),
    {
        let mut r = start_event(
            COMMAND_TRACING_EVENT_TARGET,
            Some("Command started"),
            self.attach_client_id,
            &self.client_id,
        );
        let command = serialize_command_or_reply(event.command.as_slice(), self.max_document_length_bytes);
        push_field(&mut r.fields, "command", TracingEventValue::String(command));
        push_field(&mut r.fields, "database_name", TracingEventValue::String(event.db.clone()));
        push_field(&mut r.fields, "command_name", TracingEventValue::String(event.command_name.clone()));
        push_field(&mut r.fields, "request_id", TracingEventValue::I64(event.request_id as i64));
        push_connection_fields(&mut r.fields, &event.connection);
        push_service_id_field(&mut r.fields, event.service_id);
        assert(fields_view(r.fields@) =~= client_id_fields(
            self@.attach_client_id,
            self@.client_id,
        ) + command_started_fields(event, self@.max_document_length_bytes));
        r
    }

    /// The record of a command-succeeded event.
    pub fn handle_command_succeeded_event(&self, event: CommandSucceededEvent) -> (r: TracingEvent)
        ensures
            r.level == TracingOrLogLevel::Debug,
            r.target@ == "db.command"@,
            r.message matches Some(m) && m@ == "Command succeeded"@,
            fields_view(r.fields@) == client_id_fields(self@.attach_client_id, self@.client_id)
                + command_succeeded_fields(event, self@.max_document_length_bytes),
    {
        let mut r = start_event(
            COMMAND_TRACING_EVENT_TARGET,
            Some("Command succeeded"),
            self.attach_client_id,
            &self.client_id,
        );
        let reply = serialize_command_or_reply(event.reply.as_slice(), self.max_document_length_bytes);
        push_field(&mut r.fields, "reply", TracingEventValue::String(reply));
        push_field(&mut r.fields, "database_name", TracingEventValue::String(event.db.clone()));
        push_field(&mut r.fields, "command_name", TracingEventValue::String(event.command_name.clone()));
        push_field(&mut r.fields, "request_id", TracingEventValue::I64(event.request_id as i64));
        push_connection_fields(&mut r.fields, &event.connection);
        push_service_id_field(&mut r.fields, event.service_id);
        push_field(&mut r.fields, "duration_ms", TracingEventValue::U64(event.duration_ms));
        assert(fields_view(r.fields@) =~= client_id_fields(
            self@.attach_client_id,
            self@.client_id,
        ) + command_succeeded_fields(event, self@.max_document_length_bytes));
        r
    }

    /// The record of a command-failed event; the `failure` field is left out
    /// when the error is redacted.
    pub fn handle_command_failed_event(&self, event: CommandFailedEvent) -> (r: TracingEvent)
        ensures
            r.level == TracingOrLogLevel::Debug,
            r.target@ == "db.command"@,
            r.message matches Some(m) && m@ == "Command failed"@,
            fields_view(r.fields@) == client_id_fields(self@.attach_client_id, self@.client_id)
                + command_failed_fields(event),
    {
        let mut r = start_event(
            COMMAND_TRACING_EVENT_TARGET,
            Some("Command failed"),
            self.attach_client_id,
            &self.client_id,
        );
        let failure = match event.failure.kind {
            ErrorKind::Redacted => None,
            ErrorKind::Other => Some(TracingEventValue::String(event.failure.message.clone())),
        };
        push_optional_field(&mut r.fields, "failure", failure);
        push_field(&mut r.fields, "database_name", TracingEventValue::String(event.db.clone()));
        push_field(&mut r.fields, "command_name", TracingEventValue::String(event.command_name.clone()));
        push_field(&mut r.fields, "request_id", TracingEventValue::I64(event.request_id as i64));
        push_connection_fields(&mut r.fields, &event.connection);
        push_service_id_field(&mut r.fields, event.service_id);
        push_field(&mut r.fields, "duration_ms", TracingEventValue::U64(event.duration_ms));
        assert(fields_view(r.fields@) =~= client_id_fields(
            self@.attach_client_id,
            self@.client_id,
        ) + command_failed_fields(event));
        r
    }
}

/// Redaction: a command-failed record carries no `failure` field when the error
/// is redacted, and otherwise its `failure` field is the error's display text.
pub proof fn lemma_redaction(attach: bool, client_id: Option<Seq<char>>, e: CommandFailedEvent)
    ensures
        e.failure.kind == ErrorKind::Redacted ==> field_lookup(
            client_id_fields(attach, client_id) + command_failed_fields(e),
            "failure"@,
        ) is None,
        e.failure.kind != ErrorKind::Redacted ==> field_lookup(
            client_id_fields(attach, client_id) + command_failed_fields(e),
            "failure"@,
        ) == Some(FieldValue::Text(e.failure.message@)),
{
    reveal_strlit("failure");
    reveal_strlit("client_id");
    reveal_strlit("database_name");
    reveal_strlit("command_name");
    reveal_strlit("request_id");
    reveal_strlit("driver_connection_id");
    reveal_strlit("server_connection_id");
    reveal_strlit("server_host");
    reveal_strlit("server_port");
    reveal_strlit("service_id");
    reveal_strlit("duration_ms");
    let client = client_id_fields(attach, client_id);
    let fields = client + command_failed_fields(e);
    let rest = seq![
        ("database_name"@, FieldValue::Text(e.db@)),
        ("command_name"@, FieldValue::Text(e.command_name@)),
        ("request_id"@, FieldValue::I64(e.request_id as i64)),
    ] + connection_fields(e.connection) + service_id_field(e.service_id) + seq![
        ("duration_ms"@, FieldValue::U64(e.duration_ms)),
    ];
    assert(forall|j: int| 0 <= j < client.len() ==> #[trigger] client[j].0 == "client_id"@);
    assert forall|j: int| 0 <= j < rest.len() implies #[trigger] rest[j].0 != "failure"@ by {
        assert(rest[j].0.len() != 7);
    }
    if e.failure.kind == ErrorKind::Redacted {
        assert(fields =~= client + rest);
        assert forall|j: int| 0 <= j < fields.len() implies #[trigger] fields[j].0 != "failure"@ by {
            if j < client.len() {
                assert(fields[j] == client[j]);
            } else {
                assert(fields[j] == rest[j - client.len()]);
            }
        }
        lemma_lookup_absent(fields, "failure"@);
    } else {
        assert(fields[client.len() as int] == ("failure"@, FieldValue::Text(e.failure.message@)));
        assert forall|j: int| 0 <= j < client.len() implies #[trigger] fields[j].0 != "failure"@ by {
            assert(fields[j] == client[j]);
        }
        lemma_lookup_past(fields, "failure"@, client.len() as int);
    }
}

/// The names of the `client_id` field: present when attached and known.
pub open spec fn client_id_names(attach: bool, client_id: Option<Seq<char>>) -> Set<Seq<char>> {
    name_if("client_id"@, attach && client_id is Some)
}

/// The names of the optional connection fields that an event has.
pub open spec fn optional_connection_names(c: ConnectionInfo, service_id: Option<[u8; 12]>) -> Set<
    Seq<char>,
> {
    name_if("server_connection_id"@, c.server_id is Some).union(
        name_if("server_port"@, c.address.port is Some),
    ).union(name_if("service_id"@, service_id is Some))
}

proof fn lemma_connection_names(c: ConnectionInfo, service_id: Option<[u8; 12]>)
    ensures
        field_names(connection_fields(c) + service_id_field(service_id)) == set![
            "driver_connection_id"@,
            "server_host"@,
        ].union(optional_connection_names(c, service_id)),
{
    broadcast use group_field_names;

    let a = c.address;
    assert(field_names(seq![("server_host"@, FieldValue::Text(a.host@))]) =~= set!["server_host"@]);
    assert(field_names(address_fields(a)) =~= set!["server_host"@].union(
        name_if("server_port"@, a.port is Some),
    ));
    assert(field_names(seq![("driver_connection_id"@, FieldValue::I64(c.id as i64))]) =~= set![
        "driver_connection_id"@,
    ]);
    assert(field_names(connection_fields(c)) =~= set!["driver_connection_id"@].union(
        name_if("server_connection_id"@, c.server_id is Some),
    ).union(set!["server_host"@].union(name_if("server_port"@, a.port is Some))));
    assert(field_names(connection_fields(c) + service_id_field(service_id)) =~= set![
        "driver_connection_id"@,
        "server_host"@,
    ].union(optional_connection_names(c, service_id)));
}

/// Field-set completeness of a command-started record: exactly the listed
/// names, the optional ones when their values are present, and `client_id`
/// when it is attached.
pub proof fn lemma_command_started_field_set(
    attach: bool,
    client_id: Option<Seq<char>>,
    e: CommandStartedEvent,
    max_length_bytes: nat,
)
    ensures
        field_names(client_id_fields(attach, client_id) + command_started_fields(e, max_length_bytes))
            == client_id_names(attach, client_id).union(
            set![
                "command"@,
                "database_name"@,
                "command_name"@,
                "request_id"@,
                "driver_connection_id"@,
                "server_host"@,
            ],
        ).union(optional_connection_names(e.connection, e.service_id)),
{
    broadcast use group_field_names;

    assert(field_names(client_id_fields(attach, client_id)) =~= client_id_names(attach, client_id));
    lemma_connection_names(e.connection, e.service_id);
    let head = seq![
        ("command"@, FieldValue::Text(payload_text(e.command@, max_length_bytes))),
        ("database_name"@, FieldValue::Text(e.db@)),
        ("command_name"@, FieldValue::Text(e.command_name@)),
        ("request_id"@, FieldValue::I64(e.request_id as i64)),
    ];
    lemma_field_names_four(head[0], head[1], head[2], head[3]);
    assert(head == seq![head[0], head[1], head[2], head[3]]);
    assert(field_names(head) =~= set!["command"@, "database_name"@, "command_name"@, "request_id"@]);
    assert(command_started_fields(e, max_length_bytes) =~= head + (connection_fields(e.connection)
        + service_id_field(e.service_id)));
    assert(field_names(client_id_fields(attach, client_id) + command_started_fields(e, max_length_bytes))
        =~= client_id_names(attach, client_id).union(
        set![
            "command"@,
            "database_name"@,
            "command_name"@,
            "request_id"@,
            "driver_connection_id"@,
            "server_host"@,
        ],
    ).union(optional_connection_names(e.connection, e.service_id)));
}

/// Field-set completeness of a command-succeeded record.
pub proof fn lemma_command_succeeded_field_set(
    attach: bool,
    client_id: Option<Seq<char>>,
    e: CommandSucceededEvent,
    max_length_bytes: nat,
)
    ensures
        field_names(client_id_fields(attach, client_id) + command_succeeded_fields(e, max_length_bytes))
            == client_id_names(attach, client_id).union(
            set![
                "reply"@,
                "database_name"@,
                "command_name"@,
                "request_id"@,
                "driver_connection_id"@,
                "server_host"@,
                "duration_ms"@,
            ],
        ).union(optional_connection_names(e.connection, e.service_id)),
{
    broadcast use group_field_names;

    assert(field_names(client_id_fields(attach, client_id)) =~= client_id_names(attach, client_id));
    lemma_connection_names(e.connection, e.service_id);
    let head = seq![
        ("reply"@, FieldValue::Text(payload_text(e.reply@, max_length_bytes))),
        ("database_name"@, FieldValue::Text(e.db@)),
        ("command_name"@, FieldValue::Text(e.command_name@)),
        ("request_id"@, FieldValue::I64(e.request_id as i64)),
    ];
    let tail = seq![("duration_ms"@, FieldValue::U64(e.duration_ms))];
    lemma_field_names_four(head[0], head[1], head[2], head[3]);
    assert(head == seq![head[0], head[1], head[2], head[3]]);
    assert(field_names(head) =~= set!["reply"@, "database_name"@, "command_name"@, "request_id"@]);
    assert(field_names(tail) =~= set!["duration_ms"@]);
    assert(command_succeeded_fields(e, max_length_bytes) =~= head + (connection_fields(e.connection)
        + service_id_field(e.service_id)) + tail);
    assert(field_names(client_id_fields(attach, client_id) + command_succeeded_fields(e, max_length_bytes))
        =~= client_id_names(attach, client_id).union(
        set![
            "reply"@,
            "database_name"@,
            "command_name"@,
            "request_id"@,
            "driver_connection_id"@,
            "server_host"@,
            "duration_ms"@,
        ],
    ).union(optional_connection_names(e.connection, e.service_id)));
}

/// Field-set completeness of a command-failed record: `failure` is among the
/// names exactly when the error is not redacted.
pub proof fn lemma_command_failed_field_set(
    attach: bool,
    client_id: Option<Seq<char>>,
    e: CommandFailedEvent,
)
    ensures
        field_names(client_id_fields(attach, client_id) + command_failed_fields(e)) == client_id_names(
            attach,
            client_id,
        ).union(name_if("failure"@, e.failure.kind != ErrorKind::Redacted)).union(
            set![
                "database_name"@,
                "command_name"@,
                "request_id"@,
                "driver_connection_id"@,
                "server_host"@,
                "duration_ms"@,
            ],
        ).union(optional_connection_names(e.connection, e.service_id)),
{
    broadcast use group_field_names;

    assert(field_names(client_id_fields(attach, client_id)) =~= client_id_names(attach, client_id));
    assert(field_names(failure_field(e.failure)) =~= name_if(
        "failure"@,
        e.failure.kind != ErrorKind::Redacted,
    ));
    lemma_connection_names(e.connection, e.service_id);
    let head = seq![
        ("database_name"@, FieldValue::Text(e.db@)),
        ("command_name"@, FieldValue::Text(e.command_name@)),
        ("request_id"@, FieldValue::I64(e.request_id as i64)),
    ];
    let tail = seq![("duration_ms"@, FieldValue::U64(e.duration_ms))];
    lemma_field_names_three(head[0], head[1], head[2]);
    assert(head == seq![head[0], head[1], head[2]]);
    assert(field_names(head) =~= set!["database_name"@, "command_name"@, "request_id"@]);
    assert(field_names(tail) =~= set!["duration_ms"@]);
    assert(command_failed_fields(e) =~= failure_field(e.failure) + head + (connection_fields(
        e.connection,
    ) + service_id_field(e.service_id)) + tail);
    assert(field_names(client_id_fields(attach, client_id) + command_failed_fields(e))
        =~= client_id_names(attach, client_id).union(
        name_if("failure"@, e.failure.kind != ErrorKind::Redacted),
    ).union(
        set![
            "database_name"@,
            "command_name"@,
            "request_id"@,
            "driver_connection_id"@,
            "server_host"@,
            "duration_ms"@,
        ],
    ).union(optional_connection_names(e.connection, e.service_id)));
}

} // verus!
