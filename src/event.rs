//! Structured event records: a level, a component target, an optional message
//! and an ordered list of typed fields.

use vstd::prelude::*;

use crate::level::TracingOrLogLevel;
use crate::text::same_text;

verus! {

broadcast use vstd::string::group_string_axioms;

/// The value of a field of an event.
#[derive(Clone, Debug)]
pub enum TracingEventValue {
    I64(i64),
    U64(u64),
    I128(i128),
    U128(u128),
    Bool(bool),
    String(String),
}

/// What a field value stands for.
pub enum FieldValue {
    I64(i64),
    U64(u64),
    I128(i128),
    U128(u128),
    Bool(bool),
    Text(Seq<char>),
}

impl View for TracingEventValue {
    type V = FieldValue;

    open spec fn view(&self) -> FieldValue {
        match self {
            TracingEventValue::I64(v) => FieldValue::I64(*v),
            TracingEventValue::U64(v) => FieldValue::U64(*v),
            TracingEventValue::I128(v) => FieldValue::I128(*v),
            TracingEventValue::U128(v) => FieldValue::U128(*v),
            TracingEventValue::Bool(v) => FieldValue::Bool(*v),
            TracingEventValue::String(s) => FieldValue::Text(s@),
        }
    }
}

/// A named field as it is seen in contracts.
pub type FieldView = (Seq<char>, FieldValue);

/// The fields of an event as they are seen in contracts.
pub open spec fn fields_view(fields: Seq<(String, TracingEventValue)>) -> Seq<FieldView> {
    fields.map_values(|f: (String, TracingEventValue)| (f.0@, f.1@))
}

/// No field when `value` is absent, else the one field `name`.
pub open spec fn optional_field(name: Seq<char>, value: Option<FieldValue>) -> Seq<FieldView> {
    match value {
        Some(v) => seq![(name, v)],
        None => Seq::empty(),
    }
}

/// The value of the first field called `name`.
pub open spec fn field_lookup(fields: Seq<FieldView>, name: Seq<char>) -> Option<FieldValue>
    decreases fields.len(),
{
    if fields.len() == 0 {
        None
    } else if fields[0].0 == name {
        Some(fields[0].1)
    } else {
        field_lookup(fields.drop_first(), name)
    }
}

/// The names of the fields.
pub open spec fn field_names(fields: Seq<FieldView>) -> Set<Seq<char>> {
    Set::new(|n: Seq<char>| exists|i: int| 0 <= i < fields.len() && #[trigger] fields[i].0 == n)
}

/// `{name}` when the field is present, else the empty set.
pub open spec fn name_if(name: Seq<char>, present: bool) -> Set<Seq<char>> {
    if present {
        set![name]
    } else {
        Set::empty()
    }
}

pub broadcast proof fn lemma_field_names_concat(a: Seq<FieldView>, b: Seq<FieldView>)
    ensures
        #[trigger] field_names(a + b) == field_names(a).union(field_names(b)),
{
    let ab = a + b;
    assert forall|n: Seq<char>| field_names(ab).contains(n) implies field_names(a).union(
        field_names(b),
    ).contains(n) by {
        let i = choose|i: int| 0 <= i < ab.len() && #[trigger] ab[i].0 == n;
        if i < a.len() {
            assert(a[i].0 == n);
        } else {
            assert(b[i - a.len()].0 == n);
        }
    }
    assert forall|n: Seq<char>| field_names(a).union(field_names(b)).contains(n) implies field_names(
        ab,
    ).contains(n) by {
        if field_names(a).contains(n) {
            let i = choose|i: int| 0 <= i < a.len() && #[trigger] a[i].0 == n;
            assert(ab[i].0 == n);
        } else {
            let i = choose|i: int| 0 <= i < b.len() && #[trigger] b[i].0 == n;
            assert(ab[i + a.len()].0 == n);
        }
    }
    assert(field_names(ab) =~= field_names(a).union(field_names(b)));
}

pub broadcast proof fn lemma_field_names_push(a: Seq<FieldView>, f: FieldView)
    ensures
        #[trigger] field_names(a.push(f)) == field_names(a).insert(f.0),
{
    let p = a.push(f);
    assert forall|n: Seq<char>| field_names(p).contains(n) implies field_names(a).insert(
        f.0,
    ).contains(n) by {
        let i = choose|i: int| 0 <= i < p.len() && #[trigger] p[i].0 == n;
        if i < a.len() {
            assert(a[i].0 == n);
        }
    }
    assert forall|n: Seq<char>| field_names(a).insert(f.0).contains(n) implies field_names(
        p,
    ).contains(n) by {
        if n == f.0 {
            assert(p[a.len() as int].0 == n);
        } else {
            let i = choose|i: int| 0 <= i < a.len() && #[trigger] a[i].0 == n;
            assert(p[i].0 == n);
        }
    }
    assert(field_names(p) =~= field_names(a).insert(f.0));
}

pub broadcast proof fn lemma_field_names_empty(s: Seq<FieldView>)
    ensures
        s.len() == 0 ==> #[trigger] field_names(s) == Set::<Seq<char>>::empty(),
{
    assert(s.len() == 0 ==> field_names(s) =~= Set::<Seq<char>>::empty());
}

pub broadcast proof fn lemma_field_names_optional(name: Seq<char>, value: Option<FieldValue>)
    ensures
        #[trigger] field_names(optional_field(name, value)) == name_if(name, value is Some),
{
    lemma_field_names_empty(Seq::empty());
    lemma_field_names_push(Seq::empty(), (name, value->0));
    assert(seq![(name, value->0)] == Seq::<FieldView>::empty().push((name, value->0)));
    assert(Set::<Seq<char>>::empty().insert(name) =~= set![name]);
}

/// The names of the address fields.
pub open spec fn address_names(address: ServerAddress) -> Set<Seq<char>> {
    set!["server_host"@].union(name_if("server_port"@, address.port is Some))
}

pub proof fn lemma_address_names(address: ServerAddress)
    ensures
        field_names(address_fields(address)) == address_names(address),
{
    broadcast use group_field_names;

    assert(field_names(seq![("server_host"@, FieldValue::Text(address.host@))]) =~= set![
        "server_host"@,
    ]);
    assert(field_names(address_fields(address)) =~= address_names(address));
}

/// The names of two fields.
pub proof fn lemma_field_names_two(a: FieldView, b: FieldView)
    ensures
        field_names(seq![a, b]) == set![a.0, b.0],
{
    let s = seq![a, b];
    assert(s[0] == a && s[1] == b);
    assert forall|n: Seq<char>| field_names(s).contains(n) implies set![a.0, b.0].contains(n) by {
        let i = choose|i: int| 0 <= i < s.len() && #[trigger] s[i].0 == n;
    }
    assert(field_names(s).contains(a.0));
    assert(field_names(s).contains(b.0));
    assert(field_names(s) =~= set![a.0, b.0]);
}

/// The names of three fields.
pub proof fn lemma_field_names_three(a: FieldView, b: FieldView, c: FieldView)
    ensures
        field_names(seq![a, b, c]) == set![a.0, b.0, c.0],
{
    let s = seq![a, b, c];
    assert(s[0] == a && s[1] == b && s[2] == c);
    assert forall|n: Seq<char>| field_names(s).contains(n) implies set![a.0, b.0, c.0].contains(n) by {
        let i = choose|i: int| 0 <= i < s.len() && #[trigger] s[i].0 == n;
    }
    assert(field_names(s).contains(a.0));
    assert(field_names(s).contains(b.0));
    assert(field_names(s).contains(c.0));
    assert(field_names(s) =~= set![a.0, b.0, c.0]);
}

/// The names of four fields.
pub proof fn lemma_field_names_four(a: FieldView, b: FieldView, c: FieldView, d: FieldView)
    ensures
        field_names(seq![a, b, c, d]) == set![a.0, b.0, c.0, d.0],
{
    let s = seq![a, b, c, d];
    assert(s[0] == a && s[1] == b && s[2] == c && s[3] == d);
    assert forall|n: Seq<char>| field_names(s).contains(n) implies set![a.0, b.0, c.0, d.0].contains(
        n,
    ) by {
        let i = choose|i: int| 0 <= i < s.len() && #[trigger] s[i].0 == n;
    }
    assert(field_names(s).contains(a.0));
    assert(field_names(s).contains(b.0));
    assert(field_names(s).contains(c.0));
    assert(field_names(s).contains(d.0));
    assert(field_names(s) =~= set![a.0, b.0, c.0, d.0]);
}

/// The facts about field names that the field-set laws use.
pub broadcast group group_field_names {
    lemma_field_names_concat,
    lemma_field_names_push,
    lemma_field_names_empty,
    lemma_field_names_optional,
}

/// An event record.
#[derive(Clone, Debug)]
pub struct TracingEvent {
    /// The verbosity level.
    pub level: TracingOrLogLevel,
    /// The component the event belongs to.
    pub target: String,
    /// A short human-readable description, if the event has one.
    pub message: Option<String>,
    /// The named values attached to the event, in order.
    pub fields: Vec<(String, TracingEventValue)>,
}

impl TracingEvent {
    /// An event with no message and no fields.
    pub fn new(level: TracingOrLogLevel, target: String) -> (r: TracingEvent)
        ensures
            r.level == level,
            r.target == target,
            r.message.is_none(),
            r.fields@.len() == 0,
    {
        TracingEvent { level, target, message: None, fields: Vec::new() }
    }

    /// Position of the first field called `name`.
    fn position(&self, name: &str) -> (r: Option<usize>)
        ensures
            match r {
                Some(i) => i < self.fields@.len() && self.fields@[i as int].0@ == name@ && forall|
                    j: int,
                | 0 <= j < i ==> #[trigger] self.fields@[j].0@ != name@,
                None => forall|j: int|
                    0 <= j < self.fields@.len() ==> #[trigger] self.fields@[j].0@ != name@,
            },
    {
        let mut i: usize = 0;
        while i < self.fields.len()
            invariant
                i <= self.fields@.len(),
                forall|j: int| 0 <= j < i ==> #[trigger] self.fields@[j].0@ != name@,
            decreases self.fields@.len() - i,
        {
            if same_text(self.fields[i].0.as_str(), name) {
                return Some(i);
            }
            i = i + 1;
        }
        None
    }

    /// The value of the field called `name`.
    pub fn field(&self, name: &str) -> (r: Option<&TracingEventValue>)
        ensures
            match r {
                Some(v) => field_lookup(fields_view(self.fields@), name@) == Some(v@),
                None => field_lookup(fields_view(self.fields@), name@) is None,
            },
    {
        let p = self.position(name);
        proof {
            let bound = match p {
                Some(i) => i as int,
                None => self.fields@.len() as int,
            };
            lemma_lookup_past(fields_view(self.fields@), name@, bound);
        }
        match p {
            Some(i) => Some(&self.fields[i].1),
            None => None,
        }
    }

    /// The `client_id` field, when the event has one.
    pub fn client_id(&self) -> (r: Option<String>)
        requires
            field_lookup(fields_view(self.fields@), "client_id"@) matches Some(v) ==> v is Text,
        ensures
            match field_lookup(fields_view(self.fields@), "client_id"@) {
                Some(FieldValue::Text(s)) => r matches Some(t) && t@ == s,
                _ => r is None,
            },
    {
        match self.field("client_id") {
            Some(TracingEventValue::String(s)) => Some(s.clone()),
            _ => None,
        }
    }

    /// The text of the field called `field`, which must be a text field.
    pub fn get_value_as_string(&self, field: &str) -> (r: String)
        requires
            field_lookup(fields_view(self.fields@), field@) matches Some(FieldValue::Text(_)),
        ensures
            field_lookup(fields_view(self.fields@), field@) == Some(FieldValue::Text(r@)),
    {
        match self.field(field) {
            Some(TracingEventValue::String(s)) => s.clone(),
            _ => String::new(),
        }
    }

    /// Stores a value visited on an incoming event. A text value named
    /// `message` becomes the event's message; any other value replaces the
    /// first field of the same name, or is appended.
    pub fn record_field(&mut self, name: String, value: TracingEventValue)
        ensures
            final(self).level == old(self).level,
            final(self).target == old(self).target,
            (name@ == "message"@ && value is String) ==> {
                &&& final(self).message matches Some(m) && value@ == FieldValue::Text(m@)
                &&& final(self).fields == old(self).fields
            },
            !(name@ == "message"@ && value is String) ==> {
                &&& final(self).message == old(self).message
                &&& field_lookup(fields_view(final(self).fields@), name@) == Some(value@)
                &&& forall|other: Seq<char>|
                    other != name@ ==> field_lookup(fields_view(final(self).fields@), other)
                        == field_lookup(fields_view(old(self).fields@), other)
            },
    {
        if same_text(name.as_str(), "message") {
            if let TracingEventValue::String(m) = value {
                self.message = Some(m);
                return;
            }
        }
        let ghost old_view = fields_view(self.fields@);
        let ghost key = name@;
        let ghost v = value@;
        match self.position(name.as_str()) {
            Some(i) => {
                self.fields.set(i, (name, value));
                proof {
                    lemma_lookup_update(old_view, i as int, key, v);
                    assert(fields_view(self.fields@) =~= old_view.update(i as int, (key, v)));
                }
            },
            None => {
                self.fields.push((name, value));
                proof {
                    lemma_lookup_push(old_view, key, v);
                    assert(fields_view(self.fields@) =~= old_view.push((key, v)));
                }
            },
        }
    }
}

/// The value an optional field stands for.
pub open spec fn optional_view(value: Option<TracingEventValue>) -> Option<FieldValue> {
    match value {
        Some(v) => Some(v@),
        None => None,
    }
}

/// Appends the field `name` with `value`.
pub(crate) fn push_field(fields: &mut Vec<(String, TracingEventValue)>, name: &str, value: TracingEventValue)
    ensures
        fields_view(final(fields)@) == fields_view(old(fields)@).push((name@, value@)),
{
    let ghost v = value@;
    fields.push((String::from_str(name), value));
    assert(fields_view(fields@) =~= fields_view(old(fields)@).push((name@, v)));
}

/// Appends the field `name` when `value` is present.
pub(crate) fn push_optional_field(
    fields: &mut Vec<(String, TracingEventValue)>,
    name: &str,
    value: Option<TracingEventValue>,
)
    ensures
        fields_view(final(fields)@) == fields_view(old(fields)@) + optional_field(
            name@,
            optional_view(value),
        ),
{
    match value {
        Some(v) => push_field(fields, name, v),
        None => {
            assert(fields_view(fields@) =~= fields_view(fields@) + Seq::<FieldView>::empty());
        },
    }
}

/// The address of a server: a host name, or a socket path with no port.
#[derive(Debug)]
pub struct ServerAddress {
    pub host: String,
    pub port: Option<u16>,
}

impl Clone for ServerAddress {
    fn clone(&self) -> (r: ServerAddress)
        ensures
            r == *self,
    {
        ServerAddress { host: self.host.clone(), port: self.port }
    }
}

/// The `server_host` and `server_port` fields of an address.
pub open spec fn address_fields(address: ServerAddress) -> Seq<FieldView> {
    seq![("server_host"@, FieldValue::Text(address.host@))] + optional_field(
        "server_port"@,
        match address.port {
            Some(p) => Some(FieldValue::U64(p as u64)),
            None => None,
        },
    )
}

/// Appends the `server_host` and `server_port` fields of `address`.
pub(crate) fn push_address_fields(fields: &mut Vec<(String, TracingEventValue)>, address: &ServerAddress)
    ensures
        fields_view(final(fields)@) == fields_view(old(fields)@) + address_fields(*address),
{
    push_field(fields, "server_host", TracingEventValue::String(address.host.clone()));
    let port = match address.port {
        Some(p) => Some(TracingEventValue::U64(p as u64)),
        None => None,
    };
    push_optional_field(fields, "server_port", port);
    assert(fields_view(fields@) =~= fields_view(old(fields)@) + address_fields(*address));
}

/// Whether `r` is a debug-level record for `target` with `message` and
/// exactly the fields `fields`.
pub open spec fn is_debug_record(
    r: TracingEvent,
    target: Seq<char>,
    message: Option<Seq<char>>,
    fields: Seq<FieldView>,
) -> bool {
    &&& r.level == TracingOrLogLevel::Debug
    &&& r.target@ == target
    &&& optional_text(r.message) == message
    &&& fields_view(r.fields@) == fields
}

/// The text of an optional string.
pub open spec fn optional_text(s: Option<String>) -> Option<Seq<char>> {
    match s {
        Some(t) => Some(t@),
        None => None,
    }
}

/// The `client_id` field: present when the emitter attaches client identifiers
/// and has one.
pub open spec fn client_id_fields(attach: bool, client_id: Option<Seq<char>>) -> Seq<FieldView> {
    if attach {
        match client_id {
            Some(id) => seq![("client_id"@, FieldValue::Text(id))],
            None => Seq::empty(),
        }
    } else {
        Seq::empty()
    }
}

/// A debug-level event for `target`, with `message` and the `client_id` field
/// when it is attached.
pub(crate) fn start_event(
    target: &str,
    message: Option<&str>,
    attach: bool,
    client_id: &Option<String>,
) -> (r: TracingEvent)
    ensures
        r.level == TracingOrLogLevel::Debug,
        r.target@ == target@,
        match message {
            Some(m) => r.message matches Some(rm) && rm@ == m@,
            None => r.message is None,
        },
        fields_view(r.fields@) == client_id_fields(attach, optional_text(*client_id)),
{
    let mut fields: Vec<(String, TracingEventValue)> = Vec::new();
    if attach {
        match client_id {
            Some(id) => push_field(&mut fields, "client_id", TracingEventValue::String(id.clone())),
            None => {},
        }
    }
    assert(fields_view(fields@) =~= client_id_fields(attach, optional_text(*client_id)));
    let message = match message {
        Some(m) => Some(String::from_str(m)),
        None => None,
    };
    TracingEvent {
        level: TracingOrLogLevel::Debug,
        target: String::from_str(target),
        message,
        fields,
    }
}

/// A lookup finds nothing when no field has the name.
pub(crate) proof fn lemma_lookup_absent(fields: Seq<FieldView>, name: Seq<char>)
    requires
        forall|j: int| 0 <= j < fields.len() ==> #[trigger] fields[j].0 != name,
    ensures
        field_lookup(fields, name) is None,
{
    lemma_lookup_past(fields, name, fields.len() as int);
}

pub(crate) proof fn lemma_lookup_past(fields: Seq<FieldView>, name: Seq<char>, bound: int)
    requires
        0 <= bound <= fields.len(),
        forall|j: int| 0 <= j < bound ==> #[trigger] fields[j].0 != name,
    ensures
        bound < fields.len() && fields[bound].0 == name ==> field_lookup(fields, name) == Some(
            fields[bound].1,
        ),
        bound == fields.len() ==> field_lookup(fields, name) is None,
    decreases bound,
{
    if bound > 0 {
        assert(fields[0].0 != name);
        assert forall|j: int| 0 <= j < bound - 1 implies #[trigger] fields.drop_first()[j].0
            != name by {
            assert(fields[j + 1].0 != name);
        }
        lemma_lookup_past(fields.drop_first(), name, bound - 1);
    }
}

proof fn lemma_lookup_update(fields: Seq<FieldView>, i: int, name: Seq<char>, v: FieldValue)
    requires
        0 <= i < fields.len(),
        fields[i].0 == name,
        forall|j: int| 0 <= j < i ==> #[trigger] fields[j].0 != name,
    ensures
        field_lookup(fields.update(i, (name, v)), name) == Some(v),
        forall|other: Seq<char>|
            other != name ==> field_lookup(fields.update(i, (name, v)), other) == field_lookup(
                fields,
                other,
            ),
    decreases i,
{
    let u = fields.update(i, (name, v));
    if i == 0 {
        assert(u.drop_first() =~= fields.drop_first());
    } else {
        assert(u.drop_first() =~= fields.drop_first().update(i - 1, (name, v)));
        assert forall|j: int| 0 <= j < i - 1 implies #[trigger] fields.drop_first()[j].0
            != name by {
            assert(fields[j + 1].0 != name);
        }
        lemma_lookup_update(fields.drop_first(), i - 1, name, v);
        assert(fields[0].0 != name);
    }
    assert forall|other: Seq<char>| other != name implies field_lookup(u, other) == field_lookup(
        fields,
        other,
    ) by {
        if i == 0 {
            assert(u[0].0 == name);
            assert(u.drop_first() == fields.drop_first());
        } else {
            assert(u[0] == fields[0]);
            let d = fields.drop_first().update(i - 1, (name, v));
            assert(u.drop_first() == d);
            assert(field_lookup(d, other) == field_lookup(fields.drop_first(), other));
        }
    }
}

proof fn lemma_lookup_push(fields: Seq<FieldView>, name: Seq<char>, v: FieldValue)
    requires
        forall|j: int| 0 <= j < fields.len() ==> #[trigger] fields[j].0 != name,
    ensures
        field_lookup(fields.push((name, v)), name) == Some(v),
        forall|other: Seq<char>|
            other != name ==> field_lookup(fields.push((name, v)), other) == field_lookup(
                fields,
                other,
            ),
    decreases fields.len(),
{
    let p = fields.push((name, v));
    if fields.len() > 0 {
        assert(p.drop_first() =~= fields.drop_first().push((name, v)));
        assert forall|j: int| 0 <= j < fields.len() - 1 implies #[trigger] fields.drop_first()[j].0
            != name by {
            assert(fields[j + 1].0 != name);
        }
        lemma_lookup_push(fields.drop_first(), name, v);
    } else {
        assert(p.drop_first() =~= Seq::<FieldView>::empty());
    }
    assert forall|other: Seq<char>| other != name implies field_lookup(p, other) == field_lookup(
        fields,
        other,
    ) by {
        if fields.len() > 0 {
            assert(p[0] == fields[0]);
            let d = fields.drop_first().push((name, v));
            assert(p.drop_first() == d);
            assert(field_lookup(d, other) == field_lookup(fields.drop_first(), other));
        } else {
            assert(field_lookup(p.drop_first(), other) is None);
        }
    }
}

} // verus!
