//! Verbosity levels, their order, and their counterparts in the `log` and
//! `tracing` facades.

use vstd::prelude::*;

verus! {

broadcast use vstd::string::group_string_axioms;

/// The level type of the `tracing` crate, opaque here.
#[verifier::external_type_specification]
#[verifier::external_body]
pub struct ExTracingLevel(tracing::Level);

/// The level type of the `log` crate: an enum of five unit variants, which
/// Verus reads as declared.
#[verifier::external_type_specification]
pub struct ExLogLevel(log::Level);

/// A verbosity level, from the most severe to the most verbose.
#[derive(Clone, Copy, Debug, PartialEq, Eq, Structural)]
pub enum TracingOrLogLevel {
    Error,
    Warn,
    Info,
    Debug,
    Trace,
}

/// Position of a level on the verbosity axis: `Error` is least verbose.
pub open spec fn verbosity(level: TracingOrLogLevel) -> nat {
    match level {
        TracingOrLogLevel::Error => 0,
        TracingOrLogLevel::Warn => 1,
        TracingOrLogLevel::Info => 2,
        TracingOrLogLevel::Debug => 3,
        TracingOrLogLevel::Trace => 4,
    }
}

/// The more verbose of two levels.
pub open spec fn more_verbose(a: TracingOrLogLevel, b: TracingOrLogLevel) -> TracingOrLogLevel {
    if verbosity(a) >= verbosity(b) {
        a
    } else {
        b
    }
}

/// The lowercase name of a level.
pub open spec fn level_name(level: TracingOrLogLevel) -> Seq<char> {
    match level {
        TracingOrLogLevel::Error => "error"@,
        TracingOrLogLevel::Warn => "warn"@,
        TracingOrLogLevel::Info => "info"@,
        TracingOrLogLevel::Debug => "debug"@,
        TracingOrLogLevel::Trace => "trace"@,
    }
}

/// Whether `s` is one of the five lowercase level names.
pub open spec fn is_level_name(s: Seq<char>) -> bool {
    s == "error"@ || s == "warn"@ || s == "info"@ || s == "debug"@ || s == "trace"@
}

/// The `tracing` level that parsing the given name yields.
pub uninterp spec fn tracing_level_named(name: Seq<char>) -> tracing::Level;

/// Relies on `tracing::Level`'s `FromStr`, which maps the five lowercase level
/// names to the five distinct constants `ERROR`, `WARN`, `INFO`, `DEBUG` and
/// `TRACE`.
#[verifier::external_body]
fn parse_tracing_level(name: &str) -> (r: Option<tracing::Level>)
    requires
        is_level_name(name@),
    ensures
        r == Some(tracing_level_named(name@)),
        r matches Some(level) && forall|other: Seq<char>|
            is_level_name(other) && other != name@ ==> #[trigger] tracing_level_named(other)
                != level,
{
    name.parse::<tracing::Level>().ok()
}

impl TracingOrLogLevel {
    /// The lowercase name of this level.
    pub fn name(&self) -> (r: &'static str)
        ensures
            r@ == level_name(*self),
    {
        match self {
            TracingOrLogLevel::Error => "error",
            TracingOrLogLevel::Warn => "warn",
            TracingOrLogLevel::Info => "info",
            TracingOrLogLevel::Debug => "debug",
            TracingOrLogLevel::Trace => "trace",
        }
    }

    /// Whether an event at this level passes a filter whose most verbose
    /// accepted level is `max`.
    pub fn is_enabled_by(&self, max: &TracingOrLogLevel) -> (r: bool)
        ensures
            r == (verbosity(*self) <= verbosity(*max)),
    {
        self.rank() <= max.rank()
    }

    /// The more verbose of `self` and `other`.
    pub fn max_verbosity(self, other: TracingOrLogLevel) -> (r: TracingOrLogLevel)
        ensures
            r == more_verbose(self, other),
    {
        if self.rank() >= other.rank() {
            self
        } else {
            other
        }
    }

    fn rank(&self) -> (r: u8)
        ensures
            r as nat == verbosity(*self),
    {
        match self {
            TracingOrLogLevel::Error => 0,
            TracingOrLogLevel::Warn => 1,
            TracingOrLogLevel::Info => 2,
            TracingOrLogLevel::Debug => 3,
            TracingOrLogLevel::Trace => 4,
        }
    }

    /// The corresponding level of the `log` facade.
    pub fn as_log_level(&self) -> (r: log::Level)
        ensures
            r == match *self {
                TracingOrLogLevel::Error => log::Level::Error,
                TracingOrLogLevel::Warn => log::Level::Warn,
                TracingOrLogLevel::Info => log::Level::Info,
                TracingOrLogLevel::Debug => log::Level::Debug,
                TracingOrLogLevel::Trace => log::Level::Trace,
            },
    {
        match self {
            TracingOrLogLevel::Error => log::Level::Error,
            TracingOrLogLevel::Warn => log::Level::Warn,
            TracingOrLogLevel::Info => log::Level::Info,
            TracingOrLogLevel::Debug => log::Level::Debug,
            TracingOrLogLevel::Trace => log::Level::Trace,
        }
    }

    /// The corresponding level of the `tracing` facade.
    pub fn as_tracing_level(&self) -> (r: tracing::Level)
        ensures
            r == tracing_level_named(level_name(*self)),
            forall|other: TracingOrLogLevel|
                other != *self ==> #[trigger] tracing_level_named(level_name(other)) != r,
    {
        proof {
            reveal_strlit("error");
            reveal_strlit("warn");
            reveal_strlit("info");
            reveal_strlit("debug");
            reveal_strlit("trace");
        }
        let r = parse_tracing_level(self.name()).unwrap();
        assert forall|other: TracingOrLogLevel| other != *self implies #[trigger] tracing_level_named(
            level_name(other),
        ) != r by {
            assert(is_level_name(level_name(other)));
            assert(level_name(other) != level_name(*self)) by {
                match (other, *self) {
                    (TracingOrLogLevel::Error, _) => assert(level_name(other)[0] == 'e'),
                    (TracingOrLogLevel::Warn, _) => assert(level_name(other)[0] == 'w'),
                    (TracingOrLogLevel::Info, _) => assert(level_name(other)[0] == 'i'),
                    (TracingOrLogLevel::Debug, _) => assert(level_name(other)[0] == 'd'),
                    (TracingOrLogLevel::Trace, _) => assert(level_name(other)[0] == 't'),
                }
            }
        }
        r
    }
}

} // verus!
