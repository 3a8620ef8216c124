use vstd::prelude::*;

use crate::config::KeyValue;
use crate::error::{config_error, BridgeError, ErrorKind};
use crate::native::{level_named, parse_level};

verus! {

/// Severity of a log event, from the most to the least severe.
#[derive(PartialEq, Eq, Structural, Clone, Copy, Debug)]
pub enum LogLevel {
    Error,
    Warn,
    Info,
    Debug,
    Trace,
}

/// One call to the host's logger: level, target (category) and message.
#[derive(Clone, Debug, PartialEq, Eq)]
pub struct LogRecord {
    pub level: String,
    pub target: String,
    pub message: String,
}

/// The level the host asked for, read as tracing reads level names: 1 to 5,
/// or "error", "warn", "info", "debug", "trace" in any ASCII case.
pub fn log_level(requested: &str) -> (r: Result<LogLevel, BridgeError>)
    ensures
        r is Ok <==> level_named(requested@) is Some,
        r matches Ok(l) ==> level_named(requested@) == Some(l),
        r matches Err(e) ==> e.kind == ErrorKind::Config && e.message@ == "invalid log level"@,
{
    match parse_level(requested) {
        Some(l) => Ok(l),
        None => Err(config_error(String::from_str("invalid log level"))),
    }
}

/// The message of an event: the value of its last field named "message", or
/// the empty string when it has none.
pub open spec fn message_of(fields: Seq<KeyValue>) -> Seq<char>
    decreases fields.len(),
{
    if fields.len() == 0 {
        Seq::empty()
    } else if fields.last().key@ == "message"@ {
        fields.last().value@
    } else {
        message_of(fields.drop_last())
    }
}

/// The logger call for an event at `level` from `target` whose recorded
/// fields are `fields`, as name and formatted value, in recording order.
pub fn log_record(level: String, target: String, fields: &Vec<KeyValue>) -> (r: LogRecord)
    ensures
        r.level@ == level@,
        r.target@ == target@,
        r.message@ == message_of(fields@),
{
    let name = String::from_str("message");
    let mut message = String::new();
    let mut i: usize = 0;
    while i < fields.len()
        invariant
            i <= fields@.len(),
            name@ == "message"@,
            message@ == message_of(fields@.subrange(0, i as int)),
        decreases fields@.len() - i,
    {
        proof {
            let next = fields@.subrange(0, i + 1);
            assert(next.drop_last() == fields@.subrange(0, i as int));
            assert(next.last() == fields@[i as int]);
        }
        if fields[i].key == name {
            message = fields[i].value.clone();
        }
        i = i + 1;
    }
    proof {
        assert(fields@.subrange(0, fields@.len() as int) == fields@);
    }
    LogRecord { level, target, message }
}

/// An event whose one field is its message reaches the logger with exactly
/// that message (the level and target pass through `log_record` unchanged).
pub proof fn lemma_message_round_trip(field: KeyValue)
    requires
        field.key@ == "message"@,
    ensures
        message_of(seq![field]) == field.value@,
{
    assert(seq![field].last() == field);
}

} // verus!
