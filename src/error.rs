use vstd::prelude::*;

verus! {

/// The class of a failure seen by the host.
#[derive(PartialEq, Eq, Structural, Clone, Copy, Debug)]
pub enum ErrorKind {
    /// Contradictory or invalid builder fields, found before any native call.
    Config,
    /// A failure reported by the native client (connect, listen, read, ...).
    Operational,
    /// The host object holds no native resource (never installed, or taken).
    NoNativeResource,
}

/// The single error type handed back to the host: a kind and a readable message.
#[derive(Clone, Debug)]
pub struct BridgeError {
    pub kind: ErrorKind,
    pub message: String,
}

/// The text of an optional string.
pub open spec fn opt_view(o: Option<String>) -> Option<Seq<char>> {
    match o {
        Some(s) => Some(s@),
        None => None,
    }
}

/// Text of an error raised by the ngrok client: the provider's code, a blank
/// line and the message when there is a code; the message alone otherwise.
pub open spec fn provider_text(code: Option<Seq<char>>, msg: Seq<char>) -> Seq<char> {
    match code {
        Some(c) => c + "\n\n"@ + msg,
        None => msg,
    }
}

/// A result with its error seen as kind and text.
pub open spec fn result_view<T>(r: Result<T, BridgeError>) -> Result<T, (ErrorKind, Seq<char>)> {
    match r {
        Ok(v) => Ok(v),
        Err(e) => Err((e.kind, e.message@)),
    }
}

/// An operational failure with the given text.
pub open spec fn failed<T>(text: Seq<char>) -> Result<T, (ErrorKind, Seq<char>)> {
    Err((ErrorKind::Operational, text))
}

impl BridgeError {
    pub fn new(kind: ErrorKind, message: String) -> (r: BridgeError)
        ensures
            r.kind == kind,
            r.message@ == message@,
    {
        BridgeError { kind, message }
    }

    /// The readable message, as the host shows it.
    pub fn message(&self) -> (r: String)
        ensures
            r@ == self.message@,
    {
        self.message.clone()
    }

    pub fn kind(&self) -> (r: ErrorKind)
        ensures
            r == self.kind,
    {
        self.kind
    }
}

/// An operational error carrying `message`.
pub fn io_exc(message: String) -> (r: BridgeError)
    ensures
        r.kind == ErrorKind::Operational,
        r.message@ == message@,
{
    BridgeError::new(ErrorKind::Operational, message)
}

/// An operational failure carrying `message`, as a `Result`.
pub fn io_exc_err<T>(message: String) -> (r: Result<T, BridgeError>)
    ensures
        r is Err,
        r->Err_0.kind == ErrorKind::Operational,
        r->Err_0.message@ == message@,
{
    Err(io_exc(message))
}

/// A configuration error carrying `message`.
pub fn config_error(message: String) -> (r: BridgeError)
    ensures
        r.kind == ErrorKind::Config,
        r.message@ == message@,
{
    BridgeError::new(ErrorKind::Config, message)
}

/// The error for a host object whose native resource is absent.
pub fn no_native_resource() -> (r: BridgeError)
    ensures
        r.kind == ErrorKind::NoNativeResource,
        r.message@ == "no native resource"@,
{
    BridgeError::new(ErrorKind::NoNativeResource, String::from_str("no native resource"))
}

/// An error raised by the ngrok client, with its optional provider code.
pub fn provider_error(code: Option<String>, msg: String) -> (r: BridgeError)
    ensures
        r.kind == ErrorKind::Operational,
        r.message@ == provider_text(opt_view(code), msg@),
{
    match code {
        Some(c) => {
            let mut text = c;
            text.append("\n\n");
            text.append(msg.as_str());
            io_exc(text)
        },
        None => io_exc(msg),
    }
}

} // verus!
