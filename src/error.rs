use vstd::prelude::*;
use vstd::string::*;

verus! {

/// Prefix of every error message, so that authentication errors stand out in
/// mixed output.
pub const MARKER: &'static str = "😱 ";

/// Prefix of the message of an error raised by the transport.
pub const TRANSPORT_PREFIX: &'static str = "https error: ";

/// What went wrong.
#[derive(Clone, Copy, Debug, PartialEq, Eq, Structural)]
pub enum ErrorKind {
    /// The HTTP layer failed; never retried here.
    Transport,
    /// The server's JSON was malformed or did not fit the schema.
    Deserialization,
    /// A value could not be written out.
    Serialization,
    /// The server rejected the credentials, the challenge or the MFA code.
    AuthenticationFailed,
    /// A call that the session's current state does not allow.
    InvalidTransition,
    /// Raised directly by a caller.
    Other,
}

/// The one error type of the library: a kind and a marked message. The
/// fields are private, so every message starts with the marker.
#[derive(Debug, PartialEq)]
pub struct RobinhoodError {
    kind: ErrorKind,
    message: String,
}

impl RobinhoodError {
    pub closed spec fn spec_kind(&self) -> ErrorKind {
        self.kind
    }

    /// The full message, marker included.
    pub closed spec fn text(&self) -> Seq<char> {
        self.message@
    }

    /// The message starts with the marker.
    pub open spec fn is_marked(&self) -> bool {
        self.text().len() >= MARKER@.len() && self.text().subrange(0, MARKER@.len() as int)
            == MARKER@
    }

    /// An error of the given kind whose message is the marker followed by `message`.
    pub fn with_kind(kind: ErrorKind, message: &str) -> (r: Self)
        ensures
            r.kind() == kind,
            r.text() == MARKER@ + message@,
            r.is_marked(),
    {
        let mut m = MARKER.to_owned();
        m.append(message);
        proof {
            assert((MARKER@ + message@).subrange(0, MARKER@.len() as int) =~= MARKER@);
        }
        RobinhoodError { kind, message: m }
    }

    /// An error raised directly with `message`.
    pub fn new(message: &str) -> (r: Self)
        ensures
            r.kind() == ErrorKind::Other,
            r.text() == MARKER@ + message@,
            r.is_marked(),
    {
        Self::with_kind(ErrorKind::Other, message)
    }

    /// An error of the transport, described by `cause`.
    pub fn transport(cause: &str) -> (r: Self)
        ensures
            r.kind() == ErrorKind::Transport,
            r.text() == MARKER@ + TRANSPORT_PREFIX@ + cause@,
            r.is_marked(),
    {
        let mut m = MARKER.to_owned();
        m.append(TRANSPORT_PREFIX);
        m.append(cause);
        proof {
            assert((MARKER@ + TRANSPORT_PREFIX@ + cause@).subrange(0, MARKER@.len() as int)
                =~= MARKER@);
        }
        RobinhoodError { kind: ErrorKind::Transport, message: m }
    }

    /// What went wrong.
    #[verifier::when_used_as_spec(spec_kind)]
    pub fn kind(&self) -> (r: ErrorKind)
        ensures
            r == self.spec_kind(),
    {
        self.kind
    }

    /// The full message, marker included.
    pub fn message(&self) -> (r: &str)
        ensures
            r@ == self.text(),
    {
        self.message.as_str()
    }

    /// A second error equal to this one.
    pub fn duplicate(&self) -> (r: Self)
        ensures
            r.kind() == self.kind(),
            r.text() == self.text(),
    {
        RobinhoodError { kind: self.kind, message: self.message.clone() }
    }
}

} // verus!
