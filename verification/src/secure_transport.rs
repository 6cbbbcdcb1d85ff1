//! Secure Transport sessions: protocol-version names, the state a session
//! reports, and the creation of client and server contexts.

use vstd::prelude::*;

use crate::bridge::{handle_outcome, required_handle, CreateReply};
use crate::error::Result;

verus! {

/// Mirrors Secure Transport protocol-version selectors.
#[derive(Debug, Clone, Copy, PartialEq, Eq, Structural)]
pub enum ProtocolVersion {
    /// SSL 2.
    Ssl2,
    /// SSL 3.
    Ssl3,
    /// TLS 1.0.
    Tls1_0,
    /// TLS 1.1.
    Tls1_1,
    /// TLS 1.2.
    Tls1_2,
    /// DTLS 1.0.
    Dtls1_0,
    /// TLS 1.3.
    Tls1_3,
}

/// The protocol name that Secure Transport configuration helpers use.
pub open spec fn protocol_name(version: ProtocolVersion) -> Seq<char> {
    match version {
        ProtocolVersion::Ssl2 => "ssl2"@,
        ProtocolVersion::Ssl3 => "ssl3"@,
        ProtocolVersion::Tls1_0 => "tls1.0"@,
        ProtocolVersion::Tls1_1 => "tls1.1"@,
        ProtocolVersion::Tls1_2 => "tls1.2"@,
        ProtocolVersion::Dtls1_0 => "dtls1.0"@,
        ProtocolVersion::Tls1_3 => "tls1.3"@,
    }
}

impl ProtocolVersion {
    /// The protocol name that Secure Transport configuration helpers use.
    pub fn as_str(self) -> (name: &'static str)
        ensures
            name@ == protocol_name(self),
    {
        match self {
            ProtocolVersion::Ssl2 => "ssl2",
            ProtocolVersion::Ssl3 => "ssl3",
            ProtocolVersion::Tls1_0 => "tls1.0",
            ProtocolVersion::Tls1_1 => "tls1.1",
            ProtocolVersion::Tls1_2 => "tls1.2",
            ProtocolVersion::Dtls1_0 => "dtls1.0",
            ProtocolVersion::Tls1_3 => "tls1.3",
        }
    }
}

/// Distinct protocol versions have distinct names.
pub proof fn lemma_protocol_names_distinct(a: ProtocolVersion, b: ProtocolVersion)
    ensures
        protocol_name(a) == protocol_name(b) ==> a == b,
{
    reveal_strlit("ssl2");
    reveal_strlit("ssl3");
    reveal_strlit("tls1.0");
    reveal_strlit("tls1.1");
    reveal_strlit("tls1.2");
    reveal_strlit("dtls1.0");
    reveal_strlit("tls1.3");
    if protocol_name(a) == protocol_name(b) && a != b {
        let na = protocol_name(a);
        let nb = protocol_name(b);
        assert(na.len() != nb.len() || na[0] != nb[0] || na[3] != nb[3] || na[5] != nb[5]);
    }
}

/// Mirrors state queried from a Secure Transport session.
#[derive(Debug, Clone, PartialEq, Eq)]
pub struct SecureTransportState {
    /// Which side of the connection the session is.
    pub side: String,
    /// The session's state.
    pub session_state: String,
    /// The lowest protocol version allowed.
    pub minimum_protocol: String,
    /// The highest protocol version allowed.
    pub maximum_protocol: String,
}

/// The bridge operation under which context creation reports its errors.
pub const CREATE_CONTEXT: &'static str = "security_secure_transport_create";

/// Wraps a Secure Transport `SSLContextRef`.
#[derive(Debug)]
pub struct SecureTransportContext<H> {
    handle: H,
}

/// The handle a context result holds, or its error.
pub open spec fn context_handle<H>(result: Result<SecureTransportContext<H>>) -> Result<H> {
    match result {
        Ok(context) => Ok(context.spec_handle()),
        Err(error) => Err(error),
    }
}

impl<H> SecureTransportContext<H> {
    /// The bridge handle this value holds.
    pub closed spec fn spec_handle(&self) -> H {
        self.handle
    }

    /// Wraps a handle that the bridge returned.
    pub fn from_handle(handle: H) -> (value: Self)
        ensures
            value.spec_handle() == handle,
    {
        SecureTransportContext { handle }
    }

    /// The bridge handle this value holds.
    pub fn handle(&self) -> (handle: &H)
        ensures
            *handle == self.spec_handle(),
    {
        &self.handle
    }

    /// A client-side context, made by the bridge call `create`.
    pub fn client<F>(create: F) -> (result: Result<Self>)
        where
            F: FnOnce() -> CreateReply<H>,
        requires
            create.requires(()),
        ensures
            exists|reply: CreateReply<H>|
                create.ensures((), reply) && handle_outcome(
                    context_handle(result),
                    CREATE_CONTEXT,
                    reply.0,
                    reply.1,
                    reply.2,
                ),
    {
        create_context(create)
    }

    /// A server-side context, made by the bridge call `create`.
    pub fn server<F>(create: F) -> (result: Result<Self>)
        where
            F: FnOnce() -> CreateReply<H>,
        requires
            create.requires(()),
        ensures
            exists|reply: CreateReply<H>|
                create.ensures((), reply) && handle_outcome(
                    context_handle(result),
                    CREATE_CONTEXT,
                    reply.0,
                    reply.1,
                    reply.2,
                ),
    {
        create_context(create)
    }
}

/// The context that the bridge call `create` made, or the error it reported.
fn create_context<H, F>(create: F) -> (result: Result<SecureTransportContext<H>>)
    where
        F: FnOnce() -> CreateReply<H>,
    requires
        create.requires(()),
    ensures
        exists|reply: CreateReply<H>|
            create.ensures((), reply) && handle_outcome(
                context_handle(result),
                CREATE_CONTEXT,
                reply.0,
                reply.1,
                reply.2,
            ),
{
    let reply = create();
    let ghost kept = reply;
    let (handle, status, error_text) = reply;
    match required_handle(CREATE_CONTEXT, handle, status, error_text) {
        Ok(handle) => Ok(SecureTransportContext { handle }),
        Err(error) => Err(error),
    }
}

/// Each protocol version has its own name.
pub proof fn lemma_protocol_names(version: ProtocolVersion)
    ensures
        version == ProtocolVersion::Ssl2 ==> protocol_name(version) == "ssl2"@,
        version == ProtocolVersion::Ssl3 ==> protocol_name(version) == "ssl3"@,
        version == ProtocolVersion::Tls1_0 ==> protocol_name(version) == "tls1.0"@,
        version == ProtocolVersion::Tls1_1 ==> protocol_name(version) == "tls1.1"@,
        version == ProtocolVersion::Tls1_2 ==> protocol_name(version) == "tls1.2"@,
        version == ProtocolVersion::Dtls1_0 ==> protocol_name(version) == "dtls1.0"@,
        version == ProtocolVersion::Tls1_3 ==> protocol_name(version) == "tls1.3"@,
{
}

} // verus!
