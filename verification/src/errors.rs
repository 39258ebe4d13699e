use vstd::prelude::*;

verus! {

/// The errors a caller of the session's entry points can see synchronously.
///
/// Everything that arises after a call has returned (dial outcome,
/// subscription, inbound messages) surfaces through the event queue instead,
/// never as an error.
#[derive(Clone, Copy, Debug, PartialEq, Eq, Structural)]
pub enum Error {
    /// The textual peer address handed to `connect` does not parse.
    AddressParse,
    /// The textual peer identifier handed to `disconnect` does not parse.
    PeerIdParse,
    /// The authenticated handshake keypair could not be derived while
    /// building the transport.
    HandshakeConstruction,
    /// The listener could not be bound to a local address.
    ListenBind,
}

impl Error {
    /// A short description of the error, for the unverified shell to report.
    pub fn describe(&self) -> (r: &'static str)
        ensures
            r@ == self.spec_describe(),
    {
        match self {
            Error::AddressParse => "invalid peer address",
            Error::PeerIdParse => "invalid peer identifier",
            Error::HandshakeConstruction => "building the authenticated transport failed",
            Error::ListenBind => "binding a listen address failed",
        }
    }

    pub open spec fn spec_describe(self) -> Seq<char> {
        match self {
            Error::AddressParse => "invalid peer address"@,
            Error::PeerIdParse => "invalid peer identifier"@,
            Error::HandshakeConstruction => "building the authenticated transport failed"@,
            Error::ListenBind => "binding a listen address failed"@,
        }
    }
}

} // verus!
