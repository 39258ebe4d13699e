use vstd::prelude::*;

verus! {

#[verifier::external_type_specification]
#[verifier::external_body]
pub struct ExMultiaddr(libp2p::Multiaddr);

#[verifier::external_type_specification]
#[verifier::external_body]
pub struct ExPeerId(libp2p::PeerId);

/// What parsing a textual peer address (`/ip4/.../tcp/.../p2p/...`-style)
/// yields: the parsed address on exactly the well-formed inputs, nothing
/// otherwise.  Parsing depends on the characters alone; this names its
/// outcome.
pub uninterp spec fn parsed_multiaddr(s: Seq<char>) -> Option<libp2p::Multiaddr>;

/// What parsing a textual peer identifier (a base-58 encoded multihash)
/// yields: the parsed identifier on exactly the well-formed inputs, nothing
/// otherwise.  Parsing depends on the characters alone; this names its
/// outcome.
pub uninterp spec fn parsed_peer_id(s: Seq<char>) -> Option<libp2p::PeerId>;

/// Relies on `<libp2p::Multiaddr as FromStr>::from_str`: it parses the
/// textual address into its binary form, succeeding on exactly the
/// well-formed inputs, and never panics.
#[verifier::external_body]
pub(crate) fn parse_multiaddr(s: &str) -> (r: Option<libp2p::Multiaddr>)
    ensures
        r == parsed_multiaddr(s@),
{
    s.parse::<libp2p::Multiaddr>().ok()
}

/// Relies on `<libp2p::PeerId as FromStr>::from_str`: it decodes the base-58
/// multihash of a peer identifier, succeeding on exactly the well-formed
/// inputs, and never panics.
#[verifier::external_body]
pub(crate) fn parse_peer_id(s: &str) -> (r: Option<libp2p::PeerId>)
    ensures
        r == parsed_peer_id(s@),
{
    s.parse::<libp2p::PeerId>().ok()
}

} // verus!
