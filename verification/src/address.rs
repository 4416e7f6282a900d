use vstd::prelude::*;

verus! {

/// A semantic (host, port) pair naming one end of an exchange.
pub struct PeerAddress {
    /// The host: a name or dotted-quad text.
    pub host: String,
    /// The TCP port.
    pub port: u16,
}

impl PeerAddress {
    /// An address may back an outbound connect only once it is fully
    /// resolved: a partially resolved address is a configuration error,
    /// not a runtime one.
    pub open spec fn is_resolved(self) -> bool {
        self.host@.len() > 0
    }

    /// An address configured or discovered at startup.
    pub fn new(host: String, port: u16) -> (a: PeerAddress)
        ensures
            a.host@ == host@,
            a.port == port,
    {
        PeerAddress { host, port }
    }

    /// The response destination for one session: the prompt sender's
    /// observed remote host joined with the configured response port —
    /// derived from the accepted connection, never from configuration.
    pub fn response_address(peer_host: String, response_port: u16) -> (a: PeerAddress)
        ensures
            a.host@ == peer_host@,
            a.port == response_port,
            peer_host@.len() > 0 ==> a.is_resolved(),
    {
        PeerAddress { host: peer_host, port: response_port }
    }
}

} // verus!
