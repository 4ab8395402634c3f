//! The client's lifecycle, kept in the type of the value: an unconnected
//! client knows where the daemon is, a connected one frames payloads, and
//! only a successful socket setup leads from the first to the second.

use vstd::prelude::*;
use crate::address::{loopback_addr, remote_addr, DEFAULT_UDP_REMOTE_PORT, LOCAL_BIND_ADDR};
use crate::framing::{frame, framed, DAEMON_HEADER_LEN};

verus! {

/// The states a client can be in.
pub trait ClientState {

}

/// Not connected: the daemon's endpoint and nothing else.
pub struct Start {
    remote_port: u16,
    remote_addr: String,
}

/// Connected through a socket that the caller drives without blocking.
pub struct Connected {
    remote_port: u16,
}

/// Connected through a socket that the caller drives with blocking calls.
pub struct ConnectedBlocking {
    remote_port: u16,
}

impl ClientState for Start {

}

impl ClientState for Connected {

}

impl ClientState for ConnectedBlocking {

}

impl Start {
    /// The stored address is always the text written from the stored port.
    #[verifier::type_invariant]
    spec fn consistent(&self) -> bool {
        self.remote_addr@ == loopback_addr(self.remote_port)
    }
}

/// A client of the daemon in state `S`.
pub struct DaemonClient<S: ClientState> {
    state: S,
}

impl DaemonClient<Start> {
    /// The port this client targets.
    pub closed spec fn port(&self) -> u16 {
        self.state.remote_port
    }

    /// The text of the address this client targets.
    pub closed spec fn addr(&self) -> Seq<char> {
        self.state.remote_addr@
    }

    /// An unconnected client for the daemon on `remote_port` of the
    /// loopback interface.
    pub fn new(remote_port: u16) -> (client: Self)
        ensures
            client.port() == remote_port,
            client.addr() == loopback_addr(remote_port),
    {
        DaemonClient { state: Start { remote_port, remote_addr: remote_addr(remote_port) } }
    }

    /// The port this client targets.
    pub fn remote_port(&self) -> (port: u16)
        ensures
            port == self.port(),
    {
        self.state.remote_port
    }

    /// The address to fix as the socket's destination.
    pub fn remote_addr(&self) -> (addr: &str)
        ensures
            addr@ == self.addr(),
            addr@ == loopback_addr(self.port()),
    {
        proof {
            use_type_invariant(&self.state);
        }
        self.state.remote_addr.as_str()
    }

    /// The address to bind the socket to before it gets its destination.
    pub fn local_addr(&self) -> (addr: &'static str)
        ensures
            addr@ == LOCAL_BIND_ADDR@,
    {
        LOCAL_BIND_ADDR
    }

    /// Takes the outcome of setting up a non-blocking socket, bound to
    /// `local_addr` and with `remote_addr` as its destination. A socket
    /// gives a connected client, handed out together with it; a failure is
    /// passed on as it came. The unconnected client stays as it was and may
    /// be connected again.
    pub fn connect<T, E>(&self, opened: Result<T, E>) -> (outcome: Result<
        (DaemonClient<Connected>, T),
        E,
    >)
        ensures
            match opened {
                Ok(sock) => outcome is Ok && outcome->Ok_0.0.port() == self.port()
                    && outcome->Ok_0.1 == sock,
                Err(e) => outcome == Err::<(DaemonClient<Connected>, T), E>(e),
            },
    {
        match opened {
            Ok(sock) => Ok(
                (DaemonClient { state: Connected { remote_port: self.state.remote_port } }, sock),
            ),
            Err(e) => Err(e),
        }
    }

    /// As `connect`, for a socket that is driven with blocking calls.
    pub fn connect_blocking<T, E>(&self, opened: Result<T, E>) -> (outcome: Result<
        (DaemonClient<ConnectedBlocking>, T),
        E,
    >)
        ensures
            match opened {
                Ok(sock) => outcome is Ok && outcome->Ok_0.0.port() == self.port()
                    && outcome->Ok_0.1 == sock,
                Err(e) => outcome == Err::<(DaemonClient<ConnectedBlocking>, T), E>(e),
            },
    {
        match opened {
            Ok(sock) => Ok(
                (
                    DaemonClient { state: ConnectedBlocking { remote_port: self.state.remote_port } },
                    sock,
                ),
            ),
            Err(e) => Err(e),
        }
    }
}

impl Default for DaemonClient<Start> {
    /// An unconnected client for the daemon on its usual port.
    fn default() -> (client: Self)
        ensures
            client.port() == DEFAULT_UDP_REMOTE_PORT,
            client.addr() == loopback_addr(DEFAULT_UDP_REMOTE_PORT),
    {
        DaemonClient::new(DEFAULT_UDP_REMOTE_PORT)
    }
}

impl DaemonClient<Connected> {
    /// The port of the destination that the socket was given.
    pub closed spec fn port(&self) -> u16 {
        self.state.remote_port
    }

    /// The bytes that go out for `payload`.
    pub open spec fn datagram(&self, payload: Seq<u8>) -> Seq<u8> {
        framed(payload)
    }

    /// The port of the destination that the socket was given.
    pub fn remote_port(&self) -> (port: u16)
        ensures
            port == self.port(),
    {
        self.state.remote_port
    }

    /// Builds the one datagram to transmit for `buf`: the header, `buf`, a
    /// newline. The client is left as it was.
    pub fn send(&self, buf: &[u8]) -> (datagram: Vec<u8>)
        ensures
            datagram@ == self.datagram(buf@),
            datagram@.len() == DAEMON_HEADER_LEN + buf@.len() + 1,
    {
        frame(buf)
    }
}

impl DaemonClient<ConnectedBlocking> {
    /// The port of the destination that the socket was given.
    pub closed spec fn port(&self) -> u16 {
        self.state.remote_port
    }

    /// The bytes that go out for `payload`.
    pub open spec fn datagram(&self, payload: Seq<u8>) -> Seq<u8> {
        framed(payload)
    }

    /// The port of the destination that the socket was given.
    pub fn remote_port(&self) -> (port: u16)
        ensures
            port == self.port(),
    {
        self.state.remote_port
    }

    /// Builds the one datagram to transmit for `buf`: the header, `buf`, a
    /// newline. The client is left as it was.
    pub fn send(&self, buf: &[u8]) -> (datagram: Vec<u8>)
        ensures
            datagram@ == self.datagram(buf@),
            datagram@.len() == DAEMON_HEADER_LEN + buf@.len() + 1,
    {
        frame(buf)
    }
}

/// Both transports put the same bytes on the wire for the same payload.
pub proof fn lemma_transports_agree(
    nonblocking: DaemonClient<Connected>,
    blocking: DaemonClient<ConnectedBlocking>,
    payload: Seq<u8>,
)
    ensures
        nonblocking.datagram(payload) == blocking.datagram(payload),
{
}

/// What goes out for a payload depends on that payload alone: not on the
/// client, and so not on what was sent through it before. Datagrams of
/// different payloads differ.
pub proof fn lemma_send_independent(
    earlier: DaemonClient<Connected>,
    later: DaemonClient<Connected>,
    first: Seq<u8>,
    second: Seq<u8>,
)
    ensures
        earlier.datagram(first) == later.datagram(first),
        earlier.datagram(first) == later.datagram(second) ==> first == second,
{
    if framed(first) == framed(second) {
        crate::framing::lemma_frame_injective(first, second);
    }
}

} // verus!
