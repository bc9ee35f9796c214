//! The HTTP worker pool: how many workers there are, what each of them owns
//! and how long each of them waits.

use vstd::prelude::*;

verus! {

/// Number of workers, and so of connections served at once. A further
/// client waits in the listener until a worker is free.
pub const POOL_SIZE: usize = 8;

/// The TCP port every worker listens on.
pub const HTTP_PORT: u16 = 80;

/// Bytes of a worker's TCP receive buffer.
pub const TCP_RX_BUFFER_SIZE: usize = 1024;

/// Bytes of a worker's TCP transmit buffer.
pub const TCP_TX_BUFFER_SIZE: usize = 1024;

/// Bytes of a worker's request buffer.
pub const HTTP_BUFFER_SIZE: usize = 2048;

/// What one worker owns for as long as the node runs. No two workers share
/// a buffer: each slot is a value of its own.
pub struct WorkerSlot {
    /// The worker's number, which its log lines carry.
    pub id: usize,
    /// The port it accepts connections on.
    pub port: u16,
    /// Receive buffer of its socket.
    pub tcp_rx_buffer: [u8; TCP_RX_BUFFER_SIZE],
    /// Transmit buffer of its socket.
    pub tcp_tx_buffer: [u8; TCP_TX_BUFFER_SIZE],
    /// Where it parses the request.
    pub http_buffer: [u8; HTTP_BUFFER_SIZE],
}

impl WorkerSlot {
    /// The slot of worker `id`, with its buffers zeroed.
    pub fn new(id: usize) -> (slot: WorkerSlot)
        ensures
            slot.id == id,
            slot.port == HTTP_PORT,
            forall|i: int| 0 <= i < TCP_RX_BUFFER_SIZE ==> slot.tcp_rx_buffer@[i] == 0,
            forall|i: int| 0 <= i < TCP_TX_BUFFER_SIZE ==> slot.tcp_tx_buffer@[i] == 0,
            forall|i: int| 0 <= i < HTTP_BUFFER_SIZE ==> slot.http_buffer@[i] == 0,
    {
        WorkerSlot {
            id,
            port: HTTP_PORT,
            tcp_rx_buffer: [0; TCP_RX_BUFFER_SIZE],
            tcp_tx_buffer: [0; TCP_TX_BUFFER_SIZE],
            http_buffer: [0; HTTP_BUFFER_SIZE],
        }
    }
}

/// How long a worker waits, in seconds, before it gives a connection up.
/// Every wait is bounded, so that no worker is left stuck with a silent
/// client.
#[derive(Clone, Copy, Debug, PartialEq, Eq, Structural)]
pub struct Timeouts {
    /// For the first byte of the first request of a connection.
    pub start_read_request: u64,
    /// For the first byte of a further request on a connection kept alive.
    pub persistent_start_read_request: u64,
    /// For the rest of a request once it has begun.
    pub read_request: u64,
    /// For a write of the response.
    pub write: u64,
}

/// What every worker is configured with.
#[derive(Clone, Copy, Debug, PartialEq, Eq, Structural)]
pub struct Config {
    /// The waits after which a connection is closed.
    pub timeouts: Timeouts,
    /// Whether a connection stays open for further requests.
    pub keep_alive: bool,
}

impl Config {
    /// A configuration with these timeouts, in which every connection is
    /// closed after its response.
    pub fn new(timeouts: Timeouts) -> (config: Config)
        ensures
            config == (Config { timeouts, keep_alive: false }),
    {
        Config { timeouts, keep_alive: false }
    }

    /// The same configuration, but connections are kept alive.
    pub fn keep_connection_alive(self) -> (config: Config)
        ensures
            config == (Config { timeouts: self.timeouts, keep_alive: true }),
    {
        Config { timeouts: self.timeouts, keep_alive: true }
    }
}

/// The timeouts of this node: five seconds for a new connection to send its
/// first byte, one second for everything after.
pub open spec fn node_timeouts() -> Timeouts {
    Timeouts {
        start_read_request: 5,
        persistent_start_read_request: 1,
        read_request: 1,
        write: 1,
    }
}

/// The configuration of this node's workers. Connections are kept alive,
/// and a connection kept alive is given less time to start its next request
/// than a new one.
pub fn server_config() -> (config: Config)
    ensures
        config == (Config { timeouts: node_timeouts(), keep_alive: true }),
        config.timeouts.persistent_start_read_request < config.timeouts.start_read_request,
{
    Config::new(
        Timeouts {
            start_read_request: 5,
            persistent_start_read_request: 1,
            read_request: 1,
            write: 1,
        },
    ).keep_connection_alive()
}

} // verus!
