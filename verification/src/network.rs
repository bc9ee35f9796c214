//! The address the node gives itself. It is fixed when the node is built:
//! the node asks no server for it.

use vstd::prelude::*;

verus! {

/// Most name servers a configuration can hold.
pub const MAX_DNS_SERVERS: usize = 3;

/// A static IPv4 configuration.
#[derive(Clone, Copy, Debug)]
pub struct StaticConfigV4 {
    /// The node's address.
    pub address: [u8; 4],
    /// Number of leading bits of the address that name the network.
    pub prefix_len: u8,
    /// Where packets for other networks go, if anywhere.
    pub gateway: Option<[u8; 4]>,
    /// Room for the name servers; the first `dns_count` entries are set.
    pub dns_servers: [[u8; 4]; MAX_DNS_SERVERS],
    /// Number of name servers.
    pub dns_count: usize,
}

impl StaticConfigV4 {
    /// A prefix has at most the 32 bits of an address, and the name servers
    /// fit their room.
    pub open spec fn wf(&self) -> bool {
        &&& self.prefix_len <= 32
        &&& self.dns_count <= MAX_DNS_SERVERS
    }

    /// The name servers that are set, in order.
    pub open spec fn dns(&self) -> Seq<[u8; 4]> {
        self.dns_servers@.take(self.dns_count as int)
    }
}

/// The configuration of this node: 192.168.1.244 in a /24, behind
/// 192.168.1.1, with no name server.
pub fn static_config() -> (config: StaticConfigV4)
    ensures
        config.wf(),
        config.address@ == seq![192u8, 168u8, 1u8, 244u8],
        config.prefix_len == 24,
        config.gateway matches Some(gateway) && gateway@ == seq![192u8, 168u8, 1u8, 1u8],
        config.dns() == Seq::<[u8; 4]>::empty(),
{
    let config = StaticConfigV4 {
        address: [192, 168, 1, 244],
        prefix_len: 24,
        gateway: Some([192, 168, 1, 1]),
        dns_servers: [[0; 4]; MAX_DNS_SERVERS],
        dns_count: 0,
    };
    assert(config.address@ =~= seq![192u8, 168u8, 1u8, 244u8]);
    assert(config.gateway->0@ =~= seq![192u8, 168u8, 1u8, 1u8]);
    assert(config.dns() =~= Seq::<[u8; 4]>::empty());
    config
}

} // verus!
