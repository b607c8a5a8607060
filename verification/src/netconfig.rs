//! Network bring-up values.
//!
//! The core implements no address assignment and no name resolution; the
//! external collaborators do. What the core owes them is fixed here: its
//! own private IPv4 address, a DNS-server list holding exactly that one
//! address, the link parameters of the virtual Ethernet, and the name the
//! responder answers to.

use vstd::prelude::*;

verus! {

/// An IPv4 address, one field per octet.
#[derive(Clone, Copy, PartialEq, Eq, Structural, Debug)]
pub struct IpAddr4 {
    pub o1: u8,
    pub o2: u8,
    pub o3: u8,
    pub o4: u8,
}

/// The fixed private address the device answers on.
pub open spec fn device_ip_spec() -> IpAddr4 {
    IpAddr4 { o1: 10, o2: 42, o3: 0, o4: 1 }
}

/// The multicast group the name responder joins.
pub open spec fn mdns_group_spec() -> IpAddr4 {
    IpAddr4 { o1: 224, o2: 0, o3: 0, o4: 251 }
}

/// Frames on the virtual Ethernet link, in bytes.
pub const MTU: usize = 1514;

/// Seconds a name-resolution answer stays valid.
pub const MDNS_TTL_SECS: u32 = 60;

/// Seconds a captive DNS answer stays valid.
pub const CAPTIVE_DNS_TTL_SECS: u64 = 60;

/// Port the captive DNS responder listens on.
pub const DNS_PORT: u16 = 53;

/// What the core hands the address-assignment and name-resolution
/// collaborators at bring-up.
pub struct NetworkConfig {
    pub address: IpAddr4,
    pub prefix_len: u8,
    pub dns_servers: Vec<IpAddr4>,
    pub hostname: &'static str,
}

/// Bring-up law: the device supplies exactly one DNS-server entry, equal
/// to its own address.
pub open spec fn network_config_wf(c: NetworkConfig) -> bool {
    c.dns_servers@ == seq![c.address]
}

/// The fixed bring-up configuration of this device.
pub fn network_config() -> (c: NetworkConfig)
    ensures
        c.address == device_ip_spec(),
        c.prefix_len == 24,
        c.hostname@ == "joystick"@,
        network_config_wf(c),
{
    let address = IpAddr4 { o1: 10, o2: 42, o3: 0, o4: 1 };
    let mut dns_servers: Vec<IpAddr4> = Vec::new();
    dns_servers.push(address);
    proof {
        assert(dns_servers@ =~= seq![address]);
    }
    NetworkConfig { address, prefix_len: 24, dns_servers, hostname: "joystick" }
}

/// The device's address on the virtual Ethernet, as the collaborators
/// take it.
pub fn device_ip() -> (ip: IpAddr4)
    ensures
        ip == device_ip_spec(),
{
    IpAddr4 { o1: 10, o2: 42, o3: 0, o4: 1 }
}

/// The name responder's multicast group.
pub fn mdns_group() -> (ip: IpAddr4)
    ensures
        ip == mdns_group_spec(),
{
    IpAddr4 { o1: 224, o2: 0, o3: 0, o4: 251 }
}

/// The device's own MAC address on the virtual link: locally administered,
/// unicast.
pub fn device_mac() -> (m: Vec<u8>)
    ensures
        m@ == seq![0xe2u8, 0x58u8, 0xb1u8, 0xe7u8, 0xfbu8, 0x12u8],
{
    let mut m: Vec<u8> = Vec::new();
    m.push(0xe2);
    m.push(0x58);
    m.push(0xb1);
    m.push(0xe7);
    m.push(0xfb);
    m.push(0x12);
    proof {
        assert(m@ =~= seq![0xe2u8, 0x58u8, 0xb1u8, 0xe7u8, 0xfbu8, 0x12u8]);
    }
    m
}

/// The MAC address the host's side of the link is told to use.
pub fn host_mac() -> (m: Vec<u8>)
    ensures
        m@ == seq![0x82u8, 0x88u8, 0x88u8, 0x88u8, 0x88u8, 0x88u8],
{
    let mut m: Vec<u8> = Vec::new();
    m.push(0x82);
    m.push(0x88);
    m.push(0x88);
    m.push(0x88);
    m.push(0x88);
    m.push(0x88);
    proof {
        assert(m@ =~= seq![0x82u8, 0x88u8, 0x88u8, 0x88u8, 0x88u8, 0x88u8]);
    }
    m
}

} // verus!
