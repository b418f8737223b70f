//! Startup configuration records and the TAP address.
use vstd::prelude::*;
use crate::errors::InterfaceError;
use crate::types::InetAddr;

verus! {

#[derive(Debug)]
pub struct DatabaseConfig {
    pub host: String,
    pub port: u16,
    pub user: String,
    pub password: String,
    pub database: String,
}

#[derive(Debug)]
pub struct NetworkConfig {
    pub tap_ip: String,
    pub tap_mask: String,
    pub tap_interface_name: String,
    pub docker_mode: bool,
    pub docker_interface_name: String,
}

#[derive(Debug)]
pub struct AppConfig {
    pub database: DatabaseConfig,
    pub network: NetworkConfig,
}

/// What ipnetwork's parser makes of a text: an address and prefix length,
/// or nothing.
pub uninterp spec fn ip_network_of(s: Seq<char>) -> Option<(InetAddr, u8)>;

/// Relies on `<ipnetwork::IpNetwork as FromStr>::from_str` (ipnetwork 0.20):
/// parses "address/prefix" (or a bare address, or an IPv4 netmask after the
/// slash) and refuses prefixes above 32 for IPv4 and 128 for IPv6. The
/// error's text is handed back on failure.
#[verifier::external_body]
fn parse_ip_network(s: &str) -> (r: Result<(InetAddr, u8), String>)
    ensures
        r is Ok <==> ip_network_of(s@) is Some,
        r is Ok ==> r->Ok_0 == ip_network_of(s@)->Some_0,
        r is Ok && r->Ok_0.0 is V4 ==> r->Ok_0.1 <= 32,
        r is Ok && r->Ok_0.0 is V6 ==> r->Ok_0.1 <= 128,
{
    match s.parse::<ipnetwork::IpNetwork>() {
        Ok(ipnetwork::IpNetwork::V4(n)) => Ok((InetAddr::V4(u32::from(n.ip())), n.prefix())),
        Ok(ipnetwork::IpNetwork::V6(n)) => Ok((InetAddr::V6(u128::from(n.ip())), n.prefix())),
        Err(e) => Err(e.to_string()),
    }
}

/// The TAP interface's address and prefix length from its CIDR text; a
/// text that does not parse is an address error carrying the parser's
/// message.
pub fn parse_tap_address(ip: &str) -> (r: Result<(InetAddr, u8), InterfaceError>)
    ensures
        r is Ok <==> ip_network_of(ip@) is Some,
        r is Ok ==> r->Ok_0 == ip_network_of(ip@)->Some_0,
        r is Err ==> r->Err_0 is PurseIpAddressError,
        r is Ok && r->Ok_0.0 is V4 ==> r->Ok_0.1 <= 32,
{
    match parse_ip_network(ip) {
        Ok(net) => Ok(net),
        Err(e) => Err(InterfaceError::PurseIpAddressError(e)),
    }
}

} // verus!
