//! Configuration of the client and the server, as plain values.
//!
//! Reading these from files and the environment is the embedding
//! application's part; here are the shapes, the defaults and what is
//! derived from them.

use vstd::prelude::*;
use crate::addr::{IpAddress, IpNetwork};
use crate::text::owned;

verus! {

/// The bytes a QUIC datagram adds around one tunnelled packet.
pub const QUIC_MTU_OVERHEAD: u16 = 42;

/// Server configuration.
#[derive(Clone, Debug, PartialEq)]
pub struct ServerConfig {
    pub name: String,
    pub certificate_file: String,
    pub certificate_key_file: String,
    pub bind_address: IpAddress,
    pub bind_port: u16,
    pub reuse_socket: bool,
    pub tunnel_network: IpNetwork,
    pub isolate_clients: bool,
    pub authentication: ServerAuthenticationConfig,
    pub connection: ConnectionConfig,
    pub crypto: CryptoConfig,
    pub log: LogConfig,
}

/// Server-side authentication configuration.
#[derive(Clone, Debug, PartialEq)]
pub struct ServerAuthenticationConfig {
    pub auth_type: AuthType,
    /// The file listing users and their password hashes.
    pub users_file: String,
}

/// Client configuration.
#[derive(Clone, Debug, PartialEq)]
pub struct ClientConfig {
    pub connection_string: String,
    pub authentication: ClientAuthenticationConfig,
    pub connection: ConnectionConfig,
    pub network: NetworkConfig,
    pub crypto: CryptoConfig,
    pub log: LogConfig,
}

/// Client-side authentication configuration.
#[derive(Clone, Debug, PartialEq)]
pub struct ClientAuthenticationConfig {
    pub auth_type: AuthType,
    pub username: String,
    pub password: String,
    pub trusted_certificate_paths: Vec<String>,
    pub trusted_certificates: Vec<String>,
}

/// Connection configuration.
#[derive(Clone, Copy, Debug, PartialEq, Eq, Structural)]
pub struct ConnectionConfig {
    /// The MTU of connections and of the TUN interface.
    pub mtu: u16,
    pub congestion_controller: CongestionController,
    pub connection_timeout_s: u64,
    pub keep_alive_interval_s: u64,
    pub send_buffer_size: u64,
    pub recv_buffer_size: u64,
}

#[derive(Clone, Copy, Debug, PartialEq, Eq, Structural)]
pub struct CryptoConfig {
    pub key_exchange: KeyExchange,
}

/// Client network configuration: routes and DNS servers for the tunnel.
#[derive(Clone, Debug, PartialEq)]
pub struct NetworkConfig {
    pub routes: Vec<IpNetwork>,
    pub dns_servers: Vec<IpAddress>,
}

#[derive(Clone, Debug, PartialEq)]
pub struct LogConfig {
    pub level: String,
}

#[derive(Clone, Copy, Debug, PartialEq, Eq, Structural)]
pub enum AuthType {
    UsersFile,
}

#[derive(Clone, Copy, Debug, PartialEq, Eq, Structural)]
pub enum KeyExchange {
    Standard,
    Hybrid,
    PostQuantum,
}

#[derive(Clone, Copy, Debug, PartialEq, Eq, Structural)]
pub enum CongestionController {
    Cubic,
    Bbr,
    NewReno,
}

pub fn default_log_level() -> (r: String)
    ensures
        r@ == "info"@,
{
    owned("info")
}

pub fn default_bind_address() -> (r: IpAddress)
    ensures
        r == IpAddress::V4([0u8, 0u8, 0u8, 0u8]),
{
    IpAddress::V4([0u8, 0u8, 0u8, 0u8])
}

pub fn default_bind_port() -> (r: u16)
    ensures
        r == 55555,
{
    55555
}

pub fn default_buffer_size() -> (r: u64)
    ensures
        r == 2097152,
{
    2097152
}

pub fn default_mtu() -> (r: u16)
    ensures
        r == 1400,
{
    1400
}

pub fn default_congestion_controller() -> (r: CongestionController)
    ensures
        r == CongestionController::Cubic,
{
    CongestionController::Cubic
}

pub fn default_timeout_s() -> (r: u64)
    ensures
        r == 30,
{
    30
}

pub fn default_keep_alive_interval_s() -> (r: u64)
    ensures
        r == 25,
{
    25
}

pub fn default_auth_type() -> (r: AuthType)
    ensures
        r == AuthType::UsersFile,
{
    AuthType::UsersFile
}

pub fn default_routes() -> (r: Vec<IpNetwork>)
    ensures
        r@.len() == 0,
{
    Vec::new()
}

pub fn default_dns_servers() -> (r: Vec<IpAddress>)
    ensures
        r@.len() == 0,
{
    Vec::new()
}

pub fn default_true_fn() -> (r: bool)
    ensures
        r,
{
    true
}

pub fn default_false_fn() -> (r: bool)
    ensures
        !r,
{
    false
}

pub fn default_trusted_certificate_paths() -> (r: Vec<String>)
    ensures
        r@.len() == 0,
{
    Vec::new()
}

pub fn default_trusted_certificates() -> (r: Vec<String>)
    ensures
        r@.len() == 0,
{
    Vec::new()
}

pub fn default_key_exchange() -> (r: KeyExchange)
    ensures
        r == KeyExchange::Hybrid,
{
    KeyExchange::Hybrid
}

impl Default for ConnectionConfig {
    fn default() -> (r: ConnectionConfig)
        ensures
            r == (ConnectionConfig {
                mtu: 1400,
                congestion_controller: CongestionController::Cubic,
                connection_timeout_s: 30,
                keep_alive_interval_s: 25,
                send_buffer_size: 2097152,
                recv_buffer_size: 2097152,
            }),
    {
        ConnectionConfig {
            mtu: default_mtu(),
            congestion_controller: default_congestion_controller(),
            connection_timeout_s: default_timeout_s(),
            keep_alive_interval_s: default_keep_alive_interval_s(),
            send_buffer_size: default_buffer_size(),
            recv_buffer_size: default_buffer_size(),
        }
    }
}

impl Default for NetworkConfig {
    fn default() -> (r: NetworkConfig)
        ensures
            r.routes@.len() == 0,
            r.dns_servers@.len() == 0,
    {
        NetworkConfig { routes: default_routes(), dns_servers: default_dns_servers() }
    }
}

impl Default for CryptoConfig {
    fn default() -> (r: CryptoConfig)
        ensures
            r == (CryptoConfig { key_exchange: KeyExchange::Hybrid }),
    {
        CryptoConfig { key_exchange: default_key_exchange() }
    }
}

impl ConnectionConfig {
    /// The MTU of the QUIC datagrams that carry packets of this MTU.
    pub fn mtu_with_overhead(&self) -> (r: u16)
        requires
            self.mtu + QUIC_MTU_OVERHEAD <= u16::MAX,
        ensures
            r == self.mtu + QUIC_MTU_OVERHEAD,
    {
        self.mtu + QUIC_MTU_OVERHEAD
    }
}

} // verus!
