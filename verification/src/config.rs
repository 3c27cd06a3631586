//! The maker's configuration: listening ports, connection type, directory
//! address and fidelity-bond parameters.
//!
//! Reading and writing the configuration file is the surrounding process's
//! work; merging command-line overrides over the loaded values is decided
//! here.

use vstd::prelude::*;

verus! {

/// How the maker reaches the network.
#[allow(non_camel_case_types)]
#[derive(Debug, Clone, Copy, PartialEq, Eq, Structural)]
pub enum ConnectionType {
    CLEARNET,
    TOR,
}

/// The maker's configuration values.
pub struct MakerConfig {
    /// Port of the peer-to-peer listener.
    pub port: u16,
    /// Port of the local control-plane listener.
    pub rpc_port: u16,
    /// Port of the local SOCKS proxy when Tor is used.
    pub socks_port: u16,
    /// How the maker reaches the network.
    pub connection_type: ConnectionType,
    /// Address of the directory service.
    pub directory_server_address: String,
    /// Value of the fidelity bond, in satoshis.
    pub fidelity_value: u64,
    /// Lifetime of the fidelity bond, in blocks.
    pub fidelity_timelock: u32,
}

/// Mathematical value of a [`MakerConfig`].
pub struct MakerConfigV {
    pub port: u16,
    pub rpc_port: u16,
    pub socks_port: u16,
    pub connection_type: ConnectionType,
    pub directory_server_address: Seq<char>,
    pub fidelity_value: u64,
    pub fidelity_timelock: u32,
}

impl View for MakerConfig {
    type V = MakerConfigV;

    open spec fn view(&self) -> MakerConfigV {
        MakerConfigV {
            port: self.port,
            rpc_port: self.rpc_port,
            socks_port: self.socks_port,
            connection_type: self.connection_type,
            directory_server_address: self.directory_server_address@,
            fidelity_value: self.fidelity_value,
            fidelity_timelock: self.fidelity_timelock,
        }
    }
}

impl Clone for MakerConfig {
    fn clone(&self) -> (r: Self)
        ensures
            r@ == self@,
    {
        MakerConfig {
            port: self.port,
            rpc_port: self.rpc_port,
            socks_port: self.socks_port,
            connection_type: self.connection_type,
            directory_server_address: self.directory_server_address.clone(),
            fidelity_value: self.fidelity_value,
            fidelity_timelock: self.fidelity_timelock,
        }
    }
}

impl Default for MakerConfig {
    /// The defaults used when no configuration file exists: clearnet, the
    /// standard peer and control ports, and the stock bond parameters.
    fn default() -> (r: Self)
        ensures
            r@.port == 6102,
            r@.rpc_port == 6103,
            r@.socks_port == 19050,
            r@.connection_type == ConnectionType::CLEARNET,
            r@.fidelity_value == 5_000_000,
            r@.fidelity_timelock == 26_000,
    {
        MakerConfig {
            port: 6102,
            rpc_port: 6103,
            socks_port: 19050,
            connection_type: ConnectionType::CLEARNET,
            directory_server_address: String::new(),
            fidelity_value: 5_000_000,
            fidelity_timelock: 26_000,
        }
    }
}

impl MakerConfig {
    /// Lays the given overrides over this configuration: each supplied value
    /// replaces the loaded one, each absent value leaves it.
    pub fn apply_overrides(
        self,
        port: Option<u16>,
        rpc_port: Option<u16>,
        socks_port: Option<u16>,
        connection_type: Option<ConnectionType>,
    ) -> (r: Self)
        ensures
            r@.port == if port is Some {
                port.unwrap()
            } else {
                self@.port
            },
            r@.rpc_port == if rpc_port is Some {
                rpc_port.unwrap()
            } else {
                self@.rpc_port
            },
            r@.socks_port == if socks_port is Some {
                socks_port.unwrap()
            } else {
                self@.socks_port
            },
            r@.connection_type == if connection_type is Some {
                connection_type.unwrap()
            } else {
                self@.connection_type
            },
            r@.directory_server_address == self@.directory_server_address,
            r@.fidelity_value == self@.fidelity_value,
            r@.fidelity_timelock == self@.fidelity_timelock,
    {
        let mut r = self;
        if let Some(p) = port {
            r.port = p;
        }
        if let Some(p) = rpc_port {
            r.rpc_port = p;
        }
        if let Some(p) = socks_port {
            r.socks_port = p;
        }
        if let Some(c) = connection_type {
            r.connection_type = c;
        }
        r
    }
}

} // verus!
