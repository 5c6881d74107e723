//! The run's configuration: role, endpoints, packet budget and wait times.
//! Reading the command line and parsing addresses is left to the caller; this
//! module decides what the values it found mean.

use vstd::prelude::*;

verus! {

/// The port the server listens on.
pub const SERVER_PORT: u16 = 1234;

/// The port the client binds.
pub const CLIENT_PORT: u16 = 1235;

/// The budget a client uses when none is given.
pub const DEFAULT_PACKET_AMOUNT: u32 = 255;

/// The address used where none is given: 127.0.0.1, as the 32-bit number
/// whose big-endian bytes are the address's octets.
pub const LOOPBACK: u32 = 0x7f00_0001;

/// How long the server waits for a handshake before waiting again.
pub const HANDSHAKE_WAIT_MICROS: u32 = 30;

/// How long the server waits for a stop request at a check.
pub const CHECKPOINT_WAIT_MICROS: u32 = 30;

/// How long the client waits for residual data while draining and probing.
pub const DRAIN_WAIT_MICROS: u32 = 30;

/// How long the client pauses after each stop request.
pub const STOP_PAUSE_MILLIS: u64 = 1000;

/// The role of this process.
#[derive(Clone, Copy, Debug, PartialEq, Eq, Structural)]
pub enum Mode {
    Server,
    Client,
}

/// Why a configuration was refused.
#[derive(Clone, Copy, Debug, PartialEq, Eq, Structural)]
pub enum ConfigError {
    /// The mode word is neither `server` nor `client`.
    UnsupportedMode,
    /// A client was asked for a budget of zero packets.
    ZeroBudget,
}

/// Everything a run needs to know.
#[derive(Clone, Copy, Debug, PartialEq, Eq, Structural)]
pub struct Config {
    pub mode: Mode,
    /// Packets the client counts while the clock runs; 0 for a server.
    pub packet_amount: u32,
    /// IPv4 addresses are held as the 32-bit number whose big-endian bytes
    /// are the octets.
    pub remote_ip: u32,
    pub remote_port: u16,
    pub local_ip: u32,
    pub local_port: u16,
    pub handshake_wait_micros: u32,
    pub checkpoint_wait_micros: u32,
    pub drain_wait_micros: u32,
    pub stop_pause_millis: u64,
}

/// Whether two strings hold the same characters.
fn same_text(a: &str, b: &str) -> (r: bool)
    ensures
        r == (a@ == b@),
{
    let n = a.unicode_len();
    if n != b.unicode_len() {
        return false;
    }
    let mut i: usize = 0;
    while i < n
        invariant
            n == a@.len(),
            n == b@.len(),
            i <= n,
            forall|j: int| 0 <= j < i ==> a@[j] == b@[j],
        decreases n - i,
    {
        if a.get_char(i) != b.get_char(i) {
            return false;
        }
        i += 1;
    }
    assert(a@ =~= b@);
    true
}

impl Mode {
    /// Reads the mode word: `server` or `client`, nothing else.
    pub fn from_word(word: &str) -> (r: Option<Mode>)
        ensures
            r == Some(Mode::Server) <==> word@ == "server"@,
            r == Some(Mode::Client) <==> word@ == "client"@,
            r is None <==> (word@ != "server"@ && word@ != "client"@),
    {
        proof {
            reveal_strlit("server");
            reveal_strlit("client");
            assert("server"@ != "client"@) by {
                assert("server"@[0] != "client"@[0]);
            }
        }
        if same_text(word, "server") {
            Some(Mode::Server)
        } else if same_text(word, "client") {
            Some(Mode::Client)
        } else {
            None
        }
    }
}

impl Config {
    /// The configuration for a mode word and what else was given: the local
    /// address, and, for a client, the server's address and the budget. A
    /// server listens on `SERVER_PORT` and a client binds `CLIENT_PORT`;
    /// each addresses the other's port. Missing addresses are the loopback
    /// address, a missing budget is `DEFAULT_PACKET_AMOUNT`; a server ignores
    /// the client's values.
    pub fn new(
        mode_word: &str,
        local_ip: Option<u32>,
        remote_ip: Option<u32>,
        packet_amount: Option<u32>,
    ) -> (r: Result<Config, ConfigError>)
        ensures
            r == configure(mode_word@, local_ip, remote_ip, packet_amount),
    {
        let mode = match Mode::from_word(mode_word) {
            Some(m) => m,
            None => return Err(ConfigError::UnsupportedMode),
        };
        let local = match local_ip {
            Some(ip) => ip,
            None => LOOPBACK,
        };
        match mode {
            Mode::Server => Ok(
                Config {
                    mode,
                    packet_amount: 0,
                    remote_ip: LOOPBACK,
                    remote_port: CLIENT_PORT,
                    local_ip: local,
                    local_port: SERVER_PORT,
                    handshake_wait_micros: HANDSHAKE_WAIT_MICROS,
                    checkpoint_wait_micros: CHECKPOINT_WAIT_MICROS,
                    drain_wait_micros: DRAIN_WAIT_MICROS,
                    stop_pause_millis: STOP_PAUSE_MILLIS,
                },
            ),
            Mode::Client => {
                let amount = match packet_amount {
                    Some(n) => n,
                    None => DEFAULT_PACKET_AMOUNT,
                };
                if amount == 0 {
                    return Err(ConfigError::ZeroBudget);
                }
                let remote = match remote_ip {
                    Some(ip) => ip,
                    None => LOOPBACK,
                };
                Ok(
                    Config {
                        mode,
                        packet_amount: amount,
                        remote_ip: remote,
                        remote_port: SERVER_PORT,
                        local_ip: local,
                        local_port: CLIENT_PORT,
                        handshake_wait_micros: HANDSHAKE_WAIT_MICROS,
                        checkpoint_wait_micros: CHECKPOINT_WAIT_MICROS,
                        drain_wait_micros: DRAIN_WAIT_MICROS,
                        stop_pause_millis: STOP_PAUSE_MILLIS,
                    },
                )
            },
        }
    }
}

/// The mode a word names, if any.
pub open spec fn word_mode(word: Seq<char>) -> Option<Mode> {
    if word == "server"@ {
        Some(Mode::Server)
    } else if word == "client"@ {
        Some(Mode::Client)
    } else {
        None
    }
}

/// What `Config::new` gives: an unknown mode word or a client budget of zero
/// is refused, anything else configured.
pub open spec fn configure(
    mode_word: Seq<char>,
    local_ip: Option<u32>,
    remote_ip: Option<u32>,
    packet_amount: Option<u32>,
) -> Result<Config, ConfigError> {
    match word_mode(mode_word) {
        None => Err(ConfigError::UnsupportedMode),
        Some(mode) => if mode == Mode::Client && packet_amount == Some(0u32) {
            Err(ConfigError::ZeroBudget)
        } else {
            Ok(config_for(mode, local_ip, remote_ip, packet_amount))
        },
    }
}

/// The configuration for a mode and the values given for it.
pub open spec fn config_for(
    mode: Mode,
    local_ip: Option<u32>,
    remote_ip: Option<u32>,
    packet_amount: Option<u32>,
) -> Config {
    let is_server = mode == Mode::Server;
    Config {
        mode,
        packet_amount: if is_server {
            0
        } else {
            packet_amount.unwrap_or(DEFAULT_PACKET_AMOUNT)
        },
        remote_ip: if is_server {
            LOOPBACK
        } else {
            remote_ip.unwrap_or(LOOPBACK)
        },
        remote_port: if is_server {
            CLIENT_PORT
        } else {
            SERVER_PORT
        },
        local_ip: local_ip.unwrap_or(LOOPBACK),
        local_port: if is_server {
            SERVER_PORT
        } else {
            CLIENT_PORT
        },
        handshake_wait_micros: HANDSHAKE_WAIT_MICROS,
        checkpoint_wait_micros: CHECKPOINT_WAIT_MICROS,
        drain_wait_micros: DRAIN_WAIT_MICROS,
        stop_pause_millis: STOP_PAUSE_MILLIS,
    }
}

} // verus!
