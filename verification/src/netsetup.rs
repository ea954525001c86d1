//! Build-time configuration of the endpoint, and the DHCP settings that carry
//! its host name.

use crate::types::Limit;
use core::str::FromStr;
use vstd::prelude::*;
use vstd::string::StringSliceAdditionalSpecFns;
use vstd::utf8::is_ascii_chars;
use vstd::utf8::is_ascii_chars_encode_utf8;

verus! {

/// The name this device identifies itself with towards the DHCP server.
pub const HOST_NAME: &'static str = "picow";

/// The wireless network to join.
pub const WIFI_NETWORK: &'static str = "WIFINAME";

/// The passphrase of the wireless network.
pub const WIFI_PASSWORD: &'static str = "wifipasswd";

/// The host name of the peer that receives the heartbeat.
pub const SERVER_NAME: &'static str = "pi2b";

/// The UDP port of the peer.
pub const SERVER_PORT: u16 = 9932;

/// The local UDP port that the channel is bound to.
pub const LOCAL_PORT: u16 = 9400;

/// The text of the heartbeat datagram.
pub const MESSAGE: &'static str = "message";

/// Milliseconds between two looks at the address configuration.
pub const ADDRESS_POLL_MS: u64 = 100;

/// Milliseconds for which each indicator pattern is held.
pub const HOLD_MS: u64 = 1000;

/// The longest network name, in bytes, that the radio driver takes.
pub const MAX_NETWORK_LEN: usize = 32;

/// The longest passphrase, in bytes, that the radio driver takes.
pub const MAX_PASSPHRASE_LEN: usize = 64;

/// The number of bytes in the UTF-8 encoding of `text`.
pub fn byte_len(text: &str) -> (n: usize)
    ensures
        n == text.spec_bytes().len(),
{
    text.as_bytes().len()
}

/// The bytes of an ASCII text are as many as its characters.
pub proof fn lemma_ascii_byte_len(text: &str)
    requires
        is_ascii_chars(text@),
    ensures
        text.spec_bytes().len() == text@.len(),
{
    is_ascii_chars_encode_utf8(text@);
}

/// Everything the endpoint is configured with. It is made once and handed
/// to the state machine, which passes its values on in the actions it asks
/// for.
#[derive(Clone, Copy, Debug, PartialEq, Eq)]
pub struct Settings {
    /// The wireless network to join.
    pub network: &'static str,
    /// The passphrase of the wireless network.
    pub passphrase: &'static str,
    /// The host name of the peer.
    pub peer_name: &'static str,
    /// The UDP port of the peer.
    pub peer_port: u16,
    /// The local UDP port of the channel.
    pub local_port: u16,
    /// The text sent in every heartbeat datagram.
    pub message: &'static str,
    /// Milliseconds between two looks at the address configuration.
    pub poll_interval_ms: u64,
    /// Milliseconds for which each indicator pattern is held.
    pub hold_ms: u64,
    /// How often a failed join is tried again.
    pub join_retries: Limit,
    /// How often an unconfigured address is looked at again.
    pub address_repolls: Limit,
}

impl Settings {
    /// The names are not empty and the radio driver has room for the network
    /// name and the passphrase.
    pub open spec fn valid(self) -> bool {
        &&& 0 < self.network.spec_bytes().len() <= MAX_NETWORK_LEN
        &&& 0 < self.passphrase.spec_bytes().len() <= MAX_PASSPHRASE_LEN
        &&& 0 < self.peer_name.spec_bytes().len()
    }

    /// The settings this firmware is built with: the names and ports of this
    /// module, a look at the address every 100 ms, indicator holds of one
    /// second, and no bound on joins or on looks at the address.
    pub open spec fn reference_settings() -> Settings {
        Settings {
            network: WIFI_NETWORK,
            passphrase: WIFI_PASSWORD,
            peer_name: SERVER_NAME,
            peer_port: SERVER_PORT,
            local_port: LOCAL_PORT,
            message: MESSAGE,
            poll_interval_ms: ADDRESS_POLL_MS,
            hold_ms: HOLD_MS,
            join_retries: Limit::Unbounded,
            address_repolls: Limit::Unbounded,
        }
    }

    /// The settings this firmware is built with.
    pub fn reference() -> (settings: Settings)
        ensures
            settings == Settings::reference_settings(),
            settings.valid(),
    {
        proof {
            reveal_strlit("WIFINAME");
            reveal_strlit("wifipasswd");
            reveal_strlit("pi2b");
            lemma_ascii_byte_len(WIFI_NETWORK);
            lemma_ascii_byte_len(WIFI_PASSWORD);
            lemma_ascii_byte_len(SERVER_NAME);
        }
        Settings {
            network: WIFI_NETWORK,
            passphrase: WIFI_PASSWORD,
            peer_name: SERVER_NAME,
            peer_port: SERVER_PORT,
            local_port: LOCAL_PORT,
            message: MESSAGE,
            poll_interval_ms: ADDRESS_POLL_MS,
            hold_ms: HOLD_MS,
            join_retries: Limit::Unbounded,
            address_repolls: Limit::Unbounded,
        }
    }

    /// Whether the settings can be handed to the radio driver and the name
    /// service as they are.
    pub fn is_valid(&self) -> (ok: bool)
        ensures
            ok == self.valid(),
    {
        let network = byte_len(self.network);
        let passphrase = byte_len(self.passphrase);
        0 < network && network <= MAX_NETWORK_LEN && 0 < passphrase && passphrase
            <= MAX_PASSPHRASE_LEN && 0 < byte_len(self.peer_name)
    }
}

/// The heartbeat datagram is the seven ASCII bytes of `message`.
pub proof fn lemma_message_bytes()
    ensures
        MESSAGE.spec_bytes() == seq![0x6du8, 0x65u8, 0x73u8, 0x73u8, 0x61u8, 0x67u8, 0x65u8],
{
    reveal_strlit("message");
    is_ascii_chars_encode_utf8(MESSAGE@);
    assert(MESSAGE.spec_bytes() =~= seq![0x6du8, 0x65u8, 0x73u8, 0x73u8, 0x61u8, 0x67u8, 0x65u8]);
}

/// The longest host name, in bytes, that the DHCP client can carry.
pub const MAX_HOSTNAME_LEN: usize = 32;

/// `heapless::String`, the fixed-capacity string that holds the host name.
/// It is opaque here: what it holds is spoken of through [`label_text`].
#[verifier::external_type_specification]
#[verifier::external_body]
pub struct ExHostLabel<const N: usize>(heapless::String<N>);

/// The text that a host label holds.
pub uninterp spec fn label_text(label: heapless::String<32>) -> Seq<char>;

/// `heapless::String::<32>::from_str`: the label holds exactly the given text
/// when its UTF-8 encoding is at most 32 bytes long, and the call fails
/// otherwise.
#[verifier::external_body]
fn label_from_str(name: &str) -> (label: Result<heapless::String<32>, ()>)
    ensures
        label is Ok <==> name.spec_bytes().len() <= MAX_HOSTNAME_LEN,
        label is Ok ==> label_text(label->Ok_0) == name@,
{
    heapless::String::<32>::from_str(name)
}

/// What the DHCP client is configured with beyond its defaults.
pub struct DhcpSettings {
    /// The host name sent to the DHCP server, if any.
    pub hostname: Option<heapless::String<32>>,
}

/// Makes a host label from `name`. `None` when the name is longer than
/// [`MAX_HOSTNAME_LEN`] bytes.
pub fn host_label(name: &str) -> (label: Option<heapless::String<32>>)
    ensures
        label is Some <==> name.spec_bytes().len() <= MAX_HOSTNAME_LEN,
        label is Some ==> label_text(label->Some_0) == name@,
{
    match label_from_str(name) {
        Ok(label) => Some(label),
        Err(_) => None,
    }
}

/// DHCP settings that give this device's host name to the DHCP server while
/// registering.
pub fn dhcp_with_host_name() -> (dhcp: DhcpSettings)
    ensures
        dhcp.hostname is Some,
        label_text(dhcp.hostname->Some_0) == HOST_NAME@,
{
    proof {
        reveal_strlit("picow");
        lemma_ascii_byte_len(HOST_NAME);
    }
    DhcpSettings { hostname: host_label(HOST_NAME) }
}

} // verus!
