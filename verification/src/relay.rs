//! The packet-relay decisions. Each of the two pumps (uplink: device to
//! socket; downlink: socket to device) is an indefinitely running loop that
//! alternates one blocking I/O call with one decision. The decisions live
//! here, as functions from the outcome of that I/O call to the next action,
//! so that the forwarding behaviour is fully specified; the I/O itself stays
//! with the caller that runs the loops.

use vstd::prelude::*;
use crate::codec::{xor, xor_bytes, lemma_xor_involution};

verus! {

/// The buffer capacity of each pump: the largest packet the relay moves in
/// one pass.
pub const MTU: usize = 4096;

/// Why a pump stopped: the virtual device failed, or the UDP socket failed.
/// Both are terminal to the pump that hit them; there is no retry.
#[derive(Clone, Copy, Debug, PartialEq, Eq, Structural)]
pub enum FaultKind {
    DeviceError,
    SocketError,
}

/// The one configuration error the relay core can detect: obfuscation is
/// enabled but the key is empty. It is reported before the pumps start.
#[derive(Clone, Copy, Debug, PartialEq, Eq, Structural)]
pub enum ConfigError {
    EmptyKey,
}

/// The resolved configuration both pumps share, read-only, for the process
/// lifetime: the obfuscation toggle and the key it uses.
#[derive(Clone)]
pub struct RelayConfig {
    pub obfs: bool,
    pub key: Vec<u8>,
}

/// What a pump decides to do after one I/O outcome: hand these bytes to the
/// opposite channel, or stop for good with the given fault.
pub enum PumpAction {
    Forward(Vec<u8>),
    Stop(FaultKind),
}

/// The mathematical form of a pump's decision.
pub enum Decision {
    Forward(Seq<u8>),
    Stop(FaultKind),
}

impl View for PumpAction {
    type V = Decision;

    open spec fn view(&self) -> Decision {
        match self {
            PumpAction::Forward(d) => Decision::Forward(d@),
            PumpAction::Stop(k) => Decision::Stop(*k),
        }
    }
}

/// The bytes a pump forwards in place of `data`: the XOR transform when
/// obfuscation is on, the identity otherwise.
pub open spec fn transformed(cfg: RelayConfig, data: Seq<u8>) -> Seq<u8> {
    if cfg.obfs {
        xor_bytes(data, cfg.key@)
    } else {
        data
    }
}

/// The uplink decision on the outcome of one device read: a delivered packet
/// is transformed and forwarded to the peer; a failed read stops the pump.
pub open spec fn uplink_decision(cfg: RelayConfig, read: Option<Seq<u8>>) -> Decision {
    match read {
        Option::Some(data) => Decision::Forward(transformed(cfg, data)),
        Option::None => Decision::Stop(FaultKind::DeviceError),
    }
}

/// The downlink decision on the outcome of one socket receive: a delivered
/// datagram is transformed and forwarded to the device, whatever address it
/// came from; a failed receive stops the pump. The source address is, by
/// design, never validated against the configured peer.
pub open spec fn downlink_decision(cfg: RelayConfig, recv: Option<(Seq<u8>, Seq<char>)>) -> Decision {
    match recv {
        Option::Some((data, _source)) => Decision::Forward(transformed(cfg, data)),
        Option::None => Decision::Stop(FaultKind::SocketError),
    }
}

impl RelayConfig {
    /// A usable configuration: when obfuscation is enabled the key is
    /// non-empty, so the codec is defined on every packet.
    pub open spec fn wf(&self) -> bool {
        self.obfs ==> self.key@.len() > 0
    }

    /// Builds the configuration the pumps will share, rejecting an empty key
    /// whenever obfuscation is enabled: the one configuration error of the
    /// core, caught here so that no pump ever starts on it.
    pub fn new(obfs: bool, key: Vec<u8>) -> (r: Result<RelayConfig, ConfigError>)
        ensures
            r is Err <==> (obfs && key@.len() == 0),
            r matches Ok(cfg) ==> cfg.obfs == obfs && cfg.key@ == key@ && cfg.wf(),
            r matches Err(e) ==> e == ConfigError::EmptyKey,
    {
        if obfs && key.len() == 0 {
            Err(ConfigError::EmptyKey)
        } else {
            Ok(RelayConfig { obfs, key })
        }
    }

    /// Applies the codec as configured: the XOR transform when obfuscation is
    /// on, the identity otherwise. Length is preserved either way.
    pub fn apply_codec(&self, data: Vec<u8>) -> (r: Vec<u8>)
        requires
            self.wf(),
        ensures
            r@ == transformed(*self, data@),
            r@.len() == data@.len(),
    {
        if self.obfs {
            xor(data, self.key.as_slice())
        } else {
            data
        }
    }
}

/// One uplink step: `read` is the outcome of one packet read from the virtual
/// device (`None` when the read failed). The action is exactly what
/// `uplink_decision` says.
pub fn uplink_step(cfg: &RelayConfig, read: Option<Vec<u8>>) -> (r: PumpAction)
    requires
        cfg.wf(),
    ensures
        r@ == uplink_decision(*cfg, (match read {
            Option::Some(data) => Option::Some(data@),
            Option::None => Option::None,
        })),
{
    match read {
        Option::Some(data) => PumpAction::Forward(cfg.apply_codec(data)),
        Option::None => PumpAction::Stop(FaultKind::DeviceError),
    }
}

/// One downlink step: `recv` is the outcome of one datagram receive on the
/// socket, payload and source address (`None` when the receive failed). The
/// action is exactly what `downlink_decision` says.
pub fn downlink_step(cfg: &RelayConfig, recv: Option<(Vec<u8>, String)>) -> (r: PumpAction)
    requires
        cfg.wf(),
    ensures
        r@ == downlink_decision(*cfg, (match recv {
            Option::Some((data, source)) => Option::Some((data@, source@)),
            Option::None => Option::None,
        })),
{
    match recv {
        Option::Some((data, _source)) => PumpAction::Forward(cfg.apply_codec(data)),
        Option::None => PumpAction::Stop(FaultKind::SocketError),
    }
}

/// Law: with obfuscation disabled, forwarded bytes equal the original bytes
/// exactly, in both directions.
pub proof fn lemma_identity_when_disabled(cfg: RelayConfig, payload: Seq<u8>, source: Seq<char>)
    requires
        !cfg.obfs,
    ensures
        uplink_decision(cfg, Option::Some(payload)) == Decision::Forward(payload),
        downlink_decision(cfg, Option::Some((payload, source))) == Decision::Forward(payload),
{
}

/// Law: round trip across the tunnel. Two relays configured alike (same key,
/// same obfuscation setting) are mutual inverses: what one's uplink puts on
/// the wire, the other's downlink hands to its device byte-identical, and
/// symmetrically, since both directions apply the same transform.
pub proof fn lemma_tunnel_round_trip(cfg: RelayConfig, payload: Seq<u8>, source: Seq<char>)
    requires
        cfg.wf(),
    ensures
        (uplink_decision(cfg, Option::Some(payload)) matches Decision::Forward(wire)
            && downlink_decision(cfg, Option::Some((wire, source))) == Decision::Forward(payload)),
        (downlink_decision(cfg, Option::Some((payload, source))) matches Decision::Forward(wire)
            && uplink_decision(cfg, Option::Some(wire)) == Decision::Forward(payload)),
{
    if cfg.obfs {
        lemma_xor_involution(payload, cfg.key@);
    }
}

/// Law: the downlink forwards a datagram on its payload alone. A datagram
/// from any source address — the configured peer or a stranger — yields the
/// same decision; nothing is dropped or altered on account of the sender.
pub proof fn lemma_source_unvalidated(cfg: RelayConfig, payload: Seq<u8>, source_a: Seq<char>, source_b: Seq<char>)
    ensures
        downlink_decision(cfg, Option::Some((payload, source_a)))
            == downlink_decision(cfg, Option::Some((payload, source_b))),
{
}

/// Law: an I/O failure is fatal to its pump. A failed device read stops the
/// uplink with a device fault; a failed socket receive stops the downlink
/// with a socket fault; neither ever forwards on a failure. The two pumps
/// share no mutable state, so a fault in one leaves the other's decisions
/// unchanged: each decision above depends on the configuration and the
/// pump's own I/O outcome alone.
pub proof fn lemma_fault_is_fatal(cfg: RelayConfig)
    ensures
        uplink_decision(cfg, Option::None) == Decision::Stop(FaultKind::DeviceError),
        downlink_decision(cfg, Option::None) == Decision::Stop(FaultKind::SocketError),
{
}

} // verus!
