//! NERC CIP enforcement on inbound packets and boot topology, and FAC-008 tracking.

use vstd::prelude::*;
use crate::digest::{sha256, sha256_digest, hex_encode, hex_lower};
use crate::text::{decimal, push_str, push_decimal, to_ascii_lower, ascii_lower};

verus! {

/// Enforcement outcomes.
#[derive(PartialEq, Eq, Structural, Clone, Copy, Debug)]
pub enum EnforcementCode {
    HaltCip001,
    Err003,
    Err004,
    ErrBal001,
    ErrFac008,
}

/// An enforcement action and its reason.
#[derive(Clone, Debug)]
pub struct EnforcementEvent {
    pub code: EnforcementCode,
    pub message: String,
}

impl EnforcementEvent {
    fn new(code: EnforcementCode, message: String) -> (res: Self)
        ensures
            res.code == code,
            res.message@ == message@,
    {
        EnforcementEvent { code, message }
    }
}

/// Minutes over the emergency rating and SCED intervals a contingency stayed open.
#[derive(Clone, Copy, Debug)]
pub struct FacTracker {
    pub over_emergency_minutes: u32,
    pub unresolved_sced_intervals: u32,
}

/// The service an inbound packet claims.
#[derive(Clone, Debug)]
pub enum PacketType {
    Iccp,
    NtpOrPtp,
    Other(String),
}

/// An inbound packet at the security perimeter.
#[derive(Clone, Debug)]
pub struct InboundPacket {
    pub src_mac: String,
    pub dst_port: u16,
    pub packet_type: PacketType,
    pub writes_base_point: bool,
}

/// The ports and source MACs allowed through the perimeter (an empty MAC list
/// allows every MAC).
#[derive(Clone, Debug)]
pub struct CipPolicy {
    pub allowed_ports: Vec<u16>,
    pub allowed_macs: Vec<String>,
}

impl Default for CipPolicy {
    /// ICCP (102) and NTP/PTP (123) ports, any MAC.
    fn default() -> (res: Self)
        ensures
            res.allowed_ports@ == seq![102u16, 123u16],
            res.allowed_macs@.len() == 0,
    {
        let mut ports: Vec<u16> = Vec::new();
        ports.push(102);
        ports.push(123);
        CipPolicy { allowed_ports: ports, allowed_macs: Vec::new() }
    }
}

/// Whether the perimeter halts and freezes the last known good state.
#[derive(Clone, Debug)]
pub struct SecurityOutcome {
    pub halt: bool,
    pub freeze_last_known_good_state: bool,
}

/// The MAC texts a policy allows.
pub open spec fn mac_texts(macs: Seq<String>) -> Seq<Seq<char>> {
    macs.map_values(|m: String| m@)
}

/// The packet's claimed service matches its port: ICCP on 102, NTP/PTP on 123.
pub open spec fn service_matches(t: PacketType, port: u16) -> bool {
    (t is Iccp && port == 102) || (t is NtpOrPtp && port == 123)
}

/// The CIP-007 refusal of `p` under `policy`, if any: unknown port, then unknown
/// MAC, then a service that does not match its port, then a base-point write.
pub open spec fn cip007_refusal(p: InboundPacket, policy: CipPolicy) -> Option<Seq<char>> {
    if !policy.allowed_ports@.contains(p.dst_port) {
        Some("unauthorized destination port "@ + decimal(p.dst_port as nat))
    } else if policy.allowed_macs@.len() > 0 && !mac_texts(policy.allowed_macs@).contains(p.src_mac@) {
        Some("unauthorized source MAC "@ + p.src_mac@)
    } else if !service_matches(p.packet_type, p.dst_port) {
        Some("unexpected packet type for allowed service port"@)
    } else if p.writes_base_point {
        Some("unauthorized write attempt to base point memory"@)
    } else {
        None
    }
}

fn port_allowed(ports: &Vec<u16>, port: u16) -> (res: bool)
    ensures
        res == ports@.contains(port),
{
    let mut i: usize = 0;
    while i < ports.len()
        invariant
            i <= ports@.len(),
            forall|j: int| 0 <= j < i ==> ports@[j] != port,
        decreases ports@.len() - i,
    {
        if ports[i] == port {
            return true;
        }
        i += 1;
    }
    false
}

fn mac_allowed(macs: &Vec<String>, mac: &String) -> (res: bool)
    ensures
        res == mac_texts(macs@).contains(mac@),
{
    let mut i: usize = 0;
    while i < macs.len()
        invariant
            i <= macs@.len(),
            forall|j: int| 0 <= j < i ==> macs@[j]@ != mac@,
        decreases macs@.len() - i,
    {
        if macs[i] == *mac {
            proof {
                assert(mac_texts(macs@)[i as int] == mac@);
            }
            return true;
        }
        i += 1;
    }
    proof {
        if mac_texts(macs@).contains(mac@) {
            let k = choose|k: int| 0 <= k < mac_texts(macs@).len() && mac_texts(macs@)[k] == mac@;
            assert(macs@[k]@ == mac@);
        }
    }
    false
}

/// CIP-007 perimeter enforcement: a packet passes only to an allowed port, from an
/// allowed MAC (when MACs are listed), with the service its port carries, and
/// without writing base-point memory.
pub fn enforce_cip007(packet: &InboundPacket, policy: &CipPolicy) -> (res: Result<SecurityOutcome, EnforcementEvent>)
    ensures
        match cip007_refusal(*packet, *policy) {
            Some(m) => res is Err && res->Err_0.code == EnforcementCode::HaltCip001
                && res->Err_0.message@ == m,
            None => res is Ok && !res->Ok_0.halt && !res->Ok_0.freeze_last_known_good_state,
        },
{
    if !port_allowed(&policy.allowed_ports, packet.dst_port) {
        let mut m = String::from_str("unauthorized destination port ");
        push_decimal(&mut m, packet.dst_port as u128);
        return Err(EnforcementEvent::new(EnforcementCode::HaltCip001, m));
    }
    if policy.allowed_macs.len() > 0 && !mac_allowed(&policy.allowed_macs, &packet.src_mac) {
        let mut m = String::from_str("unauthorized source MAC ");
        push_str(&mut m, packet.src_mac.as_str());
        return Err(EnforcementEvent::new(EnforcementCode::HaltCip001, m));
    }
    let type_ok = match packet.packet_type {
        PacketType::Iccp => packet.dst_port == 102,
        PacketType::NtpOrPtp => packet.dst_port == 123,
        PacketType::Other(_) => false,
    };
    if !type_ok {
        return Err(
            EnforcementEvent::new(
                EnforcementCode::HaltCip001,
                String::from_str("unexpected packet type for allowed service port"),
            ),
        );
    }
    if packet.writes_base_point {
        return Err(
            EnforcementEvent::new(
                EnforcementCode::HaltCip001,
                String::from_str("unauthorized write attempt to base point memory"),
            ),
        );
    }
    Ok(SecurityOutcome { halt: false, freeze_last_known_good_state: false })
}

/// CIP-011 boot check: the topology bytes' lowercase hex SHA-256 must equal the
/// expected checksum read case-insensitively.
pub fn enforce_cip011_topology_integrity(topology_bytes: &[u8], expected_sha256_hex: &str) -> (res: Result<(), EnforcementEvent>)
    ensures
        res is Ok <==> hex_lower(sha256(topology_bytes@)) == ascii_lower(expected_sha256_hex@),
        res is Err ==> res->Err_0.code == EnforcementCode::HaltCip001
            && res->Err_0.message@ == "topology checksum mismatch at boot (CIP-011 no-go)"@,
{
    let digest = sha256_digest(topology_bytes);
    let actual = hex_encode(digest.as_slice());
    let expected = to_ascii_lower(expected_sha256_hex);
    if actual != expected {
        return Err(
            EnforcementEvent::new(
                EnforcementCode::HaltCip001,
                String::from_str("topology checksum mismatch at boot (CIP-011 no-go)"),
            ),
        );
    }
    Ok(())
}

} // verus!
