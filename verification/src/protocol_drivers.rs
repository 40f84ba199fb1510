//! Protocol drivers: which port each grid protocol lives on, telemetry summaries,
//! and signed transaction traces.

use vstd::prelude::*;
use crate::failure_axis::{FailureAxis, SystemHalt};
use crate::interface_discovery::{DiscoveredEndpoint, ProtocolKind};
use crate::digest::{sha256_hex, sha256_hex_of};
use crate::text::{decimal, push_str, push_decimal};

verus! {

/// Whether a transaction arrived or left.
#[derive(PartialEq, Eq, Structural, Clone, Copy, Debug)]
pub enum TransactionDirection {
    Inbound,
    Outbound,
}

/// A signed record of one protocol transaction.
#[derive(Clone, Debug)]
pub struct ProtocolTransactionTrace {
    pub timestamp_us: u64,
    pub device_id: String,
    pub protocol: ProtocolKind,
    pub direction: TransactionDirection,
    pub payload_hash_hex: String,
    pub binding_confirmed: bool,
    pub first_use: bool,
    pub signature_hex: String,
}

/// A telemetry payload's protocol and a one-line summary.
#[derive(Clone, Debug)]
pub struct ParsedTelemetry {
    pub protocol: ProtocolKind,
    pub summary: String,
}

/// The well-known port of each protocol.
pub open spec fn protocol_port(k: ProtocolKind) -> u16 {
    match k {
        ProtocolKind::DNP3 => 20000,
        ProtocolKind::Modbus => 502,
        ProtocolKind::IEC61850 => 50000,
        ProtocolKind::C37p118 => 4712,
        ProtocolKind::ICCP_TASE2 => 102,
    }
}

/// The protocol on a well-known port.
pub open spec fn protocol_on_port(port: u16) -> Option<ProtocolKind> {
    if port == 20000 {
        Some(ProtocolKind::DNP3)
    } else if port == 502 {
        Some(ProtocolKind::Modbus)
    } else if port == 50000 {
        Some(ProtocolKind::IEC61850)
    } else if port == 4712 {
        Some(ProtocolKind::C37p118)
    } else if port == 102 {
        Some(ProtocolKind::ICCP_TASE2)
    } else {
        None
    }
}

/// The name a protocol's summaries start with.
pub open spec fn protocol_label(k: ProtocolKind) -> Seq<char> {
    match k {
        ProtocolKind::DNP3 => "DNP3"@,
        ProtocolKind::Modbus => "Modbus"@,
        ProtocolKind::IEC61850 => "IEC-61850"@,
        ProtocolKind::C37p118 => "C37.118"@,
        ProtocolKind::ICCP_TASE2 => "ICCP-TASE2"@,
    }
}

/// The summary of a payload of `n` bytes under protocol `k`.
pub open spec fn telemetry_summary(k: ProtocolKind, n: nat) -> Seq<char> {
    protocol_label(k) + " message: "@ + decimal(n) + " bytes"@
}

/// `res` is the telemetry of an `n`-byte payload under `k`.
pub open spec fn telemetry_of(res: Result<ParsedTelemetry, SystemHalt>, k: ProtocolKind, n: nat) -> bool {
    res is Ok && res->Ok_0.protocol == k && res->Ok_0.summary@ == telemetry_summary(k, n)
}

fn telemetry(k: ProtocolKind, label: &str, payload: &[u8]) -> (res: Result<ParsedTelemetry, SystemHalt>)
    requires
        label@ == protocol_label(k),
    ensures
        telemetry_of(res, k, payload@.len()),
{
    let mut summary = String::from_str(label);
    push_str(&mut summary, " message: ");
    push_decimal(&mut summary, payload.len() as u128);
    push_str(&mut summary, " bytes");
    Ok(ParsedTelemetry { protocol: k, summary })
}

/// A driver for one grid protocol.
pub trait ProtocolDriver {
    /// The protocol this driver speaks.
    fn kind(&self) -> ProtocolKind;

    /// Whether an endpoint listens on this protocol's port.
    fn validate_endpoint(&self, endpoint: &DiscoveredEndpoint) -> bool;

    /// A summary of a telemetry payload.
    fn parse_telemetry(&self, payload: &[u8]) -> Result<ParsedTelemetry, SystemHalt>;
}

/// DNP3 on port 20000.
pub struct Dnp3Driver;

/// Modbus on port 502.
pub struct ModbusDriver;

/// IEC 61850 on port 50000.
pub struct Iec61850Driver;

/// IEEE C37.118 on port 4712.
pub struct C37p118Driver;

/// ICCP/TASE.2 on port 102.
pub struct IccpTase2Driver;

impl ProtocolDriver for Dnp3Driver {
    fn kind(&self) -> (res: ProtocolKind)
        ensures
            res == ProtocolKind::DNP3,
    {
        ProtocolKind::DNP3
    }

    fn validate_endpoint(&self, endpoint: &DiscoveredEndpoint) -> (res: bool)
        ensures
            res == (endpoint.port == protocol_port(ProtocolKind::DNP3)),
    {
        endpoint.port == 20000
    }

    fn parse_telemetry(&self, payload: &[u8]) -> (res: Result<ParsedTelemetry, SystemHalt>)
        ensures
            telemetry_of(res, ProtocolKind::DNP3, payload@.len()),
    {
        telemetry(ProtocolKind::DNP3, "DNP3", payload)
    }
}

impl ProtocolDriver for ModbusDriver {
    fn kind(&self) -> (res: ProtocolKind)
        ensures
            res == ProtocolKind::Modbus,
    {
        ProtocolKind::Modbus
    }

    fn validate_endpoint(&self, endpoint: &DiscoveredEndpoint) -> (res: bool)
        ensures
            res == (endpoint.port == protocol_port(ProtocolKind::Modbus)),
    {
        endpoint.port == 502
    }

    fn parse_telemetry(&self, payload: &[u8]) -> (res: Result<ParsedTelemetry, SystemHalt>)
        ensures
            telemetry_of(res, ProtocolKind::Modbus, payload@.len()),
    {
        telemetry(ProtocolKind::Modbus, "Modbus", payload)
    }
}

impl ProtocolDriver for Iec61850Driver {
    fn kind(&self) -> (res: ProtocolKind)
        ensures
            res == ProtocolKind::IEC61850,
    {
        ProtocolKind::IEC61850
    }

    fn validate_endpoint(&self, endpoint: &DiscoveredEndpoint) -> (res: bool)
        ensures
            res == (endpoint.port == protocol_port(ProtocolKind::IEC61850)),
    {
        endpoint.port == 50000
    }

    fn parse_telemetry(&self, payload: &[u8]) -> (res: Result<ParsedTelemetry, SystemHalt>)
        ensures
            telemetry_of(res, ProtocolKind::IEC61850, payload@.len()),
    {
        telemetry(ProtocolKind::IEC61850, "IEC-61850", payload)
    }
}

impl ProtocolDriver for C37p118Driver {
    fn kind(&self) -> (res: ProtocolKind)
        ensures
            res == ProtocolKind::C37p118,
    {
        ProtocolKind::C37p118
    }

    fn validate_endpoint(&self, endpoint: &DiscoveredEndpoint) -> (res: bool)
        ensures
            res == (endpoint.port == protocol_port(ProtocolKind::C37p118)),
    {
        endpoint.port == 4712
    }

    fn parse_telemetry(&self, payload: &[u8]) -> (res: Result<ParsedTelemetry, SystemHalt>)
        ensures
            telemetry_of(res, ProtocolKind::C37p118, payload@.len()),
    {
        telemetry(ProtocolKind::C37p118, "C37.118", payload)
    }
}

impl ProtocolDriver for IccpTase2Driver {
    fn kind(&self) -> (res: ProtocolKind)
        ensures
            res == ProtocolKind::ICCP_TASE2,
    {
        ProtocolKind::ICCP_TASE2
    }

    fn validate_endpoint(&self, endpoint: &DiscoveredEndpoint) -> (res: bool)
        ensures
            res == (endpoint.port == protocol_port(ProtocolKind::ICCP_TASE2)),
    {
        endpoint.port == 102
    }

    fn parse_telemetry(&self, payload: &[u8]) -> (res: Result<ParsedTelemetry, SystemHalt>)
        ensures
            telemetry_of(res, ProtocolKind::ICCP_TASE2, payload@.len()),
    {
        telemetry(ProtocolKind::ICCP_TASE2, "ICCP-TASE2", payload)
    }
}

/// The protocol whose well-known port is `port`.
pub fn protocol_kind_by_port(port: u16) -> (res: Option<ProtocolKind>)
    ensures
        res == protocol_on_port(port),
{
    match port {
        20000 => Some(ProtocolKind::DNP3),
        502 => Some(ProtocolKind::Modbus),
        50000 => Some(ProtocolKind::IEC61850),
        4712 => Some(ProtocolKind::C37p118),
        102 => Some(ProtocolKind::ICCP_TASE2),
        _ => None,
    }
}

/// The telemetry summary of `payload` under the protocol of `port`; an external
/// injection halt for a port no driver owns.
pub fn parse_payload_by_port(port: u16, payload: &[u8]) -> (res: Result<ParsedTelemetry, SystemHalt>)
    ensures
        match protocol_on_port(port) {
            Some(k) => telemetry_of(res, k, payload@.len()),
            None => res is Err && res->Err_0.axis == FailureAxis::ExternalInjectionDetected
                && res->Err_0.message@ == "Unsupported protocol port: "@ + decimal(port as nat),
        },
{
    match port {
        20000 => Dnp3Driver.parse_telemetry(payload),
        502 => ModbusDriver.parse_telemetry(payload),
        50000 => Iec61850Driver.parse_telemetry(payload),
        4712 => C37p118Driver.parse_telemetry(payload),
        102 => IccpTase2Driver.parse_telemetry(payload),
        _ => {
            let mut m = String::from_str("Unsupported protocol port: ");
            push_decimal(&mut m, port as u128);
            Err(SystemHalt::with_formatted(FailureAxis::ExternalInjectionDetected, m))
        },
    }
}

/// Each endpoint's host name, marked as validated.
pub fn validate_discovered_protocols(endpoints: &[DiscoveredEndpoint]) -> (res: Vec<(String, bool)>)
    ensures
        res@.len() == endpoints@.len(),
        forall|i: int|
            0 <= i < res@.len() ==> #[trigger] res@[i].0@ == endpoints@[i].hostname@ && res@[i].1,
{
    let mut out: Vec<(String, bool)> = Vec::new();
    let mut i: usize = 0;
    while i < endpoints.len()
        invariant
            i <= endpoints@.len(),
            out@.len() == i,
            forall|j: int|
                0 <= j < i ==> #[trigger] out@[j].0@ == endpoints@[j].hostname@ && out@[j].1,
        decreases endpoints@.len() - i,
    {
        out.push((endpoints[i].hostname.clone(), true));
        i += 1;
    }
    out
}

/// Signs protocol transactions and keeps the traces it has recorded.
pub struct ProtocolTraceSigner {
    traces: Vec<ProtocolTransactionTrace>,
}

impl ProtocolTraceSigner {
    /// A signer with no traces.
    pub fn new() -> (res: Self)
        ensures
            res.trace_count() == 0,
    {
        ProtocolTraceSigner { traces: Vec::new() }
    }

    /// The number of traces recorded.
    pub closed spec fn trace_count(&self) -> nat {
        self.traces@.len()
    }

    /// A trace of `payload` from `device_id` at `timestamp_us`: the payload's hex
    /// SHA-256, and as signature the hex SHA-256 of that hex text followed by the
    /// device id; the binding is confirmed and the trace is a first use while the
    /// signer holds no traces. The signer itself is not changed.
    pub fn sign_transaction(
        &mut self,
        device_id: String,
        protocol: ProtocolKind,
        direction: TransactionDirection,
        payload: &[u8],
        timestamp_us: u64,
    ) -> (res: ProtocolTransactionTrace)
        ensures
            *final(self) == *old(self),
            final(self).trace_count() == old(self).trace_count(),
            res.timestamp_us == timestamp_us,
            res.device_id@ == device_id@,
            res.protocol == protocol,
            res.direction == direction,
            res.payload_hash_hex@ == sha256_hex_of(payload@),
            res.binding_confirmed,
            res.first_use == (old(self).trace_count() == 0),
            res.signature_hex@ == sha256_hex_of(
                vstd::utf8::encode_utf8(res.payload_hash_hex@) + vstd::utf8::encode_utf8(device_id@),
            ),
    {
        let hash = sha256_hex(payload);
        let mut joined: Vec<u8> = Vec::new();
        crate::digest::push_all(&mut joined, hash.as_str().as_bytes());
        crate::digest::push_all(&mut joined, device_id.as_str().as_bytes());
        let sig = sha256_hex(joined.as_slice());
        ProtocolTransactionTrace {
            timestamp_us,
            device_id,
            protocol,
            direction,
            payload_hash_hex: hash,
            binding_confirmed: true,
            first_use: self.traces.len() == 0,
            signature_hex: sig,
        }
    }
}

impl Default for ProtocolTraceSigner {
    fn default() -> (res: Self)
        ensures
            res.trace_count() == 0,
    {
        ProtocolTraceSigner::new()
    }
}

/// Each protocol's well-known port maps back to that protocol, so a driver accepts
/// exactly the endpoints that `protocol_kind_by_port` attributes to its protocol.
pub proof fn lemma_port_roundtrip(k: ProtocolKind, port: u16)
    ensures
        protocol_on_port(protocol_port(k)) == Some(k),
        (port == protocol_port(k)) <==> (protocol_on_port(port) == Some(k)),
{
}

} // verus!
