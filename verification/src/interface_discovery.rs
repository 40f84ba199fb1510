//! Interface categories, protocol kinds and the endpoints found on a host.

use vstd::prelude::*;
use crate::failure_axis::SystemHalt;

verus! {

/// The kind of a physical or logical interface.
#[derive(PartialEq, Eq, Structural, Clone, Copy, Debug)]
pub enum InterfaceCategory {
    Electrical,
    Communication,
    Control,
    Monitoring,
    Protection,
}

/// The grid protocols the kernel speaks.
#[allow(non_camel_case_types)]
#[derive(PartialEq, Eq, Structural, Clone, Copy, Debug)]
pub enum ProtocolKind {
    DNP3,
    Modbus,
    IEC61850,
    C37p118,
    ICCP_TASE2,
}

/// The kernel subsystem an interface serves.
#[derive(PartialEq, Eq, Structural, Clone, Copy, Debug)]
pub enum FunctionalSubsystem {
    GridStateMonitoring,
    SetpointDispatch,
    ProtectionLogic,
    CommunicationGateway,
    AuditRecording,
}

/// A service found listening on a host port.
#[derive(Clone, Debug)]
pub struct DiscoveredEndpoint {
    pub hostname: String,
    pub port: u16,
    pub service: String,
}

/// An operator-supplied hint tying a host to a protocol and subsystem.
#[derive(Clone, Debug)]
pub struct InterfaceHint {
    pub hostname: String,
    pub protocol: ProtocolKind,
    pub subsystem: FunctionalSubsystem,
}

/// How discovery scans.
#[derive(Clone, Debug)]
pub struct DiscoveryConfig {
    pub include_loopback: bool,
    pub timeout_secs: u32,
}

impl Default for DiscoveryConfig {
    fn default() -> (res: Self)
        ensures
            !res.include_loopback,
            res.timeout_secs == 5,
    {
        DiscoveryConfig { include_loopback: false, timeout_secs: 5 }
    }
}

/// The simulated network scan: DNP3 on port 20000 and Modbus on port 502, both
/// on `eth0`, whatever the loopback setting.
pub fn scan_network_interfaces(include_loopback: bool) -> (res: Result<Vec<DiscoveredEndpoint>, SystemHalt>)
    ensures
        res is Ok,
        res->Ok_0@.len() == 2,
        res->Ok_0@[0].hostname@ == "eth0"@ && res->Ok_0@[0].port == 20000
            && res->Ok_0@[0].service@ == "dnp3"@,
        res->Ok_0@[1].hostname@ == "eth0"@ && res->Ok_0@[1].port == 502
            && res->Ok_0@[1].service@ == "modbus"@,
{
    let mut endpoints: Vec<DiscoveredEndpoint> = Vec::new();
    endpoints.push(
        DiscoveredEndpoint {
            hostname: String::from_str("eth0"),
            port: 20000,
            service: String::from_str("dnp3"),
        },
    );
    endpoints.push(
        DiscoveredEndpoint {
            hostname: String::from_str("eth0"),
            port: 502,
            service: String::from_str("modbus"),
        },
    );
    Ok(endpoints)
}

/// The protocol inferred from a set of open ports: DNP3 when 20000 is open,
/// else Modbus when 502 is, else IEC 61850.
pub fn infer_network_protocol(open_ports: &Vec<u16>) -> (res: ProtocolKind)
    ensures
        res == (if open_ports@.contains(20000) {
            ProtocolKind::DNP3
        } else if open_ports@.contains(502) {
            ProtocolKind::Modbus
        } else {
            ProtocolKind::IEC61850
        }),
{
    if contains_port(open_ports, 20000) {
        ProtocolKind::DNP3
    } else if contains_port(open_ports, 502) {
        ProtocolKind::Modbus
    } else {
        ProtocolKind::IEC61850
    }
}

/// Whether `port` is among `ports`.
fn contains_port(ports: &Vec<u16>, port: u16) -> (res: bool)
    ensures
        res == ports@.contains(port),
{
    let mut i: usize = 0;
    while i < ports.len()
        invariant
            i <= ports@.len(),
            forall|j: int| 0 <= j < i ==> ports@[j] != port,
        decreases ports@.len() - i,
    {
        if ports[i] == port {
            return true;
        }
        i += 1;
    }
    false
}

/// The subsystem a port's service is mapped to.
pub fn subsystem_for_port(port: u16) -> (res: FunctionalSubsystem)
    ensures
        res == (if port == 20000 {
            FunctionalSubsystem::SetpointDispatch
        } else if port == 502 {
            FunctionalSubsystem::GridStateMonitoring
        } else if port == 50000 {
            FunctionalSubsystem::ProtectionLogic
        } else {
            FunctionalSubsystem::CommunicationGateway
        }),
{
    match port {
        20000 => FunctionalSubsystem::SetpointDispatch,
        502 => FunctionalSubsystem::GridStateMonitoring,
        50000 => FunctionalSubsystem::ProtectionLogic,
        _ => FunctionalSubsystem::CommunicationGateway,
    }
}

/// Interface hints from a hint file; none are read yet, whatever the path.
pub fn load_interface_hints(path: &str) -> (res: Result<Vec<InterfaceHint>, SystemHalt>)
    ensures
        res is Ok && res->Ok_0@.len() == 0,
{
    Ok(Vec::new())
}

/// Interface hints from an SCL substation file; none are read yet, whatever the path.
pub fn load_scl_hints(path: &str) -> (res: Result<Vec<InterfaceHint>, SystemHalt>)
    ensures
        res is Ok && res->Ok_0@.len() == 0,
{
    Ok(Vec::new())
}

} // verus!
