//! The deterministic output HAL: fixed-layout output packets and the output policy.

use vstd::prelude::*;
use crate::failure_axis::SystemHalt;
use crate::digest::le_bytes;

verus! {

/// Bytes in every output packet.
pub const DEFAULT_PACKET_BYTES: usize = 32;

/// Where output may go and how the dead-man keepalive works.
#[derive(Clone, Debug)]
pub struct OutputHalPolicy {
    pub allowed_interfaces: Vec<String>,
    pub packet_bytes: usize,
    pub deadman_enabled: bool,
    pub keepalive_timeout_ms: u64,
    /// Path of the keepalive file, if one is watched.
    pub keepalive_file: Option<String>,
}

/// The built-in policy: interfaces `eth0` and `sim`, 32-byte packets, dead-man on
/// with a one-second keepalive, no keepalive file.
pub open spec fn is_builtin_policy(p: OutputHalPolicy) -> bool {
    &&& p.allowed_interfaces@.len() == 2
    &&& p.allowed_interfaces@[0]@ == "eth0"@
    &&& p.allowed_interfaces@[1]@ == "sim"@
    &&& p.packet_bytes == DEFAULT_PACKET_BYTES
    &&& p.deadman_enabled
    &&& p.keepalive_timeout_ms == 1000
    &&& p.keepalive_file is None
}

impl OutputHalPolicy {
    /// The built-in policy: interfaces `eth0` and `sim`, 32-byte packets, dead-man
    /// on with a one-second keepalive, no keepalive file.
    pub fn from_env() -> (res: Self)
        ensures
            is_builtin_policy(res),
    {
        let mut interfaces: Vec<String> = Vec::new();
        interfaces.push(String::from_str("eth0"));
        interfaces.push(String::from_str("sim"));
        OutputHalPolicy {
            allowed_interfaces: interfaces,
            packet_bytes: DEFAULT_PACKET_BYTES,
            deadman_enabled: true,
            keepalive_timeout_ms: 1000,
            keepalive_file: None,
        }
    }
}

/// The output HAL: the interface it writes to and its policy.
pub struct DeterministicOutputHal {
    selected_interface: String,
    policy: OutputHalPolicy,
}

/// The packet layout: tick as 8 little-endian bytes, the three state bytes, the
/// safe-state flag as 0 or 1, then zeros up to 32 bytes.
pub open spec fn packet_layout(tick: u64, state_vector: Seq<u8>, safe_state: bool) -> Seq<u8> {
    le_bytes(tick as nat, 8) + state_vector + seq![
        if safe_state {
            1u8
        } else {
            0u8
        },
    ] + Seq::new(20, |i: int| 0u8)
}

/// The fixed 32-byte packet of an output command.
pub fn fixed_packet(tick: u64, state_vector: [u8; 3], safe_state: bool) -> (res: [u8; 32])
    ensures
        res@ == packet_layout(tick, state_vector@, safe_state),
{
    let mut packet = [0u8; 32];
    let mut t = tick;
    let mut i: usize = 0;
    proof {
        assert(pow256(0) == 1);
        lemma_le_bytes_len(tick as nat, 8);
    }
    while i < 8
        invariant
            i <= 8,
            le_bytes(tick as nat, 8).len() == 8,
            t as nat == (tick as nat) / pow256(i as nat),
            forall|j: int| 0 <= j < i ==> packet@[j] == le_bytes(tick as nat, 8)[j],
            forall|j: int| 8 <= j < 32 ==> packet@[j] == 0u8,
        decreases 8 - i,
    {
        proof {
            lemma_le_bytes_index(tick as nat, 8, i as nat);
        }
        packet[i] = (t % 256) as u8;
        t = t / 256;
        proof {
            lemma_pow256_step(i as nat);
            assert((tick as nat) / pow256((i + 1) as nat) == ((tick as nat) / pow256(i as nat)) / 256) by {
                lemma_div_div(tick as nat, pow256(i as nat));
            }
        }
        i += 1;
    }
    packet[8] = state_vector[0];
    packet[9] = state_vector[1];
    packet[10] = state_vector[2];
    packet[11] = if safe_state { 1u8 } else { 0u8 };
    proof {
        let l = packet_layout(tick, state_vector@, safe_state);
        assert(l.len() == 32);
        assert forall|j: int| 0 <= j < 32 implies packet@[j] == l[j] by {
            if j < 8 {
                assert(l[j] == le_bytes(tick as nat, 8)[j]);
            }
        }
        assert(packet@ =~= l);
    }
    packet
}

/// 256 to the power `n`.
pub open spec fn pow256(n: nat) -> nat
    decreases n,
{
    if n == 0 {
        1
    } else {
        256 * pow256((n - 1) as nat)
    }
}

proof fn lemma_pow256_step(n: nat)
    ensures
        pow256(n + 1) == 256 * pow256(n),
        pow256(n) > 0,
    decreases n,
{
    if n > 0 {
        lemma_pow256_step((n - 1) as nat);
    }
}

proof fn lemma_div_div(x: nat, p: nat)
    requires
        p > 0,
    ensures
        x / (256 * p) == (x / p) / 256,
{
    vstd::arithmetic::div_mod::lemma_div_denominator(x as int, p as int, 256);
    assert(p * 256 == 256 * p) by (nonlinear_arith);
}

/// Byte `k` of the `n`-byte layout of `x` is `(x / 256^k) % 256`.
proof fn lemma_le_bytes_index(x: nat, n: nat, k: nat)
    requires
        k < n,
    ensures
        le_bytes(x, n).len() == n,
        le_bytes(x, n)[k as int] == ((x / pow256(k)) % 256) as u8,
    decreases n,
{
    lemma_le_bytes_len(x, n);
    let l = le_bytes(x, n);
    assert(l == seq![(x % 256) as u8] + le_bytes(x / 256, (n - 1) as nat));
    if k == 0 {
        assert(pow256(0) == 1);
        assert(x / 1 == x);
    } else {
        lemma_le_bytes_index(x / 256, (n - 1) as nat, (k - 1) as nat);
        lemma_pow256_step((k - 1) as nat);
        let p = pow256((k - 1) as nat);
        vstd::arithmetic::div_mod::lemma_div_denominator(x as int, 256, p as int);
        assert(pow256(k) == 256 * p);
        assert(l[k as int] == le_bytes(x / 256, (n - 1) as nat)[k - 1]);
    }
}

proof fn lemma_le_bytes_len(x: nat, n: nat)
    ensures
        le_bytes(x, n).len() == n,
    decreases n,
{
    if n > 0 {
        lemma_le_bytes_len(x / 256, (n - 1) as nat);
    }
}

impl DeterministicOutputHal {
    /// The HAL on the simulation interface with the built-in policy.
    pub fn from_env() -> (res: Result<Self, SystemHalt>)
        ensures
            res is Ok,
            res->Ok_0.interface()@ == "sim"@,
            is_builtin_policy(res->Ok_0.policy()),
    {
        let policy = OutputHalPolicy::from_env();
        Ok(DeterministicOutputHal { selected_interface: String::from_str("sim"), policy })
    }

    /// The interface the HAL writes to.
    pub closed spec fn interface(&self) -> String {
        self.selected_interface
    }

    /// The output policy the HAL follows.
    pub closed spec fn policy(&self) -> OutputHalPolicy {
        self.policy
    }

    /// The keepalive check; no keepalive source is watched, so it always passes.
    pub fn poll_keepalive(&self) -> (res: Result<(), SystemHalt>)
        ensures
            res is Ok,
    {
        Ok(())
    }

    /// The packet that puts the plant in its safe state at `tick`: zero state
    /// vector, safe-state flag set.
    pub fn safe_state_packet(&self, tick: u64) -> (res: [u8; 32])
        ensures
            res@ == packet_layout(tick, seq![0u8, 0u8, 0u8], true),
    {
        let p = fixed_packet(tick, [0u8, 0u8, 0u8], true);
        proof {
            assert([0u8, 0u8, 0u8]@ =~= seq![0u8, 0u8, 0u8]);
        }
        p
    }
}

} // verus!
