//! The substrate node and the binary states of the execution geometry.

use vstd::prelude::*;

verus! {

/// The mask applied to a node's input signal.
pub const SIGNAL_MASK: u8 = 0x5A;

/// A two-valued state.
#[derive(PartialEq, Eq, Structural, Clone, Copy, Debug)]
pub enum BinaryState {
    Zero,
    One,
}

impl BinaryState {
    /// `Zero` for 0, `One` for 1, nothing otherwise.
    pub fn from_u8(v: u8) -> (res: Option<BinaryState>)
        ensures
            res == (if v == 0 {
                Some(BinaryState::Zero)
            } else if v == 1 {
                Some(BinaryState::One)
            } else {
                None
            }),
    {
        if v == 0 {
            Some(BinaryState::Zero)
        } else if v == 1 {
            Some(BinaryState::One)
        } else {
            None
        }
    }

    /// 0 for `Zero`, 1 for `One`.
    pub fn as_u8(&self) -> (res: u8)
        ensures
            res == (if *self == BinaryState::Zero {
                0u8
            } else {
                1u8
            }),
    {
        match self {
            BinaryState::Zero => 0,
            BinaryState::One => 1,
        }
    }
}

/// A node of the substrate: accumulated charge, consecutive stable ticks, its
/// masked input signal, and an optionally coupled entity.
#[derive(Debug)]
pub struct SubstrateNode {
    pub charge: u64,
    pub stable_ticks: u8,
    pub masked_signal: u8,
    pub entity_a: Option<Box<SubstrateNode>>,
}

impl SubstrateNode {
    /// A fresh node for input signal `sigma`: no charge, no stable ticks, the
    /// signal stored masked, nothing coupled.
    pub fn new(sigma: u8) -> (res: Self)
        ensures
            res.charge == 0,
            res.stable_ticks == 0,
            res.masked_signal == sigma ^ SIGNAL_MASK,
            res.entity_a is None,
    {
        SubstrateNode { charge: 0, stable_ticks: 0, masked_signal: sigma ^ SIGNAL_MASK, entity_a: None }
    }

    /// An exact copy of the node, coupled entities included.
    pub fn snapshot(&self) -> (res: Self)
        ensures
            res == *self,
        decreases self,
    {
        let entity_a = match &self.entity_a {
            Some(e) => Some(Box::new((&**e).snapshot())),
            None => None,
        };
        SubstrateNode {
            charge: self.charge,
            stable_ticks: self.stable_ticks,
            masked_signal: self.masked_signal,
            entity_a,
        }
    }
}

} // verus!
