//! A minimal byte-wide output area, the one peripheral of the bring-up
//! board: a single register whose low field takes one byte per write.
//! The ghost history records every byte handed to the hardware, in order.

use vstd::prelude::*;
use crate::regs::{field_set, mask, spec_field_get};

verus! {

pub struct IoArea {
    /// The output register; its low eight bits hold the last byte written.
    pub poop: u32,
    /// Every byte ever written to the register, in order.
    pub written: Ghost<Seq<u8>>,
}

impl IoArea {
    pub fn new() -> (ioa: IoArea)
        ensures
            ioa.poop == 0,
            ioa.written@ == Seq::<u8>::empty(),
    {
        IoArea { poop: 0, written: Ghost(Seq::empty()) }
    }
}

/// Write one byte to the output register's byte field.
pub fn poop(ioa: &mut IoArea, value: u8)
    ensures
        spec_field_get(final(ioa).poop, 0, 8) == value,
        final(ioa).written@ == old(ioa).written@.push(value),
{
    proof {
        assert(value <= mask(8)) by (bit_vector);
    }
    ioa.poop = field_set(ioa.poop, 0, 8, value as u32);
    ioa.written = Ghost(ioa.written@.push(value));
}

} // verus!
