//! Sample format conversion at the capture edge.
//!
//! Devices deliver either signed 16-bit samples, which the pipeline uses
//! directly, unsigned 16-bit samples, which are centered by subtracting
//! the midpoint, or normalized floating-point samples, which only the
//! unverified device layer can scale.

use vstd::prelude::*;

verus! {

/// The signed value an unsigned 16-bit sample centers to.
pub open spec fn centered(s: u16) -> int {
    s - 32768
}

/// Centers one unsigned 16-bit sample to signed 16-bit by subtracting the
/// midpoint of its range.
pub fn u16_to_i16(s: u16) -> (r: i16)
    ensures
        r as int == centered(s),
{
    ((s as i32) - 32768) as i16
}

/// Centers a whole frame of unsigned 16-bit samples, keeping order and
/// length.
pub fn convert_u16_frame(frame: &Vec<u16>) -> (r: Vec<i16>)
    ensures
        r@.len() == frame@.len(),
        forall|i: int| 0 <= i < frame@.len() ==> (#[trigger] r@[i]) as int == centered(frame@[i]),
{
    let mut out: Vec<i16> = Vec::new();
    let mut i: usize = 0;
    while i < frame.len()
        invariant
            i <= frame@.len(),
            out@.len() == i,
            forall|j: int| 0 <= j < i ==> (#[trigger] out@[j]) as int == centered(frame@[j]),
        decreases frame@.len() - i,
    {
        out.push(u16_to_i16(frame[i]));
        i = i + 1;
    }
    out
}

} // verus!
