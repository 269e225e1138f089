use vstd::prelude::*;

verus! {

/// Whether a 16-bit class code (class byte, then subclass byte) is a display controller.
pub fn is_gpu(class: u16) -> (r: bool)
    ensures
        r == (class / 256 == 3),
{
    let id = class >> 8;
    assert(class >> 8 == class / 256) by (bit_vector);
    id == 0x03
}

} // verus!
