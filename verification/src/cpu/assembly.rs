//! Assembling instructions into machine code.
use vstd::prelude::*;

verus! {

/// An instruction that can be written out as machine code.
pub trait Assemble {
    /// The machine code of the instruction.
    spec fn spec_bytes(&self) -> Seq<u8>;

    /// Appends the machine code to `dest` and returns how many bytes it wrote.
    fn assemble(&self, dest: &mut Vec<u8>) -> (r: usize)
        ensures
            final(dest)@ == old(dest)@ + self.spec_bytes(),
            r == self.spec_bytes().len(),
    ;
}

} // verus!
