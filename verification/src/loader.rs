//! Loading a program image: a big-endian origin followed by big-endian words.

use vstd::prelude::*;
use crate::error::VmError;
use crate::machine::{Machine, MEMORY_WORDS};
use crate::vm::Vm;
use crate::word::{add_words, join_bytes, word_from_bytes, word_span};

verus! {

/// The address at which an image asks to be loaded.
pub open spec fn image_origin(image: Seq<u8>) -> u16 {
    join_bytes(image[0], image[1])
}

/// The number of whole words that follow the origin. A last odd byte belongs
/// to no word.
pub open spec fn image_len(image: Seq<u8>) -> int {
    (image.len() - 2) / 2
}

/// The `i`-th word of an image.
pub open spec fn image_word(image: Seq<u8>, i: int) -> u16 {
    join_bytes(image[2 + 2 * i], image[3 + 2 * i])
}

/// How far `addr` lies behind `origin`, going round the address space.
pub open spec fn offset_from(origin: u16, addr: int) -> int {
    (addr - origin) % word_span()
}

/// Backing storage after the first `count` words of `image` were copied to
/// consecutive addresses from its origin on, going round after the last
/// address.
pub open spec fn copied(mem: Seq<u16>, image: Seq<u8>, count: int) -> Seq<u16> {
    Seq::new(
        mem.len(),
        |a: int|
            if offset_from(image_origin(image), a) < count {
                image_word(image, offset_from(image_origin(image), a))
            } else {
                mem[a]
            },
    )
}

/// The machine that loading `image` leaves when it fits.
pub open spec fn loaded(m: Machine, image: Seq<u8>) -> Machine {
    Machine { mem: copied(m.mem, image, image_len(image)), pc: image_origin(image), ..m }
}

impl Vm {
    /// Loads `image` and points the program counter at its origin.
    ///
    /// An image of more words than the address space holds is refused before
    /// anything is copied; the program counter is at the origin all the same.
    pub fn read_image(&mut self, image: &[u8]) -> (r: Result<(), VmError>)
        requires
            image@.len() >= 2,
        ensures
            image_len(image@) <= MEMORY_WORDS ==> r == Ok::<(), VmError>(()) && final(self)@
                == loaded(old(self)@, image@),
            image_len(image@) > MEMORY_WORDS ==> r == Err::<(), VmError>(VmError::ImageTooLarge)
                && final(self)@ == old(self)@.jump(image_origin(image@)),
    {
        let origin = word_from_bytes(image[0], image[1]);
        self.set_pc(origin);
        let count: usize = (image.len() - 2) / 2;
        if count > MEMORY_WORDS {
            return Err(VmError::ImageTooLarge);
        }
        let mut i: usize = 0;
        proof {
            use_type_invariant(&*self);
        }
        assert(copied(old(self)@.mem, image@, 0) =~= old(self)@.mem);
        while i < count
            invariant
                i <= count <= MEMORY_WORDS,
                count == image_len(image@),
                origin == image_origin(image@),
                old(self)@.wf(),
                self@ == (Machine { mem: copied(old(self)@.mem, image@, i as int), ..old(self)@.jump(origin) }),
            decreases count - i,
        {
            let word = word_from_bytes(image[2 + 2 * i], image[3 + 2 * i]);
            let addr = add_words(origin, i as u16);
            self.poke(addr, word);
            proof {
                let before = copied(old(self)@.mem, image@, i as int);
                let after = copied(old(self)@.mem, image@, i + 1);
                assert(offset_from(origin, addr as int) == i);
                assert forall|a: int| 0 <= a < MEMORY_WORDS implies #[trigger] before.update(
                    addr as int,
                    word,
                )[a] == after[a] by {
                    if a != addr {
                        assert(offset_from(origin, a) != i);
                    }
                }
                assert(before.update(addr as int, word) =~= after);
            }
            i += 1;
        }
        Ok(())
    }
}

} // verus!
