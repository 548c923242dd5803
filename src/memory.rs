//! The memory capability the processor works through, and a flat RAM that provides it.
use vstd::prelude::*;

verus! {

/// Number of addressable bytes.
pub const ADDRESS_SPACE: usize = 0x10000;

/// The little-endian 16-bit word made of `lo` and `hi`.
pub open spec fn word(lo: u8, hi: u8) -> u16 {
    (lo + 0x100 * hi) as u16
}

/// Relies on byteorder's `LittleEndian::read_u16`: the first byte is the low half.
#[verifier::external_body]
pub(crate) fn le_word(lo: u8, hi: u8) -> (r: u16)
    ensures
        r == word(lo, hi),
{
    <byteorder::LittleEndian as byteorder::ByteOrder>::read_u16(&[lo, hi])
}

/// Byte-addressed memory as the processor sees it: a read and a write per address.
/// A bus with mirroring or mapped devices implements this the same way.
pub trait Memory {
    /// The byte held at each address.
    spec fn contents(&self) -> Seq<u8>;

    /// The byte at `address`.
    fn read(&self, address: u16) -> (r: u8)
        requires
            self.contents().len() == ADDRESS_SPACE,
        ensures
            r == self.contents()[address as int],
    ;

    /// Stores `value` at `address`, leaving every other address as it was.
    fn write(&mut self, address: u16, value: u8)
        requires
            old(self).contents().len() == ADDRESS_SPACE,
        ensures
            final(self).contents() == old(self).contents().update(address as int, value),
    ;
}

/// The whole 64 KiB address space as plain RAM.
pub struct Ram {
    bytes: Vec<u8>,
}

impl Ram {
    /// RAM holding zero at every address.
    pub fn new() -> (r: Ram)
        ensures
            r.contents() == Seq::new(ADDRESS_SPACE as nat, |i: int| 0u8),
    {
        let mut bytes: Vec<u8> = Vec::new();
        while bytes.len() < ADDRESS_SPACE
            invariant
                bytes.len() <= ADDRESS_SPACE,
                forall|i: int| 0 <= i < bytes.len() ==> bytes@[i] == 0u8,
            decreases ADDRESS_SPACE - bytes.len(),
        {
            bytes.push(0u8);
        }
        let r = Ram { bytes };
        assert(r.contents() =~= Seq::new(ADDRESS_SPACE as nat, |i: int| 0u8));
        r
    }

    /// Copies `data` to the addresses from `origin` on.
    pub fn load(&mut self, origin: u16, data: &[u8])
        requires
            old(self).contents().len() == ADDRESS_SPACE,
            origin + data@.len() <= ADDRESS_SPACE,
        ensures
            final(self).contents().len() == ADDRESS_SPACE,
            forall|a: int|
                0 <= a < ADDRESS_SPACE ==> #[trigger] final(self).contents()[a] == if origin <= a
                    < origin + data@.len() {
                    data@[a - origin]
                } else {
                    old(self).contents()[a]
                },
    {
        let mut i: usize = 0;
        while i < data.len()
            invariant
                i <= data@.len(),
                origin + data@.len() <= ADDRESS_SPACE,
                self.contents().len() == ADDRESS_SPACE,
                forall|a: int|
                    0 <= a < ADDRESS_SPACE ==> #[trigger] self.contents()[a] == if origin <= a
                        < origin + i {
                        data@[a - origin]
                    } else {
                        old(self).contents()[a]
                    },
            decreases data@.len() - i,
        {
            let address = origin + i as u16;
            self.write(address, data[i]);
            i = i + 1;
        }
    }
}

impl Memory for Ram {
    closed spec fn contents(&self) -> Seq<u8> {
        self.bytes@
    }

    fn read(&self, address: u16) -> (r: u8) {
        self.bytes[address as usize]
    }

    fn write(&mut self, address: u16, value: u8) {
        self.bytes.set(address as usize, value);
    }
}

} // verus!
