use vstd::prelude::*;
use super::addressable::{Addr, Addressable};

verus! {

/// A writable memory: what a write stores, a read gives back, and a write
/// touches no other address.
pub trait RAM: Addressable + Sized {
    /// After a write, every address that could be written still can be.
    proof fn lemma_write_keeps_writable(&self, before: &Self, addr: Addr, value: u8, other: Addr)
        requires
            self.spec_wrote(before, addr, value),
            before.write_ok(addr),
            before.write_ok(other),
        ensures
            self.write_ok(other),
    ;

    /// A read gives back what the last write at that address stored; other
    /// addresses keep what they held.
    proof fn lemma_read_after_write(&self, before: &Self, addr: Addr, value: u8, other: Addr)
        requires
            self.spec_wrote(before, addr, value),
            before.write_ok(addr),
        ensures
            other == addr ==> self.read_ok(other) && self.spec_read(other) == value,
            other != addr ==> self.read_ok(other) == before.read_ok(other),
            other != addr && before.read_ok(other) ==> self.spec_read(other) == before.spec_read(
                other,
            ),
    ;

    /// Writes `data` from `addr` on.
    fn load(&mut self, addr: Addr, data: &[u8])
        requires
            addr + data@.len() <= 0xffff,
            forall|a: Addr| addr <= a < addr + data@.len() ==> #[trigger] old(self).write_ok(a),
        ensures
            forall|i: int|
                0 <= i < data@.len() ==> #[trigger] final(self).read_ok((addr + i) as Addr)
                    && final(self).spec_read((addr + i) as Addr) == data@[i],
            forall|a: Addr|
                !(addr <= a < addr + data@.len()) ==> #[trigger] final(self).read_ok(a) == old(
                    self,
                ).read_ok(a) && (old(self).read_ok(a) ==> final(self).spec_read(a) == old(
                    self,
                ).spec_read(a)),
    {
        let end: Addr = addr + data.len() as Addr;
        let mut i: Addr = addr;
        while i < end
            invariant
                addr <= i <= end,
                end == addr + data@.len(),
                forall|a: Addr| addr <= a < end ==> #[trigger] self.write_ok(a),
                forall|k: int|
                    0 <= k < i - addr ==> #[trigger] self.read_ok((addr + k) as Addr)
                        && self.spec_read((addr + k) as Addr) == data@[k],
                forall|a: Addr|
                    !(addr <= a < addr + data@.len()) ==> #[trigger] self.read_ok(a) == old(
                        self,
                    ).read_ok(a) && (old(self).read_ok(a) ==> self.spec_read(a) == old(
                        self,
                    ).spec_read(a)),
            decreases end - i,
        {
            let ghost prev = *self;
            self.write_byte(i, data[(i - addr) as usize]);
            proof {
                assert forall|a: Addr| addr <= a < end implies #[trigger] self.write_ok(a) by {
                    self.lemma_write_keeps_writable(&prev, i, data@[i - addr], a);
                }
                assert forall|k: int| 0 <= k < i + 1 - addr implies #[trigger] self.read_ok(
                    (addr + k) as Addr,
                ) && self.spec_read((addr + k) as Addr) == data@[k] by {
                    self.lemma_read_after_write(&prev, i, data@[i - addr], (addr + k) as Addr);
                }
                assert forall|a: Addr| !(addr <= a < addr + data@.len()) implies #[trigger] self.read_ok(
                    a,
                ) == old(self).read_ok(a) && (old(self).read_ok(a) ==> self.spec_read(a) == old(
                    self,
                ).spec_read(a)) by {
                    self.lemma_read_after_write(&prev, i, data@[i - addr], a);
                }
            }
            i = i + 1;
        }
    }
}

} // verus!
