use vstd::prelude::*;

verus! {

/// A count of clock cycles.
pub type Cycles = u64;

/// Something driven by a clock.
pub trait Tickable: Sized {
    /// `self` is what one tick made of `before`.
    spec fn ticked(&self, before: &Self) -> bool;

    fn tick(&mut self)
        ensures
            final(self).ticked(old(self)),
    ;

    /// Ticks `n` times: there is a chain of `n` ticks from the old value to
    /// the new one.
    fn tick_times(&mut self, n: usize)
        ensures
            exists|chain: Seq<Self>|
                #![trigger chain.len()]
                chain.len() == n + 1 && chain[0] == *old(self) && chain[n as int] == *final(self)
                    && forall|i: int, j: int|
                    0 <= i < n && j == i + 1 ==> #[trigger] chain[j].ticked(&chain[i]),
    {
        let mut i: usize = 0;
        let ghost mut chain: Seq<Self> = seq![*self];
        while i < n
            invariant
                i <= n,
                chain.len() == i + 1,
                chain[0] == *old(self),
                chain[i as int] == *self,
                forall|a: int, b: int|
                    0 <= a < i && b == a + 1 ==> #[trigger] chain[b].ticked(&chain[a]),
            decreases n - i,
        {
            self.tick();
            proof {
                chain = chain.push(*self);
            }
            i = i + 1;
        }
        assert(chain.len() == n + 1);
    }
}

/// Counts the clock cycles it has seen, wrapping past the largest count.
pub struct Ticker {
    cycles: Cycles,
}

impl View for Ticker {
    type V = Cycles;

    closed spec fn view(&self) -> Cycles {
        self.cycles
    }
}

impl Ticker {
    pub fn new() -> (r: Self)
        ensures
            r@ == 0,
    {
        Ticker { cycles: 0 }
    }

    pub fn cycles(&self) -> (r: Cycles)
        ensures
            r == self@,
    {
        self.cycles
    }
}

impl Tickable for Ticker {
    open spec fn ticked(&self, before: &Self) -> bool {
        self@ == (before@ + 1) % 0x1_0000_0000_0000_0000
    }

    fn tick(&mut self)
        ensures
            final(self)@ == (old(self)@ + 1) % 0x1_0000_0000_0000_0000,
    {
        let c = self.cycles().wrapping_add(1);
        self.cycles = c;
    }

    fn tick_times(&mut self, n: usize)
        ensures
            final(self)@ == (old(self)@ + n) % 0x1_0000_0000_0000_0000,
    {
        let mut i: usize = 0;
        let ghost mut chain: Seq<Self> = seq![*self];
        while i < n
            invariant
                i <= n,
                self@ == (old(self)@ + i) % 0x1_0000_0000_0000_0000,
                chain.len() == i + 1,
                chain[0] == *old(self),
                chain[i as int] == *self,
                forall|a: int, b: int|
                    0 <= a < i && b == a + 1 ==> #[trigger] chain[b].ticked(&chain[a]),
            decreases n - i,
        {
            self.tick();
            proof {
                chain = chain.push(*self);
            }
            i = i + 1;
        }
        assert(chain.len() == n + 1);
    }
}

} // verus!
