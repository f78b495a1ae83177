use vstd::prelude::*;
use super::pin::{Pin, PinStateChange, PinView};

verus! {

/// A component of a circuit: it reacts to changes of its pins and gives
/// access to them by name.
pub trait Component: PinStateChange + Sized {
    /// The component has a pin of that name.
    spec fn has_pin(&self, name: Seq<char>) -> bool;

    /// What the pin of that name holds.
    spec fn pin(&self, name: Seq<char>) -> PinView;

    /// `self` is `before` with the pin of that name holding `p` in place of
    /// what it held; nothing else differs.
    spec fn pin_replaced(&self, before: &Self, name: Seq<char>, p: PinView) -> bool;

    /// After the pin `name` was replaced by `p`, a pin with the full name
    /// of the one it replaced, the component holds `p` under that name, has
    /// the same pins as before, and holds its other pins as before.
    proof fn lemma_pin_replaced(&self, before: &Self, name: Seq<char>, p: PinView, other: Seq<char>)
        requires
            before.has_pin(name),
            self.pin_replaced(before, name, p),
            p.full_name() == before.pin(name).full_name(),
        ensures
            self.pin(name) == p,
            self.has_pin(other) == before.has_pin(other),
            other != name && before.has_pin(other) ==> self.pin(other) == before.pin(other),
    ;

    fn get_pin(&self, name: &str) -> (r: Option<&Pin>)
        ensures
            r is Some <==> self.has_pin(name@),
            r matches Some(p) ==> p@ == self.pin(name@),
    ;

    fn get_pin_mut(&mut self, name: &str) -> (r: Option<&mut Pin>)
        ensures
            r is Some <==> old(self).has_pin(name@),
            r matches Some(p) ==> p@ == old(self).pin(name@),
            r matches Some(p) ==> final(self).pin_replaced(old(self), name@, final(p)@),
            r is None ==> *final(self) == *old(self),
    ;
}

} // verus!
