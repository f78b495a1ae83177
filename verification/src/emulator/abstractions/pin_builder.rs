use std::ops::{Range, RangeInclusive};
use vstd::prelude::*;
use vstd::string::StringExecFns;
use super::{Pin, PinDirection, PinView};
use crate::text::{spec_decimal, with_number};

verus! {

/// Calls `RangeInclusive::start`, which returns the lower bound of the range.
#[verifier::external_body]
fn range_start(range: &RangeInclusive<usize>) -> (r: usize)
    ensures
        r == range@.start,
{
    *range.start()
}

/// Calls `RangeInclusive::end`, which returns the upper bound of the range.
#[verifier::external_body]
fn range_end(range: &RangeInclusive<usize>) -> (r: usize)
    ensures
        r == range@.end,
{
    *range.end()
}

/// The settings of one pin under construction.
struct PinBuilderItem {
    name: Option<String>,
    direction: PinDirection,
    enabled: bool,
    tri_state: bool,
    io: bool,
}

/// What the builder records of one pin.
pub struct ItemView {
    pub name: Option<Seq<char>>,
    pub direction: PinDirection,
    pub enabled: bool,
    pub tri_state: bool,
    pub io: bool,
}

impl PinBuilderItem {
    closed spec fn view(&self) -> ItemView {
        ItemView {
            name: match self.name {
                Some(n) => Some(n@),
                None => None,
            },
            direction: self.direction,
            enabled: self.enabled,
            tri_state: self.tri_state,
            io: self.io,
        }
    }

    fn blank() -> (r: Self)
        ensures
            r.view() == (ItemView {
                name: None,
                direction: PinDirection::Input,
                enabled: false,
                tri_state: false,
                io: false,
            }),
    {
        PinBuilderItem {
            name: None,
            direction: PinDirection::Input,
            enabled: false,
            tri_state: false,
            io: false,
        }
    }

    fn copy(&self) -> (r: Self)
        ensures
            r.view() == self.view(),
    {
        PinBuilderItem {
            name: match &self.name {
                Some(n) => Some(n.clone()),
                None => None,
            },
            direction: self.direction,
            enabled: self.enabled,
            tri_state: self.tri_state,
            io: self.io,
        }
    }
}

/// Builds the pins of a chip: a selection of pins (by position, from 0) is
/// made, then given a direction, names or flags.
pub struct PinBuilder {
    pins: Vec<PinBuilderItem>,
    size: usize,
    elems: Vec<usize>,
}

/// What a pin builder holds.
pub struct PinBuilderView {
    pub pins: Seq<ItemView>,
    pub size: nat,
    pub elems: Seq<usize>,
}

impl View for PinBuilder {
    type V = PinBuilderView;

    closed spec fn view(&self) -> PinBuilderView {
        PinBuilderView {
            pins: Seq::new(self.pins@.len(), |i: int| self.pins@[i].view()),
            size: self.size as nat,
            elems: self.elems@,
        }
    }
}

/// Position `j` is selected.
pub open spec fn selects(elems: Seq<usize>, j: int) -> bool {
    exists|t: int| 0 <= t < elems.len() && elems[t] as int == j
}

/// Where in the selection position `j` stands.
pub open spec fn rank_of(elems: Seq<usize>, j: int) -> int {
    choose|t: int| 0 <= t < elems.len() && elems[t] as int == j
}

proof fn lemma_push_selects(s: Seq<usize>, x: usize, j: int)
    ensures
        selects(s.push(x), j) == (selects(s, j) || x as int == j),
{
    if selects(s, j) {
        let i = choose|i: int| 0 <= i < s.len() && s[i] as int == j;
        assert(s.push(x)[i] as int == j);
    }
    if x as int == j {
        assert(s.push(x)[s.len() as int] as int == j);
    }
    if selects(s.push(x), j) {
        let i = choose|i: int| 0 <= i < s.len() + 1 && s.push(x)[i] as int == j;
        if i < s.len() {
            assert(s[i] as int == j);
        }
    }
}

/// A pin's settings with a new direction, if given, and flags raised.
pub open spec fn with_flags(it: ItemView, direction: Option<PinDirection>, tri_state: bool, io: bool) -> ItemView {
    ItemView {
        direction: match direction {
            Some(d) => d,
            None => it.direction,
        },
        tri_state: it.tri_state || tri_state,
        io: it.io || io,
        ..it
    }
}

/// The number given to the k-th selected pin: counting up or down from `from`.
pub open spec fn name_number(from: usize, up: bool, k: int) -> nat {
    if up {
        (from + k) as nat
    } else {
        (from - k) as nat
    }
}

/// The selection is in increasing order.
pub open spec fn increasing(elems: Seq<usize>) -> bool {
    forall|i: int, j: int| 0 <= i < j < elems.len() ==> elems[i] < elems[j]
}

/// The selection lies within the pins.
pub open spec fn within(v: PinBuilderView) -> bool {
    forall|i: int| 0 <= i < v.elems.len() ==> (#[trigger] v.elems[i] as int) < v.pins.len()
}

/// The positions `lo` up to, not including, `hi`.
pub open spec fn positions(lo: int, hi: int) -> Seq<usize> {
    Seq::new(if hi > lo {
        (hi - lo) as nat
    } else {
        0
    }, |i: int| (lo + i) as usize)
}

impl PinBuilderView {
    pub open spec fn wf(self) -> bool {
        increasing(self.elems)
    }

    /// Each selected pin changed by `f`, the others kept.
    pub open spec fn map_selected(self, f: spec_fn(ItemView) -> ItemView) -> Seq<ItemView> {
        Seq::new(
            self.pins.len(),
            |j: int|
                if selects(self.elems, j) {
                    f(self.pins[j])
                } else {
                    self.pins[j]
                },
        )
    }

    /// The selected pins named `prefix` followed by `number(k)` for the k-th selected pin.
    pub open spec fn named_selected(self, prefix: Seq<char>, number: spec_fn(int) -> nat) -> Seq<
        ItemView,
    > {
        Seq::new(
            self.pins.len(),
            |j: int|
                if selects(self.elems, j) {
                    ItemView {
                        name: Some(prefix + spec_decimal(number(rank_of(self.elems, j)))),
                        ..self.pins[j]
                    }
                } else {
                    self.pins[j]
                },
        )
    }
}

impl PinBuilder {
    /// `num_of_pins` unnamed input pins; the first one is selected.
    pub fn new(num_of_pins: usize) -> (r: Self)
        ensures
            r@.pins == Seq::new(
                num_of_pins as nat,
                |i: int|
                    ItemView {
                        name: None,
                        direction: PinDirection::Input,
                        enabled: false,
                        tri_state: false,
                        io: false,
                    },
            ),
            r@.size == num_of_pins,
            r@.elems == seq![0usize],
            r@.wf(),
    {
        let mut pins: Vec<PinBuilderItem> = Vec::with_capacity(num_of_pins);
        let mut i: usize = 0;
        while i < num_of_pins
            invariant
                i <= num_of_pins,
                pins@.len() == i,
                forall|j: int|
                    0 <= j < i ==> (#[trigger] pins@[j]).view() == (ItemView {
                        name: None,
                        direction: PinDirection::Input,
                        enabled: false,
                        tri_state: false,
                        io: false,
                    }),
            decreases num_of_pins - i,
        {
            pins.push(PinBuilderItem::blank());
            i = i + 1;
        }
        let r = PinBuilder { pins, size: num_of_pins, elems: vec![0] };
        assert(r@.pins =~= Seq::new(
            num_of_pins as nat,
            |i: int|
                ItemView {
                    name: None,
                    direction: PinDirection::Input,
                    enabled: false,
                    tri_state: false,
                    io: false,
                },
        ));
        r
    }

    /// Selects the pins numbered (from 1) by `range`.
    pub fn with_range(&mut self, range: RangeInclusive<usize>) -> (r: &mut Self)
        requires
            range@.start >= 1,
        ensures
            (*r)@ == (PinBuilderView {
                elems: positions(range@.start - 1, range@.end as int),
                ..old(self)@
            }),
            (*r)@.wf(),
            *final(self) == *final(r),
    {
        let lo = range_start(&range) - 1;
        let hi = range_end(&range);
        let mut elems: Vec<usize> = Vec::new();
        let mut i = lo;
        while i < hi
            invariant
                lo <= i,
                lo < hi ==> i <= hi,
                lo >= hi ==> i == lo,
                elems@ == positions(lo as int, i as int),
            decreases hi - i,
        {
            elems.push(i);
            i = i + 1;
            assert(elems@ =~= positions(lo as int, i as int));
        }
        if lo < hi {
            assert(i == hi);
        } else {
            assert(i == lo);
            assert(elems@.len() == 0);
        }
        assert(elems@ =~= positions(lo as int, hi as int));
        self.elems = elems;
        self
    }

    /// Selects the pins numbered by `range`, names them `prefix` followed by
    /// a count from `prefix_start`, and gives them a direction.
    pub fn set_range(
        &mut self,
        range: RangeInclusive<usize>,
        prefix: &str,
        prefix_start: usize,
        direction: PinDirection,
    ) -> (r: &mut Self)
        requires
            range@.start >= 1,
            (range@.end as int) <= old(self)@.pins.len(),
            prefix_start + range@.end <= usize::MAX,
        ensures
            ({
                let v = PinBuilderView {
                    elems: positions(range@.start - 1, range@.end as int),
                    ..old(self)@
                };
                let named = PinBuilderView {
                    pins: v.named_selected(prefix@, |k: int| (prefix_start + k) as nat),
                    ..v
                };
                (*r)@ == (PinBuilderView {
                    pins: named.map_selected(|it: ItemView| ItemView { direction, ..it }),
                    ..named
                })
            }),
            (*r)@.wf(),
            *final(self) == *final(r),
    {
        self.with_range(range).name_prefix(prefix, prefix_start).direction(direction)
    }

    /// Selects every pin.
    pub fn with_all(&mut self, range: Range<usize>) -> (r: &mut Self)
        ensures
            (*r)@ == (PinBuilderView { elems: positions(0, old(self)@.size as int), ..old(self)@ }),
            (*r)@.wf(),
            *final(self) == *final(r),
    {
        let n = self.size;
        let mut elems: Vec<usize> = Vec::new();
        let mut i: usize = 0;
        while i < n
            invariant
                i <= n,
                n == old(self)@.size,
                elems@ == positions(0, i as int),
            decreases n - i,
        {
            elems.push(i);
            i = i + 1;
            assert(elems@ =~= positions(0, i as int));
        }
        self.elems = elems;
        self
    }

    /// Changes every selected pin with `f`, given as the exec setter `set`.
    fn update_selected(&mut self, direction: Option<PinDirection>, tri_state: bool, io: bool)
        requires
            old(self)@.wf(),
            within(old(self)@),
        ensures
            final(self)@ == (PinBuilderView {
                pins: old(self)@.map_selected(|it: ItemView| with_flags(it, direction, tri_state, io)),
                ..old(self)@
            }),
    {
        let mut k: usize = 0;
        while k < self.elems.len()
            invariant
                self.elems@ == old(self)@.elems,
                self.size == old(self)@.size,
                self.pins@.len() == old(self)@.pins.len(),
                old(self)@.wf(),
                within(old(self)@),
                k <= self.elems@.len(),
                forall|j: int|
                    0 <= j < self.pins@.len() ==> #[trigger] self.pins@[j].view() == (if selects(self.elems@.take(k as int), j) {
                        with_flags(old(self)@.pins[j], direction, tri_state, io)
                    } else {
                        old(self)@.pins[j]
                    }),
            decreases self.elems.len() - k,
        {
            let idx = self.elems[k];
            let mut it = self.pins[idx].copy();
            match direction {
                Some(d) => {
                    it.direction = d;
                },
                None => {},
            }
            if tri_state {
                it.tri_state = true;
            }
            if io {
                it.io = true;
            }
            proof {
                if selects(self.elems@.take(k as int), idx as int) {
                    let m = choose|m: int|
                        0 <= m < k && self.elems@.take(k as int)[m] as int == idx as int;
                    assert(self.elems@[m] < self.elems@[k as int]);
                }
                assert(self.pins@[idx as int].view() == old(self)@.pins[idx as int]);
                let ov = old(self)@.pins[idx as int];
                assert(it.view().name == ov.name);
                assert(it.view().enabled == ov.enabled);
                assert(it.view().io == (ov.io || io));
                assert(it.view().tri_state == (ov.tri_state || tri_state));
                assert(it.view() == with_flags(ov, direction, tri_state, io));
            }
            self.pins.set(idx, it);
            proof {
                assert forall|j: int| 0 <= j < self.pins@.len() implies #[trigger] self.pins@[j].view()
                    == (if selects(self.elems@.take(k + 1), j) {
                    with_flags(old(self)@.pins[j], direction, tri_state, io)
                } else {
                    old(self)@.pins[j]
                }) by {
                    let t = self.elems@.take(k + 1);
                    assert(t =~= self.elems@.take(k as int).push(idx));
                    lemma_push_selects(self.elems@.take(k as int), idx, j);
                    if j == idx as int {
                        if selects(self.elems@.take(k as int), j) {
                            let m = choose|m: int|
                                0 <= m < k && self.elems@.take(k as int)[m] as int == j;
                            assert(self.elems@[m] < self.elems@[k as int]);
                        }
                    }
                }
            }
            k = k + 1;
        }
        assert(self.elems@.take(self.elems@.len() as int) =~= self.elems@);
        assert(self@.pins =~= old(self)@.map_selected(|it: ItemView| with_flags(it, direction, tri_state, io)));
    }

    /// Gives every selected pin a direction.
    pub fn direction(&mut self, direction: PinDirection) -> (r: &mut Self)
        requires
            old(self)@.wf(),
            within(old(self)@),
        ensures
            (*r)@ == (PinBuilderView {
                pins: old(self)@.map_selected(|it: ItemView| ItemView { direction, ..it }),
                ..old(self)@
            }),
            (*r)@.wf(),
            *final(self) == *final(r),
    {
        self.update_selected(Some(direction), false, false);
        proof {
            assert(self@.pins =~= old(self)@.map_selected(
                |it: ItemView| ItemView { direction, ..it },
            ));
        }
        self
    }

    pub fn input(&mut self) -> (r: &mut Self)
        requires
            old(self)@.wf(),
            within(old(self)@),
        ensures
            (*r)@ == (PinBuilderView {
                pins: old(self)@.map_selected(
                    |it: ItemView| ItemView { direction: PinDirection::Input, ..it },
                ),
                ..old(self)@
            }),
            (*r)@.wf(),
            *final(self) == *final(r),
    {
        self.direction(PinDirection::Input)
    }

    pub fn output(&mut self) -> (r: &mut Self)
        requires
            old(self)@.wf(),
            within(old(self)@),
        ensures
            (*r)@ == (PinBuilderView {
                pins: old(self)@.map_selected(
                    |it: ItemView| ItemView { direction: PinDirection::Output, ..it },
                ),
                ..old(self)@
            }),
            (*r)@.wf(),
            *final(self) == *final(r),
    {
        self.direction(PinDirection::Output)
    }

    /// Marks every selected pin tri-state.
    pub fn tri_state(&mut self) -> (r: &mut Self)
        requires
            old(self)@.wf(),
            within(old(self)@),
        ensures
            (*r)@ == (PinBuilderView {
                pins: old(self)@.map_selected(|it: ItemView| ItemView { tri_state: true, ..it }),
                ..old(self)@
            }),
            (*r)@.wf(),
            *final(self) == *final(r),
    {
        self.update_selected(None, true, false);
        proof {
            assert(self@.pins =~= old(self)@.map_selected(
                |it: ItemView| ItemView { tri_state: true, ..it },
            ));
        }
        self
    }

    /// Marks every selected pin bidirectional.
    pub fn io(&mut self) -> (r: &mut Self)
        requires
            old(self)@.wf(),
            within(old(self)@),
        ensures
            (*r)@ == (PinBuilderView {
                pins: old(self)@.map_selected(|it: ItemView| ItemView { io: true, ..it }),
                ..old(self)@
            }),
            (*r)@.wf(),
            *final(self) == *final(r),
    {
        self.update_selected(None, false, true);
        proof {
            assert(self@.pins =~= old(self)@.map_selected(
                |it: ItemView| ItemView { io: true, ..it },
            ));
        }
        self
    }

    /// Names the first selected pin.
    pub fn name(&mut self, name: &str) -> (r: &mut Self)
        requires
            old(self)@.elems.len() > 0,
            (old(self)@.elems[0] as int) < old(self)@.pins.len(),
        ensures
            (*r)@ == (PinBuilderView {
                pins: old(self)@.pins.update(
                    old(self)@.elems[0] as int,
                    ItemView { name: Some(name@), ..old(self)@.pins[old(self)@.elems[0] as int] },
                ),
                ..old(self)@
            }),
            *final(self) == *final(r),
    {
        let idx = self.elems[0];
        let mut it = self.pins[idx].copy();
        it.name = Some(String::from_str(name));
        self.pins.set(idx, it);
        assert(self@.pins =~= old(self)@.pins.update(
            old(self)@.elems[0] as int,
            ItemView { name: Some(name@), ..old(self)@.pins[old(self)@.elems[0] as int] },
        ));
        self
    }

    /// Names the selected pins `prefix` followed by a number: `from` for the
    /// first, counting up (or down, when `up` is false).
    fn name_selected(&mut self, prefix: &str, from: usize, up: bool)
        requires
            old(self)@.wf(),
            within(old(self)@),
            up ==> from + old(self)@.elems.len() <= usize::MAX,
            !up ==> from + 1 >= old(self)@.elems.len(),
        ensures
            final(self)@ == (PinBuilderView {
                pins: old(self)@.named_selected(prefix@, |k: int| name_number(from, up, k)),
                ..old(self)@
            }),
    {
        let mut k: usize = 0;
        while k < self.elems.len()
            invariant
                self.elems@ == old(self)@.elems,
                self.size == old(self)@.size,
                self.pins@.len() == old(self)@.pins.len(),
                old(self)@.wf(),
                within(old(self)@),
                up ==> from + old(self)@.elems.len() <= usize::MAX,
                !up ==> from + 1 >= old(self)@.elems.len(),
                k <= self.elems@.len(),
                forall|j: int|
                    0 <= j < self.pins@.len() ==> #[trigger] self.pins@[j].view() == (if selects(self.elems@.take(k as int), j) {
                        ItemView {
                            name: Some(
                                prefix@ + spec_decimal(
                                    name_number(from, up, rank_of(old(self)@.elems, j)),
                                ),
                            ),
                            ..old(self)@.pins[j]
                        }
                    } else {
                        old(self)@.pins[j]
                    }),
            decreases self.elems.len() - k,
        {
            let idx = self.elems[k];
            let n = if up {
                from + k
            } else {
                from - k
            };
            let mut it = self.pins[idx].copy();
            it.name = Some(with_number(prefix, n as u64));
            proof {
                if selects(self.elems@.take(k as int), idx as int) {
                    let m = choose|m: int|
                        0 <= m < k && self.elems@.take(k as int)[m] as int == idx as int;
                    assert(self.elems@[m] < self.elems@[k as int]);
                }
                assert(self.pins@[idx as int].view() == old(self)@.pins[idx as int]);
            }
            self.pins.set(idx, it);
            proof {
                assert(rank_of(old(self)@.elems, idx as int) == k) by {
                    assert(old(self)@.elems[k as int] == idx);
                    let m = rank_of(old(self)@.elems, idx as int);
                    if m != k {
                        if m < k {
                            assert(old(self)@.elems[m] < old(self)@.elems[k as int]);
                        } else {
                            assert(old(self)@.elems[k as int] < old(self)@.elems[m]);
                        }
                    }
                }
                assert forall|j: int| 0 <= j < self.pins@.len() implies #[trigger] self.pins@[j].view()
                    == (if selects(self.elems@.take(k + 1), j) {
                    ItemView {
                        name: Some(
                            prefix@ + spec_decimal(name_number(from, up, rank_of(old(self)@.elems, j))),
                        ),
                        ..old(self)@.pins[j]
                    }
                } else {
                    old(self)@.pins[j]
                }) by {
                    let t = self.elems@.take(k + 1);
                    assert(t =~= self.elems@.take(k as int).push(idx));
                    lemma_push_selects(self.elems@.take(k as int), idx, j);
                    if j == idx as int {
                        if selects(self.elems@.take(k as int), j) {
                            let m = choose|m: int|
                                0 <= m < k && self.elems@.take(k as int)[m] as int == j;
                            assert(self.elems@[m] < self.elems@[k as int]);
                        }
                    }
                }
            }
            k = k + 1;
        }
        assert(self.elems@.take(self.elems@.len() as int) =~= self.elems@);
        assert(self@.pins =~= old(self)@.named_selected(prefix@, |k: int| name_number(from, up, k)));
    }

    /// Names the selected pins `prefix` followed by `from`, `from + 1`, ...
    pub fn name_prefix(&mut self, prefix: &str, from: usize) -> (r: &mut Self)
        requires
            old(self)@.wf(),
            within(old(self)@),
            from + old(self)@.elems.len() <= usize::MAX,
        ensures
            (*r)@ == (PinBuilderView {
                pins: old(self)@.named_selected(prefix@, |k: int| (from + k) as nat),
                ..old(self)@
            }),
            (*r)@.wf(),
            *final(self) == *final(r),
    {
        self.name_selected(prefix, from, true);
        proof {
            assert(self@.pins =~= old(self)@.named_selected(prefix@, |k: int| (from + k) as nat));
        }
        self
    }

    /// Names the selected pins `prefix` followed by `from`, `from - 1`, ...
    pub fn name_prefix_dec(&mut self, prefix: &str, from: usize) -> (r: &mut Self)
        requires
            old(self)@.wf(),
            within(old(self)@),
            from + 1 >= old(self)@.elems.len(),
        ensures
            (*r)@ == (PinBuilderView {
                pins: old(self)@.named_selected(prefix@, |k: int| (from - k) as nat),
                ..old(self)@
            }),
            (*r)@.wf(),
            *final(self) == *final(r),
    {
        self.name_selected(prefix, from, false);
        proof {
            assert(self@.pins =~= old(self)@.named_selected(prefix@, |k: int| (from - k) as nat));
        }
        self
    }

    /// Selects the last selected pin alone.
    pub fn next(&mut self) -> (r: &mut Self)
        requires
            old(self)@.elems.len() > 0,
        ensures
            (*r)@ == (PinBuilderView { elems: seq![old(self)@.elems.last()], ..old(self)@ }),
            (*r)@.wf(),
            *final(self) == *final(r),
    {
        let last = self.elems[self.elems.len() - 1];
        let mut e: Vec<usize> = Vec::new();
        e.push(last);
        self.elems = e;
        assert(self@.elems =~= seq![old(self)@.elems.last()]);
        assert(self@.pins =~= old(self)@.pins);
        self
    }

    /// Selects, by number, the pins from the last selected one to `n` pins after it.
    pub fn next_n(&mut self, n: usize) -> (r: &mut Self)
        requires
            old(self)@.elems.len() > 0,
            old(self)@.elems.last() >= 1,
            old(self)@.elems.last() + n <= usize::MAX,
        ensures
            (*r)@ == (PinBuilderView {
                elems: positions(
                    old(self)@.elems.last() - 1,
                    old(self)@.elems.last() + n,
                ),
                ..old(self)@
            }),
            (*r)@.wf(),
            *final(self) == *final(r),
    {
        let x = self.elems[self.elems.len() - 1];
        self.with_range(x..=(x + n))
    }

    /// Sets up the pin numbered `id` (from 1) as a named pin of a direction,
    /// enabled, neither tri-state nor bidirectional, and selects it.
    pub fn set(&mut self, id: usize, name: &str, direction: PinDirection) -> (r: &mut Self)
        requires
            1 <= id <= old(self)@.pins.len(),
        ensures
            (*r)@ == (PinBuilderView {
                pins: old(self)@.pins.update(
                    id - 1,
                    ItemView {
                        name: Some(name@),
                        direction,
                        enabled: true,
                        tri_state: false,
                        io: false,
                    },
                ),
                elems: seq![(id - 1) as usize],
                ..old(self)@
            }),
            (*r)@.wf(),
            *final(self) == *final(r),
    {
        let mut e: Vec<usize> = Vec::new();
        e.push(id - 1);
        self.elems = e;
        assert(self.elems@ =~= seq![(id - 1) as usize]);
        self.pins.set(
            id - 1,
            PinBuilderItem {
                name: Some(String::from_str(name)),
                direction,
                enabled: true,
                tri_state: false,
                io: false,
            },
        );
        assert(self@.pins =~= old(self)@.pins.update(
            id - 1,
            ItemView { name: Some(name@), direction, enabled: true, tri_state: false, io: false },
        ));
        self
    }

    /// The pins as set up; an unnamed pin gets an empty name.
    pub fn build(&self) -> (r: Vec<Pin>)
        ensures
            r@.len() == self@.pins.len(),
            forall|i: int|
                0 <= i < r@.len() ==> (#[trigger] r@[i])@ == (PinView {
                    id: None,
                    inner_id: None,
                    name: match self@.pins[i].name {
                        Some(n) => n,
                        None => Seq::<char>::empty(),
                    },
                    group_id: None,
                    value: false,
                    enabled: true,
                    direction: self@.pins[i].direction,
                    tri_state: self@.pins[i].tri_state,
                    io: self@.pins[i].io,
                }),
    {
        let mut out: Vec<Pin> = Vec::new();
        let mut i: usize = 0;
        while i < self.pins.len()
            invariant
                i <= self.pins@.len(),
                out@.len() == i,
                forall|j: int|
                    0 <= j < i ==> (#[trigger] out@[j])@ == (PinView {
                        id: None,
                        inner_id: None,
                        name: match self@.pins[j].name {
                            Some(n) => n,
                            None => Seq::<char>::empty(),
                        },
                        group_id: None,
                        value: false,
                        enabled: true,
                        direction: self@.pins[j].direction,
                        tri_state: self@.pins[j].tri_state,
                        io: self@.pins[j].io,
                    }),
            decreases self.pins.len() - i,
        {
            let item = &self.pins[i];
            let pin = match &item.name {
                Some(n) => Pin::new(n.as_str(), item.direction, item.tri_state, item.io),
                None => Pin::new("", item.direction, item.tri_state, item.io),
            };
            proof {
                reveal_strlit("");
                assert(""@ =~= Seq::<char>::empty());
            }
            out.push(pin);
            i = i + 1;
        }
        out
    }
}

} // verus!
