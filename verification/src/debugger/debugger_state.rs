use vstd::prelude::*;
use super::{Breakpoint, Variable};
use crate::machine::{Addr, MOS6502Machine};
use crate::mos6502::Operation;

verus! {

/// What the debugger keeps: breakpoints, watched variables, interrupt
/// switches and the memory range on display.
#[derive(Debug, PartialEq)]
pub struct DebuggerState {
    pub breakpoints: Vec<Breakpoint>,
    pub variables: Vec<Variable>,
    pub irq_on: bool,
    pub nmi_on: bool,
    pub observed_mem: std::ops::Range<Addr>,
}

impl Default for DebuggerState {
    fn default() -> (r: Self)
        ensures
            r.breakpoints@ == Seq::<Breakpoint>::empty(),
            r.variables@ == Seq::<Variable>::empty(),
            !r.irq_on,
            !r.nmi_on,
            r.observed_mem.start == 0,
            r.observed_mem.end == 0,
    {
        DebuggerState {
            breakpoints: Vec::new(),
            variables: Vec::new(),
            irq_on: false,
            nmi_on: false,
            observed_mem: std::ops::Range { start: 0, end: 0 },
        }
    }
}

impl DebuggerState {
    pub fn set_observed_mem(&mut self, from: Addr, to: Addr)
        ensures
            final(self).observed_mem.start == from,
            final(self).observed_mem.end == to,
            final(self).breakpoints@ == old(self).breakpoints@,
            final(self).variables@ == old(self).variables@,
            final(self).irq_on == old(self).irq_on,
            final(self).nmi_on == old(self).nmi_on,
    {
        self.observed_mem.start = from;
        self.observed_mem.end = to;
    }

    /// Replaces the first variable with the same name, or appends the variable.
    pub fn upsert_variable(&mut self, var: Variable)
        ensures
            (exists|i: int|
                0 <= i < old(self).variables@.len() && old(self).variables@[i].name@ == var.name@)
                ==> (exists|i: int|
                0 <= i < old(self).variables@.len() && old(self).variables@[i].name@ == var.name@
                    && (forall|j: int| 0 <= j < i ==> old(self).variables@[j].name@ != var.name@)
                    && final(self).variables@ == old(self).variables@.update(i, var)),
            !(exists|i: int|
                0 <= i < old(self).variables@.len() && old(self).variables@[i].name@ == var.name@)
                ==> final(self).variables@ == old(self).variables@.push(var),
            final(self).breakpoints@ == old(self).breakpoints@,
            final(self).observed_mem == old(self).observed_mem,
            final(self).irq_on == old(self).irq_on,
            final(self).nmi_on == old(self).nmi_on,
    {
        let mut pos: Option<usize> = None;
        let mut idx: usize = 0;
        let n = self.variables.len();
        while idx < n
            invariant
                n == self.variables@.len(),
                self.variables@ == old(self).variables@,
                idx <= n,
                pos matches Some(p) ==> p < idx && self.variables@[p as int].name@ == var.name@
                    && forall|j: int| 0 <= j < p ==> self.variables@[j].name@ != var.name@,
                pos is None ==> forall|j: int| 0 <= j < idx ==> self.variables@[j].name@ != var.name@,
            decreases n - idx,
        {
            if pos.is_none() && self.variables[idx].name == var.name {
                pos = Some(idx);
            }
            idx = idx + 1;
        }
        match pos {
            Some(p) => {
                self.variables.set(p, var);
            },
            None => {
                self.variables.push(var);
            },
        }
    }

    /// Removes every breakpoint equal to `bp`, keeping the others in order.
    pub fn remove_breakpoint(&mut self, bp: &Breakpoint)
        ensures
            final(self).breakpoints@ == old(self).breakpoints@.filter(|b: Breakpoint| b != *bp),
            final(self).variables@ == old(self).variables@,
            final(self).observed_mem == old(self).observed_mem,
            final(self).irq_on == old(self).irq_on,
            final(self).nmi_on == old(self).nmi_on,
    {
        let mut kept: Vec<Breakpoint> = Vec::new();
        let mut i: usize = 0;
        let ghost old_bps = self.breakpoints@;
        while i < self.breakpoints.len()
            invariant
                self.breakpoints@ == old_bps,
                old_bps == old(self).breakpoints@,
                self.variables@ == old(self).variables@,
                self.observed_mem == old(self).observed_mem,
                self.irq_on == old(self).irq_on,
                self.nmi_on == old(self).nmi_on,
                i <= old_bps.len(),
                kept@ == old_bps.take(i as int).filter(|b: Breakpoint| b != *bp),
            decreases self.breakpoints.len() - i,
        {
            let b = self.breakpoints[i];
            proof {
                reveal(Seq::filter);
                assert(old_bps.take(i + 1).drop_last() =~= old_bps.take(i as int));
            }
            if b != *bp {
                kept.push(b);
            }
            i = i + 1;
        }
        assert(old_bps.take(old_bps.len() as int) =~= old_bps);
        self.breakpoints = kept;
    }

    /// Adds a breakpoint unless an equal one is already there.
    pub fn add_breakpoint(&mut self, bp: &Breakpoint)
        ensures
            old(self).breakpoints@.contains(*bp) ==> final(self).breakpoints@ == old(
                self,
            ).breakpoints@,
            !old(self).breakpoints@.contains(*bp) ==> final(self).breakpoints@ == old(
                self,
            ).breakpoints@.push(*bp),
            final(self).variables@ == old(self).variables@,
            final(self).observed_mem == old(self).observed_mem,
            final(self).irq_on == old(self).irq_on,
            final(self).nmi_on == old(self).nmi_on,
    {
        let mut found = false;
        let mut i: usize = 0;
        while i < self.breakpoints.len()
            invariant
                self.breakpoints@ == old(self).breakpoints@,
                i <= self.breakpoints@.len(),
                found == (exists|j: int| 0 <= j < i && self.breakpoints@[j] == *bp),
            decreases self.breakpoints.len() - i,
        {
            if self.breakpoints[i] == *bp {
                found = true;
            }
            i = i + 1;
        }
        if !found {
            self.breakpoints.push(*bp);
        }
    }

    /// The machine should pause before `op`: one of the breakpoints holds.
    pub fn should_pause(&self, op: &Operation, machine: &MOS6502Machine) -> (r: bool)
        requires
            forall|i: int|
                0 <= i < self.breakpoints@.len() ==> !(#[trigger] self.breakpoints@[i] is Interrupt),
        ensures
            r == (exists|i: int|
                0 <= i < self.breakpoints@.len() && #[trigger] self.breakpoints@[i].spec_applies(
                    op,
                    machine,
                )),
    {
        let mut i: usize = 0;
        while i < self.breakpoints.len()
            invariant
                i <= self.breakpoints@.len(),
                forall|j: int|
                    0 <= j < self.breakpoints@.len() ==> !(#[trigger] self.breakpoints@[j] is Interrupt),
                forall|j: int|
                    0 <= j < i ==> !(#[trigger] self.breakpoints@[j].spec_applies(op, machine)),
            decreases self.breakpoints.len() - i,
        {
            if self.breakpoints[i].applies(op, machine) {
                return true;
            }
            i = i + 1;
        }
        false
    }

    /// Reads the current value of every watched variable from the machine.
    pub fn update_debugger_state(&mut self, machine: &MOS6502Machine)
        ensures
            final(self).variables@.len() == old(self).variables@.len(),
            forall|i: int|
                0 <= i < final(self).variables@.len() ==> {
                    &&& #[trigger] final(self).variables@[i].name == old(self).variables@[i].name
                    &&& final(self).variables@[i].addr == old(self).variables@[i].addr
                    &&& final(self).variables@[i].value == machine@.read(old(self).variables@[i].addr)
                },
            final(self).breakpoints@ == old(self).breakpoints@,
            final(self).observed_mem == old(self).observed_mem,
            final(self).irq_on == old(self).irq_on,
            final(self).nmi_on == old(self).nmi_on,
    {
        let mut vars: Vec<Variable> = Vec::new();
        let mut i: usize = 0;
        while i < self.variables.len()
            invariant
                self.variables@ == old(self).variables@,
                i <= self.variables@.len(),
                vars@.len() == i,
                forall|j: int|
                    0 <= j < i ==> {
                        &&& #[trigger] vars@[j].name == self.variables@[j].name
                        &&& vars@[j].addr == self.variables@[j].addr
                        &&& vars@[j].value == machine@.read(self.variables@[j].addr)
                    },
            decreases self.variables.len() - i,
        {
            let v = &self.variables[i];
            let value = machine.get_byte(v.addr);
            vars.push(Variable { name: v.name.clone(), addr: v.addr, value });
            i = i + 1;
        }
        self.variables = vars;
    }
}

/// Adding a breakpoint makes it present; adding it again changes nothing.
pub proof fn lemma_add_breakpoint(bps: Seq<Breakpoint>, bp: Breakpoint)
    ensures
        (if bps.contains(bp) {
            bps
        } else {
            bps.push(bp)
        }).contains(bp),
{
    if !bps.contains(bp) {
        assert(bps.push(bp)[bps.len() as int] == bp);
    }
}

/// After removing a breakpoint none equal to it is left, and every other
/// breakpoint stays.
pub proof fn lemma_remove_breakpoint(bps: Seq<Breakpoint>, bp: Breakpoint, other: Breakpoint)
    ensures
        !bps.filter(|b: Breakpoint| b != bp).contains(bp),
        other != bp ==> (bps.contains(other) <==> bps.filter(|b: Breakpoint| b != bp).contains(
            other,
        )),
{
    let pred = |b: Breakpoint| b != bp;
    let f = bps.filter(pred);
    if f.contains(bp) {
        let i = choose|i: int| 0 <= i < f.len() && f[i] == bp;
        bps.lemma_filter_pred(pred, i);
    }
    if other != bp {
        if bps.contains(other) {
            let i = choose|i: int| 0 <= i < bps.len() && bps[i] == other;
            bps.lemma_filter_contains(pred, i);
        }
        if f.contains(other) {
            bps.lemma_filter_contains_rev(pred, other);
        }
    }
}

} // verus!
