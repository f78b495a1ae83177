use vstd::prelude::*;
use super::args::{spec_config_of, stop_addr_parses};
use super::Args;
use crate::debugger::{Breakpoint, DebuggerState, Variable};
use crate::machine::MachineConfig;

verus! {

/// A debugging profile: machine settings and, optionally, debugger settings.
#[derive(Debug)]
pub struct Profile {
    pub config: Args,
    pub debug: Option<DebuggerConfig>,
}

/// Variables to watch and breakpoints to set at start.
#[derive(Debug)]
pub struct DebuggerConfig {
    pub variable: Option<Vec<Var>>,
    pub breakpoint: Option<Vec<Breakpoint>>,
}

/// A variable as a profile names it.
#[derive(Debug)]
pub struct Var {
    pub name: String,
    pub address: u16,
}

impl Profile {
    /// A profile made of the command-line settings alone.
    pub fn from_args(args: &Args) -> (r: Self)
        ensures
            r.config == *args,
            r.debug is None,
    {
        Profile { config: args.clone(), debug: None }
    }
}

impl MachineConfig {
    /// The machine configuration of a profile's settings.
    pub fn from_profile(profile: &Profile) -> (r: MachineConfig)
        requires
            stop_addr_parses(profile.config),
        ensures
            r == spec_config_of(profile.config),
    {
        MachineConfig::from_args(&profile.config)
    }
}

/// Types that can be built from a profile.
pub trait FromProfile: Sized {
    fn from_profile(profile: &Profile) -> Self;
}

impl Variable {
    /// A watched variable for a profile's variable, with value 0.
    pub fn from_var(var: &Var) -> (r: Variable)
        ensures
            r.name == var.name,
            r.addr == var.address,
            r.value == 0,
    {
        Variable { name: var.name.clone(), addr: var.address, value: 0 }
    }
}

impl DebuggerState {
    /// A debugger state with the variables and breakpoints of a profile.
    pub fn from_debugger_config(profile: &DebuggerConfig) -> (r: DebuggerState)
        ensures
            match &profile.variable {
                Some(v) => r.variables@.len() == v@.len() && forall|i: int|
                    0 <= i < v@.len() ==> {
                        &&& #[trigger] r.variables@[i].name == v@[i].name
                        &&& r.variables@[i].addr == v@[i].address
                        &&& r.variables@[i].value == 0
                    },
                None => r.variables@.len() == 0,
            },
            match &profile.breakpoint {
                Some(b) => r.breakpoints@ == b@,
                None => r.breakpoints@.len() == 0,
            },
            !r.irq_on,
            !r.nmi_on,
            r.observed_mem.start == 0,
            r.observed_mem.end == 0,
    {
        let mut state = DebuggerState::default();
        if let Some(v) = &profile.variable {
            let mut vars: Vec<Variable> = Vec::new();
            let mut i: usize = 0;
            while i < v.len()
                invariant
                    i <= v@.len(),
                    vars@.len() == i,
                    forall|j: int|
                        0 <= j < i ==> {
                            &&& #[trigger] vars@[j].name == v@[j].name
                            &&& vars@[j].addr == v@[j].address
                            &&& vars@[j].value == 0
                        },
                decreases v.len() - i,
            {
                vars.push(Variable::from_var(&v[i]));
                i = i + 1;
            }
            state.variables = vars;
        }
        if let Some(b) = &profile.breakpoint {
            let mut bps: Vec<Breakpoint> = Vec::new();
            let mut i: usize = 0;
            while i < b.len()
                invariant
                    i <= b@.len(),
                    bps@ == b@.take(i as int),
                decreases b.len() - i,
            {
                bps.push(b[i]);
                i = i + 1;
                assert(bps@ =~= b@.take(i as int));
            }
            assert(b@.take(b@.len() as int) =~= b@);
            state.breakpoints = bps;
        }
        state
    }
}

} // verus!
