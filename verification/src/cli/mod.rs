pub mod args;
pub mod hex;
pub mod profile;

pub use args::Args;
pub use profile::{DebuggerConfig, FromProfile, Profile, Var};

use vstd::prelude::*;

verus! {

/// The profile to run with: the command-line settings alone when no profile
/// file is named, else the loaded profile file with its settings merged
/// under the command line.
pub fn get_profile(args: &Args, loaded: Option<Profile>) -> (r: Profile)
    requires
        args.profile is Some ==> loaded is Some,
    ensures
        args.profile is None ==> r.config == *args && r.debug is None,
        args.profile is Some ==> r.config == args::spec_merge(*args, loaded->0.config)
            && r.debug == loaded->0.debug,
{
    if args.profile.is_none() {
        return Profile::from_args(args);
    }
    let mut profile = loaded.unwrap();
    profile.config = Args::merge(args, &profile.config);
    profile
}

} // verus!
