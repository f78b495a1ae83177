use vstd::prelude::*;
use vstd::string::StringExecFns;
use super::hex::{parse_hex_u16, spec_parse_hex_u16};
use crate::machine::MachineConfig;
use crate::utils::if_else;

verus! {

/// The command-line options of the emulator; a profile file holds the same
/// settings. Paths are kept as strings.
#[derive(Debug)]
pub struct Args {
    pub rom: Option<String>,
    pub ram: Option<String>,
    pub ram_file_addr: Option<String>,
    pub ram_size: usize,
    pub start_addr: String,
    pub show_screen: bool,
    pub show_status: bool,
    pub disassemble: bool,
    pub max_cycles: Option<u128>,
    pub max_time: Option<u64>,
    pub stop_on_addr: Option<String>,
    pub stop_on_brk: bool,
    pub verbose: bool,
    pub character_rom: Option<String>,
    pub profile: Option<String>,
}

fn clone_opt(s: &Option<String>) -> (r: Option<String>)
    ensures
        r == *s,
{
    match s {
        Some(x) => Some(x.clone()),
        None => None,
    }
}

impl Clone for Args {
    fn clone(&self) -> (r: Self)
        ensures
            r == *self,
    {
        Args {
            rom: clone_opt(&self.rom),
            ram: clone_opt(&self.ram),
            ram_file_addr: clone_opt(&self.ram_file_addr),
            ram_size: self.ram_size,
            start_addr: self.start_addr.clone(),
            show_screen: self.show_screen,
            show_status: self.show_status,
            disassemble: self.disassemble,
            max_cycles: self.max_cycles,
            max_time: self.max_time,
            stop_on_addr: clone_opt(&self.stop_on_addr),
            stop_on_brk: self.stop_on_brk,
            verbose: self.verbose,
            character_rom: clone_opt(&self.character_rom),
            profile: clone_opt(&self.profile),
        }
    }
}

fn val_or(val1: bool, val2: bool) -> (r: bool)
    ensures
        r == (val1 || val2),
{
    if val1 {
        val1
    } else {
        val2
    }
}

fn or_opt(a: &Option<String>, b: &Option<String>) -> (r: Option<String>)
    ensures
        r == (if a is Some {
            *a
        } else {
            *b
        }),
{
    match a {
        Some(_) => clone_opt(a),
        None => clone_opt(b),
    }
}

/// The settings of `cli` where given on the command line, else those of `file`:
/// options set in `cli` win, flags are or-ed, and the RAM size and start
/// address of `cli` win where they differ from their defaults. The profile
/// path is dropped.
pub open spec fn spec_merge(cli: Args, file: Args) -> Args {
    Args {
        rom: if cli.rom is Some {
            cli.rom
        } else {
            file.rom
        },
        ram: if cli.ram is Some {
            cli.ram
        } else {
            file.ram
        },
        ram_file_addr: if cli.ram_file_addr is Some {
            cli.ram_file_addr
        } else {
            file.ram_file_addr
        },
        ram_size: if cli.ram_size != 65536 {
            cli.ram_size
        } else {
            file.ram_size
        },
        start_addr: if cli.start_addr@ != "fce2"@ {
            cli.start_addr
        } else {
            file.start_addr
        },
        show_screen: cli.show_screen || file.show_screen,
        show_status: cli.show_status || file.show_status,
        disassemble: cli.disassemble || file.disassemble,
        max_cycles: if cli.max_cycles is Some {
            cli.max_cycles
        } else {
            file.max_cycles
        },
        max_time: if cli.max_time is Some {
            cli.max_time
        } else {
            file.max_time
        },
        stop_on_addr: if cli.stop_on_addr is Some {
            cli.stop_on_addr
        } else {
            file.stop_on_addr
        },
        stop_on_brk: cli.stop_on_brk || file.stop_on_brk,
        verbose: cli.verbose || file.verbose,
        character_rom: if cli.character_rom is Some {
            cli.character_rom
        } else {
            file.character_rom
        },
        profile: None,
    }
}

impl Args {
    /// The default start address, `fce2`.
    pub fn default_start_addr() -> (r: String)
        ensures
            r@ == "fce2"@,
    {
        String::from_str("fce2")
    }

    /// The default RAM size: 64 KiB.
    pub fn default_ram_size() -> (r: usize)
        ensures
            r == 65536,
    {
        65536
    }

    /// Merges the command line with the settings of a profile file.
    pub fn merge(cli: &Args, file: &Args) -> (r: Args)
        ensures
            r == spec_merge(*cli, *file),
    {
        Args {
            rom: or_opt(&cli.rom, &file.rom),
            ram: or_opt(&cli.ram, &file.ram),
            ram_file_addr: or_opt(&cli.ram_file_addr, &file.ram_file_addr),
            ram_size: if_else(
                cli.ram_size != Args::default_ram_size(),
                cli.ram_size,
                file.ram_size,
            ),
            start_addr: if_else(
                !(cli.start_addr == Args::default_start_addr()),
                cli.start_addr.clone(),
                file.start_addr.clone(),
            ),
            show_screen: val_or(cli.show_screen, file.show_screen),
            show_status: val_or(cli.show_status, file.show_status),
            disassemble: val_or(cli.disassemble, file.disassemble),
            max_cycles: if cli.max_cycles.is_some() {
                cli.max_cycles
            } else {
                file.max_cycles
            },
            max_time: if cli.max_time.is_some() {
                cli.max_time
            } else {
                file.max_time
            },
            stop_on_addr: or_opt(&cli.stop_on_addr, &file.stop_on_addr),
            stop_on_brk: val_or(cli.stop_on_brk, file.stop_on_brk),
            verbose: val_or(cli.verbose, file.verbose),
            character_rom: or_opt(&cli.character_rom, &file.character_rom),
            profile: None,
        }
    }
}

/// The stop address, when given, is a hexadecimal number that fits 16 bits.
pub open spec fn stop_addr_parses(args: Args) -> bool {
    args.stop_on_addr matches Some(s) ==> spec_parse_hex_u16(s@) is Some
}

/// The machine configuration of the settings: the RAM size and limits as
/// given, 64 KiB of ROM, and the stop address parsed as hexadecimal.
pub open spec fn spec_config_of(args: Args) -> MachineConfig {
    MachineConfig {
        ram_size: args.ram_size,
        rom_size: 0x10000,
        max_time: args.max_time,
        max_cycles: args.max_cycles,
        exit_on_addr: match args.stop_on_addr {
            Some(s) => spec_parse_hex_u16(s@),
            None => None,
        },
        exit_on_brk: args.stop_on_brk,
        disassemble: args.disassemble,
        verbose: args.verbose,
    }
}

impl MachineConfig {
    /// The machine configuration of the command-line settings.
    pub fn from_args(args: &Args) -> (r: MachineConfig)
        requires
            stop_addr_parses(*args),
        ensures
            r == spec_config_of(*args),
    {
        MachineConfig {
            ram_size: args.ram_size,
            rom_size: 0x10000,
            max_time: args.max_time,
            max_cycles: args.max_cycles,
            exit_on_addr: match &args.stop_on_addr {
                Some(s) => Some(parse_hex_u16(s.as_str()).unwrap()),
                None => None,
            },
            exit_on_brk: args.stop_on_brk,
            disassemble: args.disassemble,
            verbose: args.verbose,
        }
    }
}

/// Merging a file with a command line that sets nothing gives the file's
/// settings, without the profile path.
pub proof fn lemma_merge_defaults(cli: Args, file: Args)
    requires
        cli.rom is None,
        cli.ram is None,
        cli.ram_file_addr is None,
        cli.ram_size == 65536,
        cli.start_addr@ == "fce2"@,
        !cli.show_screen,
        !cli.show_status,
        !cli.disassemble,
        cli.max_cycles is None,
        cli.max_time is None,
        cli.stop_on_addr is None,
        !cli.stop_on_brk,
        !cli.verbose,
        cli.character_rom is None,
    ensures
        spec_merge(cli, file) == (Args { profile: None, ..file }),
{
}

/// Merging settings with themselves changes nothing but the profile path.
pub proof fn lemma_merge_idempotent(a: Args)
    ensures
        spec_merge(a, a) == (Args { profile: None, ..a }),
{
}

/// Options and flags set on the command line survive the merge.
pub proof fn lemma_merge_cli_wins(cli: Args, file: Args)
    ensures
        cli.rom is Some ==> spec_merge(cli, file).rom == cli.rom,
        cli.stop_on_addr is Some ==> spec_merge(cli, file).stop_on_addr == cli.stop_on_addr,
        cli.verbose ==> spec_merge(cli, file).verbose,
        cli.ram_size != 65536 ==> spec_merge(cli, file).ram_size == cli.ram_size,
{
}

} // verus!
