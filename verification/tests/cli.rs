use machine::cli::args::Args;
use machine::cli::get_profile;
use machine::cli::profile::{DebuggerConfig, Profile, Var};
use machine::debugger::breakpoint::Breakpoint;
use machine::debugger::debugger_state::DebuggerState;
use machine::debugger::variable::Variable;
use machine::machine::MachineConfig;

fn defaults() -> Args {
    Args {
        rom: None,
        ram: None,
        ram_file_addr: None,
        ram_size: Args::default_ram_size(),
        start_addr: Args::default_start_addr(),
        show_screen: false,
        show_status: false,
        disassemble: false,
        max_cycles: None,
        max_time: None,
        stop_on_addr: None,
        stop_on_brk: false,
        verbose: false,
        character_rom: None,
        profile: None,
    }
}

#[test]
fn defaults_of_args() {
    assert_eq!("fce2", Args::default_start_addr());
    assert_eq!(65536, Args::default_ram_size());
}

#[test]
fn merge_prefers_command_line() {
    let mut cli = defaults();
    cli.rom = Some("a.rom".to_string());
    cli.verbose = true;
    let mut file = defaults();
    file.rom = Some("b.rom".to_string());
    file.ram_size = 1024;
    file.start_addr = "c000".to_string();
    file.max_time = Some(5);
    file.profile = Some("p.toml".to_string());
    let m = Args::merge(&cli, &file);
    assert_eq!(Some("a.rom".to_string()), m.rom);
    assert_eq!(1024, m.ram_size);
    assert_eq!("c000", m.start_addr);
    assert_eq!(Some(5), m.max_time);
    assert!(m.verbose);
    assert_eq!(None, m.profile);
}

#[test]
fn merge_keeps_non_default_cli_values() {
    let mut cli = defaults();
    cli.ram_size = 2048;
    cli.start_addr = "0800".to_string();
    let mut file = defaults();
    file.ram_size = 1024;
    file.start_addr = "c000".to_string();
    let m = Args::merge(&cli, &file);
    assert_eq!(2048, m.ram_size);
    assert_eq!("0800", m.start_addr);
}

#[test]
fn merge_default_ram_size_takes_the_file() {
    let mut cli = defaults();
    cli.ram_size = 65536;
    let mut file = defaults();
    file.ram_size = 4096;
    let m = Args::merge(&cli, &file);
    assert_eq!(4096, m.ram_size);
}

#[test]
fn config_from_args_parses_stop_address() {
    let mut a = defaults();
    a.stop_on_addr = Some("fffe".to_string());
    a.ram_size = 4096;
    a.stop_on_brk = true;
    let c = MachineConfig::from_args(&a);
    assert_eq!(Some(0xfffe), c.exit_on_addr);
    assert_eq!(4096, c.ram_size);
    assert_eq!(0x10000, c.rom_size);
    assert!(c.exit_on_brk);
}

#[test]
fn profile_without_file_is_the_args() {
    let mut a = defaults();
    a.verbose = true;
    let p = get_profile(&a, None);
    assert!(p.config.verbose);
    assert!(p.debug.is_none());
}

#[test]
fn profile_file_is_merged_under_args() {
    let mut a = defaults();
    a.profile = Some("x.toml".to_string());
    let mut f = defaults();
    f.max_cycles = Some(77);
    let loaded = Profile { config: f, debug: None };
    let p = get_profile(&a, Some(loaded));
    assert_eq!(Some(77), p.config.max_cycles);
    assert_eq!(None, p.config.profile);
}

#[test]
fn debugger_state_from_config() {
    let cfg = DebuggerConfig {
        variable: Some(vec![Var { name: "ptr".to_string(), address: 0xfb }]),
        breakpoint: Some(vec![Breakpoint::Address(0x1000), Breakpoint::BRK]),
    };
    let s = DebuggerState::from_debugger_config(&cfg);
    assert_eq!(1, s.variables.len());
    assert_eq!(0xfb, s.variables[0].addr);
    assert_eq!(0, s.variables[0].value);
    assert_eq!(2, s.breakpoints.len());
    let v = Variable::from_var(&Var { name: "n".to_string(), address: 3 });
    assert_eq!("n", v.name);
}
