use kernel::args::{Args, Command};
use kernel::builder::{Arch, BuildProfile, OsBuilder, Target};
use kernel::display::{advance_cursor, colour_code, cursor_after_write, TerminalColour};

#[test]
fn arch_names_round_trip() {
    assert_eq!(Arch::X86_64.to_string(), "x86_64");
    assert_eq!(Arch::from_str("x86_64"), Ok(Arch::X86_64));
    assert_eq!(
        Arch::from_str("arm"),
        Err("Invalid Arch: arm".to_string())
    );
}

#[test]
fn target_names_round_trip() {
    assert_eq!(Target::Bios(Arch::X86_64).to_string(), "bios-x86_64");
    assert_eq!(Target::from_str("bios-x86_64"), Ok(Target::Bios(Arch::X86_64)));
    assert_eq!(
        Target::from_str("uefi-x86_64"),
        Err("Invalid Target: uefi-x86_64".to_string())
    );
    assert_eq!(
        Target::from_str("bios-arm"),
        Err("Invalid Target: bios-arm".to_string())
    );
    assert_eq!(
        Target::from_str("bios"),
        Err("Invalid Target: bios".to_string())
    );
}

#[test]
fn profile_names_and_defaults() {
    assert_eq!(BuildProfile::Debug.to_string(), "debug");
    assert_eq!(BuildProfile::Release.to_string(), "release");
    assert_eq!(Arch::default(), Arch::X86_64);
    assert_eq!(Target::default(), Target::Bios(Arch::X86_64));
    assert_eq!(BuildProfile::default(), BuildProfile::Debug);
}

#[test]
fn args_select_profile_by_release_flag() {
    let debug_args = Args::new(Target::default(), false, Command::Build);
    assert_eq!(debug_args.profile(), BuildProfile::Debug);
    assert_eq!(debug_args.target(), Target::Bios(Arch::X86_64));
    assert_eq!(*debug_args.command(), Command::Build);
    let release_args = Args::new(Target::default(), true, Command::Run);
    assert_eq!(release_args.profile(), BuildProfile::Release);
    assert_eq!(*release_args.command(), Command::Run);
}

#[test]
fn builder_chains_target_and_profile() {
    let mut builder = OsBuilder::default();
    builder
        .target(Target::Bios(Arch::X86_64))
        .profile(BuildProfile::Release);
    assert_eq!(builder.profile, BuildProfile::Release);
    assert_eq!(builder.target_name(), "x86_64-z_os");
    assert_eq!(builder.boot_package(), "boot-bios");
    assert_eq!(builder.build_dir("/ws"), "/ws/build");
}

#[test]
fn build_plan_pins_the_cargo_invocation() {
    let builder = OsBuilder::default();
    let plan = builder.build_plan("/ws");
    assert_eq!(plan.program, "cargo");
    assert_eq!(plan.current_dir, "/ws");
    assert_eq!(
        plan.args,
        vec![
            "bootimage".to_string(),
            "--target".to_string(),
            "./boot-bios/x86_64-z_os.json".to_string(),
            "--package".to_string(),
            "boot-bios".to_string(),
        ]
    );
    assert_eq!(
        plan.env,
        vec![
            ("RUSTFLAGS".to_string(), "".to_string()),
            (
                "CARGO_UNSTABLE_BUILD_STD".to_string(),
                "core,compiler_builtins,alloc".to_string()
            ),
        ]
    );
}

#[test]
fn run_plan_pins_the_emulator_invocation() {
    let mut builder = OsBuilder::default();
    builder.profile(BuildProfile::Release);
    let plan = builder.run_plan("/ws");
    assert_eq!(plan.program, "qemu-system-x86_64");
    assert_eq!(plan.current_dir, "/ws");
    assert_eq!(
        plan.args,
        vec![
            "-drive".to_string(),
            "format=raw,file=/ws/target/x86_64-z_os/release/bootimage-boot-bios.bin".to_string(),
            "-serial".to_string(),
            "stdio".to_string(),
        ]
    );
    assert!(plan.env.is_empty());
    assert_eq!(
        builder.kernel_binary_path("/ws"),
        "/ws/target/x86_64-z_os/release/bootimage-boot-bios.bin"
    );
}

#[test]
fn palette_translation_matches_the_vga_codes() {
    assert_eq!(colour_code(TerminalColour::Black), 0);
    assert_eq!(colour_code(TerminalColour::Blue), 1);
    assert_eq!(colour_code(TerminalColour::LightGray), 7);
    assert_eq!(colour_code(TerminalColour::DarkGray), 8);
    assert_eq!(colour_code(TerminalColour::Yellow), 14);
    assert_eq!(colour_code(TerminalColour::White), 15);
}

#[test]
fn cursor_steps_right_then_wraps_then_scrolls() {
    assert_eq!(advance_cursor((3, 2), 80, 25), (4, 2));
    assert_eq!(advance_cursor((79, 2), 80, 25), (0, 3));
    assert_eq!(advance_cursor((79, 24), 80, 25), (0, 24));
    assert_eq!(cursor_after_write((78, 0), 4, 80, 25), (2, 1));
    assert_eq!(cursor_after_write((0, 24), 200, 80, 25), (40, 24));
    assert_eq!(cursor_after_write((5, 5), 0, 80, 25), (5, 5));
}
