//! Build-and-run orchestration for the OS image: targets, profiles,
//! and the exact command lines to build the boot image and run it
//! under an emulator.
//!
//! Spawning the commands, and the filesystem work around them, happen
//! outside this crate; everything that decides what to spawn — names,
//! paths, arguments, environment — is computed and specified here.

use vstd::prelude::*;
use vstd::string::StrSliceExecFns;
use vstd::string::StringExecFns;

verus! {

/// A CPU architecture the builder can target.
#[derive(Debug, Clone, Copy, PartialEq, Eq, Structural)]
pub enum Arch {
    X86_64,
}

/// How the built image boots.
#[derive(Debug, Clone, Copy, PartialEq, Eq, Structural)]
pub enum Target {
    Bios(Arch),
}

/// The cargo build profile.
#[derive(Debug, Clone, Copy, PartialEq, Eq, Structural)]
pub enum BuildProfile {
    Debug,
    Release,
}

/// The name an architecture goes by on the command line.
pub open spec fn arch_label(arch: Arch) -> Seq<char> {
    "x86_64"@
}

/// The name a target goes by on the command line.
pub open spec fn target_label(target: Target) -> Seq<char> {
    match target {
        Target::Bios(arch) => "bios-"@ + arch_label(arch),
    }
}

/// The directory name of a build profile.
pub open spec fn profile_label(profile: BuildProfile) -> Seq<char> {
    match profile {
        BuildProfile::Debug => "debug"@,
        BuildProfile::Release => "release"@,
    }
}

impl Arch {
    pub fn to_string(&self) -> (s: String)
        ensures
            s@ == arch_label(*self),
    {
        match self {
            Arch::X86_64 => "x86_64".to_owned(),
        }
    }

    /// Parse an architecture name: exactly the known labels are
    /// accepted, anything else is rejected with a message naming the
    /// input.
    pub fn from_str(s: &str) -> (r: Result<Arch, String>)
        ensures
            s@ == arch_label(Arch::X86_64) ==> r == Ok::<Arch, String>(Arch::X86_64),
            s@ != arch_label(Arch::X86_64) ==> (r matches Err(e) && e@ == "Invalid Arch: "@
                + s@),
    {
        if s.to_owned() == "x86_64".to_owned() {
            Ok(Arch::X86_64)
        } else {
            Err("Invalid Arch: ".to_owned().concat(s))
        }
    }
}

impl Default for Arch {
    fn default() -> (d: Arch)
        ensures
            d == Arch::X86_64,
    {
        Arch::X86_64
    }
}

impl Target {
    pub fn to_string(&self) -> (s: String)
        ensures
            s@ == target_label(*self),
    {
        match self {
            Target::Bios(arch) => {
                let arch_name = arch.to_string();
                "bios-".to_owned().concat(arch_name.as_str())
            }
        }
    }

    /// Parse a target name: the `bios-` prefix followed by an
    /// architecture name; anything else is rejected with a message
    /// naming the input.
    pub fn from_str(s: &str) -> (r: Result<Target, String>)
        ensures
            s@ == target_label(Target::Bios(Arch::X86_64)) ==> r == Ok::<Target, String>(
                Target::Bios(Arch::X86_64),
            ),
            s@ != target_label(Target::Bios(Arch::X86_64)) ==> (r matches Err(e) && e@
                == "Invalid Target: "@ + s@),
    {
        proof {
            reveal_strlit("bios-");
            reveal_strlit("x86_64");
        }
        let ghost full = target_label(Target::Bios(Arch::X86_64));
        let n = s.unicode_len();
        if n >= 5 {
            let prefix = s.substring_char(0, 5);
            let prefix_string = prefix.to_owned();
            if prefix_string == "bios-".to_owned() {
                let rest = s.substring_char(5, n);
                match Arch::from_str(rest) {
                    Ok(arch) => {
                        proof {
                            assert(s@ =~= s@.subrange(0, 5) + s@.subrange(5, n as int));
                            assert(s@ =~= full);
                        }
                        Ok(Target::Bios(arch))
                    }
                    Err(_) => {
                        proof {
                            if s@ == full {
                                assert(s@.subrange(5, n as int) =~= "x86_64"@);
                            }
                        }
                        Err("Invalid Target: ".to_owned().concat(s))
                    }
                }
            } else {
                proof {
                    if s@ == full {
                        assert(s@.subrange(0, 5) =~= "bios-"@);
                    }
                }
                Err("Invalid Target: ".to_owned().concat(s))
            }
        } else {
            proof {
                assert(full.len() == 11);
            }
            Err("Invalid Target: ".to_owned().concat(s))
        }
    }
}

impl Default for Target {
    fn default() -> (d: Target)
        ensures
            d == Target::Bios(Arch::X86_64),
    {
        Target::Bios(Arch::X86_64)
    }
}

impl BuildProfile {
    pub fn to_string(&self) -> (s: String)
        ensures
            s@ == profile_label(*self),
    {
        match self {
            BuildProfile::Debug => "debug".to_owned(),
            BuildProfile::Release => "release".to_owned(),
        }
    }
}

impl Default for BuildProfile {
    fn default() -> (d: BuildProfile)
        ensures
            d == BuildProfile::Debug,
    {
        BuildProfile::Debug
    }
}

/// A command for the embedder to spawn: program, working directory,
/// arguments in order, and environment overrides.
#[derive(Debug)]
pub struct CommandPlan {
    pub program: String,
    pub current_dir: String,
    pub args: Vec<String>,
    pub env: Vec<(String, String)>,
}

/// The builder: which target to build and under which profile.
#[derive(Debug, Clone, Copy, PartialEq, Eq, Structural)]
pub struct OsBuilder {
    pub target: Target,
    pub profile: BuildProfile,
}

impl Default for OsBuilder {
    fn default() -> (d: OsBuilder)
        ensures
            d == (OsBuilder { target: Target::Bios(Arch::X86_64), profile: BuildProfile::Debug }),
    {
        OsBuilder { target: Target::Bios(Arch::X86_64), profile: BuildProfile::Debug }
    }
}

impl OsBuilder {
    /// Select the target, chaining.
    pub fn target(&mut self, target: Target) -> (r: &mut OsBuilder)
        ensures
            *r == (OsBuilder { target, profile: old(self).profile }),
            *final(self) == *final(r),
    {
        self.target = target;
        self
    }

    /// Select the profile, chaining.
    pub fn profile(&mut self, profile: BuildProfile) -> (r: &mut OsBuilder)
        ensures
            *r == (OsBuilder { target: old(self).target, profile }),
            *final(self) == *final(r),
    {
        self.profile = profile;
        self
    }

    /// The custom target specification's name.
    pub fn target_name(&self) -> (n: &str)
        ensures
            n@ == "x86_64-z_os"@,
    {
        match self.target {
            Target::Bios(arch) => match arch {
                Arch::X86_64 => "x86_64-z_os",
            },
        }
    }

    /// The package that produces the boot image for this target.
    pub fn boot_package(&self) -> (n: &str)
        ensures
            n@ == "boot-bios"@,
    {
        match self.target {
            Target::Bios(_) => "boot-bios",
        }
    }

    /// Where build products are collected, under the workspace.
    pub fn build_dir(&self, workspace_dir: &str) -> (d: String)
        ensures
            d@ == workspace_dir@ + "/build"@,
    {
        workspace_dir.to_owned().concat("/build")
    }

    /// The boot image the build leaves behind, under the workspace.
    pub fn kernel_binary_path(&self, workspace_dir: &str) -> (p: String)
        ensures
            p@ == workspace_dir@ + "/target/"@ + "x86_64-z_os"@ + "/"@ + profile_label(
                self.profile,
            ) + "/"@ + "bootimage-boot-bios.bin"@,
    {
        let profile_name = self.profile.to_string();
        workspace_dir.to_owned().concat("/target/").concat(self.target_name()).concat(
            "/",
        ).concat(profile_name.as_str()).concat("/").concat("bootimage-boot-bios.bin")
    }

    /// The cargo invocation that builds the boot image: the bootimage
    /// command over the custom target specification and the boot
    /// package, from the workspace, with the build-affecting
    /// environment pinned.
    pub fn build_plan(&self, workspace_dir: &str) -> (p: CommandPlan)
        ensures
            p.program@ == "cargo"@,
            p.current_dir@ == workspace_dir@,
            p.args@.len() == 5,
            p.args@[0]@ == "bootimage"@,
            p.args@[1]@ == "--target"@,
            p.args@[2]@ == "./"@ + "boot-bios"@ + "/"@ + "x86_64-z_os"@ + ".json"@,
            p.args@[3]@ == "--package"@,
            p.args@[4]@ == "boot-bios"@,
            p.env@.len() == 2,
            p.env@[0].0@ == "RUSTFLAGS"@,
            p.env@[0].1@ == ""@,
            p.env@[1].0@ == "CARGO_UNSTABLE_BUILD_STD"@,
            p.env@[1].1@ == "core,compiler_builtins,alloc"@,
    {
        let target_spec = "./".to_owned().concat(self.boot_package()).concat("/").concat(
            self.target_name(),
        ).concat(".json");
        let mut args: Vec<String> = Vec::new();
        args.push("bootimage".to_owned());
        args.push("--target".to_owned());
        args.push(target_spec);
        args.push("--package".to_owned());
        args.push(self.boot_package().to_owned());
        let mut env: Vec<(String, String)> = Vec::new();
        env.push(("RUSTFLAGS".to_owned(), "".to_owned()));
        env.push(("CARGO_UNSTABLE_BUILD_STD".to_owned(), "core,compiler_builtins,alloc".to_owned()));
        CommandPlan {
            program: "cargo".to_owned(),
            current_dir: workspace_dir.to_owned(),
            args,
            env,
        }
    }

    /// The emulator invocation that runs the built image: the
    /// architecture's emulator over the raw boot image, with the
    /// serial port on standard io, from the workspace.
    pub fn run_plan(&self, workspace_dir: &str) -> (p: CommandPlan)
        ensures
            p.program@ == "qemu-system-"@ + "x86_64"@,
            p.current_dir@ == workspace_dir@,
            p.args@.len() == 4,
            p.args@[0]@ == "-drive"@,
            p.args@[1]@ == "format=raw,file="@ + workspace_dir@ + "/target/"@ + "x86_64-z_os"@
                + "/"@ + profile_label(self.profile) + "/"@ + "bootimage-boot-bios.bin"@,
            p.args@[2]@ == "-serial"@,
            p.args@[3]@ == "stdio"@,
            p.env@.len() == 0,
    {
        let kernel_bin = self.kernel_binary_path(workspace_dir);
        let drive = "format=raw,file=".to_owned().concat(kernel_bin.as_str());
        let program = match self.target {
            Target::Bios(arch) => {
                let arch_name = arch.to_string();
                "qemu-system-".to_owned().concat(arch_name.as_str())
            }
        };
        let mut args: Vec<String> = Vec::new();
        args.push("-drive".to_owned());
        args.push(drive);
        args.push("-serial".to_owned());
        args.push("stdio".to_owned());
        CommandPlan { program, current_dir: workspace_dir.to_owned(), args, env: Vec::new() }
    }
}

} // verus!
