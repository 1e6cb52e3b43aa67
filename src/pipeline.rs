use vstd::prelude::*;
use crate::arch::{arch_name, Architecture};
use crate::error::Error;
use crate::project::{
    image_destination, opt_view, output_path, resolved_target, strings_view, CargoProject,
};

verus! {

/// One entry of the build plan: how to build a project and what, if
/// anything, goes into the image afterwards.
#[derive(Debug, Clone)]
pub struct BuildStep {
    pub project_name: String,
    /// The resolved compiler target; `None` builds for the host.
    pub target: Option<String>,
    /// The arguments of the build tool for this project.
    pub arguments: Vec<String>,
    /// Where the build leaves the artifact that the image holds.
    pub artifact: Option<String>,
    /// Where that artifact goes inside the image.
    pub destination: Option<String>,
}

/// What the pipeline does next.
#[derive(Clone, Copy, Debug, PartialEq, Eq, Structural)]
pub enum BuildAction {
    /// Run the build of the plan entry at this index.
    Build(usize),
    /// Every build succeeded: assemble the image.
    Assemble,
}

/// The build tool's arguments for package `name`; a non-default target also
/// asks for the core libraries to be built from source.
pub open spec fn build_arguments(name: Seq<char>, target: Option<Seq<char>>) -> Seq<Seq<char>> {
    let base = seq!["build"@, "--package"@, name];
    match target {
        Some(t) => base + seq![
            "--target"@,
            t,
            "-Zbuild-std=core,alloc,compiler_builtins"@,
            "-Zbuild-std-features=compiler-builtins-mem"@,
        ],
        None => base,
    }
}

/// `s` is the plan entry of project `p` on architecture `a`.
pub open spec fn step_for(s: BuildStep, p: CargoProject, a: Architecture) -> bool {
    let target = resolved_target(p.kind, a, opt_view(p.target));
    &&& s.project_name@ == p.name@
    &&& opt_view(s.target) == target
    &&& strings_view(s.arguments@) == build_arguments(p.name@, target)
    &&& opt_view(s.artifact) == output_path(p.kind, a, opt_view(p.target), p.name@)
    &&& opt_view(s.destination) == image_destination(p.kind, a, opt_view(p.image_path))
}

/// The copies into the image that a plan asks for, in plan order: each entry
/// with both an artifact and a destination.
pub open spec fn copies_of(plan: Seq<BuildStep>) -> Seq<(Seq<char>, Seq<char>)>
    decreases plan.len(),
{
    if plan.len() == 0 {
        Seq::empty()
    } else {
        let rest = copies_of(plan.drop_last());
        match (plan.last().artifact, plan.last().destination) {
            (Some(from), Some(to)) => rest.push((from@, to@)),
            _ => rest,
        }
    }
}

pub open spec fn pairs_view(v: Seq<(String, String)>) -> Seq<(Seq<char>, Seq<char>)> {
    v.map_values(|p: (String, String)| (p.0@, p.1@))
}

fn push_str(v: &mut Vec<String>, s: &str)
    ensures
        strings_view(final(v)@) == strings_view(old(v)@).push(s@),
{
    v.push(String::from_str(s));
    assert(strings_view(v@) =~= strings_view(old(v)@).push(s@));
}

fn build_arguments_for(name: &str, target: &Option<String>) -> (r: Vec<String>)
    ensures
        strings_view(r@) == build_arguments(name@, opt_view(*target)),
{
    let mut r: Vec<String> = Vec::new();
    push_str(&mut r, "build");
    push_str(&mut r, "--package");
    push_str(&mut r, name);
    if let Some(t) = target {
        push_str(&mut r, "--target");
        push_str(&mut r, t.as_str());
        push_str(&mut r, "-Zbuild-std=core,alloc,compiler_builtins");
        push_str(&mut r, "-Zbuild-std-features=compiler-builtins-mem");
    }
    assert(strings_view(r@) =~= build_arguments(name@, opt_view(*target)));
    r
}

/// The build plan of a workspace: one entry per project, in workspace order.
pub fn plan_build(projects: &Vec<CargoProject>, architecture: Architecture) -> (r: Vec<BuildStep>)
    ensures
        r@.len() == projects@.len(),
        forall|i: int| 0 <= i < r@.len() ==> step_for(#[trigger] r@[i], projects@[i], architecture),
{
    let mut r: Vec<BuildStep> = Vec::new();
    let mut i: usize = 0;
    while i < projects.len()
        invariant
            i <= projects@.len(),
            r@.len() == i,
            forall|j: int| 0 <= j < i ==> step_for(#[trigger] r@[j], projects@[j], architecture),
        decreases projects@.len() - i,
    {
        let p = &projects[i];
        let target = p.kind.target(p, architecture);
        let arguments = build_arguments_for(p.name.as_str(), &target);
        let artifact = p.kind.output_file_path(p, architecture, p.name.as_str());
        let destination = p.kind.image_target_file(p, architecture, p.name.as_str());
        let step = BuildStep {
            project_name: p.name.clone(),
            target,
            arguments,
            artifact,
            destination,
        };
        r.push(step);
        i = i + 1;
    }
    r
}

/// The first action of a run: the first build, or assembly for an empty plan.
pub fn start_builds(plan: &Vec<BuildStep>) -> (r: BuildAction)
    ensures
        r == if plan@.len() == 0 { BuildAction::Assemble } else { BuildAction::Build(0) },
{
    if plan.len() == 0 {
        BuildAction::Assemble
    } else {
        BuildAction::Build(0)
    }
}

/// The decision after the build of entry `current` exited with `exit_code`:
/// a non-zero code stops the run with `BuildFailed`; otherwise the next build
/// runs, or assembly once every entry is built.
pub fn after_build(plan: &Vec<BuildStep>, current: usize, exit_code: i32) -> (r: Result<
    BuildAction,
    Error,
>)
    requires
        current < plan@.len(),
    ensures
        exit_code != 0 ==> match r {
            Err(Error::BuildFailed(name, code)) => name@ == plan@[current as int].project_name@
                && code == exit_code,
            _ => false,
        },
        exit_code == 0 ==> r == Ok::<BuildAction, Error>(
            if current + 1 < plan@.len() {
                BuildAction::Build((current + 1) as usize)
            } else {
                BuildAction::Assemble
            },
        ),
{
    if exit_code != 0 {
        Err(Error::BuildFailed(plan[current].project_name.clone(), exit_code))
    } else if current < plan.len() - 1 {
        Ok(BuildAction::Build(current + 1))
    } else {
        Ok(BuildAction::Assemble)
    }
}

/// The (artifact, destination) pairs to copy into the image, in plan order.
pub fn assembly_copies(plan: &Vec<BuildStep>) -> (r: Vec<(String, String)>)
    ensures
        pairs_view(r@) == copies_of(plan@),
{
    let mut r: Vec<(String, String)> = Vec::new();
    let mut i: usize = 0;
    while i < plan.len()
        invariant
            i <= plan@.len(),
            pairs_view(r@) == copies_of(plan@.subrange(0, i as int)),
        decreases plan@.len() - i,
    {
        let ghost before = r@;
        proof {
            assert(plan@.subrange(0, i + 1).drop_last() =~= plan@.subrange(0, i as int));
        }
        let step = &plan[i];
        match (&step.artifact, &step.destination) {
            (Some(from), Some(to)) => {
                r.push((from.clone(), to.clone()));
                assert(pairs_view(r@) =~= pairs_view(before).push((from@, to@)));
            },
            _ => {},
        }
        i = i + 1;
    }
    assert(plan@.subrange(0, plan@.len() as int) =~= plan@);
    r
}

/// The name of the build tool looked up on the search path.
pub fn build_tool() -> (r: String)
    ensures
        r@ == "cargo"@,
{
    String::from_str("cargo")
}

/// The name of the ISO-authoring tool looked up on the search path.
pub fn iso_tool() -> (r: String)
    ensures
        r@ == "xorriso"@,
{
    String::from_str("xorriso")
}

/// The directory, under the workspace, that holds the image while the ISO is
/// made; it is the ISO's root.
pub fn image_directory() -> (r: String)
    ensures
        r@ == ".image"@,
{
    String::from_str(".image")
}

/// The ISO tool's arguments: ISO 9660 mode, the volume label, the image as a
/// no-emulation El Torito boot entry, the output file and the root tree.
pub open spec fn iso_arguments_spec(image_file: Seq<char>, iso_file: Seq<char>) -> Seq<Seq<char>> {
    seq![
        "-as"@,
        "mkisofs"@,
        "-V"@,
        "EFI_ISO_BOOT"@,
        "-e"@,
        image_file,
        "-no-emul-boot"@,
        "-o"@,
        iso_file,
        ".image/"@,
    ]
}

pub fn iso_arguments(image_file: &str, iso_file: &str) -> (r: Vec<String>)
    ensures
        strings_view(r@) == iso_arguments_spec(image_file@, iso_file@),
{
    let mut r: Vec<String> = Vec::new();
    push_str(&mut r, "-as");
    push_str(&mut r, "mkisofs");
    push_str(&mut r, "-V");
    push_str(&mut r, "EFI_ISO_BOOT");
    push_str(&mut r, "-e");
    push_str(&mut r, image_file);
    push_str(&mut r, "-no-emul-boot");
    push_str(&mut r, "-o");
    push_str(&mut r, iso_file);
    push_str(&mut r, ".image/");
    assert(strings_view(r@) =~= iso_arguments_spec(image_file@, iso_file@));
    r
}

/// The emulator executable for an architecture, `qemu-system-<arch>`.
pub fn emulator_executable(architecture: Architecture) -> (r: String)
    ensures
        r@ == "qemu-system-"@ + arch_name(architecture),
{
    String::from_str("qemu-system-").concat(architecture.name().as_str())
}

pub open spec fn digit_text(d: nat) -> Seq<char> {
    if d == 0 {
        "0"@
    } else if d == 1 {
        "1"@
    } else if d == 2 {
        "2"@
    } else if d == 3 {
        "3"@
    } else if d == 4 {
        "4"@
    } else if d == 5 {
        "5"@
    } else if d == 6 {
        "6"@
    } else if d == 7 {
        "7"@
    } else if d == 8 {
        "8"@
    } else {
        "9"@
    }
}

/// The decimal digits of `n`.
pub open spec fn decimal(n: nat) -> Seq<char>
    decreases n,
{
    if n < 10 {
        digit_text(n)
    } else {
        decimal(n / 10) + digit_text(n % 10)
    }
}

fn digit_string(d: u16) -> (r: String)
    requires
        d < 10,
    ensures
        r@ == digit_text(d as nat),
{
    if d == 0 {
        String::from_str("0")
    } else if d == 1 {
        String::from_str("1")
    } else if d == 2 {
        String::from_str("2")
    } else if d == 3 {
        String::from_str("3")
    } else if d == 4 {
        String::from_str("4")
    } else if d == 5 {
        String::from_str("5")
    } else if d == 6 {
        String::from_str("6")
    } else if d == 7 {
        String::from_str("7")
    } else if d == 8 {
        String::from_str("8")
    } else {
        String::from_str("9")
    }
}

/// `n` written in decimal.
pub fn decimal_string(n: u16) -> (r: String)
    ensures
        r@ == decimal(n as nat),
    decreases n,
{
    if n < 10 {
        digit_string(n)
    } else {
        let head = decimal_string(n / 10);
        let last = digit_string(n % 10);
        head.concat(last.as_str())
    }
}

/// The emulator's arguments: firmware, the ISO as CD-ROM, a fixed memory
/// size; when debugging, a debug server on `debug_port` with the CPU halted
/// until a debugger attaches; and, on request, a log of interrupts,
/// exceptions and the register state at reset.
pub open spec fn emulator_arguments_spec(
    iso_path: Seq<char>,
    debugging: bool,
    debug_port: u16,
    exception_info: bool,
) -> Seq<Seq<char>> {
    let base = seq!["-bios"@, "OVMF.fd"@, "-cdrom"@, iso_path, "-m"@, "512"@];
    let debug = if debugging {
        seq!["-gdb"@, "tcp::"@ + decimal(debug_port as nat), "-S"@]
    } else {
        Seq::empty()
    };
    let info = if exception_info {
        seq!["-d"@, "int,cpu_reset"@]
    } else {
        Seq::empty()
    };
    base + debug + info
}

pub fn emulator_arguments(iso_path: &str, debugging: bool, debug_port: u16, exception_info: bool) -> (r:
    Vec<String>)
    ensures
        strings_view(r@) == emulator_arguments_spec(iso_path@, debugging, debug_port, exception_info),
{
    let mut r: Vec<String> = Vec::new();
    push_str(&mut r, "-bios");
    push_str(&mut r, "OVMF.fd");
    push_str(&mut r, "-cdrom");
    push_str(&mut r, iso_path);
    push_str(&mut r, "-m");
    push_str(&mut r, "512");
    if debugging {
        push_str(&mut r, "-gdb");
        let server = String::from_str("tcp::").concat(decimal_string(debug_port).as_str());
        push_str(&mut r, server.as_str());
        push_str(&mut r, "-S");
    }
    if exception_info {
        push_str(&mut r, "-d");
        push_str(&mut r, "int,cpu_reset");
    }
    assert(strings_view(r@) =~= emulator_arguments_spec(iso_path@, debugging, debug_port, exception_info));
    r
}

/// The result of an external tool's run: success on exit code 0, else
/// `ProcessFailed` with the tool's name and the code.
pub fn check_exit(tool: &str, exit_code: i32) -> (r: Result<(), Error>)
    ensures
        exit_code == 0 ==> r is Ok,
        exit_code != 0 ==> match r {
            Err(Error::ProcessFailed(name, code)) => name@ == tool@ && code == exit_code,
            _ => false,
        },
{
    if exit_code == 0 {
        Ok(())
    } else {
        Err(Error::ProcessFailed(String::from_str(tool), exit_code))
    }
}

} // verus!
