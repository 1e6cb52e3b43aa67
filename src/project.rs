use vstd::prelude::*;
use crate::arch::{arch_name, efi_boot_path, Architecture};
use crate::error::Error;

verus! {

/// What a sub-project is, which decides how it is built and where it goes.
#[derive(Clone, Copy, Debug, PartialEq, Eq, Structural, PartialOrd, Ord, Hash)]
pub enum ProjectKind {
    Kernel,
    Bootloader,
    SharedLibrary,
    StaticLibrary,
    Executable,
}

/// The `osimage` metadata block of a manifest, as plain text values.
/// `kind` is `None` when the field is missing or not a string.
#[derive(Debug, Clone)]
pub struct OsImageMetadata {
    pub kind: Option<String>,
    pub target: Option<String>,
    pub image_path: Option<String>,
}

/// What classification reads from a project's manifest and source tree.
#[derive(Debug, Clone)]
pub struct ManifestInfo {
    /// The package name.
    pub name: String,
    /// The `osimage` metadata block, if the manifest has one.
    pub osimage: Option<OsImageMetadata>,
    /// The crate types of the `[lib]` section, if the manifest has one.
    pub lib_crate_types: Option<Vec<String>>,
    /// Whether the project holds the conventional entry point `src/main.rs`.
    pub has_main_file: bool,
}

/// A classified sub-project.
#[derive(Debug, Clone)]
pub struct CargoProject {
    pub name: String,
    pub path: String,
    pub kind: ProjectKind,
    pub target: Option<String>,
    pub image_path: Option<String>,
}

pub open spec fn opt_view(o: Option<String>) -> Option<Seq<char>> {
    match o {
        Some(s) => Some(s@),
        None => None,
    }
}

pub open spec fn strings_view(v: Seq<String>) -> Seq<Seq<char>> {
    v.map_values(|s: String| s@)
}

/// The kind that an explicit `osimage.kind` value names.
pub open spec fn explicit_kind(k: Seq<char>) -> Option<ProjectKind> {
    if k == "kernel"@ {
        Some(ProjectKind::Kernel)
    } else if k == "bootloader"@ {
        Some(ProjectKind::Bootloader)
    } else {
        None
    }
}

/// The kind of a project without metadata: an entry point makes an
/// executable; a dynamic library type makes a shared library; anything else
/// is a static library.
pub open spec fn heuristic_kind(has_main: bool, lib: Option<Seq<Seq<char>>>) -> ProjectKind {
    if has_main {
        ProjectKind::Executable
    } else {
        match lib {
            None => ProjectKind::StaticLibrary,
            Some(types) => if types.contains("cdylib"@) || types.contains("dylib"@) {
                ProjectKind::SharedLibrary
            } else {
                ProjectKind::StaticLibrary
            },
        }
    }
}

pub open spec fn lib_view(lib: Option<Vec<String>>) -> Option<Seq<Seq<char>>> {
    match lib {
        Some(v) => Some(strings_view(v@)),
        None => None,
    }
}

/// The kind of the project that a manifest describes; `None` where its
/// explicit kind is not recognised.
pub open spec fn classify(m: ManifestInfo) -> Option<ProjectKind> {
    match m.osimage {
        Some(meta) => match meta.kind {
            Some(k) => explicit_kind(k@),
            None => None,
        },
        None => Some(heuristic_kind(m.has_main_file, lib_view(m.lib_crate_types))),
    }
}

/// The explicit kind text of a manifest, empty where it is missing.
pub open spec fn declared_kind_text(m: ManifestInfo) -> Seq<char> {
    match m.osimage {
        Some(meta) => match meta.kind {
            Some(k) => k@,
            None => Seq::empty(),
        },
        None => Seq::empty(),
    }
}

/// The default target of a kind on an architecture.
pub open spec fn default_target(k: ProjectKind, a: Architecture) -> Option<Seq<char>> {
    match k {
        ProjectKind::Kernel => Some(arch_name(a) + "-unknown-none"@),
        ProjectKind::Bootloader => Some(arch_name(a) + "-unknown-uefi"@),
        _ => None,
    }
}

/// An explicit target wins; otherwise the kind's default.
pub open spec fn resolved_target(
    k: ProjectKind,
    a: Architecture,
    explicit: Option<Seq<char>>,
) -> Option<Seq<char>> {
    match explicit {
        Some(t) => Some(t),
        None => default_target(k, a),
    }
}

/// The part of a target triple after its first `-`, if it has one.
pub open spec fn dash_suffix(t: Seq<char>) -> Option<Seq<char>>
    decreases t.len(),
{
    if t.len() == 0 {
        None
    } else if t[0] == '-' {
        Some(t.drop_first())
    } else {
        dash_suffix(t.drop_first())
    }
}

pub open spec fn uefi_output(a: Architecture, name: Seq<char>) -> Seq<char> {
    "target/"@ + arch_name(a) + "-unknown-uefi/debug/"@ + name + ".efi"@
}

pub open spec fn bare_output(a: Architecture, name: Seq<char>) -> Seq<char> {
    "target/"@ + arch_name(a) + "-unknown-none/debug/"@ + name
}

/// Where the compiler leaves the artifact of a project that goes into the
/// image; `None` for kinds that the image does not hold.
pub open spec fn output_path(
    k: ProjectKind,
    a: Architecture,
    explicit: Option<Seq<char>>,
    name: Seq<char>,
) -> Option<Seq<char>> {
    match explicit {
        Some(t) => if dash_suffix(t) == Some("unknown-uefi"@) {
            Some(uefi_output(a, name))
        } else if dash_suffix(t) == Some("unknown-none"@) {
            Some(bare_output(a, name))
        } else {
            None
        },
        None => match k {
            ProjectKind::Kernel => Some(bare_output(a, name)),
            ProjectKind::Bootloader => Some(uefi_output(a, name)),
            _ => None,
        },
    }
}

/// The path inside the image: an explicit path wins; otherwise the kernel's
/// fixed path or the architecture's boot file.
pub open spec fn image_destination(
    k: ProjectKind,
    a: Architecture,
    explicit: Option<Seq<char>>,
) -> Option<Seq<char>> {
    match explicit {
        Some(p) => Some(p),
        None => match k {
            ProjectKind::Kernel => Some("EFI/BOOT/KERNEL.ELF"@),
            ProjectKind::Bootloader => Some(efi_boot_path(a)),
            _ => None,
        },
    }
}

fn clone_opt(o: &Option<String>) -> (r: Option<String>)
    ensures
        opt_view(r) == opt_view(*o),
{
    match o {
        Some(s) => Some(s.clone()),
        None => None,
    }
}

/// Whether `types` holds a string equal to `t`.
fn contains_str(types: &Vec<String>, t: &str) -> (r: bool)
    ensures
        r == strings_view(types@).contains(t@),
{
    let target = String::from_str(t);
    let mut i: usize = 0;
    while i < types.len()
        invariant
            i <= types.len(),
            target@ == t@,
            forall|j: int| 0 <= j < i ==> types@[j]@ != t@,
        decreases types.len() - i,
    {
        if types[i] == target {
            assert(strings_view(types@)[i as int] == t@);
            return true;
        }
        i = i + 1;
    }
    proof {
        if strings_view(types@).contains(t@) {
            let j = choose|j: int| 0 <= j < types@.len() && strings_view(types@)[j] == t@;
            assert(types@[j]@ == t@);
        }
    }
    false
}

/// The suffix of `t` after its first `-`.
fn suffix_after_dash(t: &str) -> (r: Option<String>)
    ensures
        opt_view(r) == dash_suffix(t@),
{
    let len = t.unicode_len();
    let mut i: usize = 0;
    assert(t@.subrange(0, len as int) =~= t@);
    while i < len
        invariant
            i <= len,
            len == t@.len(),
            dash_suffix(t@) == dash_suffix(t@.subrange(i as int, len as int)),
        decreases len - i,
    {
        proof {
            let rest = t@.subrange(i as int, len as int);
            assert(rest.drop_first() =~= t@.subrange(i + 1, len as int));
        }
        if t.get_char(i) == '-' {
            return Some(String::from_str(t.substring_char(i + 1, len)));
        }
        i = i + 1;
    }
    None
}

impl ProjectKind {
    /// The kind's name as shown to users.
    pub fn label(&self) -> (r: String)
        ensures
            r@ == match *self {
                ProjectKind::Kernel => "Kernel"@,
                ProjectKind::Bootloader => "Bootloader"@,
                ProjectKind::SharedLibrary => "Shared Library"@,
                ProjectKind::StaticLibrary => "Static Library"@,
                ProjectKind::Executable => "Executable"@,
            },
    {
        match self {
            ProjectKind::Kernel => String::from_str("Kernel"),
            ProjectKind::Bootloader => String::from_str("Bootloader"),
            ProjectKind::SharedLibrary => String::from_str("Shared Library"),
            ProjectKind::StaticLibrary => String::from_str("Static Library"),
            ProjectKind::Executable => String::from_str("Executable"),
        }
    }

    /// The compiler target for a project of this kind: the project's explicit
    /// target, else `<arch>-unknown-none` for a kernel and
    /// `<arch>-unknown-uefi` for a bootloader, else the host's default (`None`).
    pub fn target(&self, project: &CargoProject, architecture: Architecture) -> (r: Option<String>)
        ensures
            opt_view(r) == resolved_target(*self, architecture, opt_view(project.target)),
    {
        match &project.target {
            Some(t) => Some(t.clone()),
            None => match self {
                ProjectKind::Kernel => Some(architecture.name().concat("-unknown-none")),
                ProjectKind::Bootloader => Some(architecture.name().concat("-unknown-uefi")),
                _ => None,
            },
        }
    }

    /// Where the build leaves the artifact of project `name`, for the kinds
    /// that the image holds.
    pub fn output_file_path(&self, project: &CargoProject, architecture: Architecture, name: &str) -> (r: Option<String>)
        ensures
            opt_view(r) == output_path(*self, architecture, opt_view(project.target), name@),
    {
        let uefi = String::from_str("target/").concat(architecture.name().as_str()).concat(
            "-unknown-uefi/debug/",
        ).concat(name).concat(".efi");
        let bare = String::from_str("target/").concat(architecture.name().as_str()).concat(
            "-unknown-none/debug/",
        ).concat(name);
        match &project.target {
            Some(t) => {
                let suffix = suffix_after_dash(t.as_str());
                match suffix {
                    Some(s) => if s == String::from_str("unknown-uefi") {
                        Some(uefi)
                    } else if s == String::from_str("unknown-none") {
                        Some(bare)
                    } else {
                        None
                    },
                    None => None,
                }
            },
            None => match self {
                ProjectKind::Kernel => Some(bare),
                ProjectKind::Bootloader => Some(uefi),
                _ => None,
            },
        }
    }

    /// The path inside the image where this project's artifact goes.
    pub fn image_target_file(&self, project: &CargoProject, architecture: Architecture, _project: &str) -> (r: Option<String>)
        ensures
            opt_view(r) == image_destination(*self, architecture, opt_view(project.image_path)),
    {
        match &project.image_path {
            Some(p) => Some(p.clone()),
            None => match self {
                ProjectKind::Kernel => Some(String::from_str("EFI/BOOT/KERNEL.ELF")),
                ProjectKind::Bootloader => Some(architecture.efi_boot_file()),
                _ => None,
            },
        }
    }
}

impl CargoProject {
    /// Classifies the project at `path` from its manifest. An `osimage`
    /// block decides the kind and the overrides; without one the kind comes
    /// from the entry point and the library crate types.
    pub fn from_manifest(path: String, manifest: ManifestInfo) -> (r: Result<CargoProject, Error>)
        ensures
            match classify(manifest) {
                Some(k) => match r {
                    Ok(p) => {
                        &&& p.kind == k
                        &&& p.name == manifest.name
                        &&& p.path == path
                        &&& p.target == match manifest.osimage {
                            Some(meta) => meta.target,
                            None => None,
                        }
                        &&& p.image_path == match manifest.osimage {
                            Some(meta) => meta.image_path,
                            None => None,
                        }
                    },
                    Err(_) => false,
                },
                None => match r {
                    Err(Error::InvalidProjectKind(s)) => s@ == declared_kind_text(manifest),
                    _ => false,
                },
            },
    {
        let ghost m = manifest;
        let ManifestInfo { name, osimage, lib_crate_types, has_main_file } = manifest;
        match osimage {
            Some(meta) => {
                let OsImageMetadata { kind, target, image_path } = meta;
                match kind {
                    Some(k) => {
                        if k == String::from_str("kernel") {
                            Ok(CargoProject { name, path, kind: ProjectKind::Kernel, target, image_path })
                        } else if k == String::from_str("bootloader") {
                            Ok(CargoProject { name, path, kind: ProjectKind::Bootloader, target, image_path })
                        } else {
                            Err(Error::InvalidProjectKind(k))
                        }
                    },
                    None => Err(Error::InvalidProjectKind(String::new())),
                }
            },
            None => {
                let kind = if has_main_file {
                    ProjectKind::Executable
                } else {
                    match &lib_crate_types {
                        None => ProjectKind::StaticLibrary,
                        Some(types) => if contains_str(types, "cdylib") || contains_str(types, "dylib") {
                            ProjectKind::SharedLibrary
                        } else {
                            ProjectKind::StaticLibrary
                        },
                    }
                };
                Ok(CargoProject { name, path, kind, target: None, image_path: None })
            },
        }
    }
}

/// A manifest whose `osimage.kind` is "kernel" or "bootloader" is classified
/// by that value alone: whether the project has an entry point and which
/// library types it declares make no difference.
pub proof fn lemma_explicit_kind_ignores_heuristics(
    m: ManifestInfo,
    has_main: bool,
    lib: Option<Vec<String>>,
)
    requires
        m.osimage is Some,
        m.osimage->0.kind is Some,
        explicit_kind(declared_kind_text(m)) is Some,
    ensures
        classify(m) == explicit_kind(declared_kind_text(m)),
        classify((ManifestInfo { has_main_file: has_main, lib_crate_types: lib, ..m })) == classify(m),
{
}

/// Without metadata, a project with an entry point is an executable, never a
/// library.
pub proof fn lemma_entry_point_is_executable(m: ManifestInfo)
    requires
        m.osimage is None,
        m.has_main_file,
    ensures
        classify(m) == Some(ProjectKind::Executable),
{
}

/// Without explicit overrides, the target and the image path depend on the
/// kind and the architecture alone: any two such projects get the same ones,
/// the kind's defaults.
pub proof fn lemma_resolution_is_a_function(
    k: ProjectKind,
    a: Architecture,
    first: CargoProject,
    second: CargoProject,
)
    requires
        first.target is None && first.image_path is None,
        second.target is None && second.image_path is None,
    ensures
        resolved_target(k, a, opt_view(first.target)) == resolved_target(k, a, opt_view(second.target)),
        resolved_target(k, a, opt_view(first.target)) == default_target(k, a),
        image_destination(k, a, opt_view(first.image_path)) == image_destination(k, a, opt_view(second.image_path)),
{
}

/// An explicit target is returned as it is, whatever the kind and the
/// architecture.
pub proof fn lemma_explicit_target_wins(k: ProjectKind, a: Architecture, t: Seq<char>)
    ensures
        resolved_target(k, a, Some(t)) == Some(t),
{
}

} // verus!
