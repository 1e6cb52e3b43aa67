use os_image::arch::Architecture;
use os_image::error::Error;
use os_image::project::{CargoProject, ManifestInfo, OsImageMetadata, ProjectKind};

fn meta(kind: Option<&str>, target: Option<&str>, image_path: Option<&str>) -> Option<OsImageMetadata> {
    Some(OsImageMetadata {
        kind: kind.map(String::from),
        target: target.map(String::from),
        image_path: image_path.map(String::from),
    })
}

fn manifest(osimage: Option<OsImageMetadata>, lib: Option<Vec<&str>>, has_main: bool) -> ManifestInfo {
    ManifestInfo {
        name: String::from("demo"),
        osimage,
        lib_crate_types: lib.map(|v| v.into_iter().map(String::from).collect()),
        has_main_file: has_main,
    }
}

fn classify(m: ManifestInfo) -> CargoProject {
    CargoProject::from_manifest(String::from("projects/demo"), m).unwrap()
}

fn project(kind: ProjectKind, target: Option<&str>, image_path: Option<&str>) -> CargoProject {
    CargoProject {
        name: String::from("demo"),
        path: String::from("."),
        kind,
        target: target.map(String::from),
        image_path: image_path.map(String::from),
    }
}

#[test]
fn explicit_kernel_ignores_heuristics() {
    let a = classify(manifest(meta(Some("kernel"), None, None), None, true));
    let b = classify(manifest(meta(Some("kernel"), None, None), Some(vec!["cdylib"]), false));
    assert_eq!(a.kind, ProjectKind::Kernel);
    assert_eq!(b.kind, ProjectKind::Kernel);
    assert_eq!(a.name, "demo");
    assert_eq!(a.path, "projects/demo");
}

#[test]
fn explicit_bootloader_keeps_overrides() {
    let p = classify(manifest(
        meta(Some("bootloader"), Some("x86_64-unknown-uefi"), Some("EFI/BOOT/LOADER.EFI")),
        None,
        true,
    ));
    assert_eq!(p.kind, ProjectKind::Bootloader);
    assert_eq!(p.target.as_deref(), Some("x86_64-unknown-uefi"));
    assert_eq!(p.image_path.as_deref(), Some("EFI/BOOT/LOADER.EFI"));
}

#[test]
fn unknown_explicit_kind_is_an_error() {
    let r = CargoProject::from_manifest(String::from("."), manifest(meta(Some("driver"), None, None), None, false));
    match r {
        Err(Error::InvalidProjectKind(k)) => assert_eq!(k, "driver"),
        other => panic!("{:?}", other),
    }
    let r = CargoProject::from_manifest(String::from("."), manifest(meta(None, None, None), None, true));
    assert!(matches!(r, Err(Error::InvalidProjectKind(_))));
}

#[test]
fn entry_point_makes_an_executable() {
    assert_eq!(classify(manifest(None, None, true)).kind, ProjectKind::Executable);
    assert_eq!(classify(manifest(None, Some(vec!["cdylib"]), true)).kind, ProjectKind::Executable);
}

#[test]
fn library_kinds_from_crate_types() {
    assert_eq!(classify(manifest(None, Some(vec!["rlib", "cdylib"]), false)).kind, ProjectKind::SharedLibrary);
    assert_eq!(classify(manifest(None, Some(vec!["dylib"]), false)).kind, ProjectKind::SharedLibrary);
    assert_eq!(classify(manifest(None, Some(vec!["staticlib"]), false)).kind, ProjectKind::StaticLibrary);
    assert_eq!(classify(manifest(None, Some(vec![]), false)).kind, ProjectKind::StaticLibrary);
    assert_eq!(classify(manifest(None, None, false)).kind, ProjectKind::StaticLibrary);
}

#[test]
fn no_overrides_without_metadata() {
    let p = classify(manifest(None, None, true));
    assert!(p.target.is_none());
    assert!(p.image_path.is_none());
}

#[test]
fn kind_labels() {
    assert_eq!(ProjectKind::Kernel.label(), "Kernel");
    assert_eq!(ProjectKind::SharedLibrary.label(), "Shared Library");
    assert_eq!(ProjectKind::StaticLibrary.label(), "Static Library");
}

#[test]
fn default_targets() {
    let k = project(ProjectKind::Kernel, None, None);
    let b = project(ProjectKind::Bootloader, None, None);
    assert_eq!(ProjectKind::Kernel.target(&k, Architecture::X86_64).as_deref(), Some("x86_64-unknown-none"));
    assert_eq!(ProjectKind::Bootloader.target(&b, Architecture::ARM64).as_deref(), Some("aarch64-unknown-uefi"));
    for kind in [ProjectKind::SharedLibrary, ProjectKind::StaticLibrary, ProjectKind::Executable] {
        assert_eq!(kind.target(&project(kind, None, None), Architecture::X86_64), None);
    }
}

#[test]
fn resolution_is_repeatable() {
    for kind in [ProjectKind::Kernel, ProjectKind::Bootloader, ProjectKind::Executable] {
        let p = project(kind, None, None);
        let q = CargoProject { name: String::from("other"), path: String::from("elsewhere"), ..p.clone() };
        assert_eq!(kind.target(&p, Architecture::RISCV64), kind.target(&q, Architecture::RISCV64));
        assert_eq!(
            kind.image_target_file(&p, Architecture::RISCV64, "demo"),
            kind.image_target_file(&q, Architecture::RISCV64, "other")
        );
    }
}

#[test]
fn explicit_target_wins() {
    for kind in [ProjectKind::Kernel, ProjectKind::Bootloader, ProjectKind::Executable] {
        let p = project(kind, Some("custom-target.json"), None);
        for arch in [Architecture::X86, Architecture::RISCV32] {
            assert_eq!(kind.target(&p, arch).as_deref(), Some("custom-target.json"));
        }
    }
}

#[test]
fn output_paths_by_kind() {
    let k = project(ProjectKind::Kernel, None, None);
    let b = project(ProjectKind::Bootloader, None, None);
    assert_eq!(
        ProjectKind::Kernel.output_file_path(&k, Architecture::X86_64, "kernel").as_deref(),
        Some("target/x86_64-unknown-none/debug/kernel")
    );
    assert_eq!(
        ProjectKind::Bootloader.output_file_path(&b, Architecture::X86_64, "loader").as_deref(),
        Some("target/x86_64-unknown-uefi/debug/loader.efi")
    );
    let e = project(ProjectKind::Executable, None, None);
    assert_eq!(ProjectKind::Executable.output_file_path(&e, Architecture::X86_64, "tool"), None);
}

#[test]
fn output_paths_follow_explicit_target_suffix() {
    let uefi = project(ProjectKind::Kernel, Some("aarch64-unknown-uefi"), None);
    assert_eq!(
        ProjectKind::Kernel.output_file_path(&uefi, Architecture::ARM64, "k").as_deref(),
        Some("target/aarch64-unknown-uefi/debug/k.efi")
    );
    let none = project(ProjectKind::Bootloader, Some("x86_64-unknown-none"), None);
    assert_eq!(
        ProjectKind::Bootloader.output_file_path(&none, Architecture::X86_64, "b").as_deref(),
        Some("target/x86_64-unknown-none/debug/b")
    );
    let other = project(ProjectKind::Kernel, Some("x86_64-unknown-linux-gnu"), None);
    assert_eq!(ProjectKind::Kernel.output_file_path(&other, Architecture::X86_64, "k"), None);
    let no_dash = project(ProjectKind::Kernel, Some("custom"), None);
    assert_eq!(ProjectKind::Kernel.output_file_path(&no_dash, Architecture::X86_64, "k"), None);
}

#[test]
fn image_destinations() {
    let k = project(ProjectKind::Kernel, None, None);
    let b = project(ProjectKind::Bootloader, None, None);
    assert_eq!(ProjectKind::Kernel.image_target_file(&k, Architecture::X86_64, "k").as_deref(), Some("EFI/BOOT/KERNEL.ELF"));
    assert_eq!(ProjectKind::Bootloader.image_target_file(&b, Architecture::X86, "b").as_deref(), Some("EFI/BOOT/BOOTIA32.EFI"));
    let s = project(ProjectKind::StaticLibrary, None, None);
    assert_eq!(ProjectKind::StaticLibrary.image_target_file(&s, Architecture::X86, "s"), None);
    let o = project(ProjectKind::Kernel, None, Some("boot/kernel.bin"));
    assert_eq!(ProjectKind::Kernel.image_target_file(&o, Architecture::X86, "k").as_deref(), Some("boot/kernel.bin"));
}
