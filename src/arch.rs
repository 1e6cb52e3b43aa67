use vstd::prelude::*;
use crate::error::Error;

verus! {

/// The CPU architectures an image can be built for.
#[derive(Clone, Copy, Debug, PartialEq, Eq, Structural, PartialOrd, Ord, Hash)]
pub enum Architecture {
    X86_64,
    X86,
    ARM,
    ARM64,
    RISCV32,
    RISCV64,
}

/// The canonical name of an architecture, as used in target triples.
pub open spec fn arch_name(a: Architecture) -> Seq<char> {
    match a {
        Architecture::X86_64 => "x86_64"@,
        Architecture::X86 => "x86"@,
        Architecture::ARM => "arm"@,
        Architecture::ARM64 => "aarch64"@,
        Architecture::RISCV32 => "riscv32"@,
        Architecture::RISCV64 => "riscv64"@,
    }
}

/// The canonical name with underscores shown as hyphens.
pub open spec fn arch_display_name(a: Architecture) -> Seq<char> {
    match a {
        Architecture::X86_64 => "x86-64"@,
        Architecture::X86 => "x86"@,
        Architecture::ARM => "arm"@,
        Architecture::ARM64 => "aarch64"@,
        Architecture::RISCV32 => "riscv32"@,
        Architecture::RISCV64 => "riscv64"@,
    }
}

/// The architecture whose canonical name is `s`, if any.
pub open spec fn arch_of_name(s: Seq<char>) -> Option<Architecture> {
    if s == "x86"@ {
        Some(Architecture::X86)
    } else if s == "x86_64"@ {
        Some(Architecture::X86_64)
    } else if s == "arm"@ {
        Some(Architecture::ARM)
    } else if s == "aarch64"@ {
        Some(Architecture::ARM64)
    } else if s == "riscv32"@ {
        Some(Architecture::RISCV32)
    } else if s == "riscv64"@ {
        Some(Architecture::RISCV64)
    } else {
        None
    }
}

pub open spec fn is_64bit(a: Architecture) -> bool {
    a == Architecture::X86_64 || a == Architecture::ARM64 || a == Architecture::RISCV64
}

/// The file that UEFI firmware boots from removable media on this architecture.
pub open spec fn efi_boot_path(a: Architecture) -> Seq<char> {
    "EFI/BOOT/"@ + match a {
        Architecture::X86_64 => "BOOTX64.EFI"@,
        Architecture::X86 => "BOOTIA32.EFI"@,
        Architecture::ARM => "BOOTARM.EFI"@,
        Architecture::ARM64 => "BOOTAA64.EFI"@,
        Architecture::RISCV32 => "BOOTRISCV32.EFI"@,
        Architecture::RISCV64 => "BOOTRISCV64.EFI"@,
    }
}

impl Architecture {
    /// The canonical name, such as `x86_64` or `aarch64`.
    pub fn name(&self) -> (r: String)
        ensures
            r@ == arch_name(*self),
    {
        match self {
            Architecture::X86_64 => String::from_str("x86_64"),
            Architecture::X86 => String::from_str("x86"),
            Architecture::ARM => String::from_str("arm"),
            Architecture::ARM64 => String::from_str("aarch64"),
            Architecture::RISCV32 => String::from_str("riscv32"),
            Architecture::RISCV64 => String::from_str("riscv64"),
        }
    }

    /// The name as shown to users, with hyphens for underscores.
    pub fn display_name(&self) -> (r: String)
        ensures
            r@ == arch_display_name(*self),
    {
        match self {
            Architecture::X86_64 => String::from_str("x86-64"),
            Architecture::X86 => String::from_str("x86"),
            Architecture::ARM => String::from_str("arm"),
            Architecture::ARM64 => String::from_str("aarch64"),
            Architecture::RISCV32 => String::from_str("riscv32"),
            Architecture::RISCV64 => String::from_str("riscv64"),
        }
    }

    /// The architecture with the given canonical name; any other name is
    /// reported as unsupported.
    pub fn from_name(name: &str) -> (r: Result<Architecture, Error>)
        ensures
            match arch_of_name(name@) {
                Some(a) => r == Ok::<Architecture, Error>(a),
                None => match r {
                    Err(Error::UnsupportedArchitecture(s)) => s@ == name@,
                    _ => false,
                },
            },
    {
        let n = String::from_str(name);
        if n == String::from_str("x86") {
            Ok(Architecture::X86)
        } else if n == String::from_str("x86_64") {
            Ok(Architecture::X86_64)
        } else if n == String::from_str("arm") {
            Ok(Architecture::ARM)
        } else if n == String::from_str("aarch64") {
            Ok(Architecture::ARM64)
        } else if n == String::from_str("riscv32") {
            Ok(Architecture::RISCV32)
        } else if n == String::from_str("riscv64") {
            Ok(Architecture::RISCV64)
        } else {
            Err(Error::UnsupportedArchitecture(n))
        }
    }

    pub fn is64bit(&self) -> (r: bool)
        ensures
            r == is_64bit(*self),
    {
        match self {
            Architecture::X86_64 | Architecture::ARM64 | Architecture::RISCV64 => true,
            Architecture::X86 | Architecture::ARM | Architecture::RISCV32 => false,
        }
    }

    /// The path of the UEFI boot executable, `EFI/BOOT/BOOT<ARCH>.EFI`.
    pub fn efi_boot_file(&self) -> (r: String)
        ensures
            r@ == efi_boot_path(*self),
    {
        let file = match self {
            Architecture::X86_64 => "BOOTX64.EFI",
            Architecture::X86 => "BOOTIA32.EFI",
            Architecture::ARM => "BOOTARM.EFI",
            Architecture::ARM64 => "BOOTAA64.EFI",
            Architecture::RISCV32 => "BOOTRISCV32.EFI",
            Architecture::RISCV64 => "BOOTRISCV64.EFI",
        };
        String::from_str("EFI/BOOT/").concat(file)
    }
}

/// Every architecture's canonical name reads back as that architecture.
pub proof fn lemma_name_round_trip(a: Architecture)
    ensures
        arch_of_name(arch_name(a)) == Some(a),
{
    reveal_strlit("x86");
    reveal_strlit("x86_64");
    reveal_strlit("arm");
    reveal_strlit("aarch64");
    reveal_strlit("riscv32");
    reveal_strlit("riscv64");
    let names = seq!["x86"@, "x86_64"@, "arm"@, "aarch64"@, "riscv32"@, "riscv64"@];
    assert(names[0].len() == 3 && names[1].len() == 6 && names[2].len() == 3);
    assert(names[3].len() == 7 && names[4].len() == 7 && names[5].len() == 7);
    assert(names[2][0] != names[0][0]);
    assert(names[4][0] != names[3][0]);
    assert(names[5][0] != names[3][0]);
    assert(names[5][5] != names[4][5]);
    assert(names[1] != names[0]);
    assert(names[2] != names[0] && names[2] != names[1]);
    assert(names[3] != names[0] && names[3] != names[1] && names[3] != names[2]);
    assert(names[4] != names[0] && names[4] != names[1] && names[4] != names[2] && names[4] != names[3]);
    assert(names[5] != names[0] && names[5] != names[1] && names[5] != names[2] && names[5] != names[3]
        && names[5] != names[4]);
}

} // verus!
