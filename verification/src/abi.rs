//! The calling convention variant and the object format.

use vstd::prelude::*;

use crate::arch::{Arch, DataModel, SubArch};
use crate::os::{Env, Os};
use crate::text::{push_str, string_of};

verus! {

/// The variant of the platform ABI that decides where floating point arguments go.
#[derive(Debug, Clone, Copy, PartialEq, Eq, PartialOrd, Ord, Hash, Structural)]
pub enum Abi {
    /// The psABI default for this target, resolved by [`Abi::resolve`].
    Default,
    /// Floating point arguments in integer registers, and no FPU assumed.
    SoftFloat,
    /// Floating point arguments in integer registers, FPU instructions for arithmetic.
    SoftFp,
    /// Single precision floating point arguments in float registers. RISC-V only.
    SingleFloat,
    /// Double precision floating point arguments in float registers.
    DoubleFloat,
}

/// The name of an ABI in diagnostics and in `-mabi=` reconstruction.
pub open spec fn abi_name(a: Abi) -> Seq<char> {
    match a {
        Abi::Default => "default"@,
        Abi::SoftFloat => "soft"@,
        Abi::SoftFp => "softfp"@,
        Abi::SingleFloat => "single"@,
        Abi::DoubleFloat => "hard"@,
    }
}

/// The concrete ABI for a target: an explicit choice stands, and the default is soft float on
/// Thumb-only or bare metal ARM, hard float on ARM with a Linux libc, soft float on other ARM,
/// soft float on bare metal RISC-V and LoongArch, and hard float everywhere else.
pub open spec fn resolve_abi(abi: Abi, arch: Arch, sub_arch: SubArch, os: Os, env: Env) -> Abi {
    if !(abi is Default) {
        abi
    } else {
        match arch {
            Arch::Arm => {
                if sub_arch.spec_is_thumb_only() || os is Freestanding {
                    Abi::SoftFloat
                } else if env is Gnu || env is Musl || env is Android {
                    Abi::DoubleFloat
                } else {
                    Abi::SoftFloat
                }
            },
            Arch::Riscv64 | Arch::Riscv32 | Arch::LoongArch64 => {
                if os is Freestanding {
                    Abi::SoftFloat
                } else {
                    Abi::DoubleFloat
                }
            },
            _ => Abi::DoubleFloat,
        }
    }
}

/// Whether an ABI may be named for an architecture.
pub open spec fn abi_valid_for(abi: Abi, arch: Arch) -> bool {
    match abi {
        Abi::Default => true,
        Abi::SoftFp => arch is Arm,
        Abi::SingleFloat => arch is Riscv64 || arch is Riscv32,
        Abi::SoftFloat | Abi::DoubleFloat => arch.spec_selects_float_abi(),
    }
}

/// The `-mabi=` value GCC takes for this ABI and data model on RISC-V and LoongArch.
pub open spec fn mabi_text(abi: Abi, arch: Arch, model: DataModel) -> Option<Seq<char>> {
    if arch is Riscv64 || arch is Riscv32 || arch is LoongArch64 {
        let base = match model {
            DataModel::Lp64 => Some("lp64"@),
            DataModel::Ilp32 | DataModel::Ilp32On64 => Some("ilp32"@),
            DataModel::Llp64 => None,
        };
        let suffix = match abi {
            Abi::SoftFloat => Some(""@),
            Abi::SingleFloat => Some("f"@),
            Abi::DoubleFloat => Some("d"@),
            _ => None,
        };
        match (base, suffix) {
            (Some(b), Some(s)) => Some(b + s),
            _ => None,
        }
    } else {
        None
    }
}

impl Default for Abi {
    fn default() -> (r: Abi)
        ensures
            r == Abi::Default,
    {
        Abi::Default
    }
}

impl Abi {
    /// The name used in diagnostics, in `--print-config` and in `-mabi=` reconstruction.
    pub fn as_str(self) -> (r: &'static str)
        ensures
            r@ == abi_name(self),
    {
        match self {
            Abi::Default => "default",
            Abi::SoftFloat => "soft",
            Abi::SoftFp => "softfp",
            Abi::SingleFloat => "single",
            Abi::DoubleFloat => "hard",
        }
    }

    /// The concrete ABI for a target that did not name one.
    pub fn resolve(self, arch: Arch, sub_arch: SubArch, os: Os, env: Env) -> (r: Abi)
        ensures
            r == resolve_abi(self, arch, sub_arch, os, env),
            !(r is Default),
            !(self is Default) ==> r == self,
    {
        if !matches!(self, Abi::Default) {
            return self;
        }
        match arch {
            Arch::Arm => {
                if sub_arch.is_thumb_only() || matches!(os, Os::Freestanding) {
                    Abi::SoftFloat
                } else if matches!(env, Env::Gnu | Env::Musl | Env::Android) {
                    Abi::DoubleFloat
                } else {
                    Abi::SoftFloat
                }
            },
            Arch::Riscv64 | Arch::Riscv32 | Arch::LoongArch64 => match os {
                Os::Freestanding => Abi::SoftFloat,
                _ => Abi::DoubleFloat,
            },
            _ => Abi::DoubleFloat,
        }
    }

    /// Whether this ABI may be named for this architecture: the default always, `softfp` on
    /// ARM, single float on RISC-V, and soft or hard float where there is a choice at all.
    pub fn is_valid_for(self, arch: Arch) -> (r: bool)
        ensures
            r == abi_valid_for(self, arch),
    {
        match self {
            Abi::Default => true,
            Abi::SoftFp => matches!(arch, Arch::Arm),
            Abi::SingleFloat => matches!(arch, Arch::Riscv64 | Arch::Riscv32),
            Abi::SoftFloat | Abi::DoubleFloat => arch.selects_float_abi(),
        }
    }

    /// The `-mabi=` value GCC would take for this ABI on this architecture: the data model
    /// prefix and a float suffix on RISC-V and LoongArch, and nothing elsewhere.
    pub fn to_mabi(self, arch: Arch, model: DataModel) -> (r: Option<String>)
        ensures
            r is Some == mabi_text(self, arch, model) is Some,
            r is Some ==> r->0@ == mabi_text(self, arch, model)->0,
    {
        let resolved = self;
        match arch {
            Arch::Riscv64 | Arch::Riscv32 | Arch::LoongArch64 => {
                let base = match model {
                    DataModel::Lp64 => "lp64",
                    DataModel::Ilp32 | DataModel::Ilp32On64 => "ilp32",
                    DataModel::Llp64 => return None,
                };
                let suffix = match resolved {
                    Abi::SoftFloat => "",
                    Abi::SingleFloat => "f",
                    Abi::DoubleFloat => "d",
                    Abi::Default | Abi::SoftFp => return None,
                };
                let mut v: Vec<char> = Vec::new();
                push_str(&mut v, base);
                push_str(&mut v, suffix);
                Some(string_of(&v))
            },
            _ => None,
        }
    }
}

/// The container the compiler writes.
#[derive(Debug, Clone, Copy, PartialEq, Eq, PartialOrd, Ord, Hash, Structural)]
pub enum ObjectFormat {
    /// ELF.
    Elf,
    /// Mach-O.
    MachO,
    /// COFF, in its PE flavour.
    Coff,
    /// The WebAssembly object format.
    Wasm,
}

/// The name of an object format.
pub open spec fn object_format_name(f: ObjectFormat) -> Seq<char> {
    match f {
        ObjectFormat::Elf => "elf"@,
        ObjectFormat::MachO => "macho"@,
        ObjectFormat::Coff => "coff"@,
        ObjectFormat::Wasm => "wasm"@,
    }
}

impl ObjectFormat {
    /// Whether symbols are prefixed with an underscore: on Mach-O, and on 32-bit COFF.
    pub open spec fn spec_leading_underscore(self, data_model: DataModel) -> bool {
        self is MachO || (self is Coff && data_model is Ilp32)
    }

    /// The name used in diagnostics and in `--print-config`.
    pub fn as_str(self) -> (r: &'static str)
        ensures
            r@ == object_format_name(self),
    {
        match self {
            ObjectFormat::Elf => "elf",
            ObjectFormat::MachO => "macho",
            ObjectFormat::Coff => "coff",
            ObjectFormat::Wasm => "wasm",
        }
    }

    /// The suffix an object file gets: `obj` on COFF and `o` everywhere else.
    pub fn object_extension(self) -> (r: &'static str)
        ensures
            r@ == (if self is Coff {
                "obj"@
            } else {
                "o"@
            }),
    {
        match self {
            ObjectFormat::Coff => "obj",
            _ => "o",
        }
    }

    /// The suffix a static archive gets: `lib` on COFF and `a` everywhere else.
    pub fn archive_extension(self) -> (r: &'static str)
        ensures
            r@ == (if self is Coff {
                "lib"@
            } else {
                "a"@
            }),
    {
        match self {
            ObjectFormat::Coff => "lib",
            _ => "a",
        }
    }

    /// Whether symbols are prefixed with an underscore.
    pub fn leading_underscore(self, data_model: DataModel) -> (r: bool)
        ensures
            r == self.spec_leading_underscore(data_model),
    {
        match self {
            ObjectFormat::MachO => true,
            ObjectFormat::Coff => matches!(data_model, DataModel::Ilp32),
            ObjectFormat::Elf | ObjectFormat::Wasm => false,
        }
    }
}

/// Resolving always names a float ABI, and an ABI the tuple named is kept as it is.
pub proof fn resolving_names_a_float_abi(abi: Abi, arch: Arch, sub_arch: SubArch, os: Os, env: Env)
    ensures
        !(resolve_abi(abi, arch, sub_arch, os, env) is Default),
        !(abi is Default) ==> resolve_abi(abi, arch, sub_arch, os, env) == abi,
{
}

} // verus!
