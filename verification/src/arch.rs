//! The machine half of a tuple: instruction set, baseline, byte order and data model.

use vstd::prelude::*;

verus! {

/// An instruction set family.
///
/// Deliberately not `#[non_exhaustive]`: adding a variant has to break every match that needs
/// to change, which is what makes adding a target a data change.
#[derive(Debug, Clone, Copy, PartialEq, Eq, PartialOrd, Ord, Hash, Structural)]
pub enum Arch {
    /// x86-64. The reference target.
    X86_64,
    /// 32-bit x86, from i686 upwards.
    X86,
    /// 64-bit ARM.
    Aarch64,
    /// 32-bit ARM, including Thumb.
    Arm,
    /// ARM64EC, which parses and answers questions and emits nothing.
    Arm64Ec,
    /// 64-bit RISC-V.
    Riscv64,
    /// 32-bit RISC-V.
    Riscv32,
    /// 64-bit LoongArch.
    LoongArch64,
    /// 64-bit PowerPC, ELFv2 only.
    PowerPc64,
    /// IBM z/Architecture, the big-endian row.
    S390x,
    /// WebAssembly with 32-bit addresses.
    Wasm32,
}

/// The canonical name of an architecture.
pub open spec fn arch_name(a: Arch) -> Seq<char> {
    match a {
        Arch::X86_64 => "x86_64"@,
        Arch::X86 => "i686"@,
        Arch::Aarch64 => "aarch64"@,
        Arch::Arm => "arm"@,
        Arch::Arm64Ec => "arm64ec"@,
        Arch::Riscv64 => "riscv64"@,
        Arch::Riscv32 => "riscv32"@,
        Arch::LoongArch64 => "loongarch64"@,
        Arch::PowerPc64 => "powerpc64"@,
        Arch::S390x => "s390x"@,
        Arch::Wasm32 => "wasm32"@,
    }
}

impl Arch {
    /// The width of a general purpose register, in bits.
    pub open spec fn spec_register_width(self) -> u32 {
        match self {
            Arch::X86_64 | Arch::Aarch64 | Arch::Arm64Ec | Arch::Riscv64 | Arch::LoongArch64
            | Arch::PowerPc64 | Arch::S390x => 64,
            Arch::X86 | Arch::Arm | Arch::Riscv32 | Arch::Wasm32 => 32,
        }
    }

    /// The byte order used unless the tuple says otherwise.
    pub open spec fn spec_default_endian(self) -> Endian {
        match self {
            Arch::S390x => Endian::Big,
            _ => Endian::Little,
        }
    }

    /// Whether a big-endian mode of this family is used by some target.
    pub open spec fn spec_has_both_endians(self) -> bool {
        self is Aarch64 || self is Arm || self is Riscv64 || self is Riscv32 || self is PowerPc64
    }

    /// Whether there is more than one float calling convention to choose between.
    pub open spec fn spec_selects_float_abi(self) -> bool {
        self is Arm || self is Riscv64 || self is Riscv32 || self is LoongArch64
    }

    /// The canonical name, which is the leading component of a tuple for every family whose
    /// baseline is not spelled in that component.
    pub fn as_str(self) -> (r: &'static str)
        ensures
            r@ == arch_name(self),
    {
        match self {
            Arch::X86_64 => "x86_64",
            Arch::X86 => "i686",
            Arch::Aarch64 => "aarch64",
            Arch::Arm => "arm",
            Arch::Arm64Ec => "arm64ec",
            Arch::Riscv64 => "riscv64",
            Arch::Riscv32 => "riscv32",
            Arch::LoongArch64 => "loongarch64",
            Arch::PowerPc64 => "powerpc64",
            Arch::S390x => "s390x",
            Arch::Wasm32 => "wasm32",
        }
    }

    /// The width of a general purpose register, in bits, which is not the pointer width.
    pub fn register_width(self) -> (r: u32)
        ensures
            r == self.spec_register_width(),
    {
        match self {
            Arch::X86_64 | Arch::Aarch64 | Arch::Arm64Ec | Arch::Riscv64 | Arch::LoongArch64
            | Arch::PowerPc64 | Arch::S390x => 64,
            Arch::X86 | Arch::Arm | Arch::Riscv32 | Arch::Wasm32 => 32,
        }
    }

    /// The byte order this architecture uses unless the tuple says otherwise: big on s390x,
    /// little everywhere else. PowerPC's big-endian mode is one a spelling names.
    pub fn default_endian(self) -> (r: Endian)
        ensures
            r == self.spec_default_endian(),
    {
        match self {
            Arch::S390x => Endian::Big,
            _ => Endian::Little,
        }
    }

    /// Whether this architecture has a big-endian mode any target in the table uses.
    pub fn has_both_endians(self) -> (r: bool)
        ensures
            r == self.spec_has_both_endians(),
    {
        matches!(self, Arch::Aarch64 | Arch::Arm | Arch::Riscv64 | Arch::Riscv32 | Arch::PowerPc64)
    }

    /// Whether a sub-architecture may be spelled for this family, which is ARM only.
    pub fn takes_subarch(self) -> (r: bool)
        ensures
            r == (self is Arm),
    {
        matches!(self, Arch::Arm)
    }

    /// Whether this family has more than one float calling convention to choose between: ARM,
    /// RISC-V and LoongArch.
    pub fn selects_float_abi(self) -> (r: bool)
        ensures
            r == self.spec_selects_float_abi(),
    {
        matches!(self, Arch::Arm | Arch::Riscv64 | Arch::Riscv32 | Arch::LoongArch64)
    }
}

/// A baseline within an architecture family. Only the ARM baselines are spelled in a tuple.
#[derive(Debug, Clone, Copy, PartialEq, Eq, PartialOrd, Ord, Hash, Structural)]
pub enum SubArch {
    /// The family's own baseline, and the only legal value for every family except ARM.
    Base,
    /// ARMv5TE.
    ArmV5Te,
    /// ARMv6.
    ArmV6,
    /// ARMv6-M. Thumb only.
    ArmV6M,
    /// ARMv7-A.
    ArmV7A,
    /// ARMv7-R.
    ArmV7R,
    /// ARMv7-M. Thumb only.
    ArmV7M,
    /// ARMv7E-M. Thumb only.
    ArmV7Em,
    /// ARMv8-A in its 32-bit form.
    ArmV8A,
    /// ARMv8-M baseline and mainline. Thumb only.
    ArmV8M,
}

/// The text a baseline contributes to the leading component.
pub open spec fn sub_arch_name(s: SubArch) -> Seq<char> {
    match s {
        SubArch::Base => ""@,
        SubArch::ArmV5Te => "v5te"@,
        SubArch::ArmV6 => "v6"@,
        SubArch::ArmV6M => "v6m"@,
        SubArch::ArmV7A => "v7"@,
        SubArch::ArmV7R => "v7r"@,
        SubArch::ArmV7M => "v7m"@,
        SubArch::ArmV7Em => "v7em"@,
        SubArch::ArmV8A => "v8"@,
        SubArch::ArmV8M => "v8m"@,
    }
}

impl Default for SubArch {
    fn default() -> (r: SubArch)
        ensures
            r == SubArch::Base,
    {
        SubArch::Base
    }
}

impl SubArch {
    /// Whether this baseline belongs to the given family.
    pub open spec fn spec_belongs_to(self, arch: Arch) -> bool {
        self is Base || arch is Arm
    }

    /// Whether the baseline executes Thumb instructions only.
    pub open spec fn spec_is_thumb_only(self) -> bool {
        self is ArmV6M || self is ArmV7M || self is ArmV7Em || self is ArmV8M
    }

    /// The text this baseline contributes to the leading component, or the empty string.
    pub fn as_str(self) -> (r: &'static str)
        ensures
            r@ == sub_arch_name(self),
    {
        match self {
            SubArch::Base => "",
            SubArch::ArmV5Te => "v5te",
            SubArch::ArmV6 => "v6",
            SubArch::ArmV6M => "v6m",
            SubArch::ArmV7A => "v7",
            SubArch::ArmV7R => "v7r",
            SubArch::ArmV7M => "v7m",
            SubArch::ArmV7Em => "v7em",
            SubArch::ArmV8A => "v8",
            SubArch::ArmV8M => "v8m",
        }
    }

    /// Whether this baseline belongs to the given family: the family's own baseline belongs to
    /// every family, and the ARM baselines belong to ARM.
    pub fn belongs_to(self, arch: Arch) -> (r: bool)
        ensures
            r == self.spec_belongs_to(arch),
    {
        match self {
            SubArch::Base => true,
            _ => matches!(arch, Arch::Arm),
        }
    }

    /// Whether the baseline executes Thumb instructions only.
    pub fn is_thumb_only(self) -> (r: bool)
        ensures
            r == self.spec_is_thumb_only(),
    {
        matches!(self, SubArch::ArmV6M | SubArch::ArmV7M | SubArch::ArmV7Em | SubArch::ArmV8M)
    }
}

/// Byte order.
#[derive(Debug, Clone, Copy, PartialEq, Eq, PartialOrd, Ord, Hash, Structural)]
pub enum Endian {
    /// Least significant byte first.
    Little,
    /// Most significant byte first.
    Big,
}

/// The name of a byte order.
pub open spec fn endian_name(e: Endian) -> Seq<char> {
    match e {
        Endian::Little => "little"@,
        Endian::Big => "big"@,
    }
}

impl Endian {
    /// The name used in diagnostics and in the print queries.
    pub fn as_str(self) -> (r: &'static str)
        ensures
            r@ == endian_name(self),
    {
        match self {
            Endian::Little => "little",
            Endian::Big => "big",
        }
    }
}

/// The widths of `int`, `long` and a pointer, as one choice rather than three.
#[derive(Debug, Clone, Copy, PartialEq, Eq, PartialOrd, Ord, Hash, Structural)]
pub enum DataModel {
    /// 32-bit `int`, `long` and pointer on a 32-bit machine.
    Ilp32,
    /// 32-bit `int`, 64-bit `long` and pointer.
    Lp64,
    /// 32-bit `int` and `long`, 64-bit pointer. Windows.
    Llp64,
    /// 32-bit `int`, `long` and pointer on a machine with 64-bit registers.
    Ilp32On64,
}

/// The name of a data model.
pub open spec fn data_model_name(m: DataModel) -> Seq<char> {
    match m {
        DataModel::Ilp32 => "ilp32"@,
        DataModel::Lp64 => "lp64"@,
        DataModel::Llp64 => "llp64"@,
        DataModel::Ilp32On64 => "ilp32-on-64"@,
    }
}

impl DataModel {
    /// The width of `long` in bits.
    pub open spec fn spec_long_width(self) -> u32 {
        match self {
            DataModel::Lp64 => 64,
            _ => 32,
        }
    }

    /// The width of a pointer in bits.
    pub open spec fn spec_pointer_width(self) -> u32 {
        match self {
            DataModel::Lp64 | DataModel::Llp64 => 64,
            _ => 32,
        }
    }

    /// The name used in diagnostics and in the print queries.
    pub fn as_str(self) -> (r: &'static str)
        ensures
            r@ == data_model_name(self),
    {
        match self {
            DataModel::Ilp32 => "ilp32",
            DataModel::Lp64 => "lp64",
            DataModel::Llp64 => "llp64",
            DataModel::Ilp32On64 => "ilp32-on-64",
        }
    }

    /// The width of `int` in bits, which is 32 on every target in the table.
    pub fn int_width(self) -> (r: u32)
        ensures
            r == 32,
    {
        32
    }

    /// The width of `long` in bits: 64 on LP64 and 32 everywhere else.
    pub fn long_width(self) -> (r: u32)
        ensures
            r == self.spec_long_width(),
    {
        match self {
            DataModel::Lp64 => 64,
            DataModel::Ilp32 | DataModel::Llp64 | DataModel::Ilp32On64 => 32,
        }
    }

    /// The width of `long long` in bits, which is 64 everywhere.
    pub fn long_long_width(self) -> (r: u32)
        ensures
            r == 64,
    {
        64
    }

    /// The width of a pointer in bits: 64 on LP64 and LLP64, 32 on the two ILP32 models.
    pub fn pointer_width(self) -> (r: u32)
        ensures
            r == self.spec_pointer_width(),
    {
        match self {
            DataModel::Lp64 | DataModel::Llp64 => 64,
            DataModel::Ilp32 | DataModel::Ilp32On64 => 32,
        }
    }

    /// The number of bits of a pointer that are an address, which equals the pointer width on
    /// every target here.
    pub fn address_width(self) -> (r: u32)
        ensures
            r == self.spec_pointer_width(),
    {
        self.pointer_width()
    }
}

/// A `long` is 64 bits under LP64 and 32 bits under every other data model.
pub proof fn long_is_wide_only_under_lp64(m: DataModel)
    ensures
        (m.spec_long_width() == 64) == (m is Lp64),
        m.spec_long_width() == 32 || m.spec_long_width() == 64,
{
}

} // verus!
