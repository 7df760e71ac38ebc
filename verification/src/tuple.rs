//! The tuple itself: ten fields, one canonical spelling, and a builder that refuses
//! combinations that do not describe a machine.

use vstd::prelude::*;

use crate::abi::{abi_valid_for, resolve_abi, Abi, ObjectFormat};
use crate::arch::{arch_name, sub_arch_name, Arch, DataModel, Endian, SubArch};
use crate::error::{Error, ErrorView};
use crate::os::{
    env_name, os_name, version_llvm_text, version_text, Env, Os, Version, VersionView,
};
use crate::text::{dec, push_chars, push_dec, push_str, string_of};

verus! {

/// Everything about a target that changes the bytes the compiler emits.
///
/// The fields are private because six of the ten are derived from the other four, and a struct
/// literal would let a caller build a combination that does not exist.
#[derive(Debug, Clone, Copy, PartialEq, Eq, Hash)]
pub struct TargetTuple {
    arch: Arch,
    sub_arch: SubArch,
    endian: Endian,
    data_model: DataModel,
    os: Os,
    os_version: Option<Version>,
    env: Env,
    env_version: Option<Version>,
    abi: Abi,
    object_format: ObjectFormat,
}

/// The ten fields of a [`TargetTuple`], with versions as their parts.
pub ghost struct TupleView {
    pub arch: Arch,
    pub sub_arch: SubArch,
    pub endian: Endian,
    pub data_model: DataModel,
    pub os: Os,
    pub os_version: Option<VersionView>,
    pub env: Env,
    pub env_version: Option<VersionView>,
    pub abi: Abi,
    pub object_format: ObjectFormat,
}

/// An optional version, as its parts.
pub open spec fn opt_version(v: Option<Version>) -> Option<VersionView> {
    match v {
        Some(x) => Some(x@),
        None => None,
    }
}

impl View for TargetTuple {
    type V = TupleView;

    closed spec fn view(&self) -> TupleView {
        TupleView {
            arch: self.arch,
            sub_arch: self.sub_arch,
            endian: self.endian,
            data_model: self.data_model,
            os: self.os,
            os_version: opt_version(self.os_version),
            env: self.env,
            env_version: opt_version(self.env_version),
            abi: self.abi,
            object_format: self.object_format,
        }
    }
}

/// The parts a caller supplies, with the rest derived by [`TupleBuilder::build`].
#[derive(Debug, Clone, Copy, PartialEq, Eq)]
pub struct TupleBuilder {
    arch: Arch,
    sub_arch: SubArch,
    endian: Option<Endian>,
    data_model: Option<DataModel>,
    os: Os,
    os_version: Option<Version>,
    env: Option<Env>,
    env_version: Option<Version>,
    abi: Abi,
}

/// The fields of a [`TupleBuilder`], with versions as their parts.
pub ghost struct BuilderView {
    pub arch: Arch,
    pub sub_arch: SubArch,
    pub endian: Option<Endian>,
    pub data_model: Option<DataModel>,
    pub os: Os,
    pub os_version: Option<VersionView>,
    pub env: Option<Env>,
    pub env_version: Option<VersionView>,
    pub abi: Abi,
}

impl View for TupleBuilder {
    type V = BuilderView;

    closed spec fn view(&self) -> BuilderView {
        BuilderView {
            arch: self.arch,
            sub_arch: self.sub_arch,
            endian: self.endian,
            data_model: self.data_model,
            os: self.os,
            os_version: opt_version(self.os_version),
            env: self.env,
            env_version: opt_version(self.env_version),
            abi: self.abi,
        }
    }
}

/// Whether an OS and an environment go together: a libc is selectable on Linux, `gnu` also on
/// Windows, `msvc` only on Windows, and the Darwin ABI variants only on Darwin.
pub open spec fn env_valid_for(os: Os, env: Env) -> bool {
    match env {
        Env::Absent => true,
        Env::Gnu => os is Linux || os is Windows,
        Env::Musl => os is Linux,
        Env::Android => os is Linux,
        Env::Msvc => os is Windows,
        Env::Simulator | Env::MacAbi => os.spec_is_darwin(),
    }
}

/// The data model of a target that did not name one: ILP32 on the 32-bit families, LLP64 on
/// 64-bit Windows, and LP64 everywhere else.
pub open spec fn default_data_model(arch: Arch, os: Os) -> DataModel {
    if arch is X86 || arch is Arm || arch is Riscv32 || arch is Wasm32 {
        DataModel::Ilp32
    } else if os is Windows {
        DataModel::Llp64
    } else {
        DataModel::Lp64
    }
}

/// The object format of a target: its OS's, or for a freestanding target its architecture's.
pub open spec fn target_object_format(arch: Arch, os: Os) -> ObjectFormat {
    match os.spec_object_format() {
        Some(f) => f,
        None => if arch is Wasm32 {
            ObjectFormat::Wasm
        } else {
            ObjectFormat::Elf
        },
    }
}

/// What building a tuple from these parts gives: the first mismatch found, in the order sub
/// architecture, byte order, environment, float ABI, OS version, environment version; or the
/// tuple with the remaining fields derived.
pub open spec fn build_spec(b: BuilderView) -> Result<TupleView, ErrorView> {
    let endian = match b.endian {
        Some(e) => e,
        None => b.arch.spec_default_endian(),
    };
    let env = match b.env {
        Some(e) => e,
        None => b.os.spec_default_env(),
    };
    if !b.sub_arch.spec_belongs_to(b.arch) {
        Err(ErrorView::SubArchMismatch { arch: b.arch, sub_arch: b.sub_arch })
    } else if endian != b.arch.spec_default_endian() && !b.arch.spec_has_both_endians() {
        Err(ErrorView::EndianUnsupported { arch: b.arch, endian })
    } else if !env_valid_for(b.os, env) {
        Err(ErrorView::EnvMismatch { os: b.os, env })
    } else if !abi_valid_for(b.abi, b.arch) {
        Err(ErrorView::AbiMismatch { arch: b.arch, abi: b.abi })
    } else if b.os_version is Some && !b.os.spec_takes_version() {
        Err(ErrorView::VersionNotAccepted { component: "operating system"@ })
    } else if b.env_version is Some && !env.spec_is_libc() {
        Err(ErrorView::VersionNotAccepted { component: "environment"@ })
    } else {
        Ok(
            TupleView {
                arch: b.arch,
                sub_arch: b.sub_arch,
                endian,
                data_model: match b.data_model {
                    Some(m) => m,
                    None => default_data_model(b.arch, b.os),
                },
                os: b.os,
                os_version: b.os_version,
                env,
                env_version: b.env_version,
                abi: b.abi,
                object_format: target_object_format(b.arch, b.os),
            },
        )
    }
}

/// A builder with only an architecture and an OS.
pub open spec fn builder_of(arch: Arch, os: Os) -> BuilderView {
    BuilderView {
        arch,
        sub_arch: SubArch::Base,
        endian: None,
        data_model: None,
        os,
        os_version: None,
        env: None,
        env_version: None,
        abi: Abi::Default,
    }
}

/// The float ABI of a tuple with the target's default filled in.
pub open spec fn tuple_resolved_abi(t: TupleView) -> Abi {
    resolve_abi(t.abi, t.arch, t.sub_arch, t.os, t.env)
}

/// Whether plain `char` is signed: on x86, s390x and wasm, and on ARM only under Windows.
pub open spec fn char_signed(arch: Arch, os: Os) -> bool {
    match arch {
        Arch::X86_64 | Arch::X86 | Arch::S390x | Arch::Wasm32 => true,
        Arch::Arm | Arch::Aarch64 | Arch::Arm64Ec => os is Windows,
        _ => false,
    }
}

/// The leading component of the canonical spelling: the architecture with its baseline and
/// byte order folded in.
pub open spec fn arch_component(t: TupleView) -> Seq<char> {
    match t.arch {
        Arch::PowerPc64 => "powerpc64"@ + (if t.endian is Little {
            "le"@
        } else {
            ""@
        }),
        Arch::Arm => "arm"@ + sub_arch_name(t.sub_arch) + (if t.endian is Big {
            "eb"@
        } else {
            ""@
        }),
        Arch::Aarch64 => "aarch64"@ + (if t.endian is Big {
            "_be"@
        } else {
            ""@
        }),
        _ => arch_name(t.arch) + (if t.endian != t.arch.spec_default_endian() {
            "eb"@
        } else {
            ""@
        }),
    }
}

/// The OS component of the canonical spelling, with its version: `wasip` and the preview number
/// on WASI, the name and a dotted version elsewhere.
pub open spec fn os_component(t: TupleView) -> Seq<char> {
    match t.os_version {
        Some(v) => if t.os is Wasi {
            "wasip"@ + dec(v.0 as nat)
        } else {
            os_name(t.os) + "."@ + version_text(v)
        },
        None => os_name(t.os),
    }
}

/// The environment component, with the suffix GCC fuses into it put back: `eabi` or `eabihf`
/// on ARM from the resolved float ABI, `x32` on an ILP32 data model with 64-bit registers. An
/// Android API level is written after the name; any other version after a dot when `dotted`.
pub open spec fn env_component_with(t: TupleView, dotted: bool) -> Seq<char> {
    let base = match t.env_version {
        Some(v) => if t.env is Android {
            "android"@ + dec(v.0 as nat)
        } else if dotted {
            env_name(t.env) + "."@ + version_text(v)
        } else {
            env_name(t.env)
        },
        None => env_name(t.env),
    };
    let suffix = if t.arch is Arm {
        if tuple_resolved_abi(t) is DoubleFloat {
            "eabihf"@
        } else {
            "eabi"@
        }
    } else if t.data_model is Ilp32On64 {
        "x32"@
    } else {
        ""@
    };
    base + suffix
}

/// The canonical spelling: architecture, OS and environment joined by dashes, with no vendor
/// and no separator for an empty environment.
pub open spec fn canonical(t: TupleView) -> Seq<char> {
    let env = env_component_with(t, true);
    if env.len() == 0 {
        arch_component(t) + "-"@ + os_component(t)
    } else {
        arch_component(t) + "-"@ + os_component(t) + "-"@ + env
    }
}

/// The vendor component of the LLVM spelling.
pub open spec fn llvm_vendor(t: TupleView) -> Seq<char> {
    match t.os {
        Os::MacOs | Os::IOs => "apple"@,
        Os::Windows => if t.env is Gnu {
            "w64"@
        } else {
            "pc"@
        },
        Os::Illumos => "pc"@,
        _ => "unknown"@,
    }
}

/// The OS component of the LLVM spelling, with a three part version on Darwin.
pub open spec fn llvm_os(t: TupleView) -> Seq<char> {
    match t.os {
        Os::MacOs => match t.os_version {
            Some(v) => "macosx"@ + version_llvm_text(v),
            None => "macosx"@,
        },
        Os::IOs => match t.os_version {
            Some(v) => "ios"@ + version_llvm_text(v),
            None => os_name(t.os),
        },
        Os::Wasi => match t.os_version {
            Some(v) => if v.0 == 1 {
                "wasi"@
            } else {
                "wasip"@ + dec(v.0 as nat)
            },
            None => os_name(t.os),
        },
        Os::Freestanding => "none"@,
        _ => os_name(t.os),
    }
}

/// The LLVM spelling: a vendor, a three part OS version, and no dotted environment version.
pub open spec fn llvm_spelling(t: TupleView) -> Seq<char> {
    let env = env_component_with(t, false);
    if env.len() == 0 {
        arch_component(t) + "-"@ + llvm_vendor(t) + "-"@ + llvm_os(t)
    } else {
        arch_component(t) + "-"@ + llvm_vendor(t) + "-"@ + llvm_os(t) + "-"@ + env
    }
}

impl TupleBuilder {
    /// Start from the two fields that have no default.
    pub fn new(arch: Arch, os: Os) -> (r: TupleBuilder)
        ensures
            r@ == builder_of(arch, os),
    {
        TupleBuilder {
            arch,
            sub_arch: SubArch::Base,
            endian: None,
            data_model: None,
            os,
            os_version: None,
            env: None,
            env_version: None,
            abi: Abi::Default,
        }
    }

    /// Set the baseline within the architecture family.
    pub fn sub_arch(self, sub_arch: SubArch) -> (r: TupleBuilder)
        ensures
            r@ == (BuilderView { sub_arch, ..self@ }),
    {
        let mut b = self;
        b.sub_arch = sub_arch;
        b
    }

    /// Set the byte order, overriding the architecture's default.
    pub fn endian(self, endian: Endian) -> (r: TupleBuilder)
        ensures
            r@ == (BuilderView { endian: Some(endian), ..self@ }),
    {
        let mut b = self;
        b.endian = Some(endian);
        b
    }

    /// Set the data model, overriding the one derived from the architecture and OS.
    pub fn data_model(self, data_model: DataModel) -> (r: TupleBuilder)
        ensures
            r@ == (BuilderView { data_model: Some(data_model), ..self@ }),
    {
        let mut b = self;
        b.data_model = Some(data_model);
        b
    }

    /// Set the OS version, which is a deployment target on Darwin and a preview number on WASI.
    pub fn os_version(self, version: Version) -> (r: TupleBuilder)
        ensures
            r@ == (BuilderView { os_version: Some(version@), ..self@ }),
    {
        let mut b = self;
        b.os_version = Some(version);
        b
    }

    /// Set the environment, overriding the OS default.
    pub fn env(self, env: Env) -> (r: TupleBuilder)
        ensures
            r@ == (BuilderView { env: Some(env), ..self@ }),
    {
        let mut b = self;
        b.env = Some(env);
        b
    }

    /// Set the environment version, which is a glibc version or an Android API level.
    pub fn env_version(self, version: Version) -> (r: TupleBuilder)
        ensures
            r@ == (BuilderView { env_version: Some(version@), ..self@ }),
    {
        let mut b = self;
        b.env_version = Some(version);
        b
    }

    /// Set the float ABI.
    pub fn abi(self, abi: Abi) -> (r: TupleBuilder)
        ensures
            r@ == (BuilderView { abi, ..self@ }),
    {
        let mut b = self;
        b.abi = abi;
        b
    }

    /// Derive the remaining fields and check the combination describes a machine.
    ///
    /// # Errors
    ///
    /// Returns the specific mismatch, never a generic failure.
    pub fn build(self) -> (r: Result<TargetTuple, Error>)
        ensures
            match r {
                Ok(t) => build_spec(self@) == Ok::<TupleView, ErrorView>(t@),
                Err(e) => build_spec(self@) == Err::<TupleView, ErrorView>(e@),
            },
    {
        let arch = self.arch;
        let sub_arch = self.sub_arch;
        if !sub_arch.belongs_to(arch) {
            return Err(Error::SubArchMismatch { arch, sub_arch });
        }
        let endian = match self.endian {
            Some(e) => e,
            None => arch.default_endian(),
        };
        if endian != arch.default_endian() && !arch.has_both_endians() {
            return Err(Error::EndianUnsupported { arch, endian });
        }
        let os = self.os;
        let env = match self.env {
            Some(e) => e,
            None => os.default_env(),
        };
        if !env_is_valid_for(os, env) {
            return Err(Error::EnvMismatch { os, env });
        }
        let abi = self.abi;
        if !abi.is_valid_for(arch) {
            return Err(Error::AbiMismatch { arch, abi });
        }
        if self.os_version.is_some() && !os.takes_version() {
            return Err(Error::VersionNotAccepted { component: "operating system" });
        }
        if self.env_version.is_some() && !env.is_libc() {
            return Err(Error::VersionNotAccepted { component: "environment" });
        }
        let data_model = match self.data_model {
            Some(m) => m,
            None => default_data_model_of(arch, os),
        };
        let object_format = match os.object_format() {
            Some(f) => f,
            None => match arch {
                Arch::Wasm32 => ObjectFormat::Wasm,
                _ => ObjectFormat::Elf,
            },
        };
        Ok(
            TargetTuple {
                arch,
                sub_arch,
                endian,
                data_model,
                os,
                os_version: self.os_version,
                env,
                env_version: self.env_version,
                abi,
                object_format,
            },
        )
    }
}

/// Whether an OS and an environment go together.
fn env_is_valid_for(os: Os, env: Env) -> (r: bool)
    ensures
        r == env_valid_for(os, env),
{
    match env {
        Env::Absent => true,
        Env::Gnu => matches!(os, Os::Linux | Os::Windows),
        Env::Musl => matches!(os, Os::Linux),
        Env::Android => matches!(os, Os::Linux),
        Env::Msvc => matches!(os, Os::Windows),
        Env::Simulator | Env::MacAbi => os.is_darwin(),
    }
}

/// The widths of `int`, `long` and a pointer for a target that did not name them.
fn default_data_model_of(arch: Arch, os: Os) -> (r: DataModel)
    ensures
        r == default_data_model(arch, os),
{
    match arch {
        Arch::X86 | Arch::Arm | Arch::Riscv32 | Arch::Wasm32 => DataModel::Ilp32,
        _ => {
            if matches!(os, Os::Windows) {
                DataModel::Llp64
            } else {
                DataModel::Lp64
            }
        },
    }
}

impl TargetTuple {
    /// The common case: an architecture, an OS, and the OS's default environment.
    pub fn new(arch: Arch, os: Os) -> (r: Result<TargetTuple, Error>)
        ensures
            match r {
                Ok(t) => build_spec(builder_of(arch, os)) == Ok::<TupleView, ErrorView>(t@),
                Err(e) => build_spec(builder_of(arch, os)) == Err::<TupleView, ErrorView>(e@),
            },
    {
        TupleBuilder::new(arch, os).build()
    }

    /// Start a builder for a target that needs more than an architecture and an OS.
    pub fn builder(arch: Arch, os: Os) -> (r: TupleBuilder)
        ensures
            r@ == builder_of(arch, os),
    {
        TupleBuilder::new(arch, os)
    }

    /// The instruction set family.
    pub fn arch(self) -> (r: Arch)
        ensures
            r == self@.arch,
    {
        self.arch
    }

    /// The baseline within the family.
    pub fn sub_arch(self) -> (r: SubArch)
        ensures
            r == self@.sub_arch,
    {
        self.sub_arch
    }

    /// The byte order.
    pub fn endian(self) -> (r: Endian)
        ensures
            r == self@.endian,
    {
        self.endian
    }

    /// The widths of `int`, `long` and a pointer.
    pub fn data_model(self) -> (r: DataModel)
        ensures
            r == self@.data_model,
    {
        self.data_model
    }

    /// The operating system.
    pub fn os(self) -> (r: Os)
        ensures
            r == self@.os,
    {
        self.os
    }

    /// The OS version, which is a deployment target on Darwin and a preview number on WASI.
    pub fn os_version(self) -> (r: Option<Version>)
        ensures
            opt_version(r) == self@.os_version,
    {
        self.os_version
    }

    /// The environment, which is the C library on Linux and the ABI variant elsewhere.
    pub fn env(self) -> (r: Env)
        ensures
            r == self@.env,
    {
        self.env
    }

    /// The environment version, which is a glibc version or an Android API level.
    pub fn env_version(self) -> (r: Option<Version>)
        ensures
            opt_version(r) == self@.env_version,
    {
        self.env_version
    }

    /// The float ABI as the tuple named it.
    pub fn abi(self) -> (r: Abi)
        ensures
            r == self@.abi,
    {
        self.abi
    }

    /// The float ABI with the target's default filled in.
    pub fn resolved_abi(self) -> (r: Abi)
        ensures
            r == tuple_resolved_abi(self@),
    {
        self.abi.resolve(self.arch, self.sub_arch, self.os, self.env)
    }

    /// The container the compiler writes for this target.
    pub fn object_format(self) -> (r: ObjectFormat)
        ensures
            r == self@.object_format,
    {
        self.object_format
    }

    /// The width of a pointer in bits, read from the data model rather than the architecture.
    pub fn pointer_width(self) -> (r: u32)
        ensures
            r == self@.data_model.spec_pointer_width(),
    {
        self.data_model.pointer_width()
    }

    /// Whether bytes are stored least significant first.
    pub fn is_little_endian(self) -> (r: bool)
        ensures
            r == (self@.endian is Little),
    {
        matches!(self.endian, Endian::Little)
    }

    /// Whether plain `char` is signed: on x86, s390x and wasm, and on the ARM families only
    /// under Windows.
    pub fn char_is_signed(self) -> (r: bool)
        ensures
            r == char_signed(self@.arch, self@.os),
    {
        match self.arch {
            Arch::X86_64 | Arch::X86 | Arch::S390x | Arch::Wasm32 => true,
            Arch::Arm | Arch::Aarch64 | Arch::Arm64Ec => matches!(self.os, Os::Windows),
            Arch::Riscv64 | Arch::Riscv32 | Arch::LoongArch64 | Arch::PowerPc64 => false,
        }
    }

    /// Whether symbols carry a leading underscore.
    pub fn leading_underscore(self) -> (r: bool)
        ensures
            r == self@.object_format.spec_leading_underscore(self@.data_model),
    {
        self.object_format.leading_underscore(self.data_model)
    }

    /// Append the leading component of the canonical spelling.
    fn push_arch_component(self, v: &mut Vec<char>)
        ensures
            final(v)@ == old(v)@ + arch_component(self@),
    {
        let ghost start = v@;
        match self.arch {
            Arch::PowerPc64 => {
                push_str(v, "powerpc64");
                if matches!(self.endian, Endian::Little) {
                    push_str(v, "le");
                } else {
                    push_str(v, "");
                }
            },
            Arch::Arm => {
                push_str(v, "arm");
                push_str(v, self.sub_arch.as_str());
                if matches!(self.endian, Endian::Big) {
                    push_str(v, "eb");
                } else {
                    push_str(v, "");
                }
            },
            Arch::Aarch64 => {
                push_str(v, "aarch64");
                if matches!(self.endian, Endian::Big) {
                    push_str(v, "_be");
                } else {
                    push_str(v, "");
                }
            },
            other => {
                push_str(v, other.as_str());
                if self.endian != other.default_endian() {
                    push_str(v, "eb");
                } else {
                    push_str(v, "");
                }
            },
        }
        assert(v@ =~= start + arch_component(self@));
    }

    /// Append the OS component of the canonical spelling.
    fn push_os_component(self, v: &mut Vec<char>)
        ensures
            final(v)@ == old(v)@ + os_component(self@),
    {
        let ghost start = v@;
        match self.os_version {
            Some(ver) => {
                if matches!(self.os, Os::Wasi) {
                    push_str(v, "wasip");
                    push_dec(v, ver.major_part());
                } else {
                    push_str(v, self.os.as_str());
                    push_str(v, ".");
                    ver.push_text(v);
                }
            },
            None => {
                push_str(v, self.os.as_str());
            },
        }
        assert(v@ =~= start + os_component(self@));
    }

    /// Append the environment component, optionally without the dotted version.
    fn push_env_component(self, v: &mut Vec<char>, dotted_version: bool)
        ensures
            final(v)@ == old(v)@ + env_component_with(self@, dotted_version),
    {
        let ghost start = v@;
        match self.env_version {
            Some(ver) => {
                if matches!(self.env, Env::Android) {
                    push_str(v, "android");
                    push_dec(v, ver.major_part());
                } else if dotted_version {
                    push_str(v, self.env.as_str());
                    push_str(v, ".");
                    ver.push_text(v);
                } else {
                    push_str(v, self.env.as_str());
                }
            },
            None => {
                push_str(v, self.env.as_str());
            },
        }
        let ghost base = v@;
        if matches!(self.arch, Arch::Arm) {
            match self.resolved_abi() {
                Abi::DoubleFloat => push_str(v, "eabihf"),
                _ => push_str(v, "eabi"),
            }
        } else if matches!(self.data_model, DataModel::Ilp32On64) {
            push_str(v, "x32");
        } else {
            push_str(v, "");
        }
        assert(v@ =~= start + env_component_with(self@, dotted_version));
    }

    /// The leading component of the canonical spelling, which is the architecture with its
    /// baseline and byte order folded in: `powerpc64le`, `armv7`, `aarch64_be`.
    pub fn arch_component(self) -> (s: String)
        ensures
            s@ == arch_component(self@),
    {
        let mut v: Vec<char> = Vec::new();
        self.push_arch_component(&mut v);
        string_of(&v)
    }

    /// The OS component of the canonical spelling, with its version.
    pub fn os_component(self) -> (s: String)
        ensures
            s@ == os_component(self@),
    {
        let mut v: Vec<char> = Vec::new();
        self.push_os_component(&mut v);
        string_of(&v)
    }

    /// The environment component of the canonical spelling, with its version and with the
    /// suffixes GCC fuses into it put back. Empty when there is nothing to say.
    pub fn env_component(self) -> (s: String)
        ensures
            s@ == env_component_with(self@, true),
    {
        let mut v: Vec<char> = Vec::new();
        self.push_env_component(&mut v, true);
        string_of(&v)
    }

    /// The canonical spelling, which is what the cache is keyed on. It has no vendor.
    pub fn to_canonical_string(self) -> (s: String)
        ensures
            s@ == canonical(self@),
    {
        let mut env: Vec<char> = Vec::new();
        self.push_env_component(&mut env, true);
        let mut v: Vec<char> = Vec::new();
        self.push_arch_component(&mut v);
        push_str(&mut v, "-");
        self.push_os_component(&mut v);
        if env.len() > 0 {
            push_str(&mut v, "-");
            push_chars(&mut v, &env);
        }
        string_of(&v)
    }

    /// The canonical spelling, as the tuple is displayed.
    pub fn to_string(&self) -> (s: String)
        ensures
            s@ == canonical(self@),
    {
        self.to_canonical_string()
    }

    /// The LLVM spelling, with a vendor and with a three component OS version.
    pub fn to_llvm_string(self) -> (s: String)
        ensures
            s@ == llvm_spelling(self@),
    {
        let mut v: Vec<char> = Vec::new();
        self.push_arch_component(&mut v);
        push_str(&mut v, "-");
        let ghost before_vendor = v@;
        match self.os {
            Os::MacOs | Os::IOs => push_str(&mut v, "apple"),
            Os::Windows => match self.env {
                Env::Gnu => push_str(&mut v, "w64"),
                _ => push_str(&mut v, "pc"),
            },
            Os::Illumos => push_str(&mut v, "pc"),
            _ => push_str(&mut v, "unknown"),
        }
        assert(v@ =~= before_vendor + llvm_vendor(self@));
        push_str(&mut v, "-");
        let ghost before_os = v@;
        match (self.os, self.os_version) {
            (Os::MacOs, Some(ver)) => {
                push_str(&mut v, "macosx");
                let s = ver.to_llvm_string();
                push_str(&mut v, s.as_str());
            },
            (Os::MacOs, None) => push_str(&mut v, "macosx"),
            (Os::IOs, Some(ver)) => {
                push_str(&mut v, "ios");
                let s = ver.to_llvm_string();
                push_str(&mut v, s.as_str());
            },
            (Os::Wasi, Some(ver)) => {
                if ver.major_part() == 1 {
                    push_str(&mut v, "wasi");
                } else {
                    push_str(&mut v, "wasip");
                    push_dec(&mut v, ver.major_part());
                }
            },
            (Os::Freestanding, _) => push_str(&mut v, "none"),
            (os, _) => push_str(&mut v, os.as_str()),
        }
        assert(v@ =~= before_os + llvm_os(self@));
        let mut env: Vec<char> = Vec::new();
        self.push_env_component(&mut env, false);
        if env.len() > 0 {
            push_str(&mut v, "-");
            push_chars(&mut v, &env);
        }
        string_of(&v)
    }
}

/// A data model nobody named gives a pointer as wide as the family's registers, and a 32-bit
/// `long` beside 64-bit registers only on Windows.
pub proof fn the_derived_data_model_fits_the_registers(arch: Arch, os: Os)
    ensures
        default_data_model(arch, os).spec_pointer_width() == arch.spec_register_width(),
        (default_data_model(arch, os).spec_long_width() == 32) == (arch.spec_register_width()
            == 32 || os is Windows),
{
}

/// Building a tuple that names no data model gives it the one its family and OS imply, with a
/// pointer as wide as the family's registers.
pub proof fn a_built_tuple_without_a_data_model_fits_the_registers(b: BuilderView)
    ensures
        b.data_model is None ==> (build_spec(b) matches Ok(t) ==> {
            &&& t.data_model == default_data_model(b.arch, b.os)
            &&& t.data_model.spec_pointer_width() == t.arch.spec_register_width()
        }),
{
    the_derived_data_model_fits_the_registers(b.arch, b.os);
}

} // verus!
