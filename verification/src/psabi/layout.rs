//! Type sizes, alignments and signedness, which is the half of a psABI that decides whether a
//! header is read correctly.

use vstd::prelude::*;

use crate::arch::{Arch, DataModel};
use crate::os::{Env, Os};
use crate::psabi::shape::Format;
use crate::tuple::{char_signed, TargetTuple, TupleView};

verus! {

/// A floating point type, as the two separate facts it is: a format, and a size and alignment.
#[derive(Debug, Clone, Copy, PartialEq, Eq, Structural)]
pub struct FloatType {
    /// How the bits mean a number.
    pub format: Format,
    /// How many bytes it takes in memory, which is not the format's width.
    pub size: u64,
    /// What it is aligned to, in bytes.
    pub align: u64,
}

/// How a bit-field is allocated within its storage unit.
#[derive(Debug, Clone, Copy, PartialEq, Eq, Structural)]
pub enum BitfieldOrder {
    /// The first field declared gets the low order bits.
    LowestFirst,
    /// The first field declared gets the high order bits.
    HighestFirst,
}

/// The type sizes and alignments a target's headers were written against.
#[derive(Debug, Clone, Copy, PartialEq, Eq, Structural)]
pub struct DataLayout {
    /// Whether a plain `char` is signed.
    pub char_is_signed: bool,
    /// The width of a `short` in bytes.
    pub short_size: u64,
    /// The width of an `int` in bytes.
    pub int_size: u64,
    /// The width of a `long` in bytes.
    pub long_size: u64,
    /// The width of a `long long` in bytes.
    pub long_long_size: u64,
    /// What a `long long` is aligned to.
    pub long_long_align: u64,
    /// The width of a pointer in bytes.
    pub pointer_size: u64,
    /// What a pointer is aligned to.
    pub pointer_align: u64,
    /// `float`.
    pub float: FloatType,
    /// `double`.
    pub double: FloatType,
    /// `long double`, which is the one that differs across almost every target.
    pub long_double: FloatType,
    /// Whether a symbol gets a leading underscore.
    pub leading_underscore: bool,
    /// Which end of a storage unit a bit-field starts at.
    pub bitfield_order: BitfieldOrder,
    /// The largest alignment the ABI gives a struct member on its own, and `None` for no cap.
    pub max_field_align: Option<u64>,
}

/// What a `long long` and a `double` are aligned to: four on i386 outside Windows, eight
/// everywhere else, Windows on i386 included.
pub open spec fn eight_byte_align(t: TupleView) -> u64 {
    if t.arch is X86 && t.data_model is Ilp32 && !(t.os is Windows) {
        4
    } else {
        8
    }
}

/// Whether a target is Windows with the Microsoft toolchain's types rather than mingw-w64's.
pub open spec fn microsoft_types(t: TupleView) -> bool {
    t.os is Windows && !(t.env is Gnu)
}

/// The `long double` of a target: a `double` on x86 Windows outside mingw-w64, Darwin and
/// Windows on AArch64, 32-bit ARM, RISC-V 32, wasm and ARM64EC; x87 extended on the other x86
/// targets, mingw-w64 included (sixteen bytes on x86-64, twelve aligned to four on i386); IEEE
/// quad on AArch64, RISC-V 64 and LoongArch, and on s390x aligned to eight; IBM double-double
/// on PowerPC.
pub open spec fn long_double_type(t: TupleView) -> FloatType {
    let double = FloatType { format: Format::Double, size: 8, align: 8 };
    let quad = FloatType { format: Format::Quad, size: 16, align: 16 };
    match t.arch {
        Arch::X86_64 => if microsoft_types(t) {
            double
        } else {
            FloatType { format: Format::X87Extended, size: 16, align: 16 }
        },
        Arch::X86 => if microsoft_types(t) {
            double
        } else {
            FloatType { format: Format::X87Extended, size: 12, align: 4 }
        },
        Arch::Aarch64 => if t.os.spec_is_darwin() || t.os is Windows {
            double
        } else {
            quad
        },
        Arch::Riscv64 | Arch::LoongArch64 => quad,
        Arch::S390x => FloatType { format: Format::Quad, size: 16, align: 8 },
        Arch::Arm | Arch::Riscv32 | Arch::Wasm32 | Arch::Arm64Ec => double,
        Arch::PowerPc64 => FloatType { format: Format::DoubleDouble, size: 16, align: 16 },
    }
}

/// The member alignment cap: four on i386 outside Windows, none elsewhere.
pub open spec fn field_align_cap(t: TupleView) -> Option<u64> {
    if t.arch is X86 && t.data_model is Ilp32 && !(t.os is Windows) {
        Some(4)
    } else {
        None
    }
}

/// The layout of a target, every field derived from the tuple.
pub open spec fn layout_of(t: TupleView) -> DataLayout {
    DataLayout {
        char_is_signed: char_signed(t.arch, t.os),
        short_size: 2,
        int_size: 4,
        long_size: (t.data_model.spec_long_width() / 8) as u64,
        long_long_size: 8,
        long_long_align: eight_byte_align(t),
        pointer_size: (t.data_model.spec_pointer_width() / 8) as u64,
        pointer_align: (t.data_model.spec_pointer_width() / 8) as u64,
        float: FloatType { format: Format::Single, size: 4, align: 4 },
        double: FloatType { format: Format::Double, size: 8, align: eight_byte_align(t) },
        long_double: long_double_type(t),
        leading_underscore: t.object_format.spec_leading_underscore(t.data_model),
        bitfield_order: if t.endian is Little {
            BitfieldOrder::LowestFirst
        } else {
            BitfieldOrder::HighestFirst
        },
        max_field_align: field_align_cap(t),
    }
}

impl DataLayout {
    /// The layout for this target, every field derived from the tuple rather than the host.
    pub fn for_target(target: TargetTuple) -> (r: DataLayout)
        ensures
            r == layout_of(target@),
    {
        let model = target.data_model();
        let pointer = target.pointer_width() as u64 / 8;
        DataLayout {
            char_is_signed: target.char_is_signed(),
            short_size: 2,
            int_size: model.int_width() as u64 / 8,
            long_size: model.long_width() as u64 / 8,
            long_long_size: model.long_long_width() as u64 / 8,
            long_long_align: long_long_align(target),
            pointer_size: pointer,
            pointer_align: pointer,
            float: FloatType { format: Format::Single, size: 4, align: 4 },
            double: FloatType { format: Format::Double, size: 8, align: double_align(target) },
            long_double: long_double(target),
            leading_underscore: target.leading_underscore(),
            bitfield_order: if target.is_little_endian() {
                BitfieldOrder::LowestFirst
            } else {
                BitfieldOrder::HighestFirst
            },
            max_field_align: max_field_align(target),
        }
    }

    /// Whether a `long double` is really a `double`.
    pub fn long_double_is_double(&self) -> (r: bool)
        ensures
            r == (self.long_double.format is Double),
    {
        matches!(self.long_double.format, Format::Double)
    }
}

/// What a `long long` is aligned to.
fn long_long_align(target: TargetTuple) -> (r: u64)
    ensures
        r == eight_byte_align(target@),
{
    match (target.arch(), target.data_model()) {
        (Arch::X86, DataModel::Ilp32) if !matches!(target.os(), Os::Windows) => 4,
        _ => 8,
    }
}

/// What a `double` is aligned to.
fn double_align(target: TargetTuple) -> (r: u64)
    ensures
        r == eight_byte_align(target@),
{
    match (target.arch(), target.data_model()) {
        (Arch::X86, DataModel::Ilp32) if !matches!(target.os(), Os::Windows) => 4,
        _ => 8,
    }
}

/// The `long double` of this target, as a format and a width, which are separate facts.
fn long_double(target: TargetTuple) -> (r: FloatType)
    ensures
        r == long_double_type(target@),
{
    let double = FloatType { format: Format::Double, size: 8, align: 8 };
    let quad = FloatType { format: Format::Quad, size: 16, align: 16 };
    let os = target.os();
    let microsoft = matches!(os, Os::Windows) && !matches!(target.env(), Env::Gnu);
    match target.arch() {
        Arch::X86_64 if microsoft => double,
        Arch::X86 if microsoft => double,
        Arch::X86_64 => FloatType { format: Format::X87Extended, size: 16, align: 16 },
        Arch::X86 => FloatType { format: Format::X87Extended, size: 12, align: 4 },
        Arch::Aarch64 if os.is_darwin() => double,
        Arch::Aarch64 if matches!(os, Os::Windows) => double,
        Arch::Aarch64 | Arch::Riscv64 | Arch::LoongArch64 => quad,
        Arch::S390x => FloatType { format: Format::Quad, size: 16, align: 8 },
        Arch::Arm | Arch::Riscv32 | Arch::Wasm32 => double,
        Arch::PowerPc64 => FloatType { format: Format::DoubleDouble, size: 16, align: 16 },
        Arch::Arm64Ec => double,
    }
}

/// The largest alignment the ABI gives a member on its own.
fn max_field_align(target: TargetTuple) -> (r: Option<u64>)
    ensures
        r == field_align_cap(target@),
{
    match (target.arch(), target.data_model()) {
        (Arch::X86, DataModel::Ilp32) if !matches!(target.os(), Os::Windows) => Some(4),
        _ => None,
    }
}

/// A `long double` is IEEE quad exactly on AArch64 outside Darwin and Windows, RISC-V 64,
/// LoongArch and s390x, sixteen bytes and aligned to sixteen except on s390x, which caps it at
/// eight; x87 extended exactly on x86 outside the Microsoft toolchain; and wherever it is a
/// `double` it is the eight byte `double`. It is never narrower than a `double`.
pub proof fn long_double_follows_the_family(t: TupleView)
    ensures
        ({
            let ld = layout_of(t).long_double;
            &&& (ld.format is Quad) == ((t.arch is Aarch64 && !(t.os is MacOs) && !(t.os is IOs)
                && !(t.os is Windows)) || t.arch is Riscv64 || t.arch is LoongArch64
                || t.arch is S390x)
            &&& (ld.format is Quad ==> ld.size == 16 && ld.align == if t.arch is S390x {
                8u64
            } else {
                16u64
            })
            &&& (ld.format is X87Extended) == ((t.arch is X86_64 || t.arch is X86) && !(
            t.os is Windows && !(t.env is Gnu)))
            &&& (ld.format is Double ==> ld.size == 8 && ld.align == 8)
            &&& ld.size >= 8
            &&& 0 < ld.align <= ld.size
        }),
{
}

/// A `double` and a `long long` are aligned to four on i386 outside Windows and to their size
/// everywhere else.
pub proof fn eight_byte_scalars_align_to_eight_but_on_system_v_i386(t: TupleView)
    ensures
        layout_of(t).double.align == layout_of(t).long_long_align,
        (layout_of(t).double.align == 4) == (t.arch is X86 && t.data_model is Ilp32 && !(
        t.os is Windows)),
        layout_of(t).double.align == 4 || layout_of(t).double.align == 8,
{
}

} // verus!
