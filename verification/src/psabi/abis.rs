//! The psABIs, as descriptions: SysV AMD64, AAPCS64, Darwin arm64, Windows x64 and RISC-V
//! LP64D. Darwin arm64 differs from AAPCS64 in exactly two fields.

use vstd::prelude::*;

use crate::arch::Arch;
use crate::os::Os;
use crate::psabi::describe::{
    description_well_formed, rule, rule_short, AbiDescription, Banks, DescriptionView, ReturnPointer, Rule, Scalars,
    Short, StackArgs, Test, TestView, Travel, Variadic,
};
use crate::psabi::shape::Format;
use crate::tuple::{TargetTuple, TupleView};

verus! {

/// SysV AMD64: six integer and eight vector registers, the x87 `long double` in the argument
/// area, eightbyte classification up to sixteen bytes, memory without draining when short, and
/// a hidden first argument for a large return value.
pub open spec fn sysv_amd64_view() -> DescriptionView {
    DescriptionView {
        name: "SysV AMD64"@,
        banks: Banks { integer: 6, float: 8, shared: false, integer_width: 8, float_width: 16 },
        scalars: Scalars { in_memory: Some(Format::X87Extended), wide_integer_is_all_or_nothing: true },
        returns: seq![
            rule(TestView::Empty, Travel::Ignore),
            rule(TestView::X87Stack, Travel::AsFound),
            rule(TestView::Eightbytes { limit: 16 }, Travel::AsFound),
            rule(TestView::Anything, Travel::ByReference),
        ],
        arguments: seq![
            rule(TestView::Empty, Travel::Ignore),
            rule_short(TestView::Eightbytes { limit: 16 }, Travel::AsFound, Short::Memory),
            rule(TestView::Anything, Travel::InMemory),
        ],
        return_pointer: ReturnPointer::FirstArgument,
        variadic: Variadic::SameAsFixed,
        stack_args: StackArgs::RegisterSized,
    }
}

/// AAPCS64: eight integer and eight vector registers, homogeneous aggregates of up to four
/// members in vector registers, up to sixteen bytes in integer registers, memory with draining
/// when short, and the return address in x8.
pub open spec fn aapcs64_view() -> DescriptionView {
    DescriptionView {
        name: "AAPCS64"@,
        banks: Banks { integer: 8, float: 8, shared: false, integer_width: 8, float_width: 16 },
        scalars: Scalars { in_memory: None, wide_integer_is_all_or_nothing: false },
        returns: seq![
            rule(TestView::Empty, Travel::Ignore),
            rule(TestView::Homogeneous { limit: 4 }, Travel::AsFound),
            rule(TestView::SizeAtMost(16), Travel::AsIntegers),
            rule(TestView::Anything, Travel::ByReference),
        ],
        arguments: seq![
            rule(TestView::Empty, Travel::Ignore),
            rule_short(TestView::Homogeneous { limit: 4 }, Travel::AsFound, Short::MemoryAndDrain),
            rule_short(TestView::SizeAtMost(16), Travel::AsIntegers, Short::MemoryAndDrain),
            rule(TestView::Anything, Travel::ByReference),
        ],
        return_pointer: ReturnPointer::Dedicated,
        variadic: Variadic::SameAsFixed,
        stack_args: StackArgs::RegisterSized,
    }
}

/// Darwin arm64: AAPCS64 with every variadic argument in the argument area and stack
/// arguments packed at their natural size.
pub open spec fn darwin_arm64_view() -> DescriptionView {
    DescriptionView {
        name: "Darwin arm64"@,
        variadic: Variadic::AlwaysMemory,
        stack_args: StackArgs::Packed,
        ..aapcs64_view()
    }
}

/// Windows x64: four shared argument positions, and an aggregate of exactly one, two, four or
/// eight bytes as one integer while anything else travels as an address.
pub open spec fn win64_view() -> DescriptionView {
    DescriptionView {
        name: "Windows x64"@,
        banks: Banks { integer: 4, float: 0, shared: true, integer_width: 8, float_width: 16 },
        scalars: Scalars { in_memory: None, wide_integer_is_all_or_nothing: false },
        returns: seq![
            rule(TestView::Empty, Travel::Ignore),
            rule(TestView::SizeOneOf(seq![1u64, 2, 4, 8]), Travel::AsOneInteger),
            rule(TestView::Anything, Travel::ByReference),
        ],
        arguments: seq![
            rule(TestView::Empty, Travel::Ignore),
            rule(TestView::SizeOneOf(seq![1u64, 2, 4, 8]), Travel::AsOneInteger),
            rule(TestView::Anything, Travel::ByReference),
        ],
        return_pointer: ReturnPointer::FirstArgument,
        variadic: Variadic::BothBanks,
        stack_args: StackArgs::RegisterSized,
    }
}

/// RISC-V LP64D: eight integer and eight eight-byte float registers, the floating point pair
/// rule as a bonus that declines when short, up to sixteen bytes in integer registers with
/// draining, and a hidden first argument for a large return value.
pub open spec fn riscv_lp64d_view() -> DescriptionView {
    DescriptionView {
        name: "RISC-V LP64D"@,
        banks: Banks { integer: 8, float: 8, shared: false, integer_width: 8, float_width: 8 },
        scalars: Scalars { in_memory: None, wide_integer_is_all_or_nothing: false },
        returns: seq![
            rule(TestView::Empty, Travel::Ignore),
            rule(TestView::FloatPair, Travel::AsFound),
            rule(TestView::SizeAtMost(16), Travel::AsIntegers),
            rule(TestView::Anything, Travel::ByReference),
        ],
        arguments: seq![
            rule(TestView::Empty, Travel::Ignore),
            rule_short(TestView::FloatPair, Travel::AsFound, Short::TryNextRule),
            rule_short(TestView::SizeAtMost(16), Travel::AsIntegers, Short::MemoryAndDrain),
            rule(TestView::Anything, Travel::ByReference),
        ],
        return_pointer: ReturnPointer::FirstArgument,
        variadic: Variadic::SameAsFixed,
        stack_args: StackArgs::RegisterSized,
    }
}

/// The ABI a target follows: Windows x64 for x86-64 Windows, SysV for every other x86-64,
/// Darwin arm64 for AArch64 Darwin, AAPCS64 for AArch64 except Darwin and Windows, RISC-V
/// LP64D for RISC-V 64, and none for everything else, Windows on AArch64 included.
pub open spec fn abi_for(t: TupleView) -> Option<DescriptionView> {
    match t.arch {
        Arch::X86_64 => if t.os is Windows {
            Some(win64_view())
        } else {
            Some(sysv_amd64_view())
        },
        Arch::Aarch64 => if t.os.spec_is_darwin() {
            Some(darwin_arm64_view())
        } else if t.os is Windows {
            None
        } else {
            Some(aapcs64_view())
        },
        Arch::Riscv64 => Some(riscv_lp64d_view()),
        _ => None,
    }
}

/// SysV AMD64: x86-64 everywhere but Windows.
pub fn sysv_amd64() -> (r: AbiDescription)
    ensures
        r@ == sysv_amd64_view(),
{
    let r = AbiDescription {
        name: "SysV AMD64",
        banks: Banks { integer: 6, float: 8, shared: false, integer_width: 8, float_width: 16 },
        scalars: Scalars { in_memory: Some(Format::X87Extended), wide_integer_is_all_or_nothing: true },
        returns: vec![
            Rule::new(Test::Empty, Travel::Ignore),
            Rule::new(Test::X87Stack, Travel::AsFound),
            Rule::new(Test::Eightbytes { limit: 16 }, Travel::AsFound),
            Rule::new(Test::Anything, Travel::ByReference),
        ],
        arguments: vec![
            Rule::new(Test::Empty, Travel::Ignore),
            Rule::new(Test::Eightbytes { limit: 16 }, Travel::AsFound).short(Short::Memory),
            Rule::new(Test::Anything, Travel::InMemory),
        ],
        return_pointer: ReturnPointer::FirstArgument,
        variadic: Variadic::SameAsFixed,
        stack_args: StackArgs::RegisterSized,
    };
    assert(r@.returns =~= sysv_amd64_view().returns);
    assert(r@.arguments =~= sysv_amd64_view().arguments);
    r
}

/// AAPCS64: AArch64 everywhere but Darwin and Windows.
pub fn aapcs64() -> (r: AbiDescription)
    ensures
        r@ == aapcs64_view(),
{
    let r = AbiDescription {
        name: "AAPCS64",
        banks: Banks { integer: 8, float: 8, shared: false, integer_width: 8, float_width: 16 },
        scalars: Scalars { in_memory: None, wide_integer_is_all_or_nothing: false },
        returns: aapcs64_returns(),
        arguments: aapcs64_arguments(),
        return_pointer: ReturnPointer::Dedicated,
        variadic: Variadic::SameAsFixed,
        stack_args: StackArgs::RegisterSized,
    };
    r
}

/// The return rules AAPCS64 and Darwin arm64 share.
fn aapcs64_returns() -> (r: Vec<Rule>)
    ensures
        crate::psabi::describe::rules_view(r@) == aapcs64_view().returns,
{
    let r = vec![
        Rule::new(Test::Empty, Travel::Ignore),
        Rule::new(Test::Homogeneous { limit: 4 }, Travel::AsFound),
        Rule::new(Test::SizeAtMost(16), Travel::AsIntegers),
        Rule::new(Test::Anything, Travel::ByReference),
    ];
    assert(crate::psabi::describe::rules_view(r@) =~= aapcs64_view().returns);
    r
}

/// The argument rules AAPCS64 and Darwin arm64 share.
fn aapcs64_arguments() -> (r: Vec<Rule>)
    ensures
        crate::psabi::describe::rules_view(r@) == aapcs64_view().arguments,
{
    let r = vec![
        Rule::new(Test::Empty, Travel::Ignore),
        Rule::new(Test::Homogeneous { limit: 4 }, Travel::AsFound).short(Short::MemoryAndDrain),
        Rule::new(Test::SizeAtMost(16), Travel::AsIntegers).short(Short::MemoryAndDrain),
        Rule::new(Test::Anything, Travel::ByReference),
    ];
    assert(crate::psabi::describe::rules_view(r@) =~= aapcs64_view().arguments);
    r
}

/// Darwin arm64: macOS and iOS on AArch64.
pub fn darwin_arm64() -> (r: AbiDescription)
    ensures
        r@ == darwin_arm64_view(),
{
    AbiDescription {
        name: "Darwin arm64",
        variadic: Variadic::AlwaysMemory,
        stack_args: StackArgs::Packed,
        ..aapcs64()
    }
}

/// The sizes a register holds on Windows x64.
fn register_sizes() -> (r: Vec<u64>)
    ensures
        r@ == seq![1u64, 2, 4, 8],
{
    let r = vec![1u64, 2, 4, 8];
    assert(r@ =~= seq![1u64, 2, 4, 8]);
    r
}

/// Windows x64.
pub fn win64() -> (r: AbiDescription)
    ensures
        r@ == win64_view(),
{
    let r = AbiDescription {
        name: "Windows x64",
        banks: Banks { integer: 4, float: 0, shared: true, integer_width: 8, float_width: 16 },
        scalars: Scalars { in_memory: None, wide_integer_is_all_or_nothing: false },
        returns: vec![
            Rule::new(Test::Empty, Travel::Ignore),
            Rule::new(Test::SizeOneOf(register_sizes()), Travel::AsOneInteger),
            Rule::new(Test::Anything, Travel::ByReference),
        ],
        arguments: vec![
            Rule::new(Test::Empty, Travel::Ignore),
            Rule::new(Test::SizeOneOf(register_sizes()), Travel::AsOneInteger),
            Rule::new(Test::Anything, Travel::ByReference),
        ],
        return_pointer: ReturnPointer::FirstArgument,
        variadic: Variadic::BothBanks,
        stack_args: StackArgs::RegisterSized,
    };
    assert(r@.returns =~= win64_view().returns);
    assert(r@.arguments =~= win64_view().arguments);
    r
}

/// The RISC-V LP64D psABI.
pub fn riscv_lp64d() -> (r: AbiDescription)
    ensures
        r@ == riscv_lp64d_view(),
{
    let r = AbiDescription {
        name: "RISC-V LP64D",
        banks: Banks { integer: 8, float: 8, shared: false, integer_width: 8, float_width: 8 },
        scalars: Scalars { in_memory: None, wide_integer_is_all_or_nothing: false },
        returns: vec![
            Rule::new(Test::Empty, Travel::Ignore),
            Rule::new(Test::FloatPair, Travel::AsFound),
            Rule::new(Test::SizeAtMost(16), Travel::AsIntegers),
            Rule::new(Test::Anything, Travel::ByReference),
        ],
        arguments: vec![
            Rule::new(Test::Empty, Travel::Ignore),
            Rule::new(Test::FloatPair, Travel::AsFound).short(Short::TryNextRule),
            Rule::new(Test::SizeAtMost(16), Travel::AsIntegers).short(Short::MemoryAndDrain),
            Rule::new(Test::Anything, Travel::ByReference),
        ],
        return_pointer: ReturnPointer::FirstArgument,
        variadic: Variadic::SameAsFixed,
        stack_args: StackArgs::RegisterSized,
    };
    assert(r@.returns =~= riscv_lp64d_view().returns);
    assert(r@.arguments =~= riscv_lp64d_view().arguments);
    r
}

/// Every ABI described here, which is what the report and the tests iterate.
pub fn described() -> (r: Vec<AbiDescription>)
    ensures
        r@.len() == 5,
        r@[0]@ == sysv_amd64_view(),
        r@[1]@ == aapcs64_view(),
        r@[2]@ == darwin_arm64_view(),
        r@[3]@ == win64_view(),
        r@[4]@ == riscv_lp64d_view(),
{
    vec![sysv_amd64(), aapcs64(), darwin_arm64(), win64(), riscv_lp64d()]
}

/// The ABI this target follows, and `None` for one whose ABI is not described yet, which is a
/// real answer rather than a gap to be filled in with a guess.
pub fn for_target(target: TargetTuple) -> (r: Option<AbiDescription>)
    ensures
        match abi_for(target@) {
            Some(d) => r is Some && r->0@ == d,
            None => r is None,
        },
{
    let os = target.os();
    match target.arch() {
        Arch::X86_64 => if matches!(os, Os::Windows) {
            Some(win64())
        } else {
            Some(sysv_amd64())
        },
        Arch::Aarch64 => if os.is_darwin() {
            Some(darwin_arm64())
        } else if matches!(os, Os::Windows) {
            None
        } else {
            Some(aapcs64())
        },
        Arch::Riscv64 => Some(riscv_lp64d()),
        _ => None,
    }
}

/// Every described ABI is well formed, the five have five different names, and every target
/// that has an ABI gets one of the five.
pub proof fn described_abis_are_well_formed(t: TupleView)
    ensures
        description_well_formed(sysv_amd64_view()),
        description_well_formed(aapcs64_view()),
        description_well_formed(darwin_arm64_view()),
        description_well_formed(win64_view()),
        description_well_formed(riscv_lp64d_view()),
        ({
            let names = seq![
                sysv_amd64_view().name,
                aapcs64_view().name,
                darwin_arm64_view().name,
                win64_view().name,
                riscv_lp64d_view().name,
            ];
            forall|i: int, j: int| 0 <= i < j < 5 ==> names[i] != names[j]
        }),
        abi_for(t) matches Some(d) ==> {
            ||| d == sysv_amd64_view()
            ||| d == aapcs64_view()
            ||| d == darwin_arm64_view()
            ||| d == win64_view()
            ||| d == riscv_lp64d_view()
        },
{
    reveal_strlit("SysV AMD64");
    reveal_strlit("AAPCS64");
    reveal_strlit("Darwin arm64");
    reveal_strlit("Windows x64");
    reveal_strlit("RISC-V LP64D");
    let names = seq![
        sysv_amd64_view().name,
        aapcs64_view().name,
        darwin_arm64_view().name,
        win64_view().name,
        riscv_lp64d_view().name,
    ];
    assert(names[0][0] == 'S' && names[1][0] == 'A' && names[2][0] == 'D' && names[3][0] == 'W'
        && names[4][0] == 'R');
}

/// Which description a target follows: on AArch64, Darwin arm64 on macOS and iOS, whose
/// variadic arguments all go to the argument area and whose stack arguments are packed, none on
/// Windows, and AAPCS64 everywhere else, whose variadic arguments are fixed ones; on x86-64,
/// Windows x64 on Windows and SysV AMD64 elsewhere; RISC-V LP64D on RISC-V 64; and none on any
/// other family.
pub proof fn each_target_follows_its_description(t: TupleView)
    ensures
        t.arch is Aarch64 && (t.os is MacOs || t.os is IOs) ==> (abi_for(t) matches Some(d) && d
            == darwin_arm64_view() && d.variadic is AlwaysMemory && d.stack_args is Packed),
        t.arch is Aarch64 && !(t.os is MacOs) && !(t.os is IOs) && !(t.os is Windows)
            ==> (abi_for(t) matches Some(d) && d == aapcs64_view() && d.variadic is SameAsFixed
            && d.stack_args is RegisterSized),
        t.arch is Aarch64 && t.os is Windows ==> abi_for(t) is None,
        t.arch is X86_64 ==> abi_for(t) == Some(
            if t.os is Windows {
                win64_view()
            } else {
                sysv_amd64_view()
            },
        ),
        t.arch is Riscv64 ==> abi_for(t) == Some(riscv_lp64d_view()),
        !(t.arch is Aarch64) && !(t.arch is X86_64) && !(t.arch is Riscv64) ==> abi_for(t) is None,
{
}

} // verus!
