//! The target table: which targets exist, what is true of each one today, and what the plan is
//! committed to making true of it.
//!
//! The `tier` column is what the last reporting run established and the `planned` column is the
//! commitment. A freestanding row is capped at the tier its architecture reaches when hosted.

use vstd::prelude::*;

use crate::error::{Error, ErrorView};
use crate::parse::{parse, parse_spec};
use crate::abi::Abi;
use crate::arch::{Arch, DataModel, Endian, SubArch};
use crate::os::{Env, Os};
use crate::spelling::{settled, written_spelling_reads_back};
use crate::tuple::{default_data_model, target_object_format, canonical, TargetTuple, TupleView};
use crate::text::chars_of;

verus! {

/// What is known to be true about a target. `Supported` is the smallest, so the better of two
/// tiers is the smaller one.
#[derive(Debug, Clone, Copy, PartialEq, Eq, PartialOrd, Ord, Hash, Structural)]
pub enum Tier {
    /// Rungs 0, 1 and 2 pass on hardware at every optimization level.
    Supported,
    /// Rungs 0 and 1 pass, on hardware or under qemu-user.
    SupportedWithEvidence,
    /// Objects are emitted and a linked program runs the smoke test.
    InProgress,
    /// The tuple parses and `--print-config` is correct. Nothing is emitted.
    Recognized,
}

impl Tier {
    /// The tier's number, 1 for the best and 4 for the weakest.
    pub open spec fn spec_number(self) -> u8 {
        match self {
            Tier::Supported => 1,
            Tier::SupportedWithEvidence => 2,
            Tier::InProgress => 3,
            Tier::Recognized => 4,
        }
    }

    /// The number, which is how the spec and every issue refer to these.
    pub fn number(self) -> (r: u8)
        ensures
            r == self.spec_number(),
            1 <= r <= 4,
    {
        match self {
            Tier::Supported => 1,
            Tier::SupportedWithEvidence => 2,
            Tier::InProgress => 3,
            Tier::Recognized => 4,
        }
    }

    /// The words the README uses for this tier.
    pub fn describe(self) -> (r: &'static str)
        ensures
            r@ == (match self {
                Tier::Supported => "supported"@,
                Tier::SupportedWithEvidence => "supported, with the evidence column saying how"@,
                Tier::InProgress => "in progress, named in the table, not claimed"@,
                Tier::Recognized => "recognized"@,
            }),
    {
        match self {
            Tier::Supported => "supported",
            Tier::SupportedWithEvidence => "supported, with the evidence column saying how",
            Tier::InProgress => "in progress, named in the table, not claimed",
            Tier::Recognized => "recognized",
        }
    }

    /// Whether a program for this target can be compiled and linked today: tiers 1, 2 and 3.
    pub fn compiles_and_links(self) -> (r: bool)
        ensures
            r == !(self is Recognized),
    {
        !matches!(self, Tier::Recognized)
    }
}

/// Whether rucc itself runs on this target.
#[derive(Debug, Clone, Copy, PartialEq, Eq, PartialOrd, Ord, Hash, Structural)]
pub enum Host {
    /// A release artifact is built for it and CI runs on it.
    Yes,
    /// Planned, but not yet a runner.
    Planned,
    /// Not a host, and not intended to be one.
    No,
}

impl Host {
    /// The word the table prints.
    pub fn as_str(self) -> (r: &'static str)
        ensures
            r@ == (match self {
                Host::Yes => "yes"@,
                Host::Planned => "later"@,
                Host::No => "no"@,
            }),
    {
        match self {
            Host::Yes => "yes",
            Host::Planned => "later",
            Host::No => "no",
        }
    }
}

/// One row of the target table.
#[derive(Debug, Clone, Copy, PartialEq, Eq)]
pub struct TargetEntry {
    /// The canonical spelling.
    pub tuple: &'static str,
    /// What the last reporting run established.
    pub tier: Tier,
    /// What the plan commits to.
    pub planned: Tier,
    /// Whether rucc runs on this target.
    pub host: Host,
    /// Why this row is in the table, or what makes it awkward.
    pub note: &'static str,
}

/// A row of the table, with its text as sequences of characters.
pub ghost struct RowView {
    pub tuple: Seq<char>,
    pub tier: Tier,
    pub planned: Tier,
    pub host: Host,
    pub note: Seq<char>,
}

impl View for TargetEntry {
    type V = RowView;

    open spec fn view(&self) -> RowView {
        RowView {
            tuple: self.tuple@,
            tier: self.tier,
            planned: self.planned,
            host: self.host,
            note: self.note@,
        }
    }
}

impl TargetEntry {
    /// Parse the row's tuple.
    ///
    /// # Errors
    ///
    /// Only if the table itself is wrong.
    pub fn parse(&self) -> (r: Result<TargetTuple, Error>)
        ensures
            match r {
                Ok(t) => parse_spec(self.tuple@) == Ok::<TupleView, ErrorView>(t@),
                Err(e) => parse_spec(self.tuple@) == Err::<TupleView, ErrorView>(e@),
            },
    {
        parse(self.tuple)
    }
}

/// A row of the table.
pub open spec fn row(tuple: Seq<char>, tier: Tier, planned: Tier, host: Host, note: Seq<char>) -> RowView {
    RowView { tuple, tier, planned, host, note }
}

/// Every target the compiler has an opinion about.
pub open spec fn target_table() -> Seq<RowView> {
    seq![
        row("x86_64-linux-gnu"@, Tier::SupportedWithEvidence, Tier::Supported, Host::Yes, "the reference target, and everything is measured here first"@),
        row("x86_64-linux-musl"@, Tier::Recognized, Tier::Supported, Host::Yes, "the easiest sysroot in existence, and the first cross target"@),
        row("aarch64-linux-gnu"@, Tier::Recognized, Tier::Supported, Host::Yes, "char is unsigned here and signed on x86-64, which is the classic bug"@),
        row("aarch64-linux-musl"@, Tier::Recognized, Tier::Supported, Host::Yes, "the pair that proves the libc and the architecture are separate axes"@),
        row("riscv64-linux-gnu"@, Tier::Recognized, Tier::Supported, Host::Planned, "the middle end canary, with no condition codes and no complex addressing"@),
        row("riscv64-linux-musl"@, Tier::Recognized, Tier::SupportedWithEvidence, Host::No, ""@),
        row("i686-linux-gnu"@, Tier::Recognized, Tier::SupportedWithEvidence, Host::No, "x87 long double is the type here rather than a corner case"@),
        row("armv7-linux-gnueabihf"@, Tier::Recognized, Tier::SupportedWithEvidence, Host::No, "soft, softfp and hard is an ABI, so it is in the tuple"@),
        row("armv7-linux-musleabihf"@, Tier::Recognized, Tier::SupportedWithEvidence, Host::No, ""@),
        row("loongarch64-linux-gnu"@, Tier::Recognized, Tier::SupportedWithEvidence, Host::No, "LP64D only, and r21 is reserved by the psABI and used by Linux as a percpu base"@),
        row("powerpc64le-linux-gnu"@, Tier::Recognized, Tier::SupportedWithEvidence, Host::No, "ELFv2, with the TOC and the split between local and global entry points"@),
        row("s390x-linux-gnu"@, Tier::Recognized, Tier::SupportedWithEvidence, Host::No, "the big endian row, and the only one with a commercial user base"@),
        row("aarch64-linux-android"@, Tier::Recognized, Tier::SupportedWithEvidence, Host::No, "bionic, API level stub sets, and the packed relocation trap below API 35"@),
        row("x86_64-linux-android"@, Tier::Recognized, Tier::InProgress, Host::No, "the emulator target, which is cheap once aarch64 works"@),
        row("riscv64-linux-android"@, Tier::Recognized, Tier::Recognized, Host::No, "requires an RVA23 baseline, so it is recognized only"@),
        row("x86_64-linux-gnux32"@, Tier::Recognized, Tier::Recognized, Host::No, "ILP32 on a 64-bit ISA, and it exists to prove the data model field is real"@),
        row("aarch64-macos"@, Tier::Recognized, Tier::Supported, Host::Yes, "the four AAPCS64 divergences of the compiler repository's document 12.3"@),
        row("x86_64-macos"@, Tier::Recognized, Tier::SupportedWithEvidence, Host::Yes, "still shipping, and Rosetta makes it how an aarch64 host tests x86-64"@),
        row("aarch64-ios"@, Tier::Recognized, Tier::InProgress, Host::No, "a distinct OS from macOS, with its own platform value and availability macros"@),
        row("aarch64-ios-simulator"@, Tier::Recognized, Tier::Recognized, Host::No, "three table rows rather than work, once the Darwin path exists"@),
        row("aarch64-ios-macabi"@, Tier::Recognized, Tier::Recognized, Host::No, "Mac Catalyst, which zig added in 0.16 and which costs a platform value"@),
        row("x86_64-windows-gnu"@, Tier::Recognized, Tier::Supported, Host::Yes, "mingw-w64, and the default env for Windows because it is the one we can ship"@),
        row("x86_64-windows-msvc"@, Tier::Recognized, Tier::SupportedWithEvidence, Host::Yes, "needs a fetched SDK, so the ABI is ours and the dialect is not"@),
        row("aarch64-windows-gnu"@, Tier::Recognized, Tier::SupportedWithEvidence, Host::Yes, ""@),
        row("aarch64-windows-msvc"@, Tier::Recognized, Tier::InProgress, Host::Yes, ""@),
        row("arm64ec-windows-msvc"@, Tier::Recognized, Tier::Recognized, Host::No, "a separate symbol namespace, thunks and hybrid images, declined in document 06.8"@),
        row("i686-windows-gnu"@, Tier::Recognized, Tier::InProgress, Host::No, "stdcall, fastcall and thiscall decoration, the only place C has mangling"@),
        row("x86_64-freebsd"@, Tier::Recognized, Tier::SupportedWithEvidence, Host::Planned, "stub libraries, as zig does, and FreeBSD 14 or later"@),
        row("aarch64-freebsd"@, Tier::Recognized, Tier::SupportedWithEvidence, Host::Planned, ""@),
        row("x86_64-netbsd"@, Tier::Recognized, Tier::InProgress, Host::No, "NetBSD 10.1 or later"@),
        row("aarch64-netbsd"@, Tier::Recognized, Tier::InProgress, Host::No, ""@),
        row("x86_64-openbsd"@, Tier::Recognized, Tier::InProgress, Host::No, "dynamic libc only, and zig took a whole release to add it"@),
        row("x86_64-illumos"@, Tier::Recognized, Tier::Recognized, Host::No, "open, therefore admissible, therefore not excluded on principle"@),
        row("x86_64-none"@, Tier::InProgress, Tier::Supported, Host::No, "the kernel target, which rung 4 needs and needs at tier 1"@),
        row("aarch64-none"@, Tier::InProgress, Tier::Supported, Host::No, ""@),
        row("riscv64-none"@, Tier::InProgress, Tier::Supported, Host::No, ""@),
        row("i686-none"@, Tier::InProgress, Tier::SupportedWithEvidence, Host::No, "capped at its architecture's tier, per the note at the top of this module"@),
        row("armv7-none-eabi"@, Tier::InProgress, Tier::SupportedWithEvidence, Host::No, "soft float, because a bare metal core may have no FPU"@),
        row("armv7m-none-eabi"@, Tier::InProgress, Tier::SupportedWithEvidence, Host::No, "Thumb only, and the smallest target in the table"@),
        row("wasm32-wasip1"@, Tier::Recognized, Tier::SupportedWithEvidence, Host::No, "one linear memory, no signals, and structured control flow"@),
        row("wasm32-wasip3"@, Tier::Recognized, Tier::InProgress, Host::No, "a different ABI from p1 and p2, with the stack pointer and TLS base in a context"@),
        row("wasm32-none"@, Tier::Recognized, Tier::SupportedWithEvidence, Host::No, "freestanding wasm, which is the second back end without the libc question"@),    ]
}

/// A row of the table.
fn entry(
    tuple: &'static str,
    tier: Tier,
    planned: Tier,
    host: Host,
    note: &'static str,
) -> (e: TargetEntry)
    ensures
        e@ == row(tuple@, tier, planned, host, note@),
{
    TargetEntry { tuple, tier, planned, host, note }
}

/// Every target the compiler has an opinion about, in the order the table lists them.
pub fn targets() -> (r: Vec<TargetEntry>)
    ensures
        r@.len() == target_table().len(),
        forall|i: int| 0 <= i < r@.len() ==> #[trigger] r@[i]@ == target_table()[i],
{
    let r = vec![
        entry("x86_64-linux-gnu", Tier::SupportedWithEvidence, Tier::Supported, Host::Yes, "the reference target, and everything is measured here first"),
        entry("x86_64-linux-musl", Tier::Recognized, Tier::Supported, Host::Yes, "the easiest sysroot in existence, and the first cross target"),
        entry("aarch64-linux-gnu", Tier::Recognized, Tier::Supported, Host::Yes, "char is unsigned here and signed on x86-64, which is the classic bug"),
        entry("aarch64-linux-musl", Tier::Recognized, Tier::Supported, Host::Yes, "the pair that proves the libc and the architecture are separate axes"),
        entry("riscv64-linux-gnu", Tier::Recognized, Tier::Supported, Host::Planned, "the middle end canary, with no condition codes and no complex addressing"),
        entry("riscv64-linux-musl", Tier::Recognized, Tier::SupportedWithEvidence, Host::No, ""),
        entry("i686-linux-gnu", Tier::Recognized, Tier::SupportedWithEvidence, Host::No, "x87 long double is the type here rather than a corner case"),
        entry("armv7-linux-gnueabihf", Tier::Recognized, Tier::SupportedWithEvidence, Host::No, "soft, softfp and hard is an ABI, so it is in the tuple"),
        entry("armv7-linux-musleabihf", Tier::Recognized, Tier::SupportedWithEvidence, Host::No, ""),
        entry("loongarch64-linux-gnu", Tier::Recognized, Tier::SupportedWithEvidence, Host::No, "LP64D only, and r21 is reserved by the psABI and used by Linux as a percpu base"),
        entry("powerpc64le-linux-gnu", Tier::Recognized, Tier::SupportedWithEvidence, Host::No, "ELFv2, with the TOC and the split between local and global entry points"),
        entry("s390x-linux-gnu", Tier::Recognized, Tier::SupportedWithEvidence, Host::No, "the big endian row, and the only one with a commercial user base"),
        entry("aarch64-linux-android", Tier::Recognized, Tier::SupportedWithEvidence, Host::No, "bionic, API level stub sets, and the packed relocation trap below API 35"),
        entry("x86_64-linux-android", Tier::Recognized, Tier::InProgress, Host::No, "the emulator target, which is cheap once aarch64 works"),
        entry("riscv64-linux-android", Tier::Recognized, Tier::Recognized, Host::No, "requires an RVA23 baseline, so it is recognized only"),
        entry("x86_64-linux-gnux32", Tier::Recognized, Tier::Recognized, Host::No, "ILP32 on a 64-bit ISA, and it exists to prove the data model field is real"),
        entry("aarch64-macos", Tier::Recognized, Tier::Supported, Host::Yes, "the four AAPCS64 divergences of the compiler repository's document 12.3"),
        entry("x86_64-macos", Tier::Recognized, Tier::SupportedWithEvidence, Host::Yes, "still shipping, and Rosetta makes it how an aarch64 host tests x86-64"),
        entry("aarch64-ios", Tier::Recognized, Tier::InProgress, Host::No, "a distinct OS from macOS, with its own platform value and availability macros"),
        entry("aarch64-ios-simulator", Tier::Recognized, Tier::Recognized, Host::No, "three table rows rather than work, once the Darwin path exists"),
        entry("aarch64-ios-macabi", Tier::Recognized, Tier::Recognized, Host::No, "Mac Catalyst, which zig added in 0.16 and which costs a platform value"),
        entry("x86_64-windows-gnu", Tier::Recognized, Tier::Supported, Host::Yes, "mingw-w64, and the default env for Windows because it is the one we can ship"),
        entry("x86_64-windows-msvc", Tier::Recognized, Tier::SupportedWithEvidence, Host::Yes, "needs a fetched SDK, so the ABI is ours and the dialect is not"),
        entry("aarch64-windows-gnu", Tier::Recognized, Tier::SupportedWithEvidence, Host::Yes, ""),
        entry("aarch64-windows-msvc", Tier::Recognized, Tier::InProgress, Host::Yes, ""),
        entry("arm64ec-windows-msvc", Tier::Recognized, Tier::Recognized, Host::No, "a separate symbol namespace, thunks and hybrid images, declined in document 06.8"),
        entry("i686-windows-gnu", Tier::Recognized, Tier::InProgress, Host::No, "stdcall, fastcall and thiscall decoration, the only place C has mangling"),
        entry("x86_64-freebsd", Tier::Recognized, Tier::SupportedWithEvidence, Host::Planned, "stub libraries, as zig does, and FreeBSD 14 or later"),
        entry("aarch64-freebsd", Tier::Recognized, Tier::SupportedWithEvidence, Host::Planned, ""),
        entry("x86_64-netbsd", Tier::Recognized, Tier::InProgress, Host::No, "NetBSD 10.1 or later"),
        entry("aarch64-netbsd", Tier::Recognized, Tier::InProgress, Host::No, ""),
        entry("x86_64-openbsd", Tier::Recognized, Tier::InProgress, Host::No, "dynamic libc only, and zig took a whole release to add it"),
        entry("x86_64-illumos", Tier::Recognized, Tier::Recognized, Host::No, "open, therefore admissible, therefore not excluded on principle"),
        entry("x86_64-none", Tier::InProgress, Tier::Supported, Host::No, "the kernel target, which rung 4 needs and needs at tier 1"),
        entry("aarch64-none", Tier::InProgress, Tier::Supported, Host::No, ""),
        entry("riscv64-none", Tier::InProgress, Tier::Supported, Host::No, ""),
        entry("i686-none", Tier::InProgress, Tier::SupportedWithEvidence, Host::No, "capped at its architecture's tier, per the note at the top of this module"),
        entry("armv7-none-eabi", Tier::InProgress, Tier::SupportedWithEvidence, Host::No, "soft float, because a bare metal core may have no FPU"),
        entry("armv7m-none-eabi", Tier::InProgress, Tier::SupportedWithEvidence, Host::No, "Thumb only, and the smallest target in the table"),
        entry("wasm32-wasip1", Tier::Recognized, Tier::SupportedWithEvidence, Host::No, "one linear memory, no signals, and structured control flow"),
        entry("wasm32-wasip3", Tier::Recognized, Tier::InProgress, Host::No, "a different ABI from p1 and p2, with the stack pointer and TLS base in a context"),
        entry("wasm32-none", Tier::Recognized, Tier::SupportedWithEvidence, Host::No, "freestanding wasm, which is the second back end without the libc question"),    ];
    assert(r@.map_values(|e: TargetEntry| e@) =~= target_table());
    assert forall|i: int| 0 <= i < r@.len() implies #[trigger] r@[i]@ == target_table()[i] by {
        assert(r@.map_values(|e: TargetEntry| e@)[i] == r@[i]@);
    }
    r
}

/// The index of the first row from `i` on whose spelling is `c`.
pub open spec fn find_row(rows: Seq<RowView>, c: Seq<char>, i: int) -> Option<int>
    decreases rows.len() - i,
{
    if i < 0 || i >= rows.len() {
        None
    } else if rows[i].tuple == c {
        Some(i)
    } else {
        find_row(rows, c, i + 1)
    }
}

/// How many rows the plan puts at the tier with this number.
pub open spec fn count_planned(rows: Seq<RowView>, number: u8) -> nat
    decreases rows.len(),
{
    if rows.len() == 0 {
        0
    } else {
        count_planned(rows.drop_last(), number) + (if rows.last().planned.spec_number() == number {
            1nat
        } else {
            0nat
        })
    }
}

/// How many rows the plan commits to compiling and linking.
pub open spec fn count_working(rows: Seq<RowView>) -> nat
    decreases rows.len(),
{
    if rows.len() == 0 {
        0
    } else {
        count_working(rows.drop_last()) + (if rows.last().planned is Recognized {
            0nat
        } else {
            1nat
        })
    }
}

/// Find the table row for a target, by canonical spelling: the first row written that way.
pub fn lookup(target: &TargetTuple) -> (r: Option<TargetEntry>)
    ensures
        match find_row(target_table(), canonical(target@), 0) {
            Some(i) => r is Some && r->0@ == target_table()[i],
            None => r is None,
        },
{
    let canonical_text = target.to_canonical_string();
    let wanted = chars_of(canonical_text.as_str());
    let rows = targets();
    let mut i: usize = 0;
    while i < rows.len()
        invariant
            i <= rows@.len(),
            rows@.len() == target_table().len(),
            forall|k: int| 0 <= k < rows@.len() ==> #[trigger] rows@[k]@ == target_table()[k],
            wanted@ == canonical(target@),
            find_row(target_table(), wanted@, 0) == find_row(target_table(), wanted@, i as int),
        decreases rows@.len() - i,
    {
        let e = rows[i];
        let here = chars_of(e.tuple);
        proof {
            assert(e@ == target_table()[i as int]);
            assert(find_row(target_table(), wanted@, i as int) == (if target_table()[i as int].tuple
                == wanted@ {
                Some(i as int)
            } else {
                find_row(target_table(), wanted@, i as int + 1)
            }));
        }
        if vec_chars_eq(&here, &wanted) {
            return Some(e);
        }
        i = i + 1;
    }
    None
}

/// Whether two sequences of characters are equal.
fn vec_chars_eq(a: &Vec<char>, b: &Vec<char>) -> (r: bool)
    ensures
        r == (a@ == b@),
{
    if a.len() != b.len() {
        return false;
    }
    let mut i: usize = 0;
    while i < a.len()
        invariant
            a@.len() == b@.len(),
            i <= a@.len(),
            a@.take(i as int) == b@.take(i as int),
        decreases a@.len() - i,
    {
        if a[i] != b[i] {
            assert(a@[i as int] != b@[i as int]);
            return false;
        }
        i = i + 1;
        assert(a@.take(i as int) =~= b@.take(i as int));
    }
    assert(a@ =~= a@.take(a@.len() as int));
    assert(b@ =~= b@.take(b@.len() as int));
    true
}

/// How many rows the plan puts at each tier, computed from the table rather than written next
/// to it: element `k` counts tier `k + 1`.
pub fn counts_by_planned_tier() -> (r: [usize; 4])
    ensures
        forall|k: int| 0 <= k < 4 ==> #[trigger] r@[k] == count_planned(target_table(), (k + 1) as u8),
{
    let rows = targets();
    let mut counts: [usize; 4] = [0usize; 4];
    let mut i: usize = 0;
    while i < rows.len()
        invariant
            i <= rows@.len(),
            rows@.len() == target_table().len(),
            rows@.len() < 1000,
            forall|k: int| 0 <= k < rows@.len() ==> #[trigger] rows@[k]@ == target_table()[k],
            forall|k: int| 0 <= k < 4 ==> #[trigger] counts@[k] == count_planned(
                target_table().take(i as int),
                (k + 1) as u8,
            ),
            forall|k: int| 0 <= k < 4 ==> #[trigger] counts@[k] <= i,
        decreases rows@.len() - i,
    {
        let slot = (rows[i].planned.number() - 1) as usize;
        let ghost before = counts@;
        counts[slot] = counts[slot] + 1;
        proof {
            let next = target_table().take(i as int + 1);
            assert(next.drop_last() =~= target_table().take(i as int));
            assert(next.last() == rows@[i as int]@);
        }
        i = i + 1;
    }
    assert(target_table().take(rows@.len() as int) =~= target_table());
    counts
}

/// How many rows the plan commits to compiling and linking, which is the number claim 1 is
/// measured against.
pub fn planned_working_count() -> (r: usize)
    ensures
        r == count_working(target_table()),
{
    let rows = targets();
    let mut count: usize = 0;
    let mut i: usize = 0;
    while i < rows.len()
        invariant
            i <= rows@.len(),
            rows@.len() == target_table().len(),
            rows@.len() < 1000,
            forall|k: int| 0 <= k < rows@.len() ==> #[trigger] rows@[k]@ == target_table()[k],
            count == count_working(target_table().take(i as int)),
            count <= i,
        decreases rows@.len() - i,
    {
        proof {
            let next = target_table().take(i as int + 1);
            assert(next.drop_last() =~= target_table().take(i as int));
            assert(next.last() == rows@[i as int]@);
        }
        if rows[i].planned.compiles_and_links() {
            count = count + 1;
        }
        i = i + 1;
    }
    assert(target_table().take(rows@.len() as int) =~= target_table());
    count
}

/// Whether a spelling reads as this tuple, and the tuple writes the spelling back.
#[verifier::opaque]
spec fn reads_as(s: Seq<char>, t: TupleView) -> bool {
    &&& parse_spec(s) == Ok::<TupleView, ErrorView>(t)
    &&& canonical(t) == s
}

/// The tuple a row names when it says only an architecture, a baseline, an OS and an
/// environment: the rest derived the way reading a spelling derives it.
spec fn named(arch: Arch, sub_arch: SubArch, os: Os, env: Env) -> TupleView {
    TupleView {
        arch,
        sub_arch,
        endian: arch.spec_default_endian(),
        data_model: default_data_model(arch, os),
        os,
        os_version: None,
        env,
        env_version: None,
        abi: Abi::Default,
        object_format: target_object_format(arch, os),
    }
}

/// The tuple row `k` of the table reads as.
spec fn row_tuple(k: int) -> TupleView {
    if k == 0 {
        settled(named(Arch::X86_64, SubArch::Base, Os::Linux, Env::Gnu))
    } else if k == 1 {
        settled(named(Arch::X86_64, SubArch::Base, Os::Linux, Env::Musl))
    } else if k == 2 {
        settled(named(Arch::Aarch64, SubArch::Base, Os::Linux, Env::Gnu))
    } else if k == 3 {
        settled(named(Arch::Aarch64, SubArch::Base, Os::Linux, Env::Musl))
    } else if k == 4 {
        settled(named(Arch::Riscv64, SubArch::Base, Os::Linux, Env::Gnu))
    } else if k == 5 {
        settled(named(Arch::Riscv64, SubArch::Base, Os::Linux, Env::Musl))
    } else if k == 6 {
        settled(named(Arch::X86, SubArch::Base, Os::Linux, Env::Gnu))
    } else if k == 7 {
        settled(named(Arch::Arm, SubArch::ArmV7A, Os::Linux, Env::Gnu))
    } else if k == 8 {
        settled(named(Arch::Arm, SubArch::ArmV7A, Os::Linux, Env::Musl))
    } else if k == 9 {
        settled(named(Arch::LoongArch64, SubArch::Base, Os::Linux, Env::Gnu))
    } else if k == 10 {
        settled(TupleView { endian: Endian::Little, ..named(Arch::PowerPc64, SubArch::Base, Os::Linux, Env::Gnu) })
    } else if k == 11 {
        settled(named(Arch::S390x, SubArch::Base, Os::Linux, Env::Gnu))
    } else if k == 12 {
        settled(named(Arch::Aarch64, SubArch::Base, Os::Linux, Env::Android))
    } else if k == 13 {
        settled(named(Arch::X86_64, SubArch::Base, Os::Linux, Env::Android))
    } else if k == 14 {
        settled(named(Arch::Riscv64, SubArch::Base, Os::Linux, Env::Android))
    } else if k == 15 {
        settled(TupleView { data_model: DataModel::Ilp32On64, ..named(Arch::X86_64, SubArch::Base, Os::Linux, Env::Gnu) })
    } else if k == 16 {
        settled(named(Arch::Aarch64, SubArch::Base, Os::MacOs, Env::Absent))
    } else if k == 17 {
        settled(named(Arch::X86_64, SubArch::Base, Os::MacOs, Env::Absent))
    } else if k == 18 {
        settled(named(Arch::Aarch64, SubArch::Base, Os::IOs, Env::Absent))
    } else if k == 19 {
        settled(named(Arch::Aarch64, SubArch::Base, Os::IOs, Env::Simulator))
    } else if k == 20 {
        settled(named(Arch::Aarch64, SubArch::Base, Os::IOs, Env::MacAbi))
    } else if k == 21 {
        settled(named(Arch::X86_64, SubArch::Base, Os::Windows, Env::Gnu))
    } else if k == 22 {
        settled(named(Arch::X86_64, SubArch::Base, Os::Windows, Env::Msvc))
    } else if k == 23 {
        settled(named(Arch::Aarch64, SubArch::Base, Os::Windows, Env::Gnu))
    } else if k == 24 {
        settled(named(Arch::Aarch64, SubArch::Base, Os::Windows, Env::Msvc))
    } else if k == 25 {
        settled(named(Arch::Arm64Ec, SubArch::Base, Os::Windows, Env::Msvc))
    } else if k == 26 {
        settled(named(Arch::X86, SubArch::Base, Os::Windows, Env::Gnu))
    } else if k == 27 {
        settled(named(Arch::X86_64, SubArch::Base, Os::FreeBsd, Env::Absent))
    } else if k == 28 {
        settled(named(Arch::Aarch64, SubArch::Base, Os::FreeBsd, Env::Absent))
    } else if k == 29 {
        settled(named(Arch::X86_64, SubArch::Base, Os::NetBsd, Env::Absent))
    } else if k == 30 {
        settled(named(Arch::Aarch64, SubArch::Base, Os::NetBsd, Env::Absent))
    } else if k == 31 {
        settled(named(Arch::X86_64, SubArch::Base, Os::OpenBsd, Env::Absent))
    } else if k == 32 {
        settled(named(Arch::X86_64, SubArch::Base, Os::Illumos, Env::Absent))
    } else if k == 33 {
        settled(named(Arch::X86_64, SubArch::Base, Os::Freestanding, Env::Absent))
    } else if k == 34 {
        settled(named(Arch::Aarch64, SubArch::Base, Os::Freestanding, Env::Absent))
    } else if k == 35 {
        settled(named(Arch::Riscv64, SubArch::Base, Os::Freestanding, Env::Absent))
    } else if k == 36 {
        settled(named(Arch::X86, SubArch::Base, Os::Freestanding, Env::Absent))
    } else if k == 37 {
        settled(named(Arch::Arm, SubArch::ArmV7A, Os::Freestanding, Env::Absent))
    } else if k == 38 {
        settled(named(Arch::Arm, SubArch::ArmV7M, Os::Freestanding, Env::Absent))
    } else if k == 39 {
        settled(TupleView { os_version: Some((1u32, None::<u32>, None::<u32>)), ..named(Arch::Wasm32, SubArch::Base, Os::Wasi, Env::Absent) })
    } else if k == 40 {
        settled(TupleView { os_version: Some((3u32, None::<u32>, None::<u32>)), ..named(Arch::Wasm32, SubArch::Base, Os::Wasi, Env::Absent) })
    } else {
        settled(named(Arch::Wasm32, SubArch::Base, Os::Freestanding, Env::Absent))
    }
}

/// Where a tuple stands in the table: the first row that reads as it, or the length of the
/// table for none.
spec fn row_position(t: TupleView) -> int {
    if t == row_tuple(0) {
        0
    } else if t == row_tuple(1) {
        1
    } else if t == row_tuple(2) {
        2
    } else if t == row_tuple(3) {
        3
    } else if t == row_tuple(4) {
        4
    } else if t == row_tuple(5) {
        5
    } else if t == row_tuple(6) {
        6
    } else if t == row_tuple(7) {
        7
    } else if t == row_tuple(8) {
        8
    } else if t == row_tuple(9) {
        9
    } else if t == row_tuple(10) {
        10
    } else if t == row_tuple(11) {
        11
    } else if t == row_tuple(12) {
        12
    } else if t == row_tuple(13) {
        13
    } else if t == row_tuple(14) {
        14
    } else if t == row_tuple(15) {
        15
    } else if t == row_tuple(16) {
        16
    } else if t == row_tuple(17) {
        17
    } else if t == row_tuple(18) {
        18
    } else if t == row_tuple(19) {
        19
    } else if t == row_tuple(20) {
        20
    } else if t == row_tuple(21) {
        21
    } else if t == row_tuple(22) {
        22
    } else if t == row_tuple(23) {
        23
    } else if t == row_tuple(24) {
        24
    } else if t == row_tuple(25) {
        25
    } else if t == row_tuple(26) {
        26
    } else if t == row_tuple(27) {
        27
    } else if t == row_tuple(28) {
        28
    } else if t == row_tuple(29) {
        29
    } else if t == row_tuple(30) {
        30
    } else if t == row_tuple(31) {
        31
    } else if t == row_tuple(32) {
        32
    } else if t == row_tuple(33) {
        33
    } else if t == row_tuple(34) {
        34
    } else if t == row_tuple(35) {
        35
    } else if t == row_tuple(36) {
        36
    } else if t == row_tuple(37) {
        37
    } else if t == row_tuple(38) {
        38
    } else if t == row_tuple(39) {
        39
    } else if t == row_tuple(40) {
        40
    } else if t == row_tuple(41) {
        41
    } else {
        42
    }
}

/// The glibc rows, and the other hosted Linux rows with the default environment, read as their tuples.
#[verifier::spinoff_prover]
proof fn lemma_glibc_rows_read()
    ensures
        reads_as("x86_64-linux-gnu"@, row_tuple(0)),
        reads_as("aarch64-linux-gnu"@, row_tuple(2)),
        reads_as("riscv64-linux-gnu"@, row_tuple(4)),
        reads_as("i686-linux-gnu"@, row_tuple(6)),
        reads_as("loongarch64-linux-gnu"@, row_tuple(9)),
        reads_as("powerpc64le-linux-gnu"@, row_tuple(10)),
        reads_as("s390x-linux-gnu"@, row_tuple(11)),
{
    reveal(reads_as);
    reveal_strlit("-");
    reveal_strlit("");
    reveal_strlit("x86_64-linux-gnu");
    reveal_strlit("x86_64");
    reveal_strlit("linux");
    reveal_strlit("gnu");
    reveal_strlit("aarch64-linux-gnu");
    reveal_strlit("aarch64");
    reveal_strlit("riscv64-linux-gnu");
    reveal_strlit("riscv64");
    reveal_strlit("i686-linux-gnu");
    reveal_strlit("i686");
    reveal_strlit("loongarch64-linux-gnu");
    reveal_strlit("loongarch64");
    reveal_strlit("powerpc64le-linux-gnu");
    reveal_strlit("powerpc64");
    reveal_strlit("le");
    reveal_strlit("s390x-linux-gnu");
    reveal_strlit("s390x");
    let t = named(Arch::X86_64, SubArch::Base, Os::Linux, Env::Gnu);
    written_spelling_reads_back(t);
    assert(canonical(t) =~= "x86_64-linux-gnu"@);
    let t = named(Arch::Aarch64, SubArch::Base, Os::Linux, Env::Gnu);
    written_spelling_reads_back(t);
    assert(canonical(t) =~= "aarch64-linux-gnu"@);
    let t = named(Arch::Riscv64, SubArch::Base, Os::Linux, Env::Gnu);
    written_spelling_reads_back(t);
    assert(canonical(t) =~= "riscv64-linux-gnu"@);
    let t = named(Arch::X86, SubArch::Base, Os::Linux, Env::Gnu);
    written_spelling_reads_back(t);
    assert(canonical(t) =~= "i686-linux-gnu"@);
    let t = named(Arch::LoongArch64, SubArch::Base, Os::Linux, Env::Gnu);
    written_spelling_reads_back(t);
    assert(canonical(t) =~= "loongarch64-linux-gnu"@);
    let t = TupleView { endian: Endian::Little, ..named(Arch::PowerPc64, SubArch::Base, Os::Linux, Env::Gnu) };
    written_spelling_reads_back(t);
    assert(canonical(t) =~= "powerpc64le-linux-gnu"@);
    let t = named(Arch::S390x, SubArch::Base, Os::Linux, Env::Gnu);
    written_spelling_reads_back(t);
    assert(canonical(t) =~= "s390x-linux-gnu"@);
}

/// The musl rows, and the hard float ARM Linux rows, read as their tuples.
#[verifier::spinoff_prover]
proof fn lemma_musl_rows_read()
    ensures
        reads_as("x86_64-linux-musl"@, row_tuple(1)),
        reads_as("aarch64-linux-musl"@, row_tuple(3)),
        reads_as("riscv64-linux-musl"@, row_tuple(5)),
        reads_as("armv7-linux-gnueabihf"@, row_tuple(7)),
        reads_as("armv7-linux-musleabihf"@, row_tuple(8)),
{
    reveal(reads_as);
    reveal_strlit("-");
    reveal_strlit("");
    reveal_strlit("x86_64-linux-musl");
    reveal_strlit("x86_64");
    reveal_strlit("linux");
    reveal_strlit("musl");
    reveal_strlit("aarch64-linux-musl");
    reveal_strlit("aarch64");
    reveal_strlit("riscv64-linux-musl");
    reveal_strlit("riscv64");
    reveal_strlit("armv7-linux-gnueabihf");
    reveal_strlit("arm");
    reveal_strlit("gnu");
    reveal_strlit("v7");
    reveal_strlit("v7m");
    reveal_strlit("eabihf");
    reveal_strlit("eabi");
    reveal_strlit("armv7-linux-musleabihf");
    let t = named(Arch::X86_64, SubArch::Base, Os::Linux, Env::Musl);
    written_spelling_reads_back(t);
    assert(canonical(t) =~= "x86_64-linux-musl"@);
    let t = named(Arch::Aarch64, SubArch::Base, Os::Linux, Env::Musl);
    written_spelling_reads_back(t);
    assert(canonical(t) =~= "aarch64-linux-musl"@);
    let t = named(Arch::Riscv64, SubArch::Base, Os::Linux, Env::Musl);
    written_spelling_reads_back(t);
    assert(canonical(t) =~= "riscv64-linux-musl"@);
    let t = named(Arch::Arm, SubArch::ArmV7A, Os::Linux, Env::Gnu);
    written_spelling_reads_back(t);
    assert(canonical(t) =~= "armv7-linux-gnueabihf"@);
    let t = named(Arch::Arm, SubArch::ArmV7A, Os::Linux, Env::Musl);
    written_spelling_reads_back(t);
    assert(canonical(t) =~= "armv7-linux-musleabihf"@);
}

/// The Android rows, and the x32 row, read as their tuples.
#[verifier::spinoff_prover]
proof fn lemma_android_rows_read()
    ensures
        reads_as("aarch64-linux-android"@, row_tuple(12)),
        reads_as("x86_64-linux-android"@, row_tuple(13)),
        reads_as("riscv64-linux-android"@, row_tuple(14)),
        reads_as("x86_64-linux-gnux32"@, row_tuple(15)),
{
    reveal(reads_as);
    reveal_strlit("-");
    reveal_strlit("");
    reveal_strlit("aarch64-linux-android");
    reveal_strlit("aarch64");
    reveal_strlit("linux");
    reveal_strlit("android");
    reveal_strlit("x86_64-linux-android");
    reveal_strlit("x86_64");
    reveal_strlit("riscv64-linux-android");
    reveal_strlit("riscv64");
    reveal_strlit("x86_64-linux-gnux32");
    reveal_strlit("gnu");
    reveal_strlit("x32");
    let t = named(Arch::Aarch64, SubArch::Base, Os::Linux, Env::Android);
    written_spelling_reads_back(t);
    assert(canonical(t) =~= "aarch64-linux-android"@);
    let t = named(Arch::X86_64, SubArch::Base, Os::Linux, Env::Android);
    written_spelling_reads_back(t);
    assert(canonical(t) =~= "x86_64-linux-android"@);
    let t = named(Arch::Riscv64, SubArch::Base, Os::Linux, Env::Android);
    written_spelling_reads_back(t);
    assert(canonical(t) =~= "riscv64-linux-android"@);
    let t = TupleView { data_model: DataModel::Ilp32On64, ..named(Arch::X86_64, SubArch::Base, Os::Linux, Env::Gnu) };
    written_spelling_reads_back(t);
    assert(canonical(t) =~= "x86_64-linux-gnux32"@);
}

/// The Darwin rows read as their tuples.
#[verifier::spinoff_prover]
proof fn lemma_darwin_rows_read()
    ensures
        reads_as("aarch64-macos"@, row_tuple(16)),
        reads_as("x86_64-macos"@, row_tuple(17)),
        reads_as("aarch64-ios"@, row_tuple(18)),
        reads_as("aarch64-ios-simulator"@, row_tuple(19)),
        reads_as("aarch64-ios-macabi"@, row_tuple(20)),
{
    reveal(reads_as);
    reveal_strlit("-");
    reveal_strlit("");
    reveal_strlit("aarch64-macos");
    reveal_strlit("aarch64");
    reveal_strlit("macos");
    reveal_strlit("x86_64-macos");
    reveal_strlit("x86_64");
    reveal_strlit("aarch64-ios");
    reveal_strlit("ios");
    reveal_strlit("aarch64-ios-simulator");
    reveal_strlit("simulator");
    reveal_strlit("aarch64-ios-macabi");
    reveal_strlit("macabi");
    let t = named(Arch::Aarch64, SubArch::Base, Os::MacOs, Env::Absent);
    written_spelling_reads_back(t);
    assert(canonical(t) =~= "aarch64-macos"@);
    let t = named(Arch::X86_64, SubArch::Base, Os::MacOs, Env::Absent);
    written_spelling_reads_back(t);
    assert(canonical(t) =~= "x86_64-macos"@);
    let t = named(Arch::Aarch64, SubArch::Base, Os::IOs, Env::Absent);
    written_spelling_reads_back(t);
    assert(canonical(t) =~= "aarch64-ios"@);
    let t = named(Arch::Aarch64, SubArch::Base, Os::IOs, Env::Simulator);
    written_spelling_reads_back(t);
    assert(canonical(t) =~= "aarch64-ios-simulator"@);
    let t = named(Arch::Aarch64, SubArch::Base, Os::IOs, Env::MacAbi);
    written_spelling_reads_back(t);
    assert(canonical(t) =~= "aarch64-ios-macabi"@);
}

/// The Windows rows read as their tuples.
#[verifier::spinoff_prover]
proof fn lemma_windows_rows_read()
    ensures
        reads_as("x86_64-windows-gnu"@, row_tuple(21)),
        reads_as("x86_64-windows-msvc"@, row_tuple(22)),
        reads_as("aarch64-windows-gnu"@, row_tuple(23)),
        reads_as("aarch64-windows-msvc"@, row_tuple(24)),
        reads_as("arm64ec-windows-msvc"@, row_tuple(25)),
        reads_as("i686-windows-gnu"@, row_tuple(26)),
{
    reveal(reads_as);
    reveal_strlit("-");
    reveal_strlit("");
    reveal_strlit("x86_64-windows-gnu");
    reveal_strlit("x86_64");
    reveal_strlit("windows");
    reveal_strlit("gnu");
    reveal_strlit("x86_64-windows-msvc");
    reveal_strlit("msvc");
    reveal_strlit("aarch64-windows-gnu");
    reveal_strlit("aarch64");
    reveal_strlit("aarch64-windows-msvc");
    reveal_strlit("arm64ec-windows-msvc");
    reveal_strlit("arm64ec");
    reveal_strlit("i686-windows-gnu");
    reveal_strlit("i686");
    let t = named(Arch::X86_64, SubArch::Base, Os::Windows, Env::Gnu);
    written_spelling_reads_back(t);
    assert(canonical(t) =~= "x86_64-windows-gnu"@);
    let t = named(Arch::X86_64, SubArch::Base, Os::Windows, Env::Msvc);
    written_spelling_reads_back(t);
    assert(canonical(t) =~= "x86_64-windows-msvc"@);
    let t = named(Arch::Aarch64, SubArch::Base, Os::Windows, Env::Gnu);
    written_spelling_reads_back(t);
    assert(canonical(t) =~= "aarch64-windows-gnu"@);
    let t = named(Arch::Aarch64, SubArch::Base, Os::Windows, Env::Msvc);
    written_spelling_reads_back(t);
    assert(canonical(t) =~= "aarch64-windows-msvc"@);
    let t = named(Arch::Arm64Ec, SubArch::Base, Os::Windows, Env::Msvc);
    written_spelling_reads_back(t);
    assert(canonical(t) =~= "arm64ec-windows-msvc"@);
    let t = named(Arch::X86, SubArch::Base, Os::Windows, Env::Gnu);
    written_spelling_reads_back(t);
    assert(canonical(t) =~= "i686-windows-gnu"@);
}

/// The BSD and illumos rows read as their tuples.
#[verifier::spinoff_prover]
proof fn lemma_bsd_rows_read()
    ensures
        reads_as("x86_64-freebsd"@, row_tuple(27)),
        reads_as("aarch64-freebsd"@, row_tuple(28)),
        reads_as("x86_64-netbsd"@, row_tuple(29)),
        reads_as("aarch64-netbsd"@, row_tuple(30)),
        reads_as("x86_64-openbsd"@, row_tuple(31)),
        reads_as("x86_64-illumos"@, row_tuple(32)),
{
    reveal(reads_as);
    reveal_strlit("-");
    reveal_strlit("");
    reveal_strlit("x86_64-freebsd");
    reveal_strlit("x86_64");
    reveal_strlit("freebsd");
    reveal_strlit("aarch64-freebsd");
    reveal_strlit("aarch64");
    reveal_strlit("x86_64-netbsd");
    reveal_strlit("netbsd");
    reveal_strlit("aarch64-netbsd");
    reveal_strlit("x86_64-openbsd");
    reveal_strlit("openbsd");
    reveal_strlit("x86_64-illumos");
    reveal_strlit("illumos");
    let t = named(Arch::X86_64, SubArch::Base, Os::FreeBsd, Env::Absent);
    written_spelling_reads_back(t);
    assert(canonical(t) =~= "x86_64-freebsd"@);
    let t = named(Arch::Aarch64, SubArch::Base, Os::FreeBsd, Env::Absent);
    written_spelling_reads_back(t);
    assert(canonical(t) =~= "aarch64-freebsd"@);
    let t = named(Arch::X86_64, SubArch::Base, Os::NetBsd, Env::Absent);
    written_spelling_reads_back(t);
    assert(canonical(t) =~= "x86_64-netbsd"@);
    let t = named(Arch::Aarch64, SubArch::Base, Os::NetBsd, Env::Absent);
    written_spelling_reads_back(t);
    assert(canonical(t) =~= "aarch64-netbsd"@);
    let t = named(Arch::X86_64, SubArch::Base, Os::OpenBsd, Env::Absent);
    written_spelling_reads_back(t);
    assert(canonical(t) =~= "x86_64-openbsd"@);
    let t = named(Arch::X86_64, SubArch::Base, Os::Illumos, Env::Absent);
    written_spelling_reads_back(t);
    assert(canonical(t) =~= "x86_64-illumos"@);
}

/// The freestanding rows other than ARM read as their tuples.
#[verifier::spinoff_prover]
proof fn lemma_freestanding_rows_read()
    ensures
        reads_as("x86_64-none"@, row_tuple(33)),
        reads_as("aarch64-none"@, row_tuple(34)),
        reads_as("riscv64-none"@, row_tuple(35)),
        reads_as("i686-none"@, row_tuple(36)),
        reads_as("wasm32-none"@, row_tuple(41)),
{
    reveal(reads_as);
    reveal_strlit("-");
    reveal_strlit("");
    reveal_strlit("x86_64-none");
    reveal_strlit("x86_64");
    reveal_strlit("none");
    reveal_strlit("aarch64-none");
    reveal_strlit("aarch64");
    reveal_strlit("riscv64-none");
    reveal_strlit("riscv64");
    reveal_strlit("i686-none");
    reveal_strlit("i686");
    reveal_strlit("wasm32-none");
    reveal_strlit("wasm32");
    let t = named(Arch::X86_64, SubArch::Base, Os::Freestanding, Env::Absent);
    written_spelling_reads_back(t);
    assert(canonical(t) =~= "x86_64-none"@);
    let t = named(Arch::Aarch64, SubArch::Base, Os::Freestanding, Env::Absent);
    written_spelling_reads_back(t);
    assert(canonical(t) =~= "aarch64-none"@);
    let t = named(Arch::Riscv64, SubArch::Base, Os::Freestanding, Env::Absent);
    written_spelling_reads_back(t);
    assert(canonical(t) =~= "riscv64-none"@);
    let t = named(Arch::X86, SubArch::Base, Os::Freestanding, Env::Absent);
    written_spelling_reads_back(t);
    assert(canonical(t) =~= "i686-none"@);
    let t = named(Arch::Wasm32, SubArch::Base, Os::Freestanding, Env::Absent);
    written_spelling_reads_back(t);
    assert(canonical(t) =~= "wasm32-none"@);
}

/// The freestanding ARM rows read as their tuples.
#[verifier::spinoff_prover]
proof fn lemma_arm_freestanding_rows_read()
    ensures
        reads_as("armv7-none-eabi"@, row_tuple(37)),
        reads_as("armv7m-none-eabi"@, row_tuple(38)),
{
    reveal(reads_as);
    reveal_strlit("-");
    reveal_strlit("");
    reveal_strlit("armv7-none-eabi");
    reveal_strlit("arm");
    reveal_strlit("none");
    reveal_strlit("v7");
    reveal_strlit("v7m");
    reveal_strlit("eabihf");
    reveal_strlit("eabi");
    reveal_strlit("armv7m-none-eabi");
    let t = named(Arch::Arm, SubArch::ArmV7A, Os::Freestanding, Env::Absent);
    written_spelling_reads_back(t);
    assert(canonical(t) =~= "armv7-none-eabi"@);
    let t = named(Arch::Arm, SubArch::ArmV7M, Os::Freestanding, Env::Absent);
    written_spelling_reads_back(t);
    assert(canonical(t) =~= "armv7m-none-eabi"@);
}

/// The WASI rows read as their tuples.
#[verifier::spinoff_prover]
proof fn lemma_wasi_rows_read()
    ensures
        reads_as("wasm32-wasip1"@, row_tuple(39)),
        reads_as("wasm32-wasip3"@, row_tuple(40)),
{
    reveal(reads_as);
    reveal_strlit("-");
    reveal_strlit("");
    reveal_strlit("wasm32-wasip1");
    reveal_strlit("wasm32");
    reveal_strlit("wasip");
    reveal_strlit("wasm32-wasip3");
    let t = TupleView { os_version: Some((1u32, None::<u32>, None::<u32>)), ..named(Arch::Wasm32, SubArch::Base, Os::Wasi, Env::Absent) };
    written_spelling_reads_back(t);
    assert(canonical(t) =~= "wasm32-wasip1"@);
    let t = TupleView { os_version: Some((3u32, None::<u32>, None::<u32>)), ..named(Arch::Wasm32, SubArch::Base, Os::Wasi, Env::Absent) };
    written_spelling_reads_back(t);
    assert(canonical(t) =~= "wasm32-wasip3"@);
}

/// The spelling of every row of the table.
#[verifier::rlimit(100)]
#[verifier::spinoff_prover]
proof fn lemma_row_spellings()
    ensures
        target_table().len() == 42,
        target_table()[0].tuple == "x86_64-linux-gnu"@,
        target_table()[1].tuple == "x86_64-linux-musl"@,
        target_table()[2].tuple == "aarch64-linux-gnu"@,
        target_table()[3].tuple == "aarch64-linux-musl"@,
        target_table()[4].tuple == "riscv64-linux-gnu"@,
        target_table()[5].tuple == "riscv64-linux-musl"@,
        target_table()[6].tuple == "i686-linux-gnu"@,
        target_table()[7].tuple == "armv7-linux-gnueabihf"@,
        target_table()[8].tuple == "armv7-linux-musleabihf"@,
        target_table()[9].tuple == "loongarch64-linux-gnu"@,
        target_table()[10].tuple == "powerpc64le-linux-gnu"@,
        target_table()[11].tuple == "s390x-linux-gnu"@,
        target_table()[12].tuple == "aarch64-linux-android"@,
        target_table()[13].tuple == "x86_64-linux-android"@,
        target_table()[14].tuple == "riscv64-linux-android"@,
        target_table()[15].tuple == "x86_64-linux-gnux32"@,
        target_table()[16].tuple == "aarch64-macos"@,
        target_table()[17].tuple == "x86_64-macos"@,
        target_table()[18].tuple == "aarch64-ios"@,
        target_table()[19].tuple == "aarch64-ios-simulator"@,
        target_table()[20].tuple == "aarch64-ios-macabi"@,
        target_table()[21].tuple == "x86_64-windows-gnu"@,
        target_table()[22].tuple == "x86_64-windows-msvc"@,
        target_table()[23].tuple == "aarch64-windows-gnu"@,
        target_table()[24].tuple == "aarch64-windows-msvc"@,
        target_table()[25].tuple == "arm64ec-windows-msvc"@,
        target_table()[26].tuple == "i686-windows-gnu"@,
        target_table()[27].tuple == "x86_64-freebsd"@,
        target_table()[28].tuple == "aarch64-freebsd"@,
        target_table()[29].tuple == "x86_64-netbsd"@,
        target_table()[30].tuple == "aarch64-netbsd"@,
        target_table()[31].tuple == "x86_64-openbsd"@,
        target_table()[32].tuple == "x86_64-illumos"@,
        target_table()[33].tuple == "x86_64-none"@,
        target_table()[34].tuple == "aarch64-none"@,
        target_table()[35].tuple == "riscv64-none"@,
        target_table()[36].tuple == "i686-none"@,
        target_table()[37].tuple == "armv7-none-eabi"@,
        target_table()[38].tuple == "armv7m-none-eabi"@,
        target_table()[39].tuple == "wasm32-wasip1"@,
        target_table()[40].tuple == "wasm32-wasip3"@,
        target_table()[41].tuple == "wasm32-none"@,
{
    let rows = target_table();
    assert(rows.len() == 42);
    assert(rows[0].tuple == "x86_64-linux-gnu"@);
    assert(rows[1].tuple == "x86_64-linux-musl"@);
    assert(rows[2].tuple == "aarch64-linux-gnu"@);
    assert(rows[3].tuple == "aarch64-linux-musl"@);
    assert(rows[4].tuple == "riscv64-linux-gnu"@);
    assert(rows[5].tuple == "riscv64-linux-musl"@);
    assert(rows[6].tuple == "i686-linux-gnu"@);
    assert(rows[7].tuple == "armv7-linux-gnueabihf"@);
    assert(rows[8].tuple == "armv7-linux-musleabihf"@);
    assert(rows[9].tuple == "loongarch64-linux-gnu"@);
    assert(rows[10].tuple == "powerpc64le-linux-gnu"@);
    assert(rows[11].tuple == "s390x-linux-gnu"@);
    assert(rows[12].tuple == "aarch64-linux-android"@);
    assert(rows[13].tuple == "x86_64-linux-android"@);
    assert(rows[14].tuple == "riscv64-linux-android"@);
    assert(rows[15].tuple == "x86_64-linux-gnux32"@);
    assert(rows[16].tuple == "aarch64-macos"@);
    assert(rows[17].tuple == "x86_64-macos"@);
    assert(rows[18].tuple == "aarch64-ios"@);
    assert(rows[19].tuple == "aarch64-ios-simulator"@);
    assert(rows[20].tuple == "aarch64-ios-macabi"@);
    assert(rows[21].tuple == "x86_64-windows-gnu"@);
    assert(rows[22].tuple == "x86_64-windows-msvc"@);
    assert(rows[23].tuple == "aarch64-windows-gnu"@);
    assert(rows[24].tuple == "aarch64-windows-msvc"@);
    assert(rows[25].tuple == "arm64ec-windows-msvc"@);
    assert(rows[26].tuple == "i686-windows-gnu"@);
    assert(rows[27].tuple == "x86_64-freebsd"@);
    assert(rows[28].tuple == "aarch64-freebsd"@);
    assert(rows[29].tuple == "x86_64-netbsd"@);
    assert(rows[30].tuple == "aarch64-netbsd"@);
    assert(rows[31].tuple == "x86_64-openbsd"@);
    assert(rows[32].tuple == "x86_64-illumos"@);
    assert(rows[33].tuple == "x86_64-none"@);
    assert(rows[34].tuple == "aarch64-none"@);
    assert(rows[35].tuple == "riscv64-none"@);
    assert(rows[36].tuple == "i686-none"@);
    assert(rows[37].tuple == "armv7-none-eabi"@);
    assert(rows[38].tuple == "armv7m-none-eabi"@);
    assert(rows[39].tuple == "wasm32-wasip1"@);
    assert(rows[40].tuple == "wasm32-wasip3"@);
    assert(rows[41].tuple == "wasm32-none"@);
}

/// Every row of the table reads as its tuple.
#[verifier::rlimit(100)]
#[verifier::spinoff_prover]
proof fn lemma_rows_read()
    ensures
        forall|k: int|
            0 <= k < target_table().len() ==> reads_as(#[trigger] target_table()[k].tuple, row_tuple(k)),
{
    lemma_glibc_rows_read();
    lemma_musl_rows_read();
    lemma_android_rows_read();
    lemma_darwin_rows_read();
    lemma_windows_rows_read();
    lemma_bsd_rows_read();
    lemma_freestanding_rows_read();
    lemma_arm_freestanding_rows_read();
    lemma_wasi_rows_read();
    lemma_row_spellings();
    assert forall|k: int| 0 <= k < target_table().len() implies reads_as(
        #[trigger] target_table()[k].tuple,
        row_tuple(k),
    ) by {
        assert(k == 0 || k == 1 || k == 2 || k == 3 || k == 4 || k == 5 || k == 6 || k == 7 || k == 8 || k == 9 || k == 10 || k == 11 || k == 12 || k == 13 || k == 14 || k == 15 || k == 16 || k == 17 || k == 18 || k == 19 || k == 20 || k == 21 || k == 22 || k == 23 || k == 24 || k == 25 || k == 26 || k == 27 || k == 28 || k == 29 || k == 30 || k == 31 || k == 32 || k == 33 || k == 34 || k == 35 || k == 36 || k == 37 || k == 38 || k == 39 || k == 40 || k == 41);
    }
}

/// Rows 0 to 13 are where their tuples stand.
#[verifier::rlimit(100)]
#[verifier::spinoff_prover]
proof fn lemma_row_positions_0()
    ensures
        row_position(row_tuple(0)) == 0,
        row_position(row_tuple(1)) == 1,
        row_position(row_tuple(2)) == 2,
        row_position(row_tuple(3)) == 3,
        row_position(row_tuple(4)) == 4,
        row_position(row_tuple(5)) == 5,
        row_position(row_tuple(6)) == 6,
        row_position(row_tuple(7)) == 7,
        row_position(row_tuple(8)) == 8,
        row_position(row_tuple(9)) == 9,
        row_position(row_tuple(10)) == 10,
        row_position(row_tuple(11)) == 11,
        row_position(row_tuple(12)) == 12,
        row_position(row_tuple(13)) == 13,
{
}

/// Rows 14 to 27 are where their tuples stand.
#[verifier::rlimit(100)]
#[verifier::spinoff_prover]
proof fn lemma_row_positions_1()
    ensures
        row_position(row_tuple(14)) == 14,
        row_position(row_tuple(15)) == 15,
        row_position(row_tuple(16)) == 16,
        row_position(row_tuple(17)) == 17,
        row_position(row_tuple(18)) == 18,
        row_position(row_tuple(19)) == 19,
        row_position(row_tuple(20)) == 20,
        row_position(row_tuple(21)) == 21,
        row_position(row_tuple(22)) == 22,
        row_position(row_tuple(23)) == 23,
        row_position(row_tuple(24)) == 24,
        row_position(row_tuple(25)) == 25,
        row_position(row_tuple(26)) == 26,
        row_position(row_tuple(27)) == 27,
{
}

/// Rows 28 to 41 are where their tuples stand.
#[verifier::rlimit(100)]
#[verifier::spinoff_prover]
proof fn lemma_row_positions_2()
    ensures
        row_position(row_tuple(28)) == 28,
        row_position(row_tuple(29)) == 29,
        row_position(row_tuple(30)) == 30,
        row_position(row_tuple(31)) == 31,
        row_position(row_tuple(32)) == 32,
        row_position(row_tuple(33)) == 33,
        row_position(row_tuple(34)) == 34,
        row_position(row_tuple(35)) == 35,
        row_position(row_tuple(36)) == 36,
        row_position(row_tuple(37)) == 37,
        row_position(row_tuple(38)) == 38,
        row_position(row_tuple(39)) == 39,
        row_position(row_tuple(40)) == 40,
        row_position(row_tuple(41)) == 41,
{
}

/// Every row of the table is written canonically: it parses, and the tuple it parses to writes
/// the row back. A table whose keys were not canonical would be a cache with two entries per
/// target.
pub proof fn every_row_reads_back_to_itself()
    ensures
        forall|i: int|
            0 <= i < target_table().len() ==> {
                let s = #[trigger] target_table()[i].tuple;
                &&& parse_spec(s) is Ok
                &&& canonical(parse_spec(s)->Ok_0) == s
            },
{
    lemma_rows_read();
    assert forall|i: int| 0 <= i < target_table().len() implies {
        let s = #[trigger] target_table()[i].tuple;
        &&& parse_spec(s) is Ok
        &&& canonical(parse_spec(s)->Ok_0) == s
    } by {
        assert(reads_as(target_table()[i].tuple, row_tuple(i)));
        reveal(reads_as);
    }
}

/// No row appears twice: the rows read as different tuples, so their spellings differ.
pub proof fn no_row_appears_twice()
    ensures
        forall|i: int, j: int|
            0 <= i < j < target_table().len() ==> #[trigger] target_table()[i].tuple
                != #[trigger] target_table()[j].tuple,
{
    lemma_rows_read();
    lemma_row_positions_0();
    lemma_row_positions_1();
    lemma_row_positions_2();
    assert forall|k: int| 0 <= k < target_table().len() implies #[trigger] row_position(
        row_tuple(k),
    ) == k by {
        assert(target_table().len() == 42) by {
            lemma_row_spellings();
        }
        assert(k == 0 || k == 1 || k == 2 || k == 3 || k == 4 || k == 5 || k == 6 || k == 7 || k == 8 || k == 9 || k == 10 || k == 11 || k == 12 || k == 13 || k == 14 || k == 15 || k == 16 || k == 17 || k == 18 || k == 19 || k == 20 || k == 21 || k == 22 || k == 23 || k == 24 || k == 25 || k == 26 || k == 27 || k == 28 || k == 29 || k == 30 || k == 31 || k == 32 || k == 33 || k == 34 || k == 35 || k == 36 || k == 37 || k == 38 || k == 39 || k == 40 || k == 41);
    }
    assert forall|i: int, j: int| 0 <= i < j < target_table().len() implies #[trigger] target_table()[i].tuple
        != #[trigger] target_table()[j].tuple by {
        assert(reads_as(target_table()[i].tuple, row_tuple(i)));
        assert(reads_as(target_table()[j].tuple, row_tuple(j)));
        reveal(reads_as);
        assert(row_position(row_tuple(i)) == i);
        assert(row_position(row_tuple(j)) == j);
    }
}

/// The tiers of the table are consistent: no row plans to get worse than it is today, every
/// tier is one some row plans to reach, and the reference target, the first row, is at the
/// best tier any row is at today.
#[verifier::rlimit(100)]
#[verifier::spinoff_prover]
pub proof fn the_tiers_are_consistent()
    ensures
        forall|i: int|
            0 <= i < target_table().len() ==> (#[trigger] target_table()[i]).planned.spec_number()
                <= target_table()[i].tier.spec_number(),
        exists|i: int|
            0 <= i < target_table().len() && (#[trigger] target_table()[i]).planned is Supported,
        exists|i: int|
            0 <= i < target_table().len() && (#[trigger] target_table()[i]).planned is SupportedWithEvidence,
        exists|i: int|
            0 <= i < target_table().len() && (#[trigger] target_table()[i]).planned is InProgress,
        exists|i: int|
            0 <= i < target_table().len() && (#[trigger] target_table()[i]).planned is Recognized,
        target_table()[0].tuple == "x86_64-linux-gnu"@,
        forall|i: int|
            0 <= i < target_table().len() ==> target_table()[0].tier.spec_number() <= (
            #[trigger] target_table()[i]).tier.spec_number(),
{
    let rows = target_table();
    assert(rows.len() == 42);
    assert forall|i: int| 0 <= i < rows.len() implies {
        &&& (#[trigger] rows[i]).planned.spec_number() <= rows[i].tier.spec_number()
        &&& rows[0].tier.spec_number() <= rows[i].tier.spec_number()
    } by {
        assert(i == 0 || i == 1 || i == 2 || i == 3 || i == 4 || i == 5 || i == 6 || i == 7 || i == 8 || i == 9 || i == 10 || i == 11 || i == 12 || i == 13 || i == 14 || i == 15 || i == 16 || i == 17 || i == 18 || i == 19 || i == 20 || i == 21 || i == 22 || i == 23 || i == 24 || i == 25 || i == 26 || i == 27 || i == 28 || i == 29 || i == 30 || i == 31 || i == 32 || i == 33 || i == 34 || i == 35 || i == 36 || i == 37 || i == 38 || i == 39 || i == 40 || i == 41);
    }
    assert(rows[0].planned is Supported);
    assert(rows[5].planned is SupportedWithEvidence);
    assert(rows[13].planned is InProgress);
    assert(rows[14].planned is Recognized);
}


/// The per-tier counts add up to the number of rows, and the rows whose plan compiles and
/// links are exactly those planned for the first three tiers, whatever the rows are.
pub proof fn the_counts_add_up(rows: Seq<RowView>)
    ensures
        count_planned(rows, 1) + count_planned(rows, 2) + count_planned(rows, 3) + count_planned(
            rows,
            4,
        ) == rows.len(),
        count_working(rows) == count_planned(rows, 1) + count_planned(rows, 2) + count_planned(
            rows,
            3,
        ),
    decreases rows.len(),
{
    if rows.len() > 0 {
        the_counts_add_up(rows.drop_last());
    }
}

/// Tiers are numbered one to four, and the first three are the ones that compile and link.
pub proof fn the_tier_numbers_run_one_to_four(t: Tier)
    ensures
        1 <= t.spec_number() <= 4,
        !(t is Recognized) == (t.spec_number() <= 3),
{
}

} // verus!
