//! Reading a tuple that somebody typed, pasted from a Clang invocation, or copied out of a
//! distribution's package name.
//!
//! Accept every spelling anyone else writes, emit one spelling, and never skip a component.

use vstd::prelude::*;

use crate::abi::Abi;
use crate::arch::{Arch, DataModel, Endian, SubArch};
use crate::error::{Error, ErrorView};
use crate::os::{Env, Os, Version, VersionView};
use crate::text::{
    char_is_digit, chars_ends_with, chars_eq, chars_of, chars_starts_with, ends_with, is_digit,
    is_whitespace, lemma_split_concat, lemma_split_nonempty, lemma_trim_unchanged, lower, lower_chars, parse_u32,
    parse_u32_chars, slice_chars, split, split_chars, starts_with, string_of, trim, trim_chars,
};
use crate::tuple::{build_spec, BuilderView, TargetTuple, TupleBuilder, TupleView};

verus! {

/// Whether a component is a vendor, which carries no information and exists to be skipped.
pub open spec fn is_vendor(s: Seq<char>) -> bool {
    ||| s == "unknown"@
    ||| s == "pc"@
    ||| s == "apple"@
    ||| s == "w64"@
    ||| s == "none"@
    ||| s == "ibm"@
    ||| s == "sun"@
    ||| s == "suse"@
    ||| s == "redhat"@
    ||| s == "alpine"@
    ||| s == "poky"@
    ||| s == "buildroot"@
    ||| s == "nvidia"@
    ||| s == "amd"@
    ||| s == "intel"@
    ||| s == "linaro"@
}

/// The leading components that name a family and a byte order outright.
pub open spec fn simple_arch(l: Seq<char>) -> Option<(Arch, Endian)> {
    if l == "x86_64"@ || l == "amd64"@ || l == "x64"@ || l == "x86_64h"@ {
        Some((Arch::X86_64, Endian::Little))
    } else if l == "i386"@ || l == "i486"@ || l == "i586"@ || l == "i686"@ || l == "i786"@ || l
        == "x86"@ || l == "ia32"@ {
        Some((Arch::X86, Endian::Little))
    } else if l == "aarch64"@ || l == "arm64"@ || l == "aarch64_32"@ {
        Some((Arch::Aarch64, Endian::Little))
    } else if l == "aarch64_be"@ || l == "aarch64be"@ || l == "arm64_be"@ {
        Some((Arch::Aarch64, Endian::Big))
    } else if l == "arm64ec"@ {
        Some((Arch::Arm64Ec, Endian::Little))
    } else if l == "riscv64"@ || l == "rv64"@ {
        Some((Arch::Riscv64, Endian::Little))
    } else if l == "riscv32"@ || l == "rv32"@ {
        Some((Arch::Riscv32, Endian::Little))
    } else if l == "loongarch64"@ || l == "la64"@ {
        Some((Arch::LoongArch64, Endian::Little))
    } else if l == "powerpc64le"@ || l == "ppc64le"@ {
        Some((Arch::PowerPc64, Endian::Little))
    } else if l == "powerpc64"@ || l == "ppc64"@ {
        Some((Arch::PowerPc64, Endian::Big))
    } else if l == "s390x"@ {
        Some((Arch::S390x, Endian::Big))
    } else if l == "wasm32"@ {
        Some((Arch::Wasm32, Endian::Little))
    } else {
        None
    }
}

/// What follows an ARM prefix, with the byte order the prefix names.
pub open spec fn arm_prefix(l: Seq<char>) -> Option<(Seq<char>, Endian)> {
    if starts_with(l, "armeb"@) {
        Some((l.skip(5), Endian::Big))
    } else if starts_with(l, "thumbeb"@) {
        Some((l.skip(7), Endian::Big))
    } else if starts_with(l, "arm"@) {
        Some((l.skip(3), Endian::Little))
    } else if starts_with(l, "thumb"@) {
        Some((l.skip(5), Endian::Little))
    } else {
        None
    }
}

/// The ARM baselines by every spelling in use.
pub open spec fn arm_sub_arch(t: Seq<char>) -> Option<SubArch> {
    if t == ""@ {
        Some(SubArch::Base)
    } else if t == "v5"@ || t == "v5t"@ || t == "v5te"@ {
        Some(SubArch::ArmV5Te)
    } else if t == "v6"@ || t == "v6k"@ || t == "v6kz"@ || t == "v6t2"@ || t == "v6z"@ {
        Some(SubArch::ArmV6)
    } else if t == "v6m"@ || t == "v6s-m"@ || t == "v6sm"@ {
        Some(SubArch::ArmV6M)
    } else if t == "v7"@ || t == "v7a"@ || t == "v7ve"@ || t == "v7l"@ {
        Some(SubArch::ArmV7A)
    } else if t == "v7r"@ {
        Some(SubArch::ArmV7R)
    } else if t == "v7m"@ {
        Some(SubArch::ArmV7M)
    } else if t == "v7em"@ || t == "v7e-m"@ {
        Some(SubArch::ArmV7Em)
    } else if t == "v8"@ || t == "v8a"@ || t == "v8.1a"@ || t == "v8l"@ {
        Some(SubArch::ArmV8A)
    } else if t == "v8m"@ || t == "v8m.base"@ || t == "v8m.main"@ || t == "v8.1m.main"@ {
        Some(SubArch::ArmV8M)
    } else {
        None
    }
}

/// Reading the leading component: a family by name, or ARM with a prefix that may name the
/// byte order, a baseline, and an `eb` suffix that names it too. Case does not matter, and an
/// unknown component is quoted as it was written.
pub open spec fn parse_arch_spec(s: Seq<char>) -> Result<(Arch, SubArch, Option<Endian>), ErrorView> {
    let l = lower(s);
    match simple_arch(l) {
        Some((arch, endian)) => Ok((arch, SubArch::Base, Some(endian))),
        None => match arm_prefix(l) {
            None => Err(ErrorView::UnknownArch(s)),
            Some((tail, prefix_endian)) => {
                let stripped = if ends_with(tail, "eb"@) {
                    tail.take(tail.len() - 2)
                } else {
                    tail
                };
                let endian = if ends_with(tail, "eb"@) {
                    Endian::Big
                } else {
                    prefix_endian
                };
                match arm_sub_arch(stripped) {
                    Some(sub) => Ok((Arch::Arm, sub, Some(endian))),
                    None => Err(ErrorView::UnknownArch(s)),
                }
            },
        },
    }
}

/// Where the version starts in a component: at the first digit or dot.
pub open spec fn version_start(s: Seq<char>) -> nat
    decreases s.len(),
{
    if s.len() == 0 {
        0
    } else if is_digit(s[0]) || s[0] == '.' {
        0
    } else {
        1 + version_start(s.drop_first())
    }
}

/// A component split into its name and its version text, the separating dot dropped.
pub open spec fn split_version(s: Seq<char>) -> (Seq<char>, Seq<char>) {
    let at = version_start(s) as int;
    if at >= s.len() {
        (s, Seq::empty())
    } else {
        let rest = s.skip(at);
        (s.take(at), if rest[0] == '.' {
            rest.drop_first()
        } else {
            rest
        })
    }
}

/// One, two or three dot separated numbers. Anything else is not a version.
pub open spec fn parse_version(s: Seq<char>) -> Option<VersionView> {
    let parts = split(s, '.');
    if parts.len() > 3 {
        None
    } else {
        match parse_u32(parts[0]) {
            None => None,
            Some(major) => if parts.len() == 1 {
                Some((major, None, None))
            } else {
                match parse_u32(parts[1]) {
                    None => None,
                    Some(minor) => if parts.len() == 2 {
                        Some((major, Some(minor), None))
                    } else {
                        match parse_u32(parts[2]) {
                            None => None,
                            Some(patch) => Some((major, Some(minor), Some(patch))),
                        }
                    },
                }
            },
        }
    }
}

/// A Darwin kernel version as the macOS product version it belongs to.
pub open spec fn darwin_to_macos(v: VersionView) -> Option<VersionView> {
    if v.0 >= 20 {
        Some(((v.0 - 9) as u32, None, None))
    } else if v.0 >= 5 {
        Some((10, Some((v.0 - 4) as u32), None))
    } else {
        None
    }
}

/// What an OS component says: the OS, its version, and the environment that the mingw
/// spellings imply. `None` when it is not an OS.
pub open spec fn parse_os_spec(s: Seq<char>) -> Option<(Os, Option<VersionView>, Option<Env>)> {
    let l = lower(s);
    if l == "mingw32"@ || l == "mingw64"@ || l == "mingw"@ {
        Some((Os::Windows, None, Some(Env::Gnu)))
    } else if l == "win32"@ || l == "windows"@ {
        Some((Os::Windows, None, None))
    } else if l == "none"@ || l == "unknown"@ || l == "freestanding"@ || l == "elf"@ {
        Some((Os::Freestanding, None, None))
    } else if l == "wasi"@ {
        Some((Os::Wasi, Some((1u32, None::<u32>, None::<u32>)), None))
    } else if starts_with(l, "wasip"@) {
        match parse_u32(l.skip(5)) {
            Some(major) => Some((Os::Wasi, Some((major, None::<u32>, None::<u32>)), None)),
            None => None,
        }
    } else {
        let (base, text) = split_version(l);
        let version = if text.len() == 0 {
            None
        } else {
            parse_version(text)
        };
        if text.len() != 0 && version is None {
            None
        } else if base == "linux"@ {
            Some((Os::Linux, version, None))
        } else if base == "macos"@ || base == "macosx"@ || base == "osx"@ {
            Some((Os::MacOs, version, None))
        } else if base == "darwin"@ {
            Some(
                (
                    Os::MacOs,
                    match version {
                        Some(v) => darwin_to_macos(v),
                        None => None,
                    },
                    None,
                ),
            )
        } else if base == "ios"@ || base == "iphoneos"@ {
            Some((Os::IOs, version, None))
        } else if base == "freebsd"@ {
            Some((Os::FreeBsd, version, None))
        } else if base == "netbsd"@ {
            Some((Os::NetBsd, version, None))
        } else if base == "openbsd"@ {
            Some((Os::OpenBsd, version, None))
        } else if base == "illumos"@ {
            Some((Os::Illumos, version, None))
        } else {
            None
        }
    }
}

/// What the environment component turned out to say.
pub ghost struct EnvParts {
    pub env: Option<Env>,
    pub version: Option<VersionView>,
    pub abi: Abi,
    pub data_model: Option<DataModel>,
}

/// The environment names, where the empty name and the placeholders name none.
pub open spec fn env_by_name(name: Seq<char>) -> Option<Option<Env>> {
    if name == ""@ || name == "none"@ || name == "unknown"@ || name == "elf"@ {
        Some(None)
    } else if name == "gnu"@ || name == "glibc"@ {
        Some(Some(Env::Gnu))
    } else if name == "musl"@ {
        Some(Some(Env::Musl))
    } else if name == "msvc"@ {
        Some(Some(Env::Msvc))
    } else if name == "android"@ || name == "androideabi"@ {
        Some(Some(Env::Android))
    } else if name == "sim"@ || name == "simulator"@ {
        Some(Some(Env::Simulator))
    } else if name == "macabi"@ || name == "catalyst"@ {
        Some(Some(Env::MacAbi))
    } else {
        None
    }
}

/// Reading the environment component: the suffixes GCC fuses into it come off first, longest
/// first (`eabihf`, `eabi`, `x32`), then a version, then the name.
pub open spec fn parse_env_spec(s: Seq<char>) -> Result<EnvParts, ErrorView> {
    let l = lower(s);
    let abi = if ends_with(l, "eabihf"@) {
        Abi::DoubleFloat
    } else if ends_with(l, "eabi"@) {
        Abi::SoftFloat
    } else {
        Abi::Default
    };
    let data_model = if !ends_with(l, "eabihf"@) && !ends_with(l, "eabi"@) && ends_with(
        l,
        "x32"@,
    ) {
        Some(DataModel::Ilp32On64)
    } else {
        None
    };
    let base = if ends_with(l, "eabihf"@) {
        l.take(l.len() - 6)
    } else if ends_with(l, "eabi"@) {
        l.take(l.len() - 4)
    } else if ends_with(l, "x32"@) {
        l.take(l.len() - 3)
    } else {
        l
    };
    let (name, text) = split_version(base);
    if text.len() != 0 && parse_version(text) is None {
        Err(ErrorView::BadVersion { component: "environment"@, found: text })
    } else {
        match env_by_name(name) {
            None => Err(ErrorView::UnknownEnv(s)),
            Some(env) => Ok(
                EnvParts {
                    env,
                    version: if text.len() == 0 {
                        None
                    } else {
                        parse_version(text)
                    },
                    abi,
                    data_model,
                },
            ),
        }
    }
}

/// The index of the OS component: past a vendor only when the component after the vendor is
/// an OS, which keeps `arm-none-eabi` and `arm-none-linux-gnueabi` both working.
pub open spec fn os_index(parts: Seq<Seq<char>>) -> int {
    if parts.len() > 2 && is_vendor(parts[1]) && parse_os_spec(parts[2]) is Some {
        2
    } else {
        1
    }
}

/// The builder that the components of a tuple describe.
pub open spec fn parsed_builder(
    arch: (Arch, SubArch, Option<Endian>),
    os: (Os, Option<VersionView>, Option<Env>),
    env: Option<EnvParts>,
) -> BuilderView {
    match env {
        None => BuilderView {
            arch: arch.0,
            sub_arch: arch.1,
            endian: arch.2,
            data_model: None,
            os: os.0,
            os_version: os.1,
            env: os.2,
            env_version: None,
            abi: Abi::Default,
        },
        Some(e) => BuilderView {
            arch: arch.0,
            sub_arch: arch.1,
            endian: arch.2,
            data_model: e.data_model,
            os: os.0,
            os_version: os.1,
            env: match e.env {
                Some(x) => Some(x),
                None => os.2,
            },
            env_version: e.version,
            abi: e.abi,
        },
    }
}

/// Reading a tuple: trimmed, split at dashes; an architecture; a vendor skipped only before an
/// OS; an OS, freestanding when absent; an environment if there is one; nothing left over; and
/// the combination checked by [`build_spec`].
pub open spec fn parse_spec(input: Seq<char>) -> Result<TupleView, ErrorView> {
    let t = trim(input);
    let parts = split(t, '-');
    if t.len() == 0 || parts[0].len() == 0 {
        Err(ErrorView::Empty)
    } else {
        match parse_arch_spec(parts[0]) {
            Err(e) => Err(e),
            Ok(arch) => {
                let i = os_index(parts);
                let os = if i < parts.len() {
                    parse_os_spec(parts[i])
                } else {
                    Some((Os::Freestanding, None, None))
                };
                match os {
                    None => Err(ErrorView::UnknownOs(parts[i])),
                    Some(os) => {
                        let j = if i < parts.len() {
                            i + 1
                        } else {
                            i
                        };
                        if j < parts.len() {
                            match parse_env_spec(parts[j]) {
                                Err(e) => Err(e),
                                Ok(env) => if j + 1 < parts.len() {
                                    Err(ErrorView::Trailing(parts.skip(j + 1)))
                                } else {
                                    build_spec(parsed_builder(arch, os, Some(env)))
                                },
                            }
                        } else {
                            build_spec(parsed_builder(arch, os, None))
                        }
                    },
                }
            },
        }
    }
}

/// The leading components that name a family and a byte order outright.
fn simple_arch_of(l: &Vec<char>) -> (r: Option<(Arch, Endian)>)
    ensures
        r == simple_arch(l@),
{
    if chars_eq(l, "x86_64") || chars_eq(l, "amd64") || chars_eq(l, "x64") || chars_eq(
        l,
        "x86_64h",
    ) {
        Some((Arch::X86_64, Endian::Little))
    } else if chars_eq(l, "i386") || chars_eq(l, "i486") || chars_eq(l, "i586") || chars_eq(
        l,
        "i686",
    ) || chars_eq(l, "i786") || chars_eq(l, "x86") || chars_eq(l, "ia32") {
        Some((Arch::X86, Endian::Little))
    } else if chars_eq(l, "aarch64") || chars_eq(l, "arm64") || chars_eq(l, "aarch64_32") {
        Some((Arch::Aarch64, Endian::Little))
    } else if chars_eq(l, "aarch64_be") || chars_eq(l, "aarch64be") || chars_eq(l, "arm64_be") {
        Some((Arch::Aarch64, Endian::Big))
    } else if chars_eq(l, "arm64ec") {
        Some((Arch::Arm64Ec, Endian::Little))
    } else if chars_eq(l, "riscv64") || chars_eq(l, "rv64") {
        Some((Arch::Riscv64, Endian::Little))
    } else if chars_eq(l, "riscv32") || chars_eq(l, "rv32") {
        Some((Arch::Riscv32, Endian::Little))
    } else if chars_eq(l, "loongarch64") || chars_eq(l, "la64") {
        Some((Arch::LoongArch64, Endian::Little))
    } else if chars_eq(l, "powerpc64le") || chars_eq(l, "ppc64le") {
        Some((Arch::PowerPc64, Endian::Little))
    } else if chars_eq(l, "powerpc64") || chars_eq(l, "ppc64") {
        Some((Arch::PowerPc64, Endian::Big))
    } else if chars_eq(l, "s390x") {
        Some((Arch::S390x, Endian::Big))
    } else if chars_eq(l, "wasm32") {
        Some((Arch::Wasm32, Endian::Little))
    } else {
        None
    }
}

/// The ARM baselines by every spelling in use.
fn arm_sub_arch_of(t: &Vec<char>) -> (r: Option<SubArch>)
    ensures
        r == arm_sub_arch(t@),
{
    if chars_eq(t, "") {
        Some(SubArch::Base)
    } else if chars_eq(t, "v5") || chars_eq(t, "v5t") || chars_eq(t, "v5te") {
        Some(SubArch::ArmV5Te)
    } else if chars_eq(t, "v6") || chars_eq(t, "v6k") || chars_eq(t, "v6kz") || chars_eq(
        t,
        "v6t2",
    ) || chars_eq(t, "v6z") {
        Some(SubArch::ArmV6)
    } else if chars_eq(t, "v6m") || chars_eq(t, "v6s-m") || chars_eq(t, "v6sm") {
        Some(SubArch::ArmV6M)
    } else if chars_eq(t, "v7") || chars_eq(t, "v7a") || chars_eq(t, "v7ve") || chars_eq(
        t,
        "v7l",
    ) {
        Some(SubArch::ArmV7A)
    } else if chars_eq(t, "v7r") {
        Some(SubArch::ArmV7R)
    } else if chars_eq(t, "v7m") {
        Some(SubArch::ArmV7M)
    } else if chars_eq(t, "v7em") || chars_eq(t, "v7e-m") {
        Some(SubArch::ArmV7Em)
    } else if chars_eq(t, "v8") || chars_eq(t, "v8a") || chars_eq(t, "v8.1a") || chars_eq(
        t,
        "v8l",
    ) {
        Some(SubArch::ArmV8A)
    } else if chars_eq(t, "v8m") || chars_eq(t, "v8m.base") || chars_eq(t, "v8m.main")
        || chars_eq(t, "v8.1m.main") {
        Some(SubArch::ArmV8M)
    } else {
        None
    }
}

/// `s` without a prefix of `n` characters that is known to be there.
fn skip_chars(s: &Vec<char>, n: usize) -> (r: Vec<char>)
    requires
        n <= s@.len(),
    ensures
        r@ == s@.skip(n as int),
{
    let r = slice_chars(s, n, s.len());
    assert(r@ =~= s@.skip(n as int));
    r
}

/// `s` without a suffix of `n` characters that is known to be there.
fn drop_chars(s: &Vec<char>, n: usize) -> (r: Vec<char>)
    requires
        n <= s@.len(),
    ensures
        r@ == s@.take(s@.len() - n),
{
    let r = slice_chars(s, 0, s.len() - n);
    assert(r@ =~= s@.take(s@.len() - n));
    r
}

/// What follows an ARM prefix, with the byte order the prefix names.
fn arm_prefix_of(l: &Vec<char>) -> (r: Option<(Vec<char>, Endian)>)
    ensures
        match r {
            Some((tail, e)) => arm_prefix(l@) == Some((tail@, e)),
            None => arm_prefix(l@) is None,
        },
{
    proof {
        reveal_strlit("armeb");
        reveal_strlit("thumbeb");
        reveal_strlit("arm");
        reveal_strlit("thumb");
    }
    if chars_starts_with(l, "armeb") {
        Some((skip_chars(l, 5), Endian::Big))
    } else if chars_starts_with(l, "thumbeb") {
        Some((skip_chars(l, 7), Endian::Big))
    } else if chars_starts_with(l, "arm") {
        Some((skip_chars(l, 3), Endian::Little))
    } else if chars_starts_with(l, "thumb") {
        Some((skip_chars(l, 5), Endian::Little))
    } else {
        None
    }
}

/// Read the leading component, which carries the architecture and, depending on the family,
/// the baseline and the byte order as well.
fn parse_arch(s: &Vec<char>) -> (r: Result<(Arch, SubArch, Option<Endian>), Error>)
    ensures
        match r {
            Ok(x) => parse_arch_spec(s@) == Ok::<_, ErrorView>(x),
            Err(e) => parse_arch_spec(s@) == Err::<(Arch, SubArch, Option<Endian>), _>(e@),
        },
{
    let lower = lower_chars(s);
    if let Some((arch, endian)) = simple_arch_of(&lower) {
        return Ok((arch, SubArch::Base, Some(endian)));
    }
    let prefixed = arm_prefix_of(&lower);
    let (tail, prefix_endian) = match prefixed {
        Some(p) => p,
        None => {
            return Err(Error::UnknownArch(string_of(s)));
        },
    };
    proof {
        reveal_strlit("eb");
    }
    let (stripped, endian) = if chars_ends_with(&tail, "eb") {
        (drop_chars(&tail, 2), Endian::Big)
    } else {
        (tail, prefix_endian)
    };
    match arm_sub_arch_of(&stripped) {
        Some(sub) => Ok((Arch::Arm, sub, Some(endian))),
        None => Err(Error::UnknownArch(string_of(s))),
    }
}

/// Skipping characters that are neither digits nor dots moves where the version starts.
pub proof fn lemma_version_start_skip(s: Seq<char>, i: int)
    requires
        0 <= i <= s.len(),
        forall|j: int| 0 <= j < i ==> !is_digit(#[trigger] s[j]) && s[j] != '.',
    ensures
        version_start(s) == i + version_start(s.skip(i)),
    decreases i,
{
    if i > 0 {
        lemma_version_start_skip(s.drop_first(), i - 1);
        assert(s.drop_first().skip(i - 1) =~= s.skip(i));
    } else {
        assert(s.skip(0) =~= s);
    }
}

/// Split a component into its name and its version text.
fn split_version_of(s: &Vec<char>) -> (r: (Vec<char>, Vec<char>))
    ensures
        (r.0@, r.1@) == split_version(s@),
{
    let n = s.len();
    let mut at: usize = 0;
    while at < n && !(char_is_digit(s[at]) || s[at] == '.')
        invariant
            n == s@.len(),
            at <= n,
            forall|j: int| 0 <= j < at ==> !is_digit(#[trigger] s@[j]) && s@[j] != '.',
        decreases n - at,
    {
        at = at + 1;
    }
    proof {
        lemma_version_start_skip(s@, at as int);
        if at < n {
            assert(s@.skip(at as int)[0] == s@[at as int]);
        } else {
            assert(s@.skip(at as int).len() == 0);
        }
    }
    if at == n {
        return (slice_chars(s, 0, n), Vec::new());
    }
    let name = slice_chars(s, 0, at);
    let rest = if s[at] == '.' {
        slice_chars(s, at + 1, n)
    } else {
        slice_chars(s, at, n)
    };
    proof {
        let r = s@.skip(at as int);
        assert(name@ =~= s@.take(at as int));
        if s@[at as int] == '.' {
            assert(rest@ =~= r.drop_first());
        } else {
            assert(rest@ =~= r);
        }
    }
    (name, rest)
}

/// Read one, two or three dot separated numbers.
fn parse_version_of(s: &Vec<char>) -> (r: Option<Version>)
    ensures
        match r {
            Some(v) => parse_version(s@) == Some(v@),
            None => parse_version(s@) is None,
        },
{
    let parts = split_chars(s, '.');
    if parts.len() > 3 {
        return None;
    }
    proof {
        crate::text::lemma_split_nonempty(s@, '.');
    }
    let major = match parse_u32_chars(&parts[0]) {
        Some(m) => m,
        None => return None,
    };
    if parts.len() == 1 {
        return Some(Version::major(major));
    }
    let minor = match parse_u32_chars(&parts[1]) {
        Some(m) => m,
        None => return None,
    };
    if parts.len() == 2 {
        return Some(Version::new(major, minor));
    }
    let patch = match parse_u32_chars(&parts[2]) {
        Some(p) => p,
        None => return None,
    };
    Some(Version::full(major, minor, patch))
}

/// Convert a Darwin kernel version to the macOS product version it belongs to.
fn darwin_to_macos_of(v: Version) -> (r: Option<Version>)
    ensures
        match r {
            Some(m) => darwin_to_macos(v@) == Some(m@),
            None => darwin_to_macos(v@) is None,
        },
{
    let major = v.major_part();
    if major >= 20 {
        Some(Version::major(major - 9))
    } else if major >= 5 {
        Some(Version::new(10, major - 4))
    } else {
        None
    }
}

/// An optional version as its parts.
pub open spec fn opt_view(v: Option<Version>) -> Option<VersionView> {
    match v {
        Some(x) => Some(x@),
        None => None,
    }
}

/// Read the OS component, which may carry a version and, in the mingw spellings, an
/// environment.
fn parse_os(s: &Vec<char>) -> (r: Option<(Os, Option<Version>, Option<Env>)>)
    ensures
        match r {
            Some((os, v, e)) => parse_os_spec(s@) == Some((os, opt_view(v), e)),
            None => parse_os_spec(s@) is None,
        },
{
    let l = lower_chars(s);
    if chars_eq(&l, "mingw32") || chars_eq(&l, "mingw64") || chars_eq(&l, "mingw") {
        return Some((Os::Windows, None, Some(Env::Gnu)));
    }
    if chars_eq(&l, "win32") || chars_eq(&l, "windows") {
        return Some((Os::Windows, None, None));
    }
    if chars_eq(&l, "none") || chars_eq(&l, "unknown") || chars_eq(&l, "freestanding") || chars_eq(
        &l,
        "elf",
    ) {
        return Some((Os::Freestanding, None, None));
    }
    if chars_eq(&l, "wasi") {
        return Some((Os::Wasi, Some(Version::major(1)), None));
    }
    proof {
        reveal_strlit("wasip");
    }
    if chars_starts_with(&l, "wasip") {
        let preview = skip_chars(&l, 5);
        return match parse_u32_chars(&preview) {
            Some(major) => Some((Os::Wasi, Some(Version::major(major)), None)),
            None => None,
        };
    }
    let (base, text) = split_version_of(&l);
    let version = if text.len() == 0 {
        None
    } else {
        parse_version_of(&text)
    };
    if text.len() != 0 && version.is_none() {
        return None;
    }
    if chars_eq(&base, "linux") {
        Some((Os::Linux, version, None))
    } else if chars_eq(&base, "macos") || chars_eq(&base, "macosx") || chars_eq(&base, "osx") {
        Some((Os::MacOs, version, None))
    } else if chars_eq(&base, "darwin") {
        let converted = match version {
            Some(v) => darwin_to_macos_of(v),
            None => None,
        };
        Some((Os::MacOs, converted, None))
    } else if chars_eq(&base, "ios") || chars_eq(&base, "iphoneos") {
        Some((Os::IOs, version, None))
    } else if chars_eq(&base, "freebsd") {
        Some((Os::FreeBsd, version, None))
    } else if chars_eq(&base, "netbsd") {
        Some((Os::NetBsd, version, None))
    } else if chars_eq(&base, "openbsd") {
        Some((Os::OpenBsd, version, None))
    } else if chars_eq(&base, "illumos") {
        Some((Os::Illumos, version, None))
    } else {
        None
    }
}

/// What the environment component turned out to say.
struct ParsedEnv {
    env: Option<Env>,
    version: Option<Version>,
    abi: Abi,
    data_model: Option<DataModel>,
}

/// The parts of a parsed environment component.
spec fn parsed_env_view(p: ParsedEnv) -> EnvParts {
    EnvParts { env: p.env, version: opt_view(p.version), abi: p.abi, data_model: p.data_model }
}

/// The environment names.
fn env_by_name_of(name: &Vec<char>) -> (r: Option<Option<Env>>)
    ensures
        r == env_by_name(name@),
{
    if chars_eq(name, "") || chars_eq(name, "none") || chars_eq(name, "unknown") || chars_eq(
        name,
        "elf",
    ) {
        Some(None)
    } else if chars_eq(name, "gnu") || chars_eq(name, "glibc") {
        Some(Some(Env::Gnu))
    } else if chars_eq(name, "musl") {
        Some(Some(Env::Musl))
    } else if chars_eq(name, "msvc") {
        Some(Some(Env::Msvc))
    } else if chars_eq(name, "android") || chars_eq(name, "androideabi") {
        Some(Some(Env::Android))
    } else if chars_eq(name, "sim") || chars_eq(name, "simulator") {
        Some(Some(Env::Simulator))
    } else if chars_eq(name, "macabi") || chars_eq(name, "catalyst") {
        Some(Some(Env::MacAbi))
    } else {
        None
    }
}

/// Read the environment component, undoing the suffixes GCC fuses into it.
fn parse_env(s: &Vec<char>) -> (r: Result<ParsedEnv, Error>)
    ensures
        match r {
            Ok(p) => parse_env_spec(s@) == Ok::<EnvParts, ErrorView>(parsed_env_view(p)),
            Err(e) => parse_env_spec(s@) == Err::<EnvParts, ErrorView>(e@),
        },
{
    let lower = lower_chars(s);
    proof {
        reveal_strlit("eabihf");
        reveal_strlit("eabi");
        reveal_strlit("x32");
    }
    let mut abi = Abi::Default;
    let mut data_model: Option<DataModel> = None;
    let base = if chars_ends_with(&lower, "eabihf") {
        abi = Abi::DoubleFloat;
        drop_chars(&lower, 6)
    } else if chars_ends_with(&lower, "eabi") {
        abi = Abi::SoftFloat;
        drop_chars(&lower, 4)
    } else if chars_ends_with(&lower, "x32") {
        data_model = Some(DataModel::Ilp32On64);
        drop_chars(&lower, 3)
    } else {
        lower
    };
    let (name, text) = split_version_of(&base);
    let version = if text.len() == 0 {
        None
    } else {
        match parse_version_of(&text) {
            Some(v) => Some(v),
            None => {
                return Err(Error::BadVersion { component: "environment", found: string_of(&text) });
            },
        }
    };
    let env = match env_by_name_of(&name) {
        Some(e) => e,
        None => {
            return Err(Error::UnknownEnv(string_of(s)));
        },
    };
    Ok(ParsedEnv { env, version, abi, data_model })
}

/// Whether a component is a vendor.
fn is_vendor_of(s: &Vec<char>) -> (r: bool)
    ensures
        r == is_vendor(s@),
{
    chars_eq(s, "unknown") || chars_eq(s, "pc") || chars_eq(s, "apple") || chars_eq(s, "w64")
        || chars_eq(s, "none") || chars_eq(s, "ibm") || chars_eq(s, "sun") || chars_eq(s, "suse")
        || chars_eq(s, "redhat") || chars_eq(s, "alpine") || chars_eq(s, "poky") || chars_eq(
        s,
        "buildroot",
    ) || chars_eq(s, "nvidia") || chars_eq(s, "amd") || chars_eq(s, "intel") || chars_eq(
        s,
        "linaro",
    )
}

/// The parts of an optional parsed environment component.
spec fn opt_env_view(p: Option<ParsedEnv>) -> Option<EnvParts> {
    match p {
        Some(x) => Some(parsed_env_view(x)),
        None => None,
    }
}

/// Build the tuple that the components describe.
fn build_parsed(
    arch: (Arch, SubArch, Option<Endian>),
    os: (Os, Option<Version>, Option<Env>),
    parsed: Option<ParsedEnv>,
) -> (r: Result<TargetTuple, Error>)
    ensures
        match r {
            Ok(t) => build_spec(parsed_builder(arch, (os.0, opt_view(os.1), os.2), opt_env_view(parsed)))
                == Ok::<TupleView, ErrorView>(t@),
            Err(e) => build_spec(parsed_builder(arch, (os.0, opt_view(os.1), os.2), opt_env_view(parsed)))
                == Err::<TupleView, ErrorView>(e@),
        },
{
    let (arch, sub_arch, arch_endian) = arch;
    let (os, os_version, implied_env) = os;
    let mut env = implied_env;
    let mut env_version: Option<Version> = None;
    let mut abi = Abi::Default;
    let mut data_model: Option<DataModel> = None;
    if let Some(p) = parsed {
        if let Some(e) = p.env {
            env = Some(e);
        }
        env_version = p.version;
        abi = p.abi;
        data_model = p.data_model;
    }
    let mut builder = TupleBuilder::new(arch, os).sub_arch(sub_arch).abi(abi);
    if let Some(endian) = arch_endian {
        builder = builder.endian(endian);
    }
    if let Some(model) = data_model {
        builder = builder.data_model(model);
    }
    if let Some(version) = os_version {
        builder = builder.os_version(version);
    }
    if let Some(e) = env {
        builder = builder.env(e);
    }
    if let Some(version) = env_version {
        builder = builder.env_version(version);
    }
    assert(builder@ == parsed_builder(
        (arch, sub_arch, arch_endian),
        (os, opt_view(os_version), implied_env),
        opt_env_view(parsed),
    ));
    builder.build()
}

/// The error for components left over after the environment, quoting them.
fn trailing(parts: &Vec<Vec<char>>, from: usize, Ghost(sparts): Ghost<Seq<Seq<char>>>) -> (e: Error)
    requires
        from <= parts@.len(),
        parts@.len() == sparts.len(),
        forall|q: int| 0 <= q < parts@.len() ==> #[trigger] parts@[q]@ == sparts[q],
    ensures
        e@ == ErrorView::Trailing(sparts.skip(from as int)),
{
    let mut rest: Vec<String> = Vec::new();
    let mut k: usize = from;
    while k < parts.len()
        invariant
            from <= k <= parts@.len(),
            parts@.len() == sparts.len(),
            forall|q: int| 0 <= q < parts@.len() ==> #[trigger] parts@[q]@ == sparts[q],
            rest@.map_values(|s: String| s@) == sparts.subrange(from as int, k as int),
        decreases parts@.len() - k,
    {
        let ghost before = rest@.map_values(|s: String| s@);
        let piece = string_of(&parts[k]);
        assert(piece@ == sparts[k as int]);
        rest.push(piece);
        assert(rest@.map_values(|s: String| s@) =~= before.push(sparts[k as int]));
        k = k + 1;
        assert(rest@.map_values(|s: String| s@) =~= sparts.subrange(from as int, k as int));
    }
    assert(sparts.subrange(from as int, parts@.len() as int) =~= sparts.skip(from as int));
    Error::Trailing(rest)
}

/// Read a target tuple.
///
/// # Errors
///
/// Returns the component that could not be read, or the combination that does not describe a
/// machine.
pub fn parse(input: &str) -> (r: Result<TargetTuple, Error>)
    ensures
        match r {
            Ok(t) => parse_spec(input@) == Ok::<TupleView, ErrorView>(t@),
            Err(e) => parse_spec(input@) == Err::<TupleView, ErrorView>(e@),
        },
{
    let raw = chars_of(input);
    let trimmed = trim_chars(&raw);
    if trimmed.len() == 0 {
        return Err(Error::Empty);
    }
    let parts = split_chars(&trimmed, '-');
    proof {
        crate::text::lemma_split_nonempty(trimmed@, '-');
    }
    let ghost sparts = split(trimmed@, '-');
    if parts[0].len() == 0 {
        return Err(Error::Empty);
    }
    let arch = match parse_arch(&parts[0]) {
        Ok(a) => a,
        Err(e) => return Err(e),
    };
    let mut index: usize = 1;
    if index + 1 < parts.len() && is_vendor_of(&parts[index]) && parse_os(&parts[index + 1]).is_some() {
        index = index + 1;
    }
    assert(index == os_index(sparts));
    let os = if index < parts.len() {
        match parse_os(&parts[index]) {
            Some(parsed) => {
                index = index + 1;
                parsed
            },
            None => {
                return Err(Error::UnknownOs(string_of(&parts[index])));
            },
        }
    } else {
        (Os::Freestanding, None, None)
    };
    if index < parts.len() {
        let parsed = match parse_env(&parts[index]) {
            Ok(p) => p,
            Err(e) => return Err(e),
        };
        if index + 1 < parts.len() {
            return Err(trailing(&parts, index + 1, Ghost(sparts)));
        }
        build_parsed(arch, os, Some(parsed))
    } else {
        build_parsed(arch, os, None)
    }
}

impl core::str::FromStr for TargetTuple {
    type Err = Error;

    fn from_str(s: &str) -> (r: Result<TargetTuple, Error>)
        ensures
            match r {
                Ok(t) => parse_spec(s@) == Ok::<TupleView, ErrorView>(t@),
                Err(e) => parse_spec(s@) == Err::<TupleView, ErrorView>(e@),
            },
    {
        parse(s)
    }
}

/// Whether a component is one of the vendors distributions and toolchains write between the
/// architecture and the OS.
pub open spec fn listed_vendor(v: Seq<char>) -> bool {
    ||| v == "unknown"@
    ||| v == "pc"@
    ||| v == "apple"@
    ||| v == "w64"@
    ||| v == "none"@
    ||| v == "ibm"@
    ||| v == "sun"@
    ||| v == "suse"@
    ||| v == "redhat"@
    ||| v == "alpine"@
    ||| v == "poky"@
    ||| v == "buildroot"@
    ||| v == "nvidia"@
    ||| v == "amd"@
    ||| v == "intel"@
    ||| v == "linaro"@
}

/// A listed vendor holds no dash.
proof fn lemma_listed_vendor_no_dash(v: Seq<char>)
    requires
        listed_vendor(v),
    ensures
        !v.contains('-'),
{
    reveal_strlit("unknown");
    reveal_strlit("pc");
    reveal_strlit("apple");
    reveal_strlit("w64");
    reveal_strlit("none");
    reveal_strlit("ibm");
    reveal_strlit("sun");
    reveal_strlit("suse");
    reveal_strlit("redhat");
    reveal_strlit("alpine");
    reveal_strlit("poky");
    reveal_strlit("buildroot");
    reveal_strlit("nvidia");
    reveal_strlit("amd");
    reveal_strlit("intel");
    reveal_strlit("linaro");
    assert(is_vendor(v));
    if v.contains('-') {
        let k = choose|k: int| 0 <= k < v.len() && v[k] == '-';
        assert(v[k] != '-');
    }
}

/// A vendor written between the architecture and an OS changes nothing: reading
/// `arch-vendor-rest` gives what reading `arch-rest` gives, whenever `rest` starts with an OS
/// and is not itself a vendor followed by an OS.
pub proof fn a_vendor_before_an_os_is_skipped(arch: Seq<char>, vendor: Seq<char>, rest: Seq<char>)
    requires
        arch.len() > 0,
        !arch.contains('-'),
        !is_whitespace(arch[0]),
        rest.len() > 0 ==> !is_whitespace(rest.last()),
        listed_vendor(vendor),
        parse_os_spec(split(rest, '-')[0]) is Some,
        !(split(rest, '-').len() > 1 && is_vendor(split(rest, '-')[0]) && parse_os_spec(
            split(rest, '-')[1],
        ) is Some),
    ensures
        parse_spec(arch + "-"@ + vendor + "-"@ + rest) == parse_spec(arch + "-"@ + rest),
{
    reveal_strlit("-");
    lemma_listed_vendor_no_dash(vendor);
    let with = arch + "-"@ + vendor + "-"@ + rest;
    let without = arch + "-"@ + rest;
    let r = split(rest, '-');
    assert(with =~= arch + seq!['-'] + (vendor + seq!['-'] + rest));
    assert(without =~= arch + seq!['-'] + rest);
    lemma_split_concat(arch, '-', vendor + seq!['-'] + rest);
    lemma_split_concat(vendor, '-', rest);
    lemma_split_concat(arch, '-', rest);
    let p = split(with, '-');
    let q = split(without, '-');
    assert(p =~= seq![arch] + (seq![vendor] + r));
    assert(q =~= seq![arch] + r);
    assert(with[0] == arch[0] && without[0] == arch[0]);
    if rest.len() > 0 {
        assert(with.last() == rest.last() && without.last() == rest.last());
    } else {
        assert(with.last() == '-' && without.last() == '-');
    }
    lemma_trim_unchanged(with);
    lemma_trim_unchanged(without);
    lemma_split_nonempty(rest, '-');
    assert(r.len() >= 1);
    assert(p[0] == arch && q[0] == arch);
    assert(p[1] == vendor && p[2] == r[0] && q[1] == r[0]);
    assert(os_index(p) == 2);
    assert(os_index(q) == 1);
    assert forall|k: int| 1 <= k < q.len() implies #[trigger] p[k + 1] == q[k] by {
        assert(p[k + 1] == r[k - 1]);
    }
    assert(p.len() == q.len() + 1);
    assert(trim(with) == with && trim(without) == without);
    assert(parse_os_spec(p[os_index(p)]) == parse_os_spec(q[os_index(q)]));
    assert(p.len() == r.len() + 2 && q.len() == r.len() + 1);
    if r.len() > 1 {
        assert(p[3] == r[1] && q[2] == r[1]);
    }
    if r.len() > 2 {
        assert(p.skip(4) =~= r.skip(2));
        assert(q.skip(3) =~= r.skip(2));
    }
    let os = parse_os_spec(r[0])->Some_0;
    let expected = match parse_arch_spec(arch) {
        Err(e) => Err(e),
        Ok(a) => if r.len() > 1 {
            match parse_env_spec(r[1]) {
                Err(e) => Err(e),
                Ok(env) => if r.len() > 2 {
                    Err(ErrorView::Trailing(r.skip(2)))
                } else {
                    build_spec(parsed_builder(a, os, Some(env)))
                },
            }
        } else {
            build_spec(parsed_builder(a, os, None))
        },
    };
    assert(parse_spec(with) == expected);
    assert(parse_spec(without) == expected);
}

} // verus!
