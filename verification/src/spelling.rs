//! Why the canonical spelling can key a cache: whatever a user typed, reading the spelling that
//! the tuple writes gives a tuple that writes the same spelling.

use vstd::prelude::*;

use crate::abi::{abi_valid_for, Abi};
use crate::arch::{arch_name, sub_arch_name, Arch, DataModel, Endian, SubArch};
use crate::error::ErrorView;
use crate::os::{env_name, os_name, version_text, version_wf, Env, Os, VersionView};
use crate::parse::{
    env_by_name, is_vendor, lemma_version_start_skip, parse_arch_spec, parse_env_spec,
    parse_os_spec, parse_spec, parse_version, parsed_builder, simple_arch, split_version,
    EnvParts,
};
use crate::text::{
    dec, ends_with, is_digit, lemma_dec, lemma_dec_spelled, lemma_lower_spelled,
    lemma_parse_dec, lemma_spelled_concat, lemma_spelled_no_dash, lemma_split_concat,
    lemma_split_dec, lemma_split_whole, lemma_trim_unchanged, lower, spelled, spelling_char,
    split, trim,
};
use crate::tuple::{
    arch_component, build_spec, canonical, default_data_model, env_component_with,
    env_valid_for, os_component, target_object_format, tuple_resolved_abi, TupleView,
};

verus! {

/// Whether a tuple is one that reading a spelling can give: the byte order is one that a
/// leading component names, the environment is named or is the OS's default, the float ABI is
/// one an environment suffix names, the data model is derived or the `x32` one, the versions
/// have the shapes the parser makes, and the derived fields are derived.
pub open spec fn spellable(t: TupleView) -> bool {
    &&& t.sub_arch.spec_belongs_to(t.arch)
    &&& (t.arch is Arm || t.arch is Aarch64 || t.arch is PowerPc64 || t.endian
        == t.arch.spec_default_endian())
    &&& env_valid_for(t.os, t.env)
    &&& (t.env is Absent ==> t.os.spec_default_env() is Absent)
    &&& (t.abi is Default || t.abi is SoftFloat || t.abi is DoubleFloat)
    &&& abi_valid_for(t.abi, t.arch)
    &&& (t.data_model == default_data_model(t.arch, t.os) || t.data_model is Ilp32On64)
    &&& match t.os_version {
        None => !(t.os is Wasi),
        Some(v) => {
            &&& t.os.spec_takes_version()
            &&& version_wf(v)
            &&& (t.os is Wasi ==> v.1 is None && v.2 is None)
        },
    }
    &&& match t.env_version {
        None => true,
        Some(v) => t.env.spec_is_libc() && version_wf(v),
    }
    &&& t.object_format == target_object_format(t.arch, t.os)
}

/// The tuple that reading a canonical spelling gives: the same, except for what the spelling
/// does not carry. On ARM the float ABI comes back resolved and the data model derived, since
/// the suffix names the ABI and not the model; elsewhere the float ABI comes back as the
/// default, since no suffix is written for it; and an Android API level keeps only its major
/// part.
pub open spec fn settled(t: TupleView) -> TupleView {
    TupleView {
        abi: if t.arch is Arm {
            tuple_resolved_abi(t)
        } else {
            Abi::Default
        },
        data_model: if t.arch is Arm {
            default_data_model(t.arch, t.os)
        } else {
            t.data_model
        },
        env_version: match t.env_version {
            Some(v) => if t.env is Android {
                Some((v.0, None::<u32>, None::<u32>))
            } else {
                Some(v)
            },
            None => None,
        },
        ..t
    }
}

/// A version that reading one gives has a patch only beside a minor.
proof fn lemma_parsed_version_wf(s: Seq<char>)
    ensures
        parse_version(s) matches Some(v) ==> version_wf(v),
{
}

/// What reading a leading component gives: a byte order always, and one other than the
/// family's default only on AArch64, PowerPC and ARM.
proof fn lemma_parsed_arch(s: Seq<char>)
    ensures
        parse_arch_spec(s) matches Ok(a) ==> {
            &&& a.2 is Some
            &&& (a.0 is Arm || a.0 is Aarch64 || a.0 is PowerPc64 || a.2 == Some(
                a.0.spec_default_endian(),
            ))
            &&& (a.0 is Arm || a.1 is Base)
        },
{
}

/// What reading an OS component gives: versions of the parser's shape, always one on WASI and
/// with only a major part there, and no implied environment but `gnu`.
proof fn lemma_parsed_os(s: Seq<char>)
    ensures
        parse_os_spec(s) matches Some(o) ==> {
            &&& (o.1 matches Some(v) ==> version_wf(v))
            &&& (o.0 is Wasi ==> (o.1 matches Some(v) && v.1 is None && v.2 is None))
            &&& (o.2 is None || o.2 == Some(Env::Gnu))
        },
{
    let l = crate::text::lower(s);
    let (base, text) = crate::parse::split_version(l);
    lemma_parsed_version_wf(text);
}

/// What reading an environment component gives: a named environment other than none, a
/// version of the parser's shape, one of the three float ABIs a suffix names, and no data
/// model but the `x32` one.
proof fn lemma_parsed_env(s: Seq<char>)
    ensures
        parse_env_spec(s) matches Ok(e) ==> {
            &&& e.env != Some(Env::Absent)
            &&& (e.version matches Some(v) ==> version_wf(v))
            &&& (e.abi is Default || e.abi is SoftFloat || e.abi is DoubleFloat)
            &&& (e.data_model is None || e.data_model == Some(DataModel::Ilp32On64))
        },
{
    let l = crate::text::lower(s);
    let base = if crate::text::ends_with(l, "eabihf"@) {
        l.take(l.len() - 6)
    } else if crate::text::ends_with(l, "eabi"@) {
        l.take(l.len() - 4)
    } else if crate::text::ends_with(l, "x32"@) {
        l.take(l.len() - 3)
    } else {
        l
    };
    let (name, text) = crate::parse::split_version(base);
    lemma_parsed_version_wf(text);
}

/// Every tuple that reading gives is spellable.
proof fn lemma_parsed_spellable(s: Seq<char>)
    requires
        parse_spec(s) is Ok,
    ensures
        spellable(parse_spec(s)->Ok_0),
{
    let t = crate::text::trim(s);
    let parts = crate::text::split(t, '-');
    lemma_parsed_arch(parts[0]);
    let i = crate::parse::os_index(parts);
    if i < parts.len() {
        lemma_parsed_os(parts[i]);
        if i + 1 < parts.len() {
            lemma_parsed_env(parts[i + 1]);
        }
    }
}

/// Reading the leading component of a canonical spelling of a family other than ARM gives
/// back the family and its byte order.
proof fn lemma_read_simple_arch(t: TupleView)
    requires
        spellable(t),
        !(t.arch is Arm),
    ensures
        parse_arch_spec(arch_component(t)) == Ok::<_, ErrorView>(
            (t.arch, t.sub_arch, Some(t.endian)),
        ),
        spelled(arch_component(t)),
        arch_component(t).len() > 0,
{
    reveal_strlit("x86_64");
    reveal_strlit("amd64");
    reveal_strlit("x64");
    reveal_strlit("x86_64h");
    reveal_strlit("i386");
    reveal_strlit("i486");
    reveal_strlit("i586");
    reveal_strlit("i686");
    reveal_strlit("i786");
    reveal_strlit("x86");
    reveal_strlit("ia32");
    reveal_strlit("aarch64");
    reveal_strlit("arm64");
    reveal_strlit("aarch64_32");
    reveal_strlit("aarch64_be");
    reveal_strlit("aarch64be");
    reveal_strlit("arm64_be");
    reveal_strlit("arm64ec");
    reveal_strlit("riscv64");
    reveal_strlit("rv64");
    reveal_strlit("riscv32");
    reveal_strlit("rv32");
    reveal_strlit("loongarch64");
    reveal_strlit("la64");
    reveal_strlit("powerpc64le");
    reveal_strlit("ppc64le");
    reveal_strlit("powerpc64");
    reveal_strlit("ppc64");
    reveal_strlit("s390x");
    reveal_strlit("wasm32");
    reveal_strlit("le");
    reveal_strlit("_be");
    reveal_strlit("");
    let a = arch_component(t);
    assert(spelled(a));
    lemma_lower_spelled(a);
    match (t.arch, t.endian) {
        (Arch::X86_64, _) => {
            assert(a =~= "x86_64"@);
            assert(
                a.len() == 6 && a[0] == 'x' && a[1] == '8' && a[2] == '6'
                && a[3] == '_' && a[4] == '6' && a[5] == '4'
            );
            assert(simple_arch(a) == Some((t.arch, t.endian)));
        },
        (Arch::X86, _) => {
            assert(a =~= "i686"@);
            assert(
                a.len() == 4 && a[0] == 'i' && a[1] == '6' && a[2] == '8'
                && a[3] == '6'
            );
            assert(simple_arch(a) == Some((t.arch, t.endian)));
        },
        (Arch::Aarch64, Endian::Big) => {
            assert(a =~= "aarch64_be"@);
            assert(
                a.len() == 10 && a[0] == 'a' && a[1] == 'a' && a[2] == 'r'
                && a[3] == 'c' && a[4] == 'h' && a[5] == '6' && a[6] == '4'
                && a[7] == '_' && a[8] == 'b' && a[9] == 'e'
            );
            assert(simple_arch(a) == Some((t.arch, t.endian)));
        },
        (Arch::Aarch64, Endian::Little) => {
            assert(a =~= "aarch64"@);
            assert(
                a.len() == 7 && a[0] == 'a' && a[1] == 'a' && a[2] == 'r'
                && a[3] == 'c' && a[4] == 'h' && a[5] == '6' && a[6] == '4'
            );
            assert(simple_arch(a) == Some((t.arch, t.endian)));
        },
        (Arch::Arm64Ec, _) => {
            assert(a =~= "arm64ec"@);
            assert(
                a.len() == 7 && a[0] == 'a' && a[1] == 'r' && a[2] == 'm'
                && a[3] == '6' && a[4] == '4' && a[5] == 'e' && a[6] == 'c'
            );
            assert(simple_arch(a) == Some((t.arch, t.endian)));
        },
        (Arch::Riscv64, _) => {
            assert(a =~= "riscv64"@);
            assert(
                a.len() == 7 && a[0] == 'r' && a[1] == 'i' && a[2] == 's'
                && a[3] == 'c' && a[4] == 'v' && a[5] == '6' && a[6] == '4'
            );
            assert(simple_arch(a) == Some((t.arch, t.endian)));
        },
        (Arch::Riscv32, _) => {
            assert(a =~= "riscv32"@);
            assert(
                a.len() == 7 && a[0] == 'r' && a[1] == 'i' && a[2] == 's'
                && a[3] == 'c' && a[4] == 'v' && a[5] == '3' && a[6] == '2'
            );
            assert(simple_arch(a) == Some((t.arch, t.endian)));
        },
        (Arch::LoongArch64, _) => {
            assert(a =~= "loongarch64"@);
            assert(
                a.len() == 11 && a[0] == 'l' && a[1] == 'o' && a[2] == 'o'
                && a[3] == 'n' && a[4] == 'g' && a[5] == 'a' && a[6] == 'r'
                && a[7] == 'c' && a[8] == 'h' && a[9] == '6' && a[10] == '4'
            );
            assert(simple_arch(a) == Some((t.arch, t.endian)));
        },
        (Arch::PowerPc64, Endian::Big) => {
            assert(a =~= "powerpc64"@);
            assert(
                a.len() == 9 && a[0] == 'p' && a[1] == 'o' && a[2] == 'w'
                && a[3] == 'e' && a[4] == 'r' && a[5] == 'p' && a[6] == 'c'
                && a[7] == '6' && a[8] == '4'
            );
            assert(simple_arch(a) == Some((t.arch, t.endian)));
        },
        (Arch::PowerPc64, Endian::Little) => {
            assert(a =~= "powerpc64le"@);
            assert(
                a.len() == 11 && a[0] == 'p' && a[1] == 'o' && a[2] == 'w'
                && a[3] == 'e' && a[4] == 'r' && a[5] == 'p' && a[6] == 'c'
                && a[7] == '6' && a[8] == '4' && a[9] == 'l' && a[10] == 'e'
            );
            assert(simple_arch(a) == Some((t.arch, t.endian)));
        },
        (Arch::S390x, _) => {
            assert(a =~= "s390x"@);
            assert(
                a.len() == 5 && a[0] == 's' && a[1] == '3' && a[2] == '9'
                && a[3] == '0' && a[4] == 'x'
            );
            assert(simple_arch(a) == Some((t.arch, t.endian)));
        },
        (Arch::Wasm32, _) => {
            assert(a =~= "wasm32"@);
            assert(
                a.len() == 6 && a[0] == 'w' && a[1] == 'a' && a[2] == 's'
                && a[3] == 'm' && a[4] == '3' && a[5] == '2'
            );
            assert(simple_arch(a) == Some((t.arch, t.endian)));
        },
        (Arch::Arm, _) => {},
    }
}

/// Reading the leading component of a canonical spelling of ARM gives back the baseline and
/// the byte order.
proof fn lemma_read_arm_arch(t: TupleView)
    requires
        spellable(t),
        t.arch is Arm,
    ensures
        parse_arch_spec(arch_component(t)) == Ok::<_, ErrorView>(
            (t.arch, t.sub_arch, Some(t.endian)),
        ),
        spelled(arch_component(t)),
        arch_component(t).len() > 0,
{
    reveal_strlit("x86_64");
    reveal_strlit("amd64");
    reveal_strlit("x64");
    reveal_strlit("x86_64h");
    reveal_strlit("i386");
    reveal_strlit("i486");
    reveal_strlit("i586");
    reveal_strlit("i686");
    reveal_strlit("i786");
    reveal_strlit("x86");
    reveal_strlit("ia32");
    reveal_strlit("aarch64");
    reveal_strlit("arm64");
    reveal_strlit("aarch64_32");
    reveal_strlit("aarch64_be");
    reveal_strlit("aarch64be");
    reveal_strlit("arm64_be");
    reveal_strlit("arm64ec");
    reveal_strlit("riscv64");
    reveal_strlit("rv64");
    reveal_strlit("riscv32");
    reveal_strlit("rv32");
    reveal_strlit("loongarch64");
    reveal_strlit("la64");
    reveal_strlit("powerpc64le");
    reveal_strlit("ppc64le");
    reveal_strlit("powerpc64");
    reveal_strlit("ppc64");
    reveal_strlit("s390x");
    reveal_strlit("wasm32");
    reveal_strlit("armeb");
    reveal_strlit("thumbeb");
    reveal_strlit("arm");
    reveal_strlit("thumb");
    reveal_strlit("v5");
    reveal_strlit("v5t");
    reveal_strlit("v5te");
    reveal_strlit("v6");
    reveal_strlit("v6k");
    reveal_strlit("v6kz");
    reveal_strlit("v6t2");
    reveal_strlit("v6z");
    reveal_strlit("v6m");
    reveal_strlit("v6s-m");
    reveal_strlit("v6sm");
    reveal_strlit("v7");
    reveal_strlit("v7a");
    reveal_strlit("v7ve");
    reveal_strlit("v7l");
    reveal_strlit("v7r");
    reveal_strlit("v7m");
    reveal_strlit("v7em");
    reveal_strlit("v7e-m");
    reveal_strlit("v8");
    reveal_strlit("v8a");
    reveal_strlit("v8.1a");
    reveal_strlit("v8l");
    reveal_strlit("v8m");
    reveal_strlit("v8m.base");
    reveal_strlit("v8m.main");
    reveal_strlit("v8.1m.main");
    reveal_strlit("eb");
    reveal_strlit("");
    let a = arch_component(t);
    assert(spelled(a));
    lemma_lower_spelled(a);
    match (t.sub_arch, t.endian) {
        (SubArch::Base, Endian::Little) => assert(
            a.len() == 3 && a[0] == 'a' && a[1] == 'r' && a[2] == 'm'
        ),
        (SubArch::ArmV5Te, Endian::Little) => assert(
            a.len() == 7 && a[0] == 'a' && a[1] == 'r' && a[2] == 'm'
            && a[3] == 'v' && a[4] == '5' && a[5] == 't' && a[6] == 'e'
        ),
        (SubArch::ArmV6, Endian::Little) => assert(
            a.len() == 5 && a[0] == 'a' && a[1] == 'r' && a[2] == 'm'
            && a[3] == 'v' && a[4] == '6'
        ),
        (SubArch::ArmV6M, Endian::Little) => assert(
            a.len() == 6 && a[0] == 'a' && a[1] == 'r' && a[2] == 'm'
            && a[3] == 'v' && a[4] == '6' && a[5] == 'm'
        ),
        (SubArch::ArmV7A, Endian::Little) => assert(
            a.len() == 5 && a[0] == 'a' && a[1] == 'r' && a[2] == 'm'
            && a[3] == 'v' && a[4] == '7'
        ),
        (SubArch::ArmV7R, Endian::Little) => assert(
            a.len() == 6 && a[0] == 'a' && a[1] == 'r' && a[2] == 'm'
            && a[3] == 'v' && a[4] == '7' && a[5] == 'r'
        ),
        (SubArch::ArmV7M, Endian::Little) => assert(
            a.len() == 6 && a[0] == 'a' && a[1] == 'r' && a[2] == 'm'
            && a[3] == 'v' && a[4] == '7' && a[5] == 'm'
        ),
        (SubArch::ArmV7Em, Endian::Little) => assert(
            a.len() == 7 && a[0] == 'a' && a[1] == 'r' && a[2] == 'm'
            && a[3] == 'v' && a[4] == '7' && a[5] == 'e' && a[6] == 'm'
        ),
        (SubArch::ArmV8A, Endian::Little) => assert(
            a.len() == 5 && a[0] == 'a' && a[1] == 'r' && a[2] == 'm'
            && a[3] == 'v' && a[4] == '8'
        ),
        (SubArch::ArmV8M, Endian::Little) => assert(
            a.len() == 6 && a[0] == 'a' && a[1] == 'r' && a[2] == 'm'
            && a[3] == 'v' && a[4] == '8' && a[5] == 'm'
        ),
        (SubArch::Base, Endian::Big) => assert(
            a.len() == 5 && a[0] == 'a' && a[1] == 'r' && a[2] == 'm'
            && a[3] == 'e' && a[4] == 'b'
        ),
        (SubArch::ArmV5Te, Endian::Big) => assert(
            a.len() == 9 && a[0] == 'a' && a[1] == 'r' && a[2] == 'm'
            && a[3] == 'v' && a[4] == '5' && a[5] == 't' && a[6] == 'e'
            && a[7] == 'e' && a[8] == 'b'
        ),
        (SubArch::ArmV6, Endian::Big) => assert(
            a.len() == 7 && a[0] == 'a' && a[1] == 'r' && a[2] == 'm'
            && a[3] == 'v' && a[4] == '6' && a[5] == 'e' && a[6] == 'b'
        ),
        (SubArch::ArmV6M, Endian::Big) => assert(
            a.len() == 8 && a[0] == 'a' && a[1] == 'r' && a[2] == 'm'
            && a[3] == 'v' && a[4] == '6' && a[5] == 'm' && a[6] == 'e'
            && a[7] == 'b'
        ),
        (SubArch::ArmV7A, Endian::Big) => assert(
            a.len() == 7 && a[0] == 'a' && a[1] == 'r' && a[2] == 'm'
            && a[3] == 'v' && a[4] == '7' && a[5] == 'e' && a[6] == 'b'
        ),
        (SubArch::ArmV7R, Endian::Big) => assert(
            a.len() == 8 && a[0] == 'a' && a[1] == 'r' && a[2] == 'm'
            && a[3] == 'v' && a[4] == '7' && a[5] == 'r' && a[6] == 'e'
            && a[7] == 'b'
        ),
        (SubArch::ArmV7M, Endian::Big) => assert(
            a.len() == 8 && a[0] == 'a' && a[1] == 'r' && a[2] == 'm'
            && a[3] == 'v' && a[4] == '7' && a[5] == 'm' && a[6] == 'e'
            && a[7] == 'b'
        ),
        (SubArch::ArmV7Em, Endian::Big) => assert(
            a.len() == 9 && a[0] == 'a' && a[1] == 'r' && a[2] == 'm'
            && a[3] == 'v' && a[4] == '7' && a[5] == 'e' && a[6] == 'm'
            && a[7] == 'e' && a[8] == 'b'
        ),
        (SubArch::ArmV8A, Endian::Big) => assert(
            a.len() == 7 && a[0] == 'a' && a[1] == 'r' && a[2] == 'm'
            && a[3] == 'v' && a[4] == '8' && a[5] == 'e' && a[6] == 'b'
        ),
        (SubArch::ArmV8M, Endian::Big) => assert(
            a.len() == 8 && a[0] == 'a' && a[1] == 'r' && a[2] == 'm'
            && a[3] == 'v' && a[4] == '8' && a[5] == 'm' && a[6] == 'e'
            && a[7] == 'b'
        ),
    }
    assert(simple_arch(a) is None);
    assert(a.take(3) =~= "arm"@);
    if t.sub_arch is Base && t.endian is Big {
        assert(a.take(5) =~= "armeb"@);
        assert(crate::parse::arm_prefix(a) == Some((a.skip(5), Endian::Big)));
        assert(a.skip(5) =~= sub_arch_name(t.sub_arch));
        assert(!crate::text::ends_with(a.skip(5), "eb"@));
    } else {
        if a.len() >= 5 {
            assert(a.take(5)[3] == a[3]);
        }
        if a.len() >= 7 {
            assert(a.take(7)[0] == a[0]);
        }
        assert(crate::parse::arm_prefix(a) == Some((a.skip(3), Endian::Little)));
        let tail = a.skip(3);
        if tail.len() >= 2 {
            assert(tail.skip(tail.len() - 2)[0] == tail[tail.len() - 2]);
            assert(tail.skip(tail.len() - 2)[1] == tail[tail.len() - 1]);
        }
        if t.endian is Big {
            assert(tail.skip(tail.len() - 2) =~= "eb"@);
            assert(tail.take(tail.len() - 2) =~= sub_arch_name(t.sub_arch));
        } else {
            assert(!crate::text::ends_with(tail, "eb"@));
            assert(tail =~= sub_arch_name(t.sub_arch));
        }
    }
    let name = sub_arch_name(t.sub_arch);
    match t.sub_arch {
        SubArch::Base => assert(name.len() == 0),
        SubArch::ArmV5Te => assert(
            name.len() == 4 && name[0] == 'v' && name[1] == '5' && name[2] == 't'
            && name[3] == 'e'
        ),
        SubArch::ArmV6 => assert(name.len() == 2 && name[0] == 'v' && name[1] == '6'),
        SubArch::ArmV6M => assert(
            name.len() == 3 && name[0] == 'v' && name[1] == '6' && name[2] == 'm'
        ),
        SubArch::ArmV7A => assert(name.len() == 2 && name[0] == 'v' && name[1] == '7'),
        SubArch::ArmV7R => assert(
            name.len() == 3 && name[0] == 'v' && name[1] == '7' && name[2] == 'r'
        ),
        SubArch::ArmV7M => assert(
            name.len() == 3 && name[0] == 'v' && name[1] == '7' && name[2] == 'm'
        ),
        SubArch::ArmV7Em => assert(
            name.len() == 4 && name[0] == 'v' && name[1] == '7' && name[2] == 'e'
            && name[3] == 'm'
        ),
        SubArch::ArmV8A => assert(name.len() == 2 && name[0] == 'v' && name[1] == '8'),
        SubArch::ArmV8M => assert(
            name.len() == 3 && name[0] == 'v' && name[1] == '8' && name[2] == 'm'
        ),
    }
    assert(crate::parse::arm_sub_arch(name) == Some(t.sub_arch));
}

/// Whether a sequence holds no digit and no dot, so that a version after it starts where it
/// ends.
spec fn plain_name(s: Seq<char>) -> bool {
    forall|j: int| 0 <= j < s.len() ==> !is_digit(#[trigger] s[j]) && s[j] != '.'
}

/// Whether a sequence is made of digits and dots only, which is what a version is written in.
pub open spec fn version_chars(s: Seq<char>) -> bool {
    forall|j: int| 0 <= j < s.len() ==> is_digit(#[trigger] s[j]) || s[j] == '.'
}

/// A plain name followed by text that starts with a digit or a dot splits where the name
/// ends, the dot dropped.
proof fn lemma_split_version_after(name: Seq<char>, rest: Seq<char>)
    requires
        plain_name(name),
        rest.len() > 0,
        is_digit(rest[0]) || rest[0] == '.',
    ensures
        split_version(name + rest) == (name, if rest[0] == '.' {
            rest.drop_first()
        } else {
            rest
        }),
{
    let s = name + rest;
    assert forall|j: int| 0 <= j < name.len() implies !is_digit(#[trigger] s[j]) && s[j] != '.' by {
        assert(s[j] == name[j]);
    }
    lemma_version_start_skip(s, name.len() as int);
    assert(s.skip(name.len() as int) =~= rest);
    assert(s.take(name.len() as int) =~= name);
}

/// A plain name splits into itself and no version.
proof fn lemma_split_version_plain(name: Seq<char>)
    requires
        plain_name(name),
    ensures
        split_version(name) == (name, Seq::<char>::empty()),
{
    lemma_version_start_skip(name, name.len() as int);
    assert(name.skip(name.len() as int) =~= Seq::<char>::empty());
}

/// Reading the written form of a version gives the version back; the written form is a run
/// of digits and dots that starts with a digit.
pub proof fn written_version_reads_back(v: VersionView)
    requires
        version_wf(v),
    ensures
        parse_version(version_text(v)) == Some(v),
        version_text(v).len() > 0,
        is_digit(version_text(v)[0]),
        version_chars(version_text(v)),
        spelled(version_text(v)),
{
    reveal_strlit(".");
    let vt = version_text(v);
    lemma_dec(v.0 as nat);
    lemma_parse_dec(v.0);
    lemma_dec_spelled(v.0 as nat);
    let a = dec(v.0 as nat);
    assert(version_chars(a));
    match v.1 {
        None => {
            lemma_split_dec(v.0 as nat);
        },
        Some(minor) => {
            lemma_dec(minor as nat);
            lemma_parse_dec(minor);
            lemma_dec_spelled(minor as nat);
            let b = dec(minor as nat);
            assert(!a.contains('.'));
            match v.2 {
                None => {
                    lemma_split_concat(a, '.', b);
                    lemma_split_dec(minor as nat);
                    assert(vt =~= a + seq!['.'] + b);
                    assert(version_chars(vt)) by {
                        assert forall|j: int| 0 <= j < vt.len() implies is_digit(#[trigger] vt[j])
                            || vt[j] == '.' by {
                            if j > a.len() {
                                assert(vt[j] == b[j - a.len() - 1]);
                            }
                        }
                    }
                },
                Some(patch) => {
                    lemma_dec(patch as nat);
                    lemma_parse_dec(patch);
                    lemma_dec_spelled(patch as nat);
                    let c = dec(patch as nat);
                    assert(!b.contains('.'));
                    lemma_split_concat(b, '.', c);
                    lemma_split_dec(patch as nat);
                    lemma_split_concat(a, '.', b + seq!['.'] + c);
                    assert(vt =~= a + seq!['.'] + (b + seq!['.'] + c));
                    assert(version_chars(vt)) by {
                        assert forall|j: int| 0 <= j < vt.len() implies is_digit(#[trigger] vt[j])
                            || vt[j] == '.' by {
                            if a.len() < j < a.len() + 1 + b.len() {
                                assert(vt[j] == b[j - a.len() - 1]);
                            } else if j > a.len() + 1 + b.len() {
                                assert(vt[j] == c[j - a.len() - 2 - b.len()]);
                            }
                        }
                    }
                },
            }
        },
    }
    assert(spelled(vt)) by {
        assert forall|j: int| 0 <= j < vt.len() implies spelling_char(#[trigger] vt[j]) by {
            assert(is_digit(vt[j]) || vt[j] == '.');
        }
    }
}

/// Reading the OS component of a canonical spelling gives back the OS and its version, and
/// no environment.
proof fn lemma_read_os_component(t: TupleView)
    requires
        spellable(t),
    ensures
        parse_os_spec(os_component(t)) == Some((t.os, t.os_version, None::<Env>)),
        spelled(os_component(t)),
        os_component(t).len() > 0,
{
    reveal_strlit("mingw32");
    reveal_strlit("mingw64");
    reveal_strlit("mingw");
    reveal_strlit("win32");
    reveal_strlit("windows");
    reveal_strlit("none");
    reveal_strlit("unknown");
    reveal_strlit("freestanding");
    reveal_strlit("elf");
    reveal_strlit("wasi");
    reveal_strlit("wasip");
    reveal_strlit("linux");
    reveal_strlit("macos");
    reveal_strlit("macosx");
    reveal_strlit("osx");
    reveal_strlit("darwin");
    reveal_strlit("ios");
    reveal_strlit("iphoneos");
    reveal_strlit("freebsd");
    reveal_strlit("netbsd");
    reveal_strlit("openbsd");
    reveal_strlit("illumos");
    reveal_strlit(".");
    let o = os_component(t);
    let name = os_name(t.os);
    assert(plain_name(name));
    assert(spelled(name));
    match t.os_version {
        None => {
            assert(o == name);
            match t.os {
                Os::Linux => assert(
                    o.len() == 5 && o[0] == 'l' && o[1] == 'i' && o[2] == 'n'
                    && o[3] == 'u' && o[4] == 'x'
                ),
                Os::MacOs => assert(
                    o.len() == 5 && o[0] == 'm' && o[1] == 'a' && o[2] == 'c'
                    && o[3] == 'o' && o[4] == 's'
                ),
                Os::IOs => assert(o.len() == 3 && o[0] == 'i' && o[1] == 'o' && o[2] == 's'),
                Os::Windows => assert(
                    o.len() == 7 && o[0] == 'w' && o[1] == 'i' && o[2] == 'n'
                    && o[3] == 'd' && o[4] == 'o' && o[5] == 'w' && o[6] == 's'
                ),
                Os::FreeBsd => assert(
                    o.len() == 7 && o[0] == 'f' && o[1] == 'r' && o[2] == 'e'
                    && o[3] == 'e' && o[4] == 'b' && o[5] == 's' && o[6] == 'd'
                ),
                Os::NetBsd => assert(
                    o.len() == 6 && o[0] == 'n' && o[1] == 'e' && o[2] == 't'
                    && o[3] == 'b' && o[4] == 's' && o[5] == 'd'
                ),
                Os::OpenBsd => assert(
                    o.len() == 7 && o[0] == 'o' && o[1] == 'p' && o[2] == 'e'
                    && o[3] == 'n' && o[4] == 'b' && o[5] == 's' && o[6] == 'd'
                ),
                Os::Illumos => assert(
                    o.len() == 7 && o[0] == 'i' && o[1] == 'l' && o[2] == 'l'
                    && o[3] == 'u' && o[4] == 'm' && o[5] == 'o' && o[6] == 's'
                ),
                Os::Wasi => assert(
                    o.len() == 4 && o[0] == 'w' && o[1] == 'a' && o[2] == 's'
                    && o[3] == 'i'
                ),
                Os::Freestanding => assert(
                    o.len() == 4 && o[0] == 'n' && o[1] == 'o' && o[2] == 'n'
                    && o[3] == 'e'
                ),
            }
            if o.len() >= 5 {
                assert(o.take(5)[0] == o[0]);
            }
            lemma_split_version_plain(o);
        },
        Some(v) => {
            written_version_reads_back(v);
            let vt = version_text(v);
            if t.os is Wasi {
                lemma_dec(v.0 as nat);
                lemma_parse_dec(v.0);
                lemma_dec_spelled(v.0 as nat);
                assert(o.len() >= 6 && o[0] == 'w' && o[1] == 'a' && o[2] == 's');
                assert(o.take(5) =~= "wasip"@);
                assert(o.skip(5) =~= dec(v.0 as nat));
                lemma_spelled_concat("wasip"@, dec(v.0 as nat));
            } else {
                let rest = "."@ + vt;
                assert(o =~= name + rest);
                assert(rest[0] == '.');
                assert(rest.drop_first() =~= vt);
                lemma_split_version_after(name, rest);
                lemma_spelled_concat(name, "."@);
                lemma_spelled_concat(name + "."@, vt);
                if t.os is MacOs {
                    assert(name.len() == 5 && name[0] == 'm' && name[1] == 'a' && name[2] == 'c');
                    assert(o[0] == 'm' && o[1] == 'a' && o[2] == 'c' && o[3] == 'o' && o[4] == 's'
                        && o[5] == '.');
                } else {
                    assert(name.len() == 3 && name[0] == 'i' && name[1] == 'o' && name[2] == 's');
                    assert(o[0] == 'i' && o[1] == 'o' && o[2] == 's' && o[3] == '.');
                }
                assert(o.take(5)[0] == o[0]);
            }
        },
    }
    lemma_lower_spelled(o);
}

/// The environment component of the canonical spelling before the suffix: the name, and the
/// version after it.
spec fn env_base(t: TupleView) -> Seq<char> {
    match t.env_version {
        Some(v) => if t.env is Android {
            "android"@ + dec(v.0 as nat)
        } else {
            env_name(t.env) + "."@ + version_text(v)
        },
        None => env_name(t.env),
    }
}

/// The suffix the canonical spelling fuses onto the environment.
spec fn env_suffix(t: TupleView) -> Seq<char> {
    if t.arch is Arm {
        if tuple_resolved_abi(t) is DoubleFloat {
            "eabihf"@
        } else {
            "eabi"@
        }
    } else if t.data_model is Ilp32On64 {
        "x32"@
    } else {
        ""@
    }
}

/// The part of the environment component before the suffix is spelled, holds no `x`, ends in
/// none of the suffixes, and splits into the environment's name and the text of its version.
proof fn lemma_env_base(t: TupleView)
    requires
        spellable(t),
    ensures
        spelled(env_base(t)),
        forall|j: int| 0 <= j < env_base(t).len() ==> #[trigger] env_base(t)[j] != 'x',
        !ends_with(env_base(t), "eabihf"@),
        !ends_with(env_base(t), "eabi"@),
        !ends_with(env_base(t), "x32"@),
        env_base(t).len() == 0 <==> t.env is Absent,
        split_version(env_base(t)).0 == env_name(t.env),
        (split_version(env_base(t)).1.len() == 0) == (t.env_version is None),
        t.env_version is Some ==> parse_version(split_version(env_base(t)).1)
            == settled(t).env_version,
        env_by_name(env_name(t.env)) == Some(
            if t.env is Absent {
                None
            } else {
                Some(t.env)
            },
        ),
{
    reveal_strlit("");
    reveal_strlit("none");
    reveal_strlit("unknown");
    reveal_strlit("elf");
    reveal_strlit("gnu");
    reveal_strlit("glibc");
    reveal_strlit("musl");
    reveal_strlit("msvc");
    reveal_strlit("android");
    reveal_strlit("androideabi");
    reveal_strlit("sim");
    reveal_strlit("simulator");
    reveal_strlit("macabi");
    reveal_strlit("catalyst");
    reveal_strlit("eabihf");
    reveal_strlit("eabi");
    reveal_strlit("x32");
    reveal_strlit(".");
    let base = env_base(t);
    let name = env_name(t.env);
    assert(plain_name(name));
    assert(spelled(name));
    assert(forall|j: int| 0 <= j < name.len() ==> #[trigger] name[j] != 'x');
    match t.env {
        Env::Absent => assert(name.len() == 0),
        Env::Gnu => assert(name.len() == 3 && name[0] == 'g' && name[1] == 'n' && name[2] == 'u'),
        Env::Musl => assert(
            name.len() == 4 && name[0] == 'm' && name[1] == 'u' && name[2] == 's'
            && name[3] == 'l'
        ),
        Env::Msvc => assert(
            name.len() == 4 && name[0] == 'm' && name[1] == 's' && name[2] == 'v'
            && name[3] == 'c'
        ),
        Env::Android => assert(
            name.len() == 7 && name[0] == 'a' && name[1] == 'n' && name[2] == 'd'
            && name[3] == 'r' && name[4] == 'o' && name[5] == 'i'
            && name[6] == 'd'
        ),
        Env::Simulator => assert(
            name.len() == 9 && name[0] == 's' && name[1] == 'i' && name[2] == 'm'
            && name[3] == 'u' && name[4] == 'l' && name[5] == 'a'
            && name[6] == 't' && name[7] == 'o' && name[8] == 'r'
        ),
        Env::MacAbi => assert(
            name.len() == 6 && name[0] == 'm' && name[1] == 'a' && name[2] == 'c'
            && name[3] == 'a' && name[4] == 'b' && name[5] == 'i'
        ),
    }
    match t.env_version {
        None => {
            lemma_split_version_plain(name);
        },
        Some(v) => {
            let text = if t.env is Android {
                dec(v.0 as nat)
            } else {
                version_text(v)
            };
            let rest = if t.env is Android {
                text
            } else {
                "."@ + text
            };
            written_version_reads_back(v);
            written_version_reads_back((v.0, None::<u32>, None::<u32>));
            assert(base =~= name + rest);
            assert(rest.len() > 0);
            if !(t.env is Android) {
                assert(rest[0] == '.');
                assert(rest.drop_first() =~= text);
            }
            lemma_split_version_after(name, rest);
            assert(version_chars(rest));
            assert(spelled(rest));
            lemma_spelled_concat(name, rest);
            assert forall|j: int| 0 <= j < base.len() implies #[trigger] base[j] != 'x' by {
                if j < name.len() {
                    assert(base[j] == name[j]);
                } else {
                    assert(base[j] == rest[j - name.len()]);
                }
            }
        },
    }
    if base.len() >= 1 {
        assert(base.skip(base.len() - 1)[0] == base[base.len() - 1]);
    }
    if base.len() >= 3 {
        assert(base.skip(base.len() - 3)[0] == base[base.len() - 3]);
        assert(base.skip(base.len() - 3)[2] == base[base.len() - 1]);
    }
    if base.len() >= 4 {
        assert(base.skip(base.len() - 4)[0] == base[base.len() - 4]);
        assert(base.skip(base.len() - 4)[3] == base[base.len() - 1]);
    }
    if base.len() >= 6 {
        assert(base.skip(base.len() - 6)[5] == base[base.len() - 1]);
    }
}

/// What the environment component of a canonical spelling says: the environment unless it is
/// the absent one, its version as far as the spelling carries it, the float ABI on ARM, and the
/// `x32` data model.
spec fn env_parts_of(t: TupleView) -> EnvParts {
    EnvParts {
        env: if t.env is Absent {
            None
        } else {
            Some(t.env)
        },
        version: settled(t).env_version,
        abi: settled(t).abi,
        data_model: if !(t.arch is Arm) && t.data_model is Ilp32On64 {
            Some(DataModel::Ilp32On64)
        } else {
            None
        },
    }
}

/// Reading the environment component of a canonical spelling gives what it says.
#[verifier::rlimit(40)]
#[verifier::spinoff_prover]
proof fn lemma_read_env_component(t: TupleView)
    requires
        spellable(t),
        env_component_with(t, true).len() > 0,
    ensures
        parse_env_spec(env_component_with(t, true)) == Ok::<EnvParts, ErrorView>(env_parts_of(t)),
        spelled(env_component_with(t, true)),
{
    reveal_strlit("eabihf");
    reveal_strlit("eabi");
    reveal_strlit("x32");
    reveal_strlit("");
    lemma_env_base(t);
    let base = env_base(t);
    let suffix = env_suffix(t);
    let e = env_component_with(t, true);
    assert(e =~= base + suffix);
    assert(spelled(suffix));
    lemma_spelled_concat(base, suffix);
    lemma_lower_spelled(e);
    let n = e.len();
    if suffix.len() > 0 {
        assert(e[n - 1] == suffix[suffix.len() - 1]);
        assert(e.skip(n - 1)[0] == e[n - 1]);
        if n >= 6 {
            assert(e.skip(n - 6)[5] == e[n - 1]);
        }
        if n >= 4 {
            assert(e.skip(n - 4)[3] == e[n - 1]);
        }
    }
    if suffix == "eabihf"@ {
        assert(e.skip(n - 6) =~= "eabihf"@);
        assert(e.take(n - 6) =~= base);
    } else if suffix == "eabi"@ {
        assert(e.skip(n - 4) =~= "eabi"@);
        assert(e.take(n - 4) =~= base);
    } else if suffix == "x32"@ {
        assert(e.skip(n - 3) =~= "x32"@);
        assert(e.take(n - 3) =~= base);
    } else {
        assert(e =~= base);
    }
    let text = split_version(base).1;
    if t.env_version is Some {
        assert(parse_version(text) is Some);
    }
}

/// In a canonical spelling the OS is the second component: either the second component is not
/// a vendor's name, or it is `none` and the third component, a bare suffix, is not an OS.
proof fn lemma_no_vendor(t: TupleView)
    requires
        spellable(t),
    ensures
        !is_vendor(os_component(t)) || parse_os_spec(env_component_with(t, true)) is None,
{
    reveal_strlit("unknown");
    reveal_strlit("pc");
    reveal_strlit("apple");
    reveal_strlit("w64");
    reveal_strlit("none");
    reveal_strlit("ibm");
    reveal_strlit("sun");
    reveal_strlit("suse");
    reveal_strlit("redhat");
    reveal_strlit("alpine");
    reveal_strlit("poky");
    reveal_strlit("buildroot");
    reveal_strlit("nvidia");
    reveal_strlit("amd");
    reveal_strlit("intel");
    reveal_strlit("linaro");
    reveal_strlit("mingw32");
    reveal_strlit("mingw64");
    reveal_strlit("mingw");
    reveal_strlit("win32");
    reveal_strlit("windows");
    reveal_strlit("freestanding");
    reveal_strlit("elf");
    reveal_strlit("wasi");
    reveal_strlit("wasip");
    reveal_strlit("linux");
    reveal_strlit("macos");
    reveal_strlit("macosx");
    reveal_strlit("osx");
    reveal_strlit("darwin");
    reveal_strlit("ios");
    reveal_strlit("iphoneos");
    reveal_strlit("freebsd");
    reveal_strlit("netbsd");
    reveal_strlit("openbsd");
    reveal_strlit("illumos");
    reveal_strlit("eabihf");
    reveal_strlit("eabi");
    reveal_strlit("x32");
    reveal_strlit(".");
    reveal_strlit("");
    lemma_read_os_component(t);
    let o = os_component(t);
    let name = os_name(t.os);
    if t.os is Wasi {
        assert(o =~= "wasip"@ + dec(t.os_version->Some_0.0 as nat));
    } else if t.os_version is Some {
        assert(o =~= name + ("."@ + version_text(t.os_version->Some_0)));
    }
    match t.os {
        Os::Linux => assert(
            o.len() >= 4 && o[0] == 'l' && o[1] == 'i' && o[2] == 'n'
            && o[3] == 'u'
        ),
        Os::MacOs => assert(
            o.len() >= 4 && o[0] == 'm' && o[1] == 'a' && o[2] == 'c'
            && o[3] == 'o'
        ),
        Os::IOs => assert(o.len() >= 3 && o[0] == 'i' && o[1] == 'o' && o[2] == 's'),
        Os::Windows => assert(
            o.len() >= 4 && o[0] == 'w' && o[1] == 'i' && o[2] == 'n'
            && o[3] == 'd'
        ),
        Os::FreeBsd => assert(
            o.len() >= 4 && o[0] == 'f' && o[1] == 'r' && o[2] == 'e'
            && o[3] == 'e'
        ),
        Os::NetBsd => assert(
            o.len() >= 4 && o[0] == 'n' && o[1] == 'e' && o[2] == 't'
            && o[3] == 'b'
        ),
        Os::OpenBsd => assert(
            o.len() >= 4 && o[0] == 'o' && o[1] == 'p' && o[2] == 'e'
            && o[3] == 'n'
        ),
        Os::Illumos => assert(
            o.len() >= 4 && o[0] == 'i' && o[1] == 'l' && o[2] == 'l'
            && o[3] == 'u'
        ),
        Os::Wasi => assert(
            o.len() >= 4 && o[0] == 'w' && o[1] == 'a' && o[2] == 's'
            && o[3] == 'i'
        ),
        Os::Freestanding => assert(
            o.len() >= 4 && o[0] == 'n' && o[1] == 'o' && o[2] == 'n'
            && o[3] == 'e'
        ),
    }
    if t.os is Freestanding {
        let e = env_component_with(t, true);
        assert(t.env is Absent);
        if t.arch is Arm {
            if tuple_resolved_abi(t) is DoubleFloat {
                assert(e =~= "eabihf"@);
                lemma_split_version_plain(e);
            } else {
                assert(e =~= "eabi"@);
                lemma_split_version_plain(e);
            }
            assert(e[0] == 'e' && e[1] == 'a' && e[2] == 'b' && e[3] == 'i');
            if e.len() >= 5 {
                assert(e.take(5)[0] == 'e');
            }
            lemma_lower_spelled(e);
        } else if t.data_model is Ilp32On64 {
            assert(e =~= seq!['x'] + seq!['3', '2']);
            assert(plain_name(seq!['x']));
            lemma_split_version_after(seq!['x'], seq!['3', '2']);
            assert(e[0] == 'x' && e[1] == '3' && e[2] == '2');
            lemma_lower_spelled(e);
        } else {
            assert(e =~= Seq::<char>::empty());
            lemma_split_version_plain(e);
            lemma_lower_spelled(e);
        }
    }
}

/// The canonical spelling needs no trimming and splits at its dashes into its two or three
/// components.
#[verifier::spinoff_prover]
proof fn lemma_canonical_parts(t: TupleView)
    requires
        spellable(t),
    ensures
        canonical(t).len() > 0,
        trim(canonical(t)) == canonical(t),
        split(canonical(t), '-') == if env_component_with(t, true).len() == 0 {
            seq![arch_component(t), os_component(t)]
        } else {
            seq![arch_component(t), os_component(t), env_component_with(t, true)]
        },
        parse_arch_spec(arch_component(t)) == Ok::<_, ErrorView>(
            (t.arch, t.sub_arch, Some(t.endian)),
        ),
        arch_component(t).len() > 0,
        parse_os_spec(os_component(t)) == Some((t.os, t.os_version, None::<Env>)),
{
    reveal_strlit("-");
    if t.arch is Arm {
        lemma_read_arm_arch(t);
    } else {
        lemma_read_simple_arch(t);
    }
    lemma_read_os_component(t);
    let a = arch_component(t);
    let o = os_component(t);
    let e = env_component_with(t, true);
    let c = canonical(t);
    lemma_spelled_no_dash(a);
    lemma_spelled_no_dash(o);
    if e.len() == 0 {
        assert(c =~= a + seq!['-'] + o);
        lemma_split_concat(a, '-', o);
        lemma_split_whole(o, '-');
        assert(c[0] == a[0] && c.last() == o.last());
        assert(spelling_char(c[0]) && spelling_char(c.last()));
        lemma_trim_unchanged(c);
        assert(split(c, '-') =~= seq![a, o]);
    } else {
        lemma_read_env_component(t);
        lemma_spelled_no_dash(e);
        assert(c =~= a + seq!['-'] + (o + seq!['-'] + e));
        lemma_split_concat(a, '-', o + seq!['-'] + e);
        lemma_split_concat(o, '-', e);
        lemma_split_whole(e, '-');
        assert(c[0] == a[0] && c.last() == e.last());
        assert(spelling_char(c[0]) && spelling_char(c.last()));
        lemma_trim_unchanged(c);
        assert(split(c, '-') =~= seq![a, o, e]);
    }
}

/// The parts that reading a canonical spelling finds build the settled tuple.
#[verifier::spinoff_prover]
proof fn lemma_build_settled(t: TupleView)
    requires
        spellable(t),
    ensures
        build_spec(
            parsed_builder(
                (t.arch, t.sub_arch, Some(t.endian)),
                (t.os, t.os_version, None::<Env>),
                if env_component_with(t, true).len() == 0 {
                    None
                } else {
                    Some(env_parts_of(t))
                },
            ),
        ) == Ok::<TupleView, ErrorView>(settled(t)),
{
    reveal_strlit("eabihf");
    reveal_strlit("eabi");
    reveal_strlit("x32");
    reveal_strlit("");
    lemma_env_base(t);
    assert(env_component_with(t, true) =~= env_base(t) + env_suffix(t));
}

/// Reading the canonical spelling of a spellable tuple gives its settled form.
#[verifier::spinoff_prover]
proof fn lemma_read_canonical(t: TupleView)
    requires
        spellable(t),
    ensures
        parse_spec(canonical(t)) == Ok::<TupleView, ErrorView>(settled(t)),
{
    lemma_canonical_parts(t);
    lemma_build_settled(t);
    if env_component_with(t, true).len() > 0 {
        lemma_read_env_component(t);
        lemma_no_vendor(t);
    }
}

/// The settled form writes the same spelling, is spellable itself, and settles to itself.
proof fn lemma_settled_spelling(t: TupleView)
    requires
        spellable(t),
    ensures
        canonical(settled(t)) == canonical(t),
        spellable(settled(t)),
        settled(settled(t)) == settled(t),
{
    let u = settled(t);
    if t.arch is Arm {
        assert(tuple_resolved_abi(u) == tuple_resolved_abi(t));
    }
    assert(arch_component(u) == arch_component(t));
    assert(os_component(u) == os_component(t));
    assert(env_base(u) == env_base(t));
    assert(env_suffix(u) == env_suffix(t));
    assert(env_component_with(u, true) =~= env_base(u) + env_suffix(u));
    assert(env_component_with(t, true) =~= env_base(t) + env_suffix(t));
}

/// Canonicalization settles. Whatever spelling was read, reading the canonical spelling of
/// the tuple gives the tuple back except for what that spelling does not carry (its
/// [`settled`] form), the settled form writes the same canonical spelling, and reading that
/// spelling gives the settled form again. So formatting once gives a spelling that formats to
/// itself, and two spellings of one target produce one key.
pub proof fn canonical_spelling_settles(input: Seq<char>)
    requires
        parse_spec(input) is Ok,
    ensures
        ({
            let t = parse_spec(input)->Ok_0;
            &&& parse_spec(canonical(t)) == Ok::<TupleView, ErrorView>(settled(t))
            &&& canonical(settled(t)) == canonical(t)
            &&& parse_spec(canonical(settled(t))) == Ok::<TupleView, ErrorView>(settled(t))
        }),
{
    let t = parse_spec(input)->Ok_0;
    lemma_parsed_spellable(input);
    lemma_read_canonical(t);
    lemma_settled_spelling(t);
    lemma_read_canonical(settled(t));
}

/// The spelling a spellable tuple writes reads back to that tuple's settled form, which writes
/// the same spelling: the canonical spelling of every tuple a spelling can give is a key.
pub proof fn written_spelling_reads_back(t: TupleView)
    requires
        spellable(t),
    ensures
        parse_spec(canonical(t)) == Ok::<TupleView, ErrorView>(settled(t)),
        canonical(settled(t)) == canonical(t),
{
    lemma_read_canonical(t);
    lemma_settled_spelling(t);
}

/// Windows is LLP64 and everything else is not: a tuple read from any spelling has the LLP64
/// data model only on Windows, and on 64-bit Windows it has it unless the spelling asked for
/// `x32`.
pub proof fn windows_alone_is_llp64(input: Seq<char>)
    requires
        parse_spec(input) is Ok,
    ensures
        ({
            let t = parse_spec(input)->Ok_0;
            &&& t.data_model is Llp64 ==> t.os is Windows
            &&& (t.os is Windows && t.arch.spec_register_width() == 64) ==> (t.data_model is Llp64
                || t.data_model is Ilp32On64)
        }),
{
    lemma_parsed_spellable(input);
}


/// A tuple with nothing but a family, a baseline, a byte order, an OS and its version chosen,
/// every other field the default reading would give it.
spec fn plain_tuple(
    arch: Arch,
    sub_arch: SubArch,
    endian: Endian,
    os: Os,
    os_version: Option<VersionView>,
) -> TupleView {
    TupleView {
        arch,
        sub_arch,
        endian,
        data_model: default_data_model(arch, os),
        os,
        os_version,
        env: os.spec_default_env(),
        env_version: None,
        abi: Abi::Default,
        object_format: target_object_format(arch, os),
    }
}

/// Every family's name reads back through the leading component's parser as that family with
/// no baseline, and no two families share a name.
pub proof fn arch_names_read_back(a: Arch, b: Arch)
    ensures
        parse_arch_spec(arch_name(a)) matches Ok((read, sub, Some(_))) && read == a && sub is Base,
        a != b ==> arch_name(a) != arch_name(b),
{
    lemma_arch_name_reads_back(a);
    lemma_arch_name_reads_back(b);
}

/// One family's name, read back.
proof fn lemma_arch_name_reads_back(a: Arch)
    ensures
        parse_arch_spec(arch_name(a)) == Ok::<_, ErrorView>(
            (
                a,
                SubArch::Base,
                Some(
                    if a is PowerPc64 {
                        Endian::Big
                    } else {
                        a.spec_default_endian()
                    },
                ),
            ),
        ),
{
    reveal_strlit("");
    let e = if a is PowerPc64 {
        Endian::Big
    } else {
        a.spec_default_endian()
    };
    let t = plain_tuple(a, SubArch::Base, e, Os::Linux, None);
    assert(spellable(t));
    assert(arch_component(t) =~= arch_name(a));
    if a is Arm {
        lemma_read_arm_arch(t);
    } else {
        lemma_read_simple_arch(t);
    }
}

/// `arm` followed by every baseline's name reads back as that baseline, little-endian, and no
/// two baselines share a name.
pub proof fn baseline_names_read_back(s: SubArch, q: SubArch)
    ensures
        parse_arch_spec("arm"@ + sub_arch_name(s)) == Ok::<_, ErrorView>(
            (Arch::Arm, s, Some(Endian::Little)),
        ),
        s != q ==> sub_arch_name(s) != sub_arch_name(q),
{
    reveal_strlit("");
    let t = plain_tuple(Arch::Arm, s, Endian::Little, Os::Linux, None);
    let u = plain_tuple(Arch::Arm, q, Endian::Little, Os::Linux, None);
    assert(spellable(t));
    assert(spellable(u));
    assert(arch_component(t) =~= "arm"@ + sub_arch_name(s));
    assert(arch_component(u) =~= "arm"@ + sub_arch_name(q));
    lemma_read_arm_arch(t);
    lemma_read_arm_arch(u);
    if sub_arch_name(s) == sub_arch_name(q) {
        assert("arm"@ + sub_arch_name(s) == "arm"@ + sub_arch_name(q));
    }
}

/// Every OS's name reads back through the OS component's parser as that OS with no
/// environment, holds no digit and no dot, so a version written after it cannot run into it,
/// and no two OSes share a name.
pub proof fn os_names_read_back(o: Os, q: Os)
    ensures
        parse_os_spec(os_name(o)) matches Some((read, _, env)) && read == o && env is None,
        forall|j: int|
            0 <= j < os_name(o).len() ==> !is_digit(#[trigger] os_name(o)[j]) && os_name(o)[j]
                != '.',
        o != q ==> os_name(o) != os_name(q),
{
    lemma_os_name_reads_back(o);
    lemma_os_name_reads_back(q);
}

/// One OS's name, read back.
proof fn lemma_os_name_reads_back(o: Os)
    ensures
        parse_os_spec(os_name(o)) matches Some((read, _, env)) && read == o && env is None,
        plain_name(os_name(o)),
{
    reveal_strlit("mingw32");
    reveal_strlit("mingw64");
    reveal_strlit("mingw");
    reveal_strlit("win32");
    reveal_strlit("windows");
    reveal_strlit("none");
    reveal_strlit("unknown");
    reveal_strlit("freestanding");
    reveal_strlit("elf");
    reveal_strlit("wasi");
    reveal_strlit("linux");
    reveal_strlit("macos");
    reveal_strlit("ios");
    reveal_strlit("freebsd");
    reveal_strlit("netbsd");
    reveal_strlit("openbsd");
    reveal_strlit("illumos");
    let name = os_name(o);
    assert(plain_name(name));
    if o is Wasi {
        assert(name.len() == 4 && name[0] == 'w' && name[1] == 'a' && name[2] == 's' && name[3]
            == 'i');
        assert(spelled(name));
        lemma_lower_spelled(name);
        assert(lower(name) == "wasi"@);
    } else {
        let t = plain_tuple(Arch::X86_64, SubArch::Base, Endian::Little, o, None);
        assert(spellable(t));
        assert(os_component(t) == name);
        lemma_read_os_component(t);
    }
}

} // verus!




