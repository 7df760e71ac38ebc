//! Concrete cases for the laws the library proves, the edge cases the reader handles, one
//! exact value per formula, and one input per error.

use std::cmp::Ordering;
use std::str::FromStr;

use rucc_cross::abis::for_target;
use rucc_cross::{
    lookup, counts_by_planned_tier, pieces, planned_working_count, record, Abi, Arch, Arg,
    BitfieldOrder, DataLayout, DataModel, Endian, Env, Error, Format, Host, ObjectFormat, Os,
    Pass, Scalar, Shape, Slot, SubArch, TargetTuple, Tier, TupleBuilder, Version,
};

fn parse(s: &str) -> TargetTuple {
    TargetTuple::from_str(s).unwrap_or_else(|e| panic!("`{s}` should parse, got: {e:?}"))
}

fn canonical(s: &str) -> String {
    parse(s).to_canonical_string()
}

#[test]
fn reading_the_canonical_spelling_settles_what_it_does_not_carry() {
    // The float ABI of a RISC-V target has no suffix in the canonical spelling, so it comes back
    // as the default; the spelling itself is unchanged.
    let soft = parse("riscv64-linux-gnueabi");
    assert_eq!(soft.abi(), Abi::SoftFloat);
    assert_eq!(soft.resolved_abi(), Abi::SoftFloat);
    let once = soft.to_canonical_string();
    assert_eq!(once, "riscv64-linux-gnu");
    let again = parse(&once);
    assert_eq!(again.abi(), Abi::Default);
    assert_eq!(again.resolved_abi(), Abi::DoubleFloat);
    assert_eq!(again.to_canonical_string(), once);

    // An Android API level keeps its major part only.
    let api = parse("aarch64-linux-android31.2");
    assert_eq!(api.env_version().map(|v| v.minor_part()), Some(Some(2)));
    assert_eq!(api.to_canonical_string(), "aarch64-linux-android31");
    let settled = parse(&api.to_canonical_string());
    assert_eq!(settled.env_version().map(|v| v.minor_part()), Some(None));
    assert_eq!(settled.to_canonical_string(), "aarch64-linux-android31");

    // On ARM the suffix names the float ABI, so an x32 data model does not survive, and the
    // resolved ABI comes back explicit.
    let arm = parse("armv7-linux-gnux32");
    assert_eq!(arm.data_model(), DataModel::Ilp32On64);
    assert_eq!(arm.to_canonical_string(), "armv7-linux-gnueabihf");
    let back = parse("armv7-linux-gnueabihf");
    assert_eq!(back.data_model(), DataModel::Ilp32);
    assert_eq!(back.abi(), Abi::DoubleFloat);
    assert_eq!(back.to_canonical_string(), "armv7-linux-gnueabihf");
}

#[test]
fn settled_spellings_are_fixed_points() {
    for spelling in [
        "riscv64-linux-gnueabi",
        "aarch64-linux-android31.2",
        "armv7-linux-androideabi21",
        "armeb-linux-gnueabi",
        "thumbv7m-none-eabi",
        "x86_64-none-x32",
        "wasm32-wasi",
        "wasm32-wasip+2",
        "aarch64-apple-darwin20",
        "arm64-apple-ios17.2-simulator",
        "x86_64-linux-musl.1.2.4",
        "x86_64-pc-windows-msvc.19.3",
    ] {
        let once = canonical(spelling);
        let twice = canonical(&once);
        let thrice = canonical(&twice);
        assert_eq!(once, twice, "`{spelling}` does not settle");
        assert_eq!(twice, thrice, "`{spelling}` does not stay settled");
    }
}

#[test]
fn spellings_of_one_target_read_the_same() {
    assert_eq!(parse("x86_64-unknown-linux-gnu"), parse("x86_64-linux-gnu"));
    assert_eq!(parse("amd64-linux-gnu"), parse("x86_64-linux-gnu"));
    assert_eq!(parse("X86_64-Linux-GNU"), parse("x86_64-linux-gnu"));
    assert_eq!(parse("  aarch64-linux-gnu\n"), parse("aarch64-linux-gnu"));
    assert_eq!(parse("arm64-apple-macosx14"), parse("aarch64-macos.14"));
    assert_eq!(parse("x86_64-w64-mingw32"), parse("x86_64-windows-gnu"));
    assert_eq!(parse("x86_64-pc-none"), parse("x86_64-none"));
    assert_eq!(parse("x86_64-unknown"), parse("x86_64-none"));
    assert_eq!(parse("x86_64"), parse("x86_64-none"));
    assert_eq!(parse("thumbv7em-none-eabi"), parse("armv7em-none-eabi"));
    assert_eq!(canonical("armv7a-unknown-linux-gnueabihf"), "armv7-linux-gnueabihf");
    assert_eq!(canonical("armv7-linux-androideabi21"), "armv7-linux-android21eabihf");
    assert_eq!(canonical("x86_64-none-x32"), "x86_64-none-x32");
    assert_eq!(canonical("wasm32-wasi"), "wasm32-wasip1");
}

#[test]
fn the_byte_order_is_folded_into_the_leading_component() {
    let big = parse("armeb-linux-gnueabi");
    assert_eq!(big.sub_arch(), SubArch::Base);
    assert_eq!(big.endian(), Endian::Big);
    assert_eq!(big.to_canonical_string(), "armeb-linux-gnueabi");
    assert_eq!(canonical("armv7eb-linux-gnueabihf"), "armv7eb-linux-gnueabihf");
    assert_eq!(canonical("thumbebv7-linux-gnueabihf"), "armv7eb-linux-gnueabihf");
    assert_eq!(canonical("aarch64be-linux-gnu"), "aarch64_be-linux-gnu");
    assert_eq!(canonical("ppc64-linux-gnu"), "powerpc64-linux-gnu");
    assert_eq!(parse("ppc64-linux-gnu").arch_component(), "powerpc64");
    assert_eq!(parse("ppc64le-linux-gnu").arch_component(), "powerpc64le");
}

#[test]
fn darwin_kernel_versions_below_five_name_no_product_version() {
    assert_eq!(canonical("x86_64-apple-darwin4"), "x86_64-macos");
    assert_eq!(canonical("x86_64-apple-darwin5"), "x86_64-macos.10.1");
    assert_eq!(canonical("x86_64-apple-darwin20"), "x86_64-macos.11");
}

#[test]
fn the_llvm_spelling_has_a_vendor_and_three_version_parts() {
    assert_eq!(parse("x86_64-w64-mingw32").to_llvm_string(), "x86_64-w64-windows-gnu");
    assert_eq!(parse("x86_64-windows-msvc").to_llvm_string(), "x86_64-pc-windows-msvc");
    assert_eq!(parse("x86_64-illumos").to_llvm_string(), "x86_64-pc-illumos");
    assert_eq!(parse("x86_64-none").to_llvm_string(), "x86_64-unknown-none");
    assert_eq!(parse("armv7-none-eabi").to_llvm_string(), "armv7-unknown-none-eabi");
    assert_eq!(parse("x86_64-apple-macos").to_llvm_string(), "x86_64-apple-macosx");
    assert_eq!(parse("aarch64-macos.14.2.1").to_llvm_string(), "aarch64-apple-macosx14.2.1");
    assert_eq!(parse("aarch64-ios.17.2").to_llvm_string(), "aarch64-apple-ios17.2.0");
    assert_eq!(parse("aarch64-ios").to_llvm_string(), "aarch64-apple-ios");
    assert_eq!(parse("x86_64-linux-gnux32").to_llvm_string(), "x86_64-unknown-linux-gnux32");
    assert_eq!(parse("wasm32-wasi").to_llvm_string(), "wasm32-unknown-wasi");
}

#[test]
fn the_components_are_available_one_by_one() {
    let t = parse("aarch64-linux-gnu.2.28");
    assert_eq!(t.arch_component(), "aarch64");
    assert_eq!(t.os_component(), "linux");
    assert_eq!(t.env_component(), "gnu.2.28");
    assert_eq!(t.to_string(), "aarch64-linux-gnu.2.28");
    let bare = parse("x86_64-none");
    assert_eq!(bare.env_component(), "");
    assert_eq!(parse("wasm32-wasip3").os_component(), "wasip3");
    assert_eq!(parse("aarch64-macos.14").os_component(), "macos.14");
}

#[test]
fn every_reading_error_names_its_component() {
    assert_eq!(TargetTuple::from_str("   "), Err(Error::Empty));
    assert_eq!(TargetTuple::from_str("-linux-gnu"), Err(Error::Empty));
    assert_eq!(
        TargetTuple::from_str("x86_64-linux-gnu.2.x"),
        Err(Error::BadVersion { component: "environment", found: "2.x".to_string() })
    );
    assert_eq!(
        TargetTuple::from_str("x86_64-linux-gnu-extra"),
        Err(Error::Trailing(vec!["extra".to_string()]))
    );
    assert_eq!(
        TargetTuple::from_str("x86_64-linux.5.15-gnu"),
        Err(Error::VersionNotAccepted { component: "operating system" })
    );
    assert_eq!(
        TargetTuple::from_str("aarch64-ios-simulator.1"),
        Err(Error::VersionNotAccepted { component: "environment" })
    );
    assert_eq!(TargetTuple::from_str("wasm32-wasipx"), Err(Error::UnknownOs("wasipx".to_string())));
    assert_eq!(TargetTuple::from_str("armv9-linux-gnu"), Err(Error::UnknownArch("armv9".to_string())));
}

#[test]
fn the_builder_refuses_what_no_spelling_reaches() {
    assert_eq!(
        TupleBuilder::new(Arch::X86_64, Os::Linux).sub_arch(SubArch::ArmV7A).build(),
        Err(Error::SubArchMismatch { arch: Arch::X86_64, sub_arch: SubArch::ArmV7A })
    );
    assert_eq!(
        TupleBuilder::new(Arch::X86_64, Os::Linux).endian(Endian::Big).build(),
        Err(Error::EndianUnsupported { arch: Arch::X86_64, endian: Endian::Big })
    );
    assert_eq!(
        TupleBuilder::new(Arch::Arm, Os::Linux).abi(Abi::SingleFloat).build(),
        Err(Error::AbiMismatch { arch: Arch::Arm, abi: Abi::SingleFloat })
    );
    let riscv = TupleBuilder::new(Arch::Riscv64, Os::Linux).endian(Endian::Big).build().unwrap();
    assert_eq!(riscv.endian(), Endian::Big);
    assert_eq!(riscv.to_canonical_string(), "riscv64eb-linux-gnu");
    let built = TargetTuple::new(Arch::Aarch64, Os::Linux).unwrap();
    assert_eq!(built, parse("aarch64-linux-gnu"));
    let pinned = TargetTuple::builder(Arch::X86_64, Os::Linux)
        .env_version(Version::new(2, 28))
        .build()
        .unwrap();
    assert_eq!(pinned, parse("x86_64-linux-gnu.2.28"));
}

#[test]
fn error_messages_say_what_was_wrong() {
    assert_eq!(Error::Empty.to_string(), "empty target tuple");
    assert_eq!(
        Error::UnknownArch("x86_65".to_string()).to_string(),
        "unknown architecture `x86_65`"
    );
    assert_eq!(
        Error::UnknownOs("linuxx".to_string()).to_string(),
        "unknown operating system `linuxx`"
    );
    assert_eq!(
        Error::Trailing(vec!["extra".to_string()]).to_string(),
        "unexpected trailing component `extra`"
    );
    assert_eq!(
        Error::Trailing(vec!["and".to_string(), "then".to_string()]).to_string(),
        "unexpected trailing components `and`, `then`"
    );
    assert_eq!(
        Error::BadVersion { component: "environment", found: "2.x".to_string() }.to_string(),
        "`2.x` is not a version for the environment component"
    );
    assert_eq!(
        Error::SubArchMismatch { arch: Arch::X86_64, sub_arch: SubArch::ArmV7A }.to_string(),
        "`v7` is not a baseline of `x86_64`"
    );
    assert_eq!(
        Error::EndianUnsupported { arch: Arch::X86_64, endian: Endian::Big }.to_string(),
        "`x86_64` has no big endian mode"
    );
    assert_eq!(
        Error::EnvMismatch { os: Os::MacOs, env: Env::Musl }.to_string(),
        "`macos` has no `musl` environment"
    );
    assert_eq!(
        Error::AbiMismatch { arch: Arch::X86_64, abi: Abi::DoubleFloat }.to_string(),
        "`x86_64` has one calling convention and cannot select `hard`"
    );
    assert_eq!(
        Error::VersionNotAccepted { component: "operating system" }.to_string(),
        "the operating system component does not take a version"
    );
}

#[test]
fn versions_are_written_and_compared_by_their_parts() {
    assert_eq!(Version::new(2, 28).to_string(), "2.28");
    assert_eq!(Version::major(14).to_string(), "14");
    assert_eq!(Version::full(1, 2, 3).to_string(), "1.2.3");
    assert_eq!(Version::major(14).to_llvm_string(), "14.0.0");
    assert_eq!(Version::new(10, 15).to_triple(), (10, 15, 0));
    assert!(Version::new(2, 28).at_least(Version::new(2, 17)));
    assert!(Version::major(2).at_least(Version::new(2, 0)));
    assert!(!Version::new(2, 9).at_least(Version::new(2, 10)));
    assert!(Version::major(3).at_least(Version::full(2, 99, 99)));
    assert!(!Version::full(1, 2, 3).at_least(Version::full(1, 2, 4)));
}

#[test]
fn versions_order_by_their_zero_filled_parts() {
    assert_eq!(Version::major(13).partial_cmp(&Version::new(13, 0)), Some(Ordering::Equal));
    assert_ne!(Version::major(13), Version::new(13, 0));
    assert!(Version::new(2, 9) < Version::new(2, 10));
    assert!(Version::major(14) > Version::full(13, 9, 9));
    assert!(Version::full(1, 2, 3) <= Version::full(1, 2, 3));
}

#[test]
fn data_models_give_their_widths() {
    let widths = |m: DataModel| (m.int_width(), m.long_width(), m.long_long_width(), m.pointer_width());
    assert_eq!(widths(DataModel::Ilp32), (32, 32, 64, 32));
    assert_eq!(widths(DataModel::Lp64), (32, 64, 64, 64));
    assert_eq!(widths(DataModel::Llp64), (32, 32, 64, 64));
    assert_eq!(widths(DataModel::Ilp32On64), (32, 32, 64, 32));
    assert_eq!(DataModel::Ilp32On64.address_width(), 32);
    assert_eq!(parse("x86_64-linux-gnux32").pointer_width(), 32);
}

#[test]
fn the_riscv_mabi_follows_the_data_model_and_the_float_abi() {
    let mabi = |s: &str| {
        let t = parse(s);
        t.resolved_abi().to_mabi(t.arch(), t.data_model())
    };
    assert_eq!(mabi("riscv64-linux-gnu"), Some("lp64d".to_string()));
    assert_eq!(mabi("riscv64-linux-gnueabi"), Some("lp64".to_string()));
    assert_eq!(mabi("riscv32-none"), Some("ilp32".to_string()));
    assert_eq!(mabi("loongarch64-linux-gnu"), Some("lp64d".to_string()));
    assert_eq!(mabi("x86_64-linux-gnu"), None);
    assert_eq!(Abi::SingleFloat.to_mabi(Arch::Riscv32, DataModel::Ilp32), Some("ilp32f".to_string()));
    assert_eq!(Abi::Default.to_mabi(Arch::Riscv64, DataModel::Lp64), None);
    assert_eq!(Abi::DoubleFloat.to_mabi(Arch::Riscv64, DataModel::Llp64), None);
}

#[test]
fn object_formats_name_their_files_and_symbols() {
    assert_eq!(ObjectFormat::Coff.object_extension(), "obj");
    assert_eq!(ObjectFormat::Coff.archive_extension(), "lib");
    assert_eq!(ObjectFormat::Elf.object_extension(), "o");
    assert_eq!(ObjectFormat::MachO.archive_extension(), "a");
    assert!(ObjectFormat::MachO.leading_underscore(DataModel::Lp64));
    assert!(ObjectFormat::Coff.leading_underscore(DataModel::Ilp32));
    assert!(!ObjectFormat::Coff.leading_underscore(DataModel::Llp64));
    assert!(!ObjectFormat::Wasm.leading_underscore(DataModel::Ilp32));
    assert_eq!(parse("x86_64-windows-gnu").object_format(), ObjectFormat::Coff);
    assert_eq!(parse("aarch64-ios").object_format(), ObjectFormat::MachO);
    assert_eq!(parse("wasm32-wasip1").object_format(), ObjectFormat::Wasm);
}

#[test]
fn layouts_follow_the_target() {
    let i386 = DataLayout::for_target(parse("i686-linux-gnu"));
    assert_eq!(i386.long_long_align, 4);
    assert_eq!(i386.double.align, 4);
    assert_eq!((i386.long_double.format, i386.long_double.size, i386.long_double.align), (Format::X87Extended, 12, 4));
    assert_eq!(i386.max_field_align, Some(4));
    assert_eq!((i386.pointer_size, i386.long_size), (4, 4));
    assert!(i386.char_is_signed);

    let mingw32 = DataLayout::for_target(parse("i686-windows-gnu"));
    assert_eq!((mingw32.long_double.format, mingw32.long_double.size), (Format::X87Extended, 12));
    assert_eq!((mingw32.double.align, mingw32.long_long_align), (8, 8));
    assert_eq!(mingw32.max_field_align, None);
    assert!(mingw32.leading_underscore);

    let mingw64 = DataLayout::for_target(parse("x86_64-windows-gnu"));
    assert_eq!(
        (mingw64.long_double.format, mingw64.long_double.size, mingw64.long_double.align),
        (Format::X87Extended, 16, 16)
    );

    let win64 = DataLayout::for_target(parse("x86_64-windows-msvc"));
    assert_eq!((win64.long_size, win64.pointer_size), (4, 8));
    assert!(win64.long_double_is_double());
    assert_eq!((win64.long_double.size, win64.long_double.align), (8, 8));

    let mac = DataLayout::for_target(parse("aarch64-macos"));
    assert!(mac.long_double_is_double());
    assert!(mac.leading_underscore);
    assert!(!mac.char_is_signed);

    let s390x = DataLayout::for_target(parse("s390x-linux-gnu"));
    assert_eq!(
        (s390x.long_double.format, s390x.long_double.size, s390x.long_double.align),
        (Format::Quad, 16, 8)
    );
    assert_eq!(s390x.bitfield_order, BitfieldOrder::HighestFirst);

    let ppc = DataLayout::for_target(parse("powerpc64le-linux-gnu"));
    assert_eq!(ppc.long_double.format, Format::DoubleDouble);
    assert_eq!(ppc.bitfield_order, BitfieldOrder::LowestFirst);

    let x32 = DataLayout::for_target(parse("x86_64-linux-gnux32"));
    assert_eq!((x32.pointer_size, x32.long_size, x32.long_long_size), (4, 4, 8));
    assert_eq!(x32.long_double.size, 16);
    assert!(!DataLayout::for_target(parse("x86_64-linux-gnu")).long_double_is_double());
}

#[test]
fn records_place_each_member_where_it_fits() {
    let members = pieces(&[Scalar::integer(1), Scalar::integer(8), Scalar::integer(2)]);
    let offsets: Vec<u64> = members.iter().map(|p| p.offset).collect();
    assert_eq!(offsets, vec![0, 8, 16]);
    assert_eq!(members[2].end(), 18);
    let shape = record(&members);
    assert_eq!((shape.size, shape.align), (24, 8));
    assert_eq!(shape.size % shape.align, 0);
    assert!(!shape.complex);

    let floats = pieces(&[Scalar::float(Format::Single, 4), Scalar::float(Format::Single, 4)]);
    let pair = record(&floats);
    assert!(pair.is_all_of(Format::Single));
    assert!(!pair.is_all_of(Format::Double));
    assert_eq!((pair.size, pair.align), (8, 4));

    let nothing = pieces(&[]);
    assert!(nothing.is_empty());
    let empty = record(&nothing);
    assert_eq!((empty.size, empty.align), (0, 1));
}

#[test]
fn every_abi_answer_is_one_of_the_described_ones() {
    let name = |s: &str| for_target(parse(s)).map(|d| d.name);
    assert_eq!(name("x86_64-linux-gnu"), Some("SysV AMD64"));
    assert_eq!(name("x86_64-freebsd"), Some("SysV AMD64"));
    assert_eq!(name("x86_64-windows-gnu"), Some("Windows x64"));
    assert_eq!(name("aarch64-ios"), Some("Darwin arm64"));
    assert_eq!(name("aarch64-freebsd"), Some("AAPCS64"));
    assert_eq!(name("riscv64-none"), Some("RISC-V LP64D"));
    assert_eq!(name("i686-linux-gnu"), None);
    assert_eq!(name("arm64ec-windows-msvc"), None);
}

#[test]
fn the_table_is_keyed_on_the_canonical_spelling() {
    assert_eq!(lookup(&parse("arm64-unknown-linux-musl")).map(|e| e.tuple), Some("aarch64-linux-musl"));
    assert_eq!(lookup(&parse("x86_64-linux-gnu.2.28")).map(|e| e.tuple), None);
    assert_eq!(lookup(&parse("x86_64-none")).map(|e| e.planned), Some(Tier::Supported));
    assert_eq!(counts_by_planned_tier(), [10, 18, 8, 6]);
    assert_eq!(planned_working_count(), 36);
    assert_eq!(Tier::InProgress.number(), 3);
    assert_eq!(Tier::Recognized.describe(), "recognized");
    assert!(!Tier::Recognized.compiles_and_links());
    assert!(Tier::SupportedWithEvidence.compiles_and_links());
    assert_eq!(Host::Planned.as_str(), "later");
}

#[test]
fn the_same_aggregate_travels_differently_on_two_abis_of_one_architecture() {
    // Two eight byte integers: two registers on SysV, a hidden pointer on Windows.
    let members = pieces(&[Scalar::integer(8), Scalar::integer(8)]);
    let shape = Arg::Aggregate(Shape { size: 16, align: 8, pieces: &members, complex: false });
    let mut linux = for_target(parse("x86_64-linux-gnu")).unwrap().call();
    assert_eq!(
        linux.argument(&shape),
        Pass::Pieces(vec![Slot::Integer { offset: 0, size: 8 }, Slot::Integer { offset: 8, size: 8 }])
    );
    assert_eq!(linux.integer_left(), 4);
    let mut windows = for_target(parse("x86_64-pc-windows-msvc")).unwrap().call();
    assert_eq!(windows.argument(&shape), Pass::Reference);
    assert_eq!(windows.integer_left(), 3);
    assert_eq!(windows.argument(&Arg::Void), Pass::Ignore);
    assert_eq!(windows.return_value(&Arg::Scalar(Scalar::integer(4))), Pass::Direct);
}

#[test]
fn a_variadic_float_on_windows_spends_one_shared_position() {
    let mut call = rucc_cross::abis::win64().call();
    assert_eq!(call.variadic_argument(&Arg::Scalar(Scalar::float(Format::Double, 8))), Pass::Direct);
    assert_eq!(call.integer_left(), 3);
    assert_eq!(call.float_left(), 0);
}

#[test]
fn a_quad_float_rides_in_one_vector_register_on_aapcs() {
    let members = pieces(&[Scalar::float(Format::Quad, 16)]);
    let mut call = rucc_cross::abis::aapcs64().call();
    assert_eq!(
        call.argument(&Arg::Aggregate(record(&members))),
        Pass::Pieces(vec![Slot::Float { offset: 0, format: Format::Quad }])
    );
    assert_eq!(call.float_left(), 7);
}

#[test]
fn the_last_general_register_holds_only_what_is_left_of_the_object() {
    let members = pieces(&[Scalar::integer(4), Scalar::integer(4), Scalar::integer(4)]);
    let shape = record(&members);
    assert_eq!(shape.size, 12);
    let expected = Pass::Pieces(vec![
        Slot::Integer { offset: 0, size: 8 },
        Slot::Integer { offset: 8, size: 4 },
    ]);
    let mut arm = rucc_cross::abis::aapcs64().call();
    assert_eq!(arm.argument(&Arg::Aggregate(shape)), expected);
    let mut riscv = rucc_cross::abis::riscv_lp64d().call();
    assert_eq!(riscv.return_value(&Arg::Aggregate(shape)), expected);
}

#[test]
fn every_family_but_s390x_is_little_endian_unless_spelled_otherwise() {
    assert_eq!(Arch::S390x.default_endian(), Endian::Big);
    assert_eq!(Arch::PowerPc64.default_endian(), Endian::Little);
    assert_eq!(Arch::Aarch64.default_endian(), Endian::Little);
    assert_eq!(parse("powerpc64-linux-gnu").endian(), Endian::Big);
    assert_eq!(parse("powerpc64le-linux-gnu").endian(), Endian::Little);
    assert_eq!(parse("powerpc64-linux-gnu").to_canonical_string(), "powerpc64-linux-gnu");
}

#[test]
fn names_read_back_through_the_parser() {
    assert_eq!(Arch::X86.as_str(), "i686");
    assert_eq!(Arch::Arm64Ec.as_str(), "arm64ec");
    assert_eq!(parse("arm64ec-windows-msvc").arch(), Arch::Arm64Ec);
    assert_eq!(SubArch::ArmV7A.as_str(), "v7");
    assert_eq!(parse("armv8-linux-gnueabihf").sub_arch(), SubArch::ArmV8A);
    assert_eq!(Os::MacOs.as_str(), "macos");
    assert_eq!(Os::Freestanding.as_str(), "none");
    assert_eq!(parse("x86_64-freebsd").os(), Os::FreeBsd);
}

#[test]
fn resolving_always_names_a_float_abi() {
    assert_eq!(parse("armv7-linux-gnu").resolved_abi(), Abi::DoubleFloat);
    assert_eq!(parse("thumbv7m-none").resolved_abi(), Abi::SoftFloat);
    assert_eq!(parse("x86_64-linux-gnu").resolved_abi(), Abi::DoubleFloat);
    assert_eq!(parse("x86_64-pc-windows-msvc").data_model().long_width(), 32);
    assert_eq!(parse("x86_64-linux-gnu").data_model().long_width(), 64);
}
