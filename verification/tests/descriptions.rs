//! Properties every ABI description has to have, checked once for every description.

use rucc_cross::abis::{described, for_target};
use rucc_cross::{
    pieces, record, AbiDescription, Arg, Banks, Format, Pass, ReturnPointer, Rule, Scalar,
    Scalars, Short, Slot, StackArgs, TargetEntry, Test, Travel, Variadic, targets,
};

/// The two rule lists of a description, with a name for the failure message.
fn rule_lists(abi: &AbiDescription) -> [(&'static str, &[Rule]); 2] {
    [("returns", &abi.returns), ("arguments", &abi.arguments)]
}

#[test]
fn every_rule_list_ends_in_a_catch_all_and_has_one_nowhere_else() {
    for abi in &described() {
        for (which, rules) in rule_lists(abi) {
            let (last, rest) = rules.split_last().unwrap_or_else(|| {
                panic!("{} has an empty {which} list, so it answers nothing", abi.name)
            });
            assert_eq!(
                last.when,
                Test::Anything,
                "{}'s {which} list ends in {:?} rather than a catch-all",
                abi.name,
                last.when
            );
            for rule in rest {
                assert_ne!(
                    rule.when,
                    Test::Anything,
                    "{}'s {which} list has a catch-all before the end, so the rules after it are \
                     unreachable",
                    abi.name
                );
            }
        }
    }
}

#[test]
fn as_found_only_follows_a_test_that_finds_something() {
    for abi in &described() {
        for (which, rules) in rule_lists(abi) {
            for rule in rules {
                if rule.travel != Travel::AsFound {
                    continue;
                }
                assert!(
                    matches!(
                        rule.when,
                        Test::Homogeneous { .. }
                            | Test::FloatPair
                            | Test::X87Stack
                            | Test::Eightbytes { .. }
                    ),
                    "{}'s {which} list travels as found after {:?}, which finds nothing",
                    abi.name,
                    rule.when
                );
            }
        }
    }
}

#[test]
fn ignore_is_only_ever_the_empty_rule() {
    for abi in &described() {
        for (which, rules) in rule_lists(abi) {
            for rule in rules {
                assert_eq!(
                    rule.travel == Travel::Ignore,
                    rule.when == Test::Empty,
                    "{}'s {which} list pairs {:?} with {:?}, and an aggregate of no size is the \
                     only thing that travels nowhere",
                    abi.name,
                    rule.when,
                    rule.travel
                );
            }
        }
    }
}

#[test]
fn a_rule_that_declines_has_somewhere_to_decline_to() {
    for abi in &described() {
        for (which, rules) in rule_lists(abi) {
            let last = rules.len().saturating_sub(1);
            for (at, rule) in rules.iter().enumerate() {
                if rule.short == Short::TryNextRule {
                    assert_ne!(
                        at, last,
                        "{}'s last {which} rule tries the next one, and there is no next one",
                        abi.name
                    );
                }
            }
        }
    }
}

#[test]
fn a_return_rule_never_runs_short() {
    for abi in &described() {
        for rule in &abi.returns {
            assert_eq!(
                rule.short,
                Short::Unchanged,
                "{}'s return rule {:?} says what happens when the registers run out, and they \
                 cannot have run out yet",
                abi.name,
                rule.when
            );
        }
    }
}

#[test]
fn a_shared_bank_is_counted_in_one_place() {
    for abi in &described() {
        if abi.banks.shared {
            assert_eq!(
                abi.banks.float, 0,
                "{} shares argument positions and still counts a separate float bank",
                abi.name
            );
        }
        assert!(abi.banks.integer_width > 0, "{} has registers of no width", abi.name);
        assert!(abi.banks.float_width > 0, "{} has vector registers of no width", abi.name);
    }
}

#[test]
fn the_described_abis_have_distinct_names() {
    let mut names: Vec<&str> = described().iter().map(|abi| abi.name).collect();
    names.sort_unstable();
    let count = names.len();
    names.dedup();
    assert_eq!(names.len(), count, "two descriptions answer to the same name");
}

#[test]
fn every_target_with_an_abi_gets_one_of_the_described_ones() {
    let all = described();
    let mut answered = 0;
    for entry in targets() {
        let target =
            TargetEntry::parse(&entry).expect("the table parses, which its own tests check");
        let Some(abi) = for_target(target) else {
            continue;
        };
        assert!(
            all.iter().any(|described| *described == abi),
            "{} was given an ABI that is not in the list the report iterates",
            entry.tuple
        );
        answered += 1;
    }
    assert!(answered >= 10, "only {answered} of the target table's rows have an ABI");
}

#[test]
fn windows_on_aarch64_gets_no_answer_rather_than_the_almost_right_one() {
    let target = "aarch64-pc-windows-msvc".parse().expect("a row in the target table");
    assert!(for_target(target).is_none());
}

/// The s390x ELF ABI, written here rather than in the library.
fn s390x_elf() -> AbiDescription {
    AbiDescription {
        name: "s390x ELF",
        banks: Banks { integer: 5, float: 4, shared: false, integer_width: 8, float_width: 8 },
        scalars: Scalars { in_memory: None, wide_integer_is_all_or_nothing: false },
        returns: vec![
            Rule::new(Test::Empty, Travel::Ignore),
            Rule::new(Test::Anything, Travel::ByReference),
        ],
        arguments: vec![
            Rule::new(Test::Empty, Travel::Ignore),
            Rule::new(Test::SizeOneOf(vec![1, 2, 4, 8]), Travel::AsOneInteger),
            Rule::new(Test::Anything, Travel::ByReference),
        ],
        return_pointer: ReturnPointer::FirstArgument,
        variadic: Variadic::SameAsFixed,
        stack_args: StackArgs::RegisterSized,
    }
}

#[test]
fn a_sixth_abi_is_a_description_and_no_code() {
    let mut call = s390x_elf().call();

    // A structure return value is in memory here whatever its size, and its address is the first
    // argument, so one of the five registers is gone before the call has any arguments.
    let small = pieces(&[Scalar::integer(4)]);
    assert_eq!(call.return_value(&Arg::Aggregate(record(&small))), Pass::Reference);
    assert_eq!(call.integer_left(), 4);

    // Eight bytes of two floats in a general purpose register, the same as Windows x64 and for
    // the same reason, which is that the rule reads the size and nothing else.
    let two_floats = pieces(&[Scalar::float(Format::Single, 4); 2]);
    assert_eq!(
        call.argument(&Arg::Aggregate(record(&two_floats))),
        Pass::Pieces(vec![Slot::Integer { offset: 0, size: 8 }])
    );

    // Three bytes is not a size a register holds, so it travels as an address.
    let three = pieces(&[Scalar::integer(1); 3]);
    assert_eq!(call.argument(&Arg::Aggregate(record(&three))), Pass::Reference);

    // The two banks are counted apart, unlike Windows x64, which is one field of difference.
    assert_eq!(call.float_left(), 4);
    assert_eq!(call.argument(&Arg::Scalar(Scalar::float(Format::Double, 8))), Pass::Direct);
    assert_eq!(call.float_left(), 3);
    assert_eq!(call.integer_left(), 2);
}

#[test]
fn the_sixth_description_satisfies_the_same_properties_as_the_five() {
    let s390x = s390x_elf();
    for (which, rules) in rule_lists(&s390x) {
        let (last, rest) = rules.split_last().expect("a non-empty list");
        assert_eq!(last.when, Test::Anything, "the {which} list has no catch-all");
        assert!(rest.iter().all(|rule| rule.when != Test::Anything));
        assert!(
            rules.iter().all(|rule| (rule.travel == Travel::Ignore) == (rule.when == Test::Empty))
        );
    }
}
