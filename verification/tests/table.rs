//! The table has to be internally consistent, because everything downstream keys on it.

use std::collections::BTreeSet;
use std::str::FromStr;

use rucc_cross::{lookup, planned_working_count, targets, TargetTuple, Tier};

#[test]
fn every_row_parses() {
    for entry in targets() {
        assert!(entry.parse().is_ok(), "row `{}` does not parse: {:?}", entry.tuple, entry.parse());
    }
}

#[test]
fn every_row_is_written_canonically() {
    for entry in targets() {
        let parsed = entry.parse().expect("row parses");
        assert_eq!(
            parsed.to_canonical_string(),
            entry.tuple,
            "row `{}` is not the canonical spelling of itself",
            entry.tuple
        );
    }
}

#[test]
fn no_row_appears_twice() {
    let mut seen = BTreeSet::new();
    for entry in targets() {
        assert!(seen.insert(entry.tuple), "row `{}` appears twice", entry.tuple);
    }
}

#[test]
fn lookup_finds_a_row_from_any_spelling() {
    let pasted = TargetTuple::from_str("x86_64-unknown-linux-gnu").expect("parses");
    let plain = TargetTuple::from_str("x86_64-linux-gnu").expect("parses");
    assert_eq!(pasted, plain);
    assert_eq!(lookup(&pasted).map(|e| e.tuple), Some("x86_64-linux-gnu"));
}

#[test]
fn the_plan_never_promises_less_than_today() {
    for entry in targets() {
        assert!(
            entry.planned <= entry.tier,
            "row `{}` plans to get worse, from tier {} to tier {}",
            entry.tuple,
            entry.tier.number(),
            entry.planned.number()
        );
    }
}

#[test]
fn the_reference_target_is_the_best_supported_one() {
    let rows = targets();
    let reference = rows.iter().find(|e| e.tuple == "x86_64-linux-gnu").expect("present");
    let best_today = rows.iter().map(|e| e.tier).min().expect("not empty");
    assert_eq!(reference.tier, best_today);
}

#[test]
fn the_count_claim_1_is_measured_against() {
    // A bound rather than an equality: the point is that the number is computed from the table.
    let working = planned_working_count();
    assert!(working >= 30, "the plan only reaches {working} working targets");
    assert!(working <= targets().len());
}

#[test]
fn every_tier_is_reachable() {
    for tier in [Tier::Supported, Tier::SupportedWithEvidence, Tier::InProgress, Tier::Recognized] {
        assert!(
            targets().iter().any(|e| e.planned == tier),
            "no row plans to reach tier {}, so the tier is decoration",
            tier.number()
        );
    }
}
