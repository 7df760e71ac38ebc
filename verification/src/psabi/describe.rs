//! The language an ABI is described in: register banks, how a scalar spends them, and two
//! ordered lists of rules saying what an aggregate has to look like and how it travels.
//!
//! The parts of a psABI that are real algorithms stay code; which of them an ABI uses, in what
//! order, with what limits, and what happens when the registers run out is data.

use vstd::prelude::*;

use crate::psabi::shape::Format;

verus! {

/// One psABI, as data.
#[derive(Debug, Clone, PartialEq, Eq)]
pub struct AbiDescription {
    /// What the ABI is called, in a diagnostic and in the report.
    pub name: &'static str,
    /// The registers a call starts with.
    pub banks: Banks,
    /// How a scalar spends registers.
    pub scalars: Scalars,
    /// The rules for a return value, tried in order.
    pub returns: Vec<Rule>,
    /// The rules for an argument, tried in order.
    pub arguments: Vec<Rule>,
    /// Where the address of a return value that comes back in memory travels.
    pub return_pointer: ReturnPointer,
    /// What a variadic argument does differently.
    pub variadic: Variadic,
    /// How arguments that did not get a register sit in the argument area.
    pub stack_args: StackArgs,
}

/// The registers a call starts with.
#[derive(Debug, Clone, Copy, PartialEq, Eq, Structural)]
pub struct Banks {
    /// General purpose argument registers.
    pub integer: u32,
    /// Floating point argument registers.
    pub float: u32,
    /// Whether the two banks share argument positions, which counts every spend against the
    /// integer bank.
    pub shared: bool,
    /// The width of a general purpose register in bytes.
    pub integer_width: u64,
    /// The widest floating point value a vector register holds, in bytes.
    pub float_width: u64,
}

/// How a scalar spends registers.
#[derive(Debug, Clone, Copy, PartialEq, Eq, Structural)]
pub struct Scalars {
    /// A floating point value in this format travels in the argument area and spends nothing.
    pub in_memory: Option<Format>,
    /// Whether an integer wider than one register takes every register it needs or none.
    pub wide_integer_is_all_or_nothing: bool,
}

/// Where the address of a return value that comes back in memory travels.
#[derive(Debug, Clone, Copy, PartialEq, Eq, Structural)]
pub enum ReturnPointer {
    /// A hidden first argument, which spends an argument register.
    FirstArgument,
    /// A register outside the argument bank, which spends nothing.
    Dedicated,
}

/// What a variadic argument does differently.
#[derive(Debug, Clone, Copy, PartialEq, Eq, Structural)]
pub enum Variadic {
    /// Nothing.
    SameAsFixed,
    /// Every variadic argument is in the argument area, whatever registers are left.
    AlwaysMemory,
    /// A floating point argument travels in its vector register and the matching general one.
    BothBanks,
}

/// How arguments that did not get a register sit in the argument area.
#[derive(Debug, Clone, Copy, PartialEq, Eq, Structural)]
pub enum StackArgs {
    /// Each argument occupies a whole number of registers' worth.
    RegisterSized,
    /// Each argument occupies its natural size and alignment.
    Packed,
}

/// One rule: what an aggregate has to look like, how it travels if it does, and what happens
/// when the registers it wanted are not there.
#[derive(Debug, Clone, PartialEq, Eq)]
pub struct Rule {
    /// What the aggregate has to look like.
    pub when: Test,
    /// How it travels if it does.
    pub travel: Travel,
    /// What happens if the registers it wanted are not there.
    pub short: Short,
}

/// What an aggregate has to look like for a rule to apply.
#[derive(Debug, Clone, PartialEq, Eq)]
pub enum Test {
    /// Anything, which is what the last rule in a list is.
    Anything,
    /// An aggregate of no size.
    Empty,
    /// A size that is exactly one of these.
    SizeOneOf(Vec<u64>),
    /// A size at most this many bytes.
    SizeAtMost(u64),
    /// A homogeneous floating point aggregate of at most this many members.
    Homogeneous {
        /// The most members it can have and still travel in vector registers.
        limit: usize,
    },
    /// One or two members with at least one floating point member, each fitting a register.
    FloatPair,
    /// Every scalar is an x87 `long double`: one, or two in a `_Complex`.
    X87Stack,
    /// The SysV eightbyte classification succeeds, and no eightbyte came out x87.
    Eightbytes {
        /// The largest aggregate that can be classified at all.
        limit: u64,
    },
}

/// How a value travels when a rule's test matched.
#[derive(Debug, Clone, Copy, PartialEq, Eq, Structural)]
pub enum Travel {
    /// Nothing travels.
    Ignore,
    /// In the slots the test found.
    AsFound,
    /// As a run of integer registers covering the object.
    AsIntegers,
    /// As one integer register of the object's exact size.
    AsOneInteger,
    /// As the address of a copy.
    ByReference,
    /// As the object's own bytes in the argument area.
    InMemory,
}

/// What happens when the registers a rule wanted are not there.
#[derive(Debug, Clone, Copy, PartialEq, Eq, Structural)]
pub enum Short {
    /// Running out changes nothing.
    Unchanged,
    /// The argument goes in the argument area, and the registers left stay available.
    Memory,
    /// The argument goes in the argument area, and the rest of that bank goes with it.
    MemoryAndDrain,
    /// The rule does not apply after all, and the rules after it are tried.
    TryNextRule,
}

/// A [`Test`] with its list of sizes as a sequence.
pub ghost enum TestView {
    Anything,
    Empty,
    SizeOneOf(Seq<u64>),
    SizeAtMost(u64),
    Homogeneous { limit: usize },
    FloatPair,
    X87Stack,
    Eightbytes { limit: u64 },
}

impl View for Test {
    type V = TestView;

    open spec fn view(&self) -> TestView {
        match self {
            Test::Anything => TestView::Anything,
            Test::Empty => TestView::Empty,
            Test::SizeOneOf(sizes) => TestView::SizeOneOf(sizes@),
            Test::SizeAtMost(n) => TestView::SizeAtMost(*n),
            Test::Homogeneous { limit } => TestView::Homogeneous { limit: *limit },
            Test::FloatPair => TestView::FloatPair,
            Test::X87Stack => TestView::X87Stack,
            Test::Eightbytes { limit } => TestView::Eightbytes { limit: *limit },
        }
    }
}

/// A [`Rule`] with its test as a [`TestView`].
pub ghost struct RuleView {
    pub when: TestView,
    pub travel: Travel,
    pub short: Short,
}

impl View for Rule {
    type V = RuleView;

    open spec fn view(&self) -> RuleView {
        RuleView { when: self.when@, travel: self.travel, short: self.short }
    }
}

/// An [`AbiDescription`] with its name and rule lists as sequences.
pub ghost struct DescriptionView {
    pub name: Seq<char>,
    pub banks: Banks,
    pub scalars: Scalars,
    pub returns: Seq<RuleView>,
    pub arguments: Seq<RuleView>,
    pub return_pointer: ReturnPointer,
    pub variadic: Variadic,
    pub stack_args: StackArgs,
}

/// The views of a list of rules.
pub open spec fn rules_view(rules: Seq<Rule>) -> Seq<RuleView> {
    rules.map_values(|r: Rule| r@)
}

impl View for AbiDescription {
    type V = DescriptionView;

    open spec fn view(&self) -> DescriptionView {
        DescriptionView {
            name: self.name@,
            banks: self.banks,
            scalars: self.scalars,
            returns: rules_view(self.returns@),
            arguments: rules_view(self.arguments@),
            return_pointer: self.return_pointer,
            variadic: self.variadic,
            stack_args: self.stack_args,
        }
    }
}

/// A rule that cannot run short of registers.
pub open spec fn rule(when: TestView, travel: Travel) -> RuleView {
    RuleView { when, travel, short: Short::Unchanged }
}

/// A rule with what happens when the registers are gone.
pub open spec fn rule_short(when: TestView, travel: Travel, short: Short) -> RuleView {
    RuleView { when, travel, short }
}

impl Rule {
    /// A rule that cannot run short of registers, which is every rule whose result does not
    /// depend on how many are left.
    pub fn new(when: Test, travel: Travel) -> (r: Rule)
        ensures
            r@ == rule(when@, travel),
    {
        Rule { when, travel, short: Short::Unchanged }
    }

    /// The same rule, with what happens when the registers are gone.
    pub fn short(self, short: Short) -> (r: Rule)
        ensures
            r@ == rule_short(self@.when, self@.travel, short),
    {
        Rule { when: self.when, travel: self.travel, short }
    }
}

/// Whether a test finds the slots a value travels in, which is what traveling as found needs.
pub open spec fn test_finds(t: TestView) -> bool {
    t is Homogeneous || t is FloatPair || t is X87Stack || t is Eightbytes
}

/// Whether a rule list can be read the way a psABI is written: it ends in a catch-all and has
/// one nowhere else, traveling as found follows a test that finds something, an aggregate of no
/// size is the only thing that travels nowhere, and a rule that declines is not the last one.
pub open spec fn rules_well_formed(rules: Seq<RuleView>) -> bool {
    &&& rules.len() > 0
    &&& rules.last().when is Anything
    &&& forall|i: int| 0 <= i < rules.len() - 1 ==> !(#[trigger] rules[i].when is Anything)
    &&& forall|i: int|
        0 <= i < rules.len() ==> (#[trigger] rules[i].travel is AsFound ==> test_finds(
            rules[i].when,
        ))
    &&& forall|i: int|
        0 <= i < rules.len() ==> ((#[trigger] rules[i].travel is Ignore) == (rules[i].when is Empty))
    &&& forall|i: int|
        0 <= i < rules.len() && #[trigger] rules[i].short is TryNextRule ==> i < rules.len() - 1
}

/// Whether a description is complete and consistent: both rule lists are well formed, a return
/// rule never runs short since the registers cannot have run out yet, a shared bank is counted
/// in the integer bank alone, and registers have a width.
pub open spec fn description_well_formed(d: DescriptionView) -> bool {
    &&& rules_well_formed(d.returns)
    &&& rules_well_formed(d.arguments)
    &&& forall|i: int| 0 <= i < d.returns.len() ==> #[trigger] d.returns[i].short is Unchanged
    &&& (d.banks.shared ==> d.banks.float == 0)
    &&& d.banks.integer_width > 0
    &&& d.banks.float_width > 0
}

} // verus!
