//! The classifier: one reader of every description, answering once per return value and once
//! per argument in order, and keeping count of the registers that are left.
//!
//! The four mechanisms are here as code: cut into eightbytes and merge, look for a homogeneous
//! run of floating point members, look for a one or two member aggregate with a floating point
//! member, and check the size against a list. Which of them an ABI applies, in what order, and
//! what happens when the registers run out is the description's.

use vstd::prelude::*;

use crate::psabi::abis::{
    aapcs64_view, darwin_arm64_view, riscv_lp64d_view, sysv_amd64_view, win64_view,
};
use crate::psabi::describe::{
    rules_view, AbiDescription, Banks, DescriptionView, ReturnPointer, Rule, RuleView, Short, Test,
    TestView,
    Travel, Variadic,
};
use crate::psabi::shape::{Arg, ArgView, Format, Kind, Pass, PassView, Piece, Scalar, Slot};

verus! {

/// The class of one eightbyte in the SysV classification.
#[derive(Debug, Clone, Copy, PartialEq, Eq, Structural)]
pub enum Class {
    /// Nothing reaches into it.
    NoClass,
    /// A general purpose register.
    Integer,
    /// The low half of a vector register.
    Sse,
    /// The high half of the vector register the eightbyte before it is in.
    SseUp,
    /// The significand of an x87 value.
    X87,
    /// The exponent of an x87 value.
    X87Up,
    /// The argument area.
    Memory,
}

/// Two classes meeting in one eightbyte: equal stay, no class gives way, memory wins, then an
/// integer, an x87 part next to anything else is memory, and what is left is a vector register.
pub open spec fn merge(a: Class, b: Class) -> Class {
    if a == b {
        a
    } else if a is NoClass {
        b
    } else if b is NoClass {
        a
    } else if a is Memory || b is Memory {
        Class::Memory
    } else if a is Integer || b is Integer {
        Class::Integer
    } else if a is X87 || a is X87Up || b is X87 || b is X87Up {
        Class::Memory
    } else {
        Class::Sse
    }
}

/// The class a scalar gives an eightbyte it reaches into, where `first` says whether it starts
/// there: an x87 value is X87 and then X87UP, a sixteen byte float SSE and then SSEUP.
pub open spec fn scalar_class(s: Scalar, first: bool) -> Class {
    match s.kind {
        Kind::Integer => Class::Integer,
        Kind::Float(f) => if f is X87Extended {
            if first {
                Class::X87
            } else {
                Class::X87Up
            }
        } else if s.size > 8 {
            if first {
                Class::Sse
            } else {
                Class::SseUp
            }
        } else {
            Class::Sse
        },
    }
}

/// Whether a piece reaches into eightbyte `k`.
pub open spec fn reaches(p: Piece, k: int) -> bool {
    8 * k < p.spec_end() && p.offset < 8 * k + 8
}

/// The class of eightbyte `k` once every piece reaching into it is merged in, in order.
pub open spec fn class_at(ps: Seq<Piece>, k: int) -> Class
    decreases ps.len(),
{
    if ps.len() == 0 {
        Class::NoClass
    } else {
        let before = class_at(ps.drop_last(), k);
        let p = ps.last();
        if reaches(p, k) {
            merge(before, scalar_class(p.scalar, k == p.offset / 8))
        } else {
            before
        }
    }
}

/// How many eightbytes an object of this size is cut into.
pub open spec fn eightbyte_count(size: u64) -> int {
    (size as int + 7) / 8
}

/// The class of eightbyte `k` after the merge, with an SSEUP that follows neither SSE nor
/// SSEUP read as SSE.
pub open spec fn final_class(ps: Seq<Piece>, k: int) -> Class {
    let c = class_at(ps, k);
    if c is SseUp && (k == 0 || !(class_at(ps, k - 1) is Sse || class_at(ps, k - 1) is SseUp)) {
        Class::Sse
    } else {
        c
    }
}

/// Whether some piece sits away from its alignment, which a bit-field, aligned to one, never
/// does.
pub open spec fn misaligned(ps: Seq<Piece>) -> bool {
    exists|i: int|
        0 <= i < ps.len() && (#[trigger] ps[i]).scalar.align > 1 && ps[i].offset
            % ps[i].scalar.align != 0
}

/// Whether the eightbyte classification of an aggregate succeeds with no x87 part: it is at
/// most `limit` bytes, no piece is misaligned, no eightbyte is memory or x87, and one over two
/// eightbytes is SSE followed by nothing but SSEUP.
pub open spec fn eightbytes_succeed(size: u64, ps: Seq<Piece>, limit: u64) -> bool {
    let n = eightbyte_count(size);
    &&& size <= limit
    &&& !misaligned(ps)
    &&& forall|k: int|
        0 <= k < n ==> !(#[trigger] final_class(ps, k) is Memory) && !(final_class(ps, k) is X87)
            && !(final_class(ps, k) is X87Up)
    &&& n > 2 ==> (final_class(ps, 0) is Sse && forall|k: int|
        1 <= k < n ==> #[trigger] final_class(ps, k) is SseUp)
}

/// The format of the first piece that starts at `offset`, is `width` bytes, and is a float.
pub open spec fn float_piece_at(ps: Seq<Piece>, offset: int, width: int) -> Option<Format>
    decreases ps.len(),
{
    if ps.len() == 0 {
        None
    } else if ps[0].offset == offset && ps[0].scalar.size == width && ps[0].scalar.kind is Float {
        Some(ps[0].scalar.kind->Float_0)
    } else {
        float_piece_at(ps.drop_first(), offset, width)
    }
}

/// What a vector register holding `width` bytes from `offset` reads them as: the float that
/// fills them exactly, or otherwise single precision for four bytes or fewer and double
/// precision for more.
pub open spec fn vector_format(ps: Seq<Piece>, offset: int, width: int) -> Format {
    match float_piece_at(ps, offset, width) {
        Some(f) => f,
        None => if width <= 4 {
            Format::Single
        } else {
            Format::Double
        },
    }
}

/// The smaller of two integers.
pub open spec fn min_of(a: int, b: int) -> int {
    if a <= b {
        a
    } else {
        b
    }
}

/// The slot of eightbyte `k`: a general purpose register as wide as what is left of the object
/// for INTEGER, a vector register for SSE (sixteen bytes wide when SSEUP follows), and none for
/// an eightbyte that is empty or the upper half of a vector register.
pub open spec fn eightbyte_slot(size: u64, ps: Seq<Piece>, k: int) -> Option<Slot> {
    let c = final_class(ps, k);
    let left = min_of(8, size - 8 * k);
    if c is Integer {
        Some(Slot::Integer { offset: (8 * k) as u64, size: left as u32 })
    } else if c is Sse {
        let width = if k + 1 < eightbyte_count(size) && final_class(ps, k + 1) is SseUp {
            16
        } else {
            left
        };
        Some(Slot::Float { offset: (8 * k) as u64, format: vector_format(ps, 8 * k, width) })
    } else {
        None
    }
}

/// The slots of the first `m` eightbytes, in order.
pub open spec fn eightbyte_slots(size: u64, ps: Seq<Piece>, m: int) -> Seq<Slot>
    decreases m,
{
    if m <= 0 {
        Seq::empty()
    } else {
        eightbyte_slots(size, ps, m - 1) + match eightbyte_slot(size, ps, m - 1) {
            Some(s) => seq![s],
            None => Seq::empty(),
        }
    }
}

/// Two classes meeting in one eightbyte.
fn merge_classes(a: Class, b: Class) -> (r: Class)
    ensures
        r == merge(a, b),
{
    if a == b {
        a
    } else if a == Class::NoClass {
        b
    } else if b == Class::NoClass {
        a
    } else if a == Class::Memory || b == Class::Memory {
        Class::Memory
    } else if a == Class::Integer || b == Class::Integer {
        Class::Integer
    } else if a == Class::X87 || a == Class::X87Up || b == Class::X87 || b == Class::X87Up {
        Class::Memory
    } else {
        Class::Sse
    }
}

/// The class a scalar gives an eightbyte it reaches into.
fn scalar_class_of(s: Scalar, first: bool) -> (r: Class)
    ensures
        r == scalar_class(s, first),
{
    match s.kind {
        Kind::Integer => Class::Integer,
        Kind::Float(f) => {
            if f == Format::X87Extended {
                if first {
                    Class::X87
                } else {
                    Class::X87Up
                }
            } else if s.size > 8 {
                if first {
                    Class::Sse
                } else {
                    Class::SseUp
                }
            } else {
                Class::Sse
            }
        },
    }
}

/// Whether a piece reaches into eightbyte `k`, computed wide enough not to overflow.
fn reaches_eightbyte(p: Piece, k: u64) -> (r: bool)
    requires
        k < 0x2000_0000_0000_0000,
    ensures
        r == reaches(p, k as int),
{
    let size: u128 = if p.scalar.size == 0 {
        1
    } else {
        p.scalar.size as u128
    };
    let start: u128 = p.offset as u128;
    let low: u128 = 8 * (k as u128);
    low < start + size && start < low + 8
}

/// The class of eightbyte `k` once every piece reaching into it is merged in.
fn class_of_eightbyte(ps: &[Piece], k: u64) -> (r: Class)
    requires
        k < 0x2000_0000_0000_0000,
    ensures
        r == class_at(ps@, k as int),
{
    let mut c = Class::NoClass;
    let mut i: usize = 0;
    while i < ps.len()
        invariant
            i <= ps@.len(),
            k < 0x2000_0000_0000_0000,
            c == class_at(ps@.take(i as int), k as int),
        decreases ps@.len() - i,
    {
        let p = ps[i];
        proof {
            let next = ps@.take(i as int + 1);
            assert(next.drop_last() =~= ps@.take(i as int));
            assert(next.last() == p);
        }
        if reaches_eightbyte(p, k) {
            c = merge_classes(c, scalar_class_of(p.scalar, k == p.offset / 8));
        }
        i = i + 1;
    }
    assert(ps@.take(ps@.len() as int) =~= ps@);
    c
}

/// Whether some piece sits away from its alignment.
fn any_misaligned(ps: &[Piece]) -> (r: bool)
    ensures
        r == misaligned(ps@),
{
    let mut i: usize = 0;
    while i < ps.len()
        invariant
            i <= ps@.len(),
            forall|j: int|
                0 <= j < i ==> !((#[trigger] ps@[j]).scalar.align > 1 && ps@[j].offset
                    % ps@[j].scalar.align != 0),
        decreases ps@.len() - i,
    {
        let p = ps[i];
        if p.scalar.align > 1 && p.offset % p.scalar.align != 0 {
            return true;
        }
        i = i + 1;
    }
    false
}

/// The format of the first float piece that starts at `offset` and is `width` bytes.
fn vector_format_of(ps: &[Piece], offset: u64, width: u64) -> (r: Format)
    ensures
        r == vector_format(ps@, offset as int, width as int),
{
    assert(ps@.skip(0) =~= ps@);
    let mut i: usize = 0;
    while i < ps.len()
        invariant
            i <= ps@.len(),
            float_piece_at(ps@, offset as int, width as int) == float_piece_at(
                ps@.skip(i as int),
                offset as int,
                width as int,
            ),
        decreases ps@.len() - i,
    {
        let p = ps[i];
        assert(ps@.skip(i as int)[0] == p);
        assert(ps@.skip(i as int).drop_first() =~= ps@.skip(i as int + 1));
        if p.offset == offset && p.scalar.size == width {
            if let Kind::Float(f) = p.scalar.kind {
                return f;
            }
        }
        i = i + 1;
    }
    if width <= 4 {
        Format::Single
    } else {
        Format::Double
    }
}

/// Cut an aggregate into eightbytes and classify it: the slots it travels in, or `None` when
/// the classification sends it to memory or finds an x87 part.
#[verifier::spinoff_prover]
fn eightbytes(size: u64, ps: &[Piece], limit: u64) -> (r: Option<Vec<Slot>>)
    ensures
        match r {
            Some(v) => eightbytes_succeed(size, ps@, limit) && v@ == eightbyte_slots(
                size,
                ps@,
                eightbyte_count(size),
            ),
            None => !eightbytes_succeed(size, ps@, limit),
        },
{
    if size > limit || any_misaligned(ps) {
        return None;
    }
    let n: u64 = size / 8 + if size % 8 != 0 {
        1
    } else {
        0
    };
    assert(n == eightbyte_count(size));
    let mut raw: Vec<Class> = Vec::new();
    let mut k: u64 = 0;
    while k < n
        invariant
            n == eightbyte_count(size),
            k <= n,
            raw@.len() == k,
            forall|j: int| 0 <= j < k ==> #[trigger] raw@[j] == class_at(ps@, j),
        decreases n - k,
    {
        raw.push(class_of_eightbyte(ps, k));
        k = k + 1;
    }
    let mut finals: Vec<Class> = Vec::new();
    let mut k: u64 = 0;
    while k < n
        invariant
            n == eightbyte_count(size),
            raw@.len() == n,
            forall|j: int| 0 <= j < n ==> #[trigger] raw@[j] == class_at(ps@, j),
            k <= n,
            finals@.len() == k,
            forall|j: int| 0 <= j < k ==> #[trigger] finals@[j] == final_class(ps@, j),
            forall|j: int|
                0 <= j < k ==> !(#[trigger] final_class(ps@, j) is Memory) && !(final_class(
                    ps@,
                    j,
                ) is X87) && !(final_class(ps@, j) is X87Up),
        decreases n - k,
    {
        let c = raw[k as usize];
        let f = if c == Class::SseUp && (k == 0 || !(raw[(k - 1) as usize] == Class::Sse
            || raw[(k - 1) as usize] == Class::SseUp)) {
            Class::Sse
        } else {
            c
        };
        assert(f == final_class(ps@, k as int));
        if f == Class::Memory || f == Class::X87 || f == Class::X87Up {
            return None;
        }
        finals.push(f);
        k = k + 1;
    }
    if n > 2 {
        if finals[0] != Class::Sse {
            return None;
        }
        let mut k: u64 = 1;
        while k < n
            invariant
                n == eightbyte_count(size),
                n > 2,
                finals@.len() == n,
                forall|j: int| 0 <= j < n ==> #[trigger] finals@[j] == final_class(ps@, j),
                1 <= k <= n,
                forall|j: int| 1 <= j < k ==> #[trigger] final_class(ps@, j) is SseUp,
            decreases n - k,
        {
            if finals[k as usize] != Class::SseUp {
                return None;
            }
            k = k + 1;
        }
    }
    let mut slots: Vec<Slot> = Vec::new();
    let mut k: u64 = 0;
    while k < n
        invariant
            n == eightbyte_count(size),
            finals@.len() == n,
            forall|j: int| 0 <= j < n ==> #[trigger] finals@[j] == final_class(ps@, j),
            k <= n,
            slots@ == eightbyte_slots(size, ps@, k as int),
        decreases n - k,
    {
        assert((k as usize) as int == k as int) by {
            assert(k < finals@.len());
        }
        let c = finals[k as usize];
        let at: u64 = 8 * k;
        let left: u64 = if size - at < 8 {
            size - at
        } else {
            8
        };
        let ghost before = slots@;
        assert(left == min_of(8, size - 8 * k));
        assert(c == final_class(ps@, k as int));
        if c == Class::Integer {
            slots.push(Slot::Integer { offset: at, size: left as u32 });
        } else if c == Class::Sse {
            let width: u64 = if k + 1 < n && finals[(k + 1) as usize] == Class::SseUp {
                16
            } else {
                left
            };
            slots.push(Slot::Float { offset: at, format: vector_format_of(ps, at, width) });
        }
        assert(slots@ =~= before + match eightbyte_slot(size, ps@, k as int) {
            Some(s) => seq![s],
            None => Seq::empty(),
        });
        assert(slots@ =~= eightbyte_slots(size, ps@, k as int + 1));
        k = k + 1;
    }
    Some(slots)
}

/// The bytes the pieces take, added up.
pub open spec fn total_size(ps: Seq<Piece>) -> int
    decreases ps.len(),
{
    if ps.len() == 0 {
        0
    } else {
        total_size(ps.drop_last()) + ps.last().scalar.size
    }
}

/// The format of a homogeneous floating point aggregate of at most `limit` members: every
/// piece the same format and fitting one vector register, with the pieces filling the
/// aggregate, so that padding or a stretched member rules it out.
pub open spec fn homogeneous(size: u64, ps: Seq<Piece>, limit: usize, float_width: u64) -> Option<
    Format,
> {
    if ps.len() > 0 && ps.len() <= limit && ps[0].scalar.kind is Float {
        let f = ps[0].scalar.kind->Float_0;
        if (forall|i: int|
            0 <= i < ps.len() ==> (#[trigger] ps[i]).scalar.kind == Kind::Float(f)
                && ps[i].scalar.size <= float_width) && total_size(ps) == size {
            Some(f)
        } else {
            None
        }
    } else {
        None
    }
}

/// One vector register of this format per piece, at the piece.
pub open spec fn each_in_vector(ps: Seq<Piece>, f: Format) -> Seq<Slot> {
    Seq::new(ps.len(), |i: int| Slot::Float { offset: ps[i].offset, format: f })
}

/// Whether a piece is a floating point member for the pair rule: a float that one vector
/// register holds.
pub open spec fn float_member(p: Piece, float_width: u64) -> bool {
    p.scalar.kind is Float && p.scalar.size <= float_width
}

/// Whether an aggregate is one or two members with a floating point member among them, each
/// member fitting one register of its kind.
pub open spec fn float_pair(ps: Seq<Piece>, float_width: u64, integer_width: u64) -> bool {
    &&& (ps.len() == 1 || ps.len() == 2)
    &&& (float_member(ps[0], float_width) || (ps.len() == 2 && float_member(ps[1], float_width)))
    &&& forall|i: int|
        0 <= i < ps.len() ==> float_member(#[trigger] ps[i], float_width) || ps[i].scalar.size
            <= integer_width
}

/// The register a member of a pair travels in: a vector register for a floating point member,
/// a general purpose one as wide as the member otherwise.
pub open spec fn pair_slot(p: Piece, float_width: u64) -> Slot {
    if float_member(p, float_width) {
        Slot::Float { offset: p.offset, format: p.scalar.kind->Float_0 }
    } else {
        Slot::Integer { offset: p.offset, size: p.scalar.size as u32 }
    }
}

/// Whether an aggregate comes back on the x87 stack: one x87 value, or two in a `_Complex`.
pub open spec fn x87_stack(ps: Seq<Piece>, complex: bool) -> bool {
    &&& (ps.len() == 1 || (ps.len() == 2 && complex))
    &&& forall|i: int|
        0 <= i < ps.len() ==> (#[trigger] ps[i]).scalar.kind == Kind::Float(Format::X87Extended)
}

/// A run of general purpose registers covering an object, one per register width, the last
/// one only as wide as what is left.
pub open spec fn integer_cover(size: u64, width: u64) -> Seq<Slot> {
    Seq::new(
        ((size + width - 1) / width as int) as nat,
        |k: int| Slot::Integer { offset: (k * width) as u64, size: min_of(width as int, size - k * width) as u32 },
    )
}

/// What a test finds in an aggregate: `None` when it does not match, and the slots it found
/// when it does, which are none for a test that only reads the size.
pub open spec fn found_by(
    t: TestView,
    size: u64,
    ps: Seq<Piece>,
    complex: bool,
    banks: Banks,
) -> Option<Seq<Slot>> {
    match t {
        TestView::Anything => Some(Seq::empty()),
        TestView::Empty => if size == 0 {
            Some(Seq::empty())
        } else {
            None
        },
        TestView::SizeOneOf(sizes) => if sizes.contains(size) {
            Some(Seq::empty())
        } else {
            None
        },
        TestView::SizeAtMost(n) => if size <= n {
            Some(Seq::empty())
        } else {
            None
        },
        TestView::Homogeneous { limit } => match homogeneous(size, ps, limit, banks.float_width) {
            Some(f) => Some(each_in_vector(ps, f)),
            None => None,
        },
        TestView::FloatPair => if float_pair(ps, banks.float_width, banks.integer_width) {
            Some(Seq::new(ps.len(), |i: int| pair_slot(ps[i], banks.float_width)))
        } else {
            None
        },
        TestView::X87Stack => if x87_stack(ps, complex) {
            Some(each_in_vector(ps, Format::X87Extended))
        } else {
            None
        },
        TestView::Eightbytes { limit } => if eightbytes_succeed(size, ps, limit) {
            Some(eightbyte_slots(size, ps, eightbyte_count(size)))
        } else {
            None
        },
    }
}

/// The slots a value travels in once a test has matched.
pub open spec fn travel_slots(travel: Travel, found: Seq<Slot>, size: u64, banks: Banks) -> Seq<
    Slot,
> {
    match travel {
        Travel::AsFound => found,
        Travel::AsIntegers => integer_cover(size, banks.integer_width),
        Travel::AsOneInteger => seq![Slot::Integer { offset: 0, size: size as u32 }],
        _ => Seq::empty(),
    }
}

/// How many of the slots are general purpose registers.
pub open spec fn integer_slots(slots: Seq<Slot>) -> nat
    decreases slots.len(),
{
    if slots.len() == 0 {
        0
    } else {
        integer_slots(slots.drop_last()) + if slots.last() is Integer {
            1nat
        } else {
            0nat
        }
    }
}

/// How many of the slots are vector registers.
pub open spec fn float_slots(slots: Seq<Slot>) -> nat
    decreases slots.len(),
{
    if slots.len() == 0 {
        0
    } else {
        float_slots(slots.drop_last()) + if slots.last() is Float {
            1nat
        } else {
            0nat
        }
    }
}

/// The pieces' sizes added up over a prefix never go backwards.
proof fn lemma_total_size_prefix(ps: Seq<Piece>, i: int)
    requires
        0 <= i < ps.len(),
    ensures
        total_size(ps.take(i + 1)) == total_size(ps.take(i)) + ps[i].scalar.size,
{
    assert(ps.take(i + 1).drop_last() =~= ps.take(i));
}

/// The format of a homogeneous floating point aggregate, if it is one.
fn homogeneous_of(size: u64, ps: &[Piece], limit: usize, float_width: u64) -> (r: Option<Format>)
    ensures
        r == homogeneous(size, ps@, limit, float_width),
{
    if ps.len() == 0 || ps.len() > limit {
        return None;
    }
    let f = match ps[0].scalar.kind {
        Kind::Float(f) => f,
        Kind::Integer => {
            return None;
        },
    };
    let mut total: u128 = 0;
    let mut i: usize = 0;
    while i < ps.len()
        invariant
            i <= ps@.len(),
            ps@.len() > 0,
            ps@[0].scalar.kind == Kind::Float(f),
            total == total_size(ps@.take(i as int)),
            total <= size,
            forall|j: int|
                0 <= j < i ==> (#[trigger] ps@[j]).scalar.kind == Kind::Float(f) && ps@[j].scalar.size
                    <= float_width,
        decreases ps@.len() - i,
    {
        let p = ps[i];
        proof {
            lemma_total_size_prefix(ps@, i as int);
        }
        if p.scalar.kind != Kind::Float(f) || p.scalar.size > float_width {
            return None;
        }
        total = total + p.scalar.size as u128;
        if total > size as u128 {
            proof {
                lemma_total_size_grows(ps@, i as int + 1);
            }
            return None;
        }
        i = i + 1;
    }
    assert(ps@.take(ps@.len() as int) =~= ps@);
    if total == size as u128 {
        Some(f)
    } else {
        None
    }
}

/// The sizes of all the pieces add up to at least the sizes of a prefix.
proof fn lemma_total_size_grows(ps: Seq<Piece>, i: int)
    requires
        0 <= i <= ps.len(),
    ensures
        total_size(ps) >= total_size(ps.take(i)),
    decreases ps.len() - i,
{
    if i < ps.len() {
        lemma_total_size_grows(ps, i + 1);
        lemma_total_size_prefix(ps, i);
    } else {
        assert(ps.take(i) =~= ps);
    }
}

/// One vector register of this format per piece.
fn each_in_vector_of(ps: &[Piece], f: Format) -> (r: Vec<Slot>)
    ensures
        r@ == each_in_vector(ps@, f),
{
    let mut r: Vec<Slot> = Vec::new();
    let mut i: usize = 0;
    while i < ps.len()
        invariant
            i <= ps@.len(),
            r@ == each_in_vector(ps@.take(i as int), f),
        decreases ps@.len() - i,
    {
        r.push(Slot::Float { offset: ps[i].offset, format: f });
        i = i + 1;
        assert(r@ =~= each_in_vector(ps@.take(i as int), f));
    }
    assert(ps@.take(ps@.len() as int) =~= ps@);
    r
}

/// Whether a piece is a floating point member for the pair rule.
fn is_float_member(p: Piece, float_width: u64) -> (r: bool)
    ensures
        r == float_member(p, float_width),
{
    p.scalar.is_float() && p.scalar.size <= float_width
}

/// The registers a one or two member aggregate with a floating point member travels in, if it
/// is one.
fn float_pair_of(ps: &[Piece], float_width: u64, integer_width: u64) -> (r: Option<Vec<Slot>>)
    ensures
        match r {
            Some(v) => float_pair(ps@, float_width, integer_width) && v@ == Seq::new(
                ps@.len(),
                |i: int| pair_slot(ps@[i], float_width),
            ),
            None => !float_pair(ps@, float_width, integer_width),
        },
{
    let n = ps.len();
    if n != 1 && n != 2 {
        return None;
    }
    if !is_float_member(ps[0], float_width) && !(n == 2 && is_float_member(ps[1], float_width)) {
        return None;
    }
    let mut r: Vec<Slot> = Vec::new();
    let mut i: usize = 0;
    while i < n
        invariant
            n == ps@.len(),
            n == 1 || n == 2,
            i <= n,
            r@ == Seq::new(i as nat, |k: int| pair_slot(ps@[k], float_width)),
            forall|k: int|
                0 <= k < i ==> float_member(#[trigger] ps@[k], float_width) || ps@[k].scalar.size
                    <= integer_width,
        decreases n - i,
    {
        let p = ps[i];
        if is_float_member(p, float_width) {
            let f = match p.scalar.kind {
                Kind::Float(f) => f,
                Kind::Integer => Format::Double,
            };
            r.push(Slot::Float { offset: p.offset, format: f });
        } else if p.scalar.size <= integer_width {
            r.push(Slot::Integer { offset: p.offset, size: #[verifier::truncate] (p.scalar.size as u32) });
        } else {
            return None;
        }
        i = i + 1;
        assert(r@ =~= Seq::new(i as nat, |k: int| pair_slot(ps@[k], float_width)));
    }
    Some(r)
}

/// Whether an aggregate comes back on the x87 stack.
fn x87_stack_of(ps: &[Piece], complex: bool) -> (r: bool)
    ensures
        r == x87_stack(ps@, complex),
{
    let n = ps.len();
    if !(n == 1 || (n == 2 && complex)) {
        return false;
    }
    let mut i: usize = 0;
    while i < n
        invariant
            n == ps@.len(),
            i <= n,
            forall|k: int|
                0 <= k < i ==> (#[trigger] ps@[k]).scalar.kind == Kind::Float(Format::X87Extended),
        decreases n - i,
    {
        if ps[i].scalar.kind != Kind::Float(Format::X87Extended) {
            return false;
        }
        i = i + 1;
    }
    true
}

/// A run of general purpose registers covering an object.
fn integer_cover_of(size: u64, width: u64) -> (r: Vec<Slot>)
    requires
        width > 0,
    ensures
        r@ == integer_cover(size, width),
{
    proof {
        if size % width != 0 {
            assert(width >= 2);
            assert(size / width <= size / 2) by (nonlinear_arith)
                requires
                    width >= 2,
            ;
        }
    }
    let n: u64 = size / width + if size % width != 0 {
        1
    } else {
        0
    };
    assert(n == (size + width - 1) / width as int) by (nonlinear_arith)
        requires
            width > 0,
            n == size / width + if size % width != 0 {
                1int
            } else {
                0int
            },
    ;
    let mut r: Vec<Slot> = Vec::new();
    let mut k: u64 = 0;
    while k < n
        invariant
            width > 0,
            n == (size + width - 1) / width as int,
            k <= n,
            r@ == Seq::new(
                k as nat,
                |j: int| Slot::Integer { offset: (j * width) as u64, size: min_of(width as int, size - j * width) as u32 },
            ),
        decreases n - k,
    {
        assert(k * width < size) by (nonlinear_arith)
            requires
                width > 0,
                k < n,
                n == (size + width - 1) / width as int,
        ;
        let at: u64 = k * width;
        let left: u64 = if size - at < width {
            size - at
        } else {
            width
        };
        r.push(Slot::Integer { offset: at, size: #[verifier::truncate] (left as u32) });
        k = k + 1;
        assert(r@ =~= Seq::new(
            k as nat,
            |j: int| Slot::Integer { offset: (j * width) as u64, size: min_of(width as int, size - j * width) as u32 },
        ));
    }
    r
}

/// Whether a list of sizes holds this one.
fn sizes_contain(sizes: &Vec<u64>, size: u64) -> (r: bool)
    ensures
        r == sizes@.contains(size),
{
    let mut i: usize = 0;
    while i < sizes.len()
        invariant
            i <= sizes@.len(),
            forall|j: int| 0 <= j < i ==> #[trigger] sizes@[j] != size,
        decreases sizes@.len() - i,
    {
        if sizes[i] == size {
            return true;
        }
        i = i + 1;
    }
    false
}

/// What a test finds in an aggregate.
fn found_by_of(t: &Test, size: u64, ps: &[Piece], complex: bool, banks: Banks) -> (r: Option<
    Vec<Slot>,
>)
    ensures
        match r {
            Some(v) => found_by(t@, size, ps@, complex, banks) == Some(v@),
            None => found_by(t@, size, ps@, complex, banks) is None,
        },
{
    match t {
        Test::Anything => Some(Vec::new()),
        Test::Empty => if size == 0 {
            Some(Vec::new())
        } else {
            None
        },
        Test::SizeOneOf(sizes) => if sizes_contain(sizes, size) {
            Some(Vec::new())
        } else {
            None
        },
        Test::SizeAtMost(n) => if size <= *n {
            Some(Vec::new())
        } else {
            None
        },
        Test::Homogeneous { limit } => match homogeneous_of(size, ps, *limit, banks.float_width) {
            Some(f) => Some(each_in_vector_of(ps, f)),
            None => None,
        },
        Test::FloatPair => float_pair_of(ps, banks.float_width, banks.integer_width),
        Test::X87Stack => if x87_stack_of(ps, complex) {
            Some(each_in_vector_of(ps, Format::X87Extended))
        } else {
            None
        },
        Test::Eightbytes { limit } => eightbytes(size, ps, *limit),
    }
}

/// How many of the slots are general purpose registers and how many are vector registers.
fn count_slots(slots: &Vec<Slot>) -> (r: (u64, u64))
    ensures
        r.0 == integer_slots(slots@),
        r.1 == float_slots(slots@),
        r.0 + r.1 == slots@.len(),
{
    let mut ints: u64 = 0;
    let mut floats: u64 = 0;
    let mut i: usize = 0;
    while i < slots.len()
        invariant
            i <= slots@.len(),
            ints == integer_slots(slots@.take(i as int)),
            floats == float_slots(slots@.take(i as int)),
            ints + floats == i,
        decreases slots@.len() - i,
    {
        proof {
            let next = slots@.take(i as int + 1);
            assert(next.drop_last() =~= slots@.take(i as int));
            assert(next.last() == slots@[i as int]);
        }
        match slots[i] {
            Slot::Integer { .. } => {
                ints = ints + 1;
            },
            Slot::Float { .. } => {
                floats = floats + 1;
            },
        }
        i = i + 1;
    }
    assert(slots@.take(slots@.len() as int) =~= slots@);
    (ints, floats)
}

/// A call being classified: the description it follows and the registers it has left.
///
/// One per call site or function signature, asked about the return value first and then about
/// each argument in order, because what an earlier value spends changes what a later one gets.
pub struct Call {
    abi: AbiDescription,
    integer: u32,
    float: u32,
}

/// A [`Call`] as the description it follows and the registers left in each bank.
pub ghost struct CallView {
    pub abi: DescriptionView,
    pub integer: u32,
    pub float: u32,
}

impl View for Call {
    type V = CallView;

    closed spec fn view(&self) -> CallView {
        CallView { abi: self.abi@, integer: self.integer, float: self.float }
    }
}

/// What is left of a bank once `n` registers are spent, which is none once it runs out.
pub open spec fn less(left: u32, n: nat) -> u32 {
    if n <= left {
        (left - n) as u32
    } else {
        0
    }
}

/// How many general purpose registers the slots spend: every one of them on a target whose
/// two banks share positions, the general purpose ones otherwise.
pub open spec fn integer_need(slots: Seq<Slot>, banks: Banks) -> nat {
    integer_slots(slots) + if banks.shared {
        float_slots(slots)
    } else {
        0
    }
}

/// How many vector registers the slots spend: none where the banks share positions.
pub open spec fn float_need(slots: Seq<Slot>, banks: Banks) -> nat {
    if banks.shared {
        0
    } else {
        float_slots(slots)
    }
}

/// The same call with these registers left.
pub open spec fn with_left(c: CallView, integer: u32, float: u32) -> CallView {
    CallView { integer, float, ..c }
}

/// An aggregate argument, classified by the argument rules from rule `i` on: the first rule
/// whose test matches decides how it travels, spending the registers its slots need, and when
/// they are not there the rule says whether it travels as it would have anyway, goes to the
/// argument area and leaves the rest, goes there and takes the rest of each bank it wanted,
/// or declines in favour of the rules after it.
pub open spec fn argument_rules(
    c: CallView,
    size: u64,
    ps: Seq<Piece>,
    complex: bool,
    i: int,
) -> (PassView, CallView)
    decreases c.abi.arguments.len() - i,
{
    let rules = c.abi.arguments;
    let banks = c.abi.banks;
    if i < 0 || i >= rules.len() {
        (PassView::Memory, c)
    } else {
        let r = rules[i];
        match found_by(r.when, size, ps, complex, banks) {
            None => argument_rules(c, size, ps, complex, i + 1),
            Some(found) => match r.travel {
                Travel::Ignore => (PassView::Ignore, c),
                Travel::InMemory => (PassView::Memory, c),
                Travel::ByReference => (PassView::Reference, with_left(c, less(c.integer, 1), c.float)),
                _ => {
                    let slots = travel_slots(r.travel, found, size, banks);
                    let ni = integer_need(slots, banks);
                    let nf = float_need(slots, banks);
                    if ni <= c.integer && nf <= c.float {
                        (PassView::Pieces(slots), with_left(c, less(c.integer, ni), less(c.float, nf)))
                    } else {
                        match r.short {
                            Short::Unchanged => (
                                PassView::Pieces(slots),
                                with_left(c, less(c.integer, ni), less(c.float, nf)),
                            ),
                            Short::Memory => (PassView::Memory, c),
                            Short::MemoryAndDrain => (
                                PassView::Memory,
                                with_left(
                                    c,
                                    if ni > 0 {
                                        0
                                    } else {
                                        c.integer
                                    },
                                    if nf > 0 {
                                        0
                                    } else {
                                        c.float
                                    },
                                ),
                            ),
                            Short::TryNextRule => argument_rules(c, size, ps, complex, i + 1),
                        }
                    }
                },
            },
        }
    }
}

/// The call once a return value came back through memory: one argument register fewer where
/// its address is a hidden first argument, and unchanged where it has a register of its own.
pub open spec fn after_return_pointer(c: CallView) -> CallView {
    if c.abi.return_pointer is FirstArgument {
        with_left(c, less(c.integer, 1), c.float)
    } else {
        c
    }
}

/// An aggregate return value, classified by the return rules from rule `i` on. The registers
/// cannot have run out yet, so the first rule whose test matches decides; coming back through
/// memory is always by an address the caller passes.
pub open spec fn return_rules(
    c: CallView,
    size: u64,
    ps: Seq<Piece>,
    complex: bool,
    i: int,
) -> (PassView, CallView)
    decreases c.abi.returns.len() - i,
{
    let rules = c.abi.returns;
    if i < 0 || i >= rules.len() {
        (PassView::Reference, after_return_pointer(c))
    } else {
        let r = rules[i];
        match found_by(r.when, size, ps, complex, c.abi.banks) {
            None => return_rules(c, size, ps, complex, i + 1),
            Some(found) => match r.travel {
                Travel::Ignore => (PassView::Ignore, c),
                Travel::ByReference | Travel::InMemory => (
                    PassView::Reference,
                    after_return_pointer(c),
                ),
                _ => (PassView::Pieces(travel_slots(r.travel, found, size, c.abi.banks)), c),
            },
        }
    }
}

/// How many general purpose registers a scalar of this size takes: one per register width,
/// and at least one.
pub open spec fn integer_regs(size: u64, width: u64) -> nat {
    let n = (size + width - 1) / width as int;
    if n < 1 {
        1
    } else {
        n as nat
    }
}

/// What a scalar argument spends. A float in the format the ABI keeps in the argument area
/// spends nothing; a float a vector register holds spends one, from the shared positions where
/// the banks share them and from both banks when it is variadic on an ABI that puts it in both;
/// anything else spends general purpose registers, all or none where a wide integer must not
/// be split.
pub open spec fn scalar_argument(c: CallView, s: Scalar, variadic: bool) -> CallView {
    let banks = c.abi.banks;
    if s.kind is Float && c.abi.scalars.in_memory == Some(s.kind->Float_0) {
        c
    } else if s.kind is Float && s.size <= banks.float_width {
        if banks.shared {
            with_left(c, less(c.integer, 1), c.float)
        } else if variadic && c.abi.variadic is BothBanks {
            with_left(c, less(c.integer, 1), less(c.float, 1))
        } else {
            with_left(c, c.integer, less(c.float, 1))
        }
    } else {
        let n = integer_regs(s.size, banks.integer_width);
        if c.abi.scalars.wide_integer_is_all_or_nothing && n > 1 && n > c.integer {
            c
        } else {
            with_left(c, less(c.integer, n), c.float)
        }
    }
}

/// How an argument travels and what is left after it. `void` travels nowhere, a scalar travels
/// as itself, and an aggregate by the argument rules; a variadic one on an ABI that puts every
/// variadic argument in the argument area spends nothing and an aggregate goes there.
pub open spec fn classify_argument(c: CallView, arg: ArgView, variadic: bool) -> (PassView, CallView) {
    let always_memory = variadic && c.abi.variadic is AlwaysMemory;
    match arg {
        ArgView::Void => (PassView::Ignore, c),
        ArgView::Scalar(s) => if always_memory {
            (PassView::Direct, c)
        } else {
            (PassView::Direct, scalar_argument(c, s, variadic))
        },
        ArgView::Aggregate { size, pieces, complex, .. } => if always_memory {
            (PassView::Memory, c)
        } else {
            argument_rules(c, size, pieces, complex, 0)
        },
    }
}

/// How a return value travels and what is left after it: `void` nowhere, a scalar as itself,
/// and an aggregate by the return rules.
pub open spec fn classify_return(c: CallView, arg: ArgView) -> (PassView, CallView) {
    match arg {
        ArgView::Void => (PassView::Ignore, c),
        ArgView::Scalar(_) => (PassView::Direct, c),
        ArgView::Aggregate { size, pieces, complex, .. } => return_rules(c, size, pieces, complex, 0),
    }
}

/// A copy of a test.
fn copy_test(t: &Test) -> (r: Test)
    ensures
        r@ == t@,
{
    match t {
        Test::Anything => Test::Anything,
        Test::Empty => Test::Empty,
        Test::SizeOneOf(sizes) => {
            let mut copy: Vec<u64> = Vec::new();
            let mut i: usize = 0;
            while i < sizes.len()
                invariant
                    i <= sizes@.len(),
                    copy@ == sizes@.take(i as int),
                decreases sizes@.len() - i,
            {
                copy.push(sizes[i]);
                i = i + 1;
                assert(copy@ =~= sizes@.take(i as int));
            }
            assert(sizes@.take(sizes@.len() as int) =~= sizes@);
            Test::SizeOneOf(copy)
        },
        Test::SizeAtMost(n) => Test::SizeAtMost(*n),
        Test::Homogeneous { limit } => Test::Homogeneous { limit: *limit },
        Test::FloatPair => Test::FloatPair,
        Test::X87Stack => Test::X87Stack,
        Test::Eightbytes { limit } => Test::Eightbytes { limit: *limit },
    }
}

/// A copy of a list of rules.
fn copy_rules(rules: &Vec<Rule>) -> (r: Vec<Rule>)
    ensures
        rules_view(r@) == rules_view(rules@),
{
    let mut copy: Vec<Rule> = Vec::new();
    let mut i: usize = 0;
    while i < rules.len()
        invariant
            i <= rules@.len(),
            rules_view(copy@) == rules_view(rules@.take(i as int)),
        decreases rules@.len() - i,
    {
        let rule = &rules[i];
        let next = Rule { when: copy_test(&rule.when), travel: rule.travel, short: rule.short };
        assert(next@ == rule@);
        let ghost before = copy@;
        copy.push(next);
        assert(copy@ =~= before.push(next));
        assert(rules@.take(i as int + 1) =~= rules@.take(i as int).push(rules@[i as int]));
        assert(rules_view(before.push(next)) =~= rules_view(before).push(next@));
        assert(rules_view(rules@.take(i as int).push(rules@[i as int])) =~= rules_view(
            rules@.take(i as int),
        ).push(rules@[i as int]@));
        i = i + 1;
        assert(rules_view(copy@) =~= rules_view(rules@.take(i as int)));
    }
    assert(rules@.take(rules@.len() as int) =~= rules@);
    copy
}

impl AbiDescription {
    /// A call following this description, with nothing spent yet.
    pub fn call(&self) -> (r: Call)
        ensures
            r@ == (CallView { abi: self@, integer: self.banks.integer, float: self.banks.float }),
    {
        let abi = AbiDescription {
            name: self.name,
            banks: self.banks,
            scalars: self.scalars,
            returns: copy_rules(&self.returns),
            arguments: copy_rules(&self.arguments),
            return_pointer: self.return_pointer,
            variadic: self.variadic,
            stack_args: self.stack_args,
        };
        Call { abi, integer: self.banks.integer, float: self.banks.float }
    }
}

/// What is left of a bank once `n` registers are spent.
fn less_of(left: u32, n: u64) -> (r: u32)
    ensures
        r == less(left, n as nat),
{
    if n <= left as u64 {
        left - n as u32
    } else {
        0
    }
}

/// The slots a value travels in once a test has matched.
fn travel_slots_of(travel: Travel, found: Vec<Slot>, size: u64, banks: Banks) -> (r: Vec<Slot>)
    requires
        banks.integer_width > 0,
    ensures
        r@ == travel_slots(travel, found@, size, banks),
{
    match travel {
        Travel::AsFound => found,
        Travel::AsIntegers => integer_cover_of(size, banks.integer_width),
        Travel::AsOneInteger => vec![Slot::Integer { offset: 0, size: #[verifier::truncate] (size as u32) }],
        _ => Vec::new(),
    }
}

impl Call {
    /// General purpose argument registers left.
    pub fn integer_left(&self) -> (r: u32)
        ensures
            r == self@.integer,
    {
        self.integer
    }

    /// Floating point argument registers left, which is none where the banks share positions.
    pub fn float_left(&self) -> (r: u32)
        ensures
            r == self@.float,
    {
        self.float
    }

    /// Classify an aggregate argument by the argument rules.
    fn aggregate_argument(&mut self, size: u64, ps: &[Piece], complex: bool) -> (r: Pass)
        requires
            old(self)@.abi.banks.integer_width > 0,
        ensures
            (r@, final(self)@) == argument_rules(old(self)@, size, ps@, complex, 0),
    {
        let ghost c = self@;
        let n = self.abi.arguments.len();
        let banks = self.abi.banks;
        let mut i: usize = 0;
        while i < n
            invariant
                self@ == c,
                old(self)@ == c,
                n == c.abi.arguments.len(),
                banks == c.abi.banks,
                banks.integer_width > 0,
                i <= n,
                argument_rules(c, size, ps@, complex, 0) == argument_rules(
                    c,
                    size,
                    ps@,
                    complex,
                    i as int,
                ),
            decreases n - i,
        {
            let rule = &self.abi.arguments[i];
            proof {
                assert(rule@ == c.abi.arguments[i as int]);
            }
            let travel = rule.travel;
            let short = rule.short;
            match found_by_of(&rule.when, size, ps, complex, banks) {
                None => {},
                Some(found) => {
                    match travel {
                        Travel::Ignore => {
                            return Pass::Ignore;
                        },
                        Travel::InMemory => {
                            return Pass::Memory;
                        },
                        Travel::ByReference => {
                            self.integer = less_of(self.integer, 1);
                            return Pass::Reference;
                        },
                        _ => {},
                    }
                    let slots = travel_slots_of(travel, found, size, banks);
                    let (ints, floats) = count_slots(&slots);
                    let ni: u64 = if banks.shared {
                        slots.len() as u64
                    } else {
                        ints
                    };
                    let nf: u64 = if banks.shared {
                        0
                    } else {
                        floats
                    };
                    if ni <= self.integer as u64 && nf <= self.float as u64 {
                        self.integer = less_of(self.integer, ni);
                        self.float = less_of(self.float, nf);
                        return Pass::Pieces(slots);
                    }
                    match short {
                        Short::Unchanged => {
                            self.integer = less_of(self.integer, ni);
                            self.float = less_of(self.float, nf);
                            return Pass::Pieces(slots);
                        },
                        Short::Memory => {
                            return Pass::Memory;
                        },
                        Short::MemoryAndDrain => {
                            if ni > 0 {
                                self.integer = 0;
                            }
                            if nf > 0 {
                                self.float = 0;
                            }
                            return Pass::Memory;
                        },
                        Short::TryNextRule => {},
                    }
                },
            }
            i = i + 1;
        }
        Pass::Memory
    }

    /// Classify an aggregate return value by the return rules.
    fn aggregate_return(&mut self, size: u64, ps: &[Piece], complex: bool) -> (r: Pass)
        requires
            old(self)@.abi.banks.integer_width > 0,
        ensures
            (r@, final(self)@) == return_rules(old(self)@, size, ps@, complex, 0),
    {
        let ghost c = self@;
        let n = self.abi.returns.len();
        let banks = self.abi.banks;
        let mut i: usize = 0;
        while i < n
            invariant
                self@ == c,
                old(self)@ == c,
                n == c.abi.returns.len(),
                banks == c.abi.banks,
                banks.integer_width > 0,
                i <= n,
                return_rules(c, size, ps@, complex, 0) == return_rules(
                    c,
                    size,
                    ps@,
                    complex,
                    i as int,
                ),
            decreases n - i,
        {
            let rule = &self.abi.returns[i];
            proof {
                assert(rule@ == c.abi.returns[i as int]);
            }
            let travel = rule.travel;
            match found_by_of(&rule.when, size, ps, complex, banks) {
                None => {},
                Some(found) => {
                    match travel {
                        Travel::Ignore => {
                            return Pass::Ignore;
                        },
                        Travel::ByReference | Travel::InMemory => {
                            self.spend_return_pointer();
                            return Pass::Reference;
                        },
                        _ => {
                            return Pass::Pieces(travel_slots_of(travel, found, size, banks));
                        },
                    }
                },
            }
            i = i + 1;
        }
        self.spend_return_pointer();
        Pass::Reference
    }

    /// Spend the register a returned address takes, where it takes one.
    fn spend_return_pointer(&mut self)
        ensures
            final(self)@ == after_return_pointer(old(self)@),
    {
        if matches!(self.abi.return_pointer, ReturnPointer::FirstArgument) {
            self.integer = less_of(self.integer, 1);
        }
    }

    /// Spend what a scalar argument spends.
    fn scalar_spend(&mut self, s: Scalar, variadic: bool)
        requires
            old(self)@.abi.banks.integer_width > 0,
        ensures
            final(self)@ == scalar_argument(old(self)@, s, variadic),
    {
        let banks = self.abi.banks;
        if let Kind::Float(f) = s.kind {
            if self.abi.scalars.in_memory == Some(f) {
                return;
            }
            if s.size <= banks.float_width {
                if banks.shared {
                    self.integer = less_of(self.integer, 1);
                } else if variadic && matches!(self.abi.variadic, Variadic::BothBanks) {
                    self.integer = less_of(self.integer, 1);
                    self.float = less_of(self.float, 1);
                } else {
                    self.float = less_of(self.float, 1);
                }
                return;
            }
        }
        let w = banks.integer_width;
        proof {
            if s.size % w != 0 {
                assert(s.size / w <= s.size / 2) by (nonlinear_arith)
                    requires
                        w >= 2,
                ;
            }
        }
        let q: u64 = s.size / w + if s.size % w != 0 {
            1
        } else {
            0
        };
        assert(q == (s.size + w - 1) / w as int) by (nonlinear_arith)
            requires
                w > 0,
                q == s.size / w + if s.size % w != 0 {
                    1int
                } else {
                    0int
                },
        ;
        let n: u64 = if q < 1 {
            1
        } else {
            q
        };
        if self.abi.scalars.wide_integer_is_all_or_nothing && n > 1 && n > self.integer as u64 {
            return;
        }
        self.integer = less_of(self.integer, n);
    }

    /// Classify one argument and spend what it takes.
    fn classify(&mut self, arg: &Arg, variadic: bool) -> (r: Pass)
        requires
            old(self)@.abi.banks.integer_width > 0,
        ensures
            (r@, final(self)@) == classify_argument(old(self)@, arg@, variadic),
    {
        let always_memory = variadic && matches!(self.abi.variadic, Variadic::AlwaysMemory);
        match arg {
            Arg::Void => Pass::Ignore,
            Arg::Scalar(s) => {
                if !always_memory {
                    self.scalar_spend(*s, variadic);
                }
                Pass::Direct
            },
            Arg::Aggregate(shape) => {
                if always_memory {
                    Pass::Memory
                } else {
                    self.aggregate_argument(shape.size, shape.pieces, shape.complex)
                }
            },
        }
    }

    /// How the next fixed argument travels, spending the registers it takes.
    pub fn argument(&mut self, arg: &Arg) -> (r: Pass)
        requires
            old(self)@.abi.banks.integer_width > 0,
        ensures
            (r@, final(self)@) == classify_argument(old(self)@, arg@, false),
    {
        self.classify(arg, false)
    }

    /// How the next variadic argument travels, spending the registers it takes.
    pub fn variadic_argument(&mut self, arg: &Arg) -> (r: Pass)
        requires
            old(self)@.abi.banks.integer_width > 0,
        ensures
            (r@, final(self)@) == classify_argument(old(self)@, arg@, true),
    {
        self.classify(arg, true)
    }

    /// How the return value travels. Asked before the arguments, because on the ABIs that pass
    /// a returned address as a hidden first argument it spends an argument register.
    pub fn return_value(&mut self, arg: &Arg) -> (r: Pass)
        requires
            old(self)@.abi.banks.integer_width > 0,
        ensures
            (r@, final(self)@) == classify_return(old(self)@, arg@),
    {
        match arg {
            Arg::Void => Pass::Ignore,
            Arg::Scalar(_) => Pass::Direct,
            Arg::Aggregate(shape) => self.aggregate_return(shape.size, shape.pieces, shape.complex),
        }
    }
}

/// Classifying by the argument rules from rule `i` on never adds a register and never changes
/// the description.
proof fn lemma_argument_rules_spend(c: CallView, size: u64, ps: Seq<Piece>, complex: bool, i: int)
    ensures
        ({
            let after = argument_rules(c, size, ps, complex, i).1;
            after.abi == c.abi && after.integer <= c.integer && after.float <= c.float
        }),
    decreases c.abi.arguments.len() - i,
{
    if 0 <= i < c.abi.arguments.len() {
        lemma_argument_rules_spend(c, size, ps, complex, i + 1);
    }
}

/// Classifying by the return rules from rule `i` on never adds a register and never changes
/// the description.
proof fn lemma_return_rules_spend(c: CallView, size: u64, ps: Seq<Piece>, complex: bool, i: int)
    ensures
        ({
            let after = return_rules(c, size, ps, complex, i).1;
            after.abi == c.abi && after.integer <= c.integer && after.float <= c.float
        }),
    decreases c.abi.returns.len() - i,
{
    if 0 <= i < c.abi.returns.len() {
        lemma_return_rules_spend(c, size, ps, complex, i + 1);
    }
}

/// A call only ever spends: classifying an argument or a return value leaves the description
/// as it was and no more registers in either bank than before.
pub proof fn classifying_only_spends(c: CallView, arg: ArgView, variadic: bool)
    ensures
        classify_argument(c, arg, variadic).1.abi == c.abi,
        classify_argument(c, arg, variadic).1.integer <= c.integer,
        classify_argument(c, arg, variadic).1.float <= c.float,
        classify_return(c, arg).1.abi == c.abi,
        classify_return(c, arg).1.integer <= c.integer,
        classify_return(c, arg).1.float <= c.float,
{
    if let ArgView::Aggregate { size, pieces, complex, .. } = arg {
        lemma_argument_rules_spend(c, size, pieces, complex, 0);
        lemma_return_rules_spend(c, size, pieces, complex, 0);
    }
}

/// Two calls whose argument rules, banks and registers left are the same classify an aggregate
/// argument the same way and leave the same registers.
proof fn lemma_same_argument_rules(
    c: CallView,
    d: CallView,
    size: u64,
    ps: Seq<Piece>,
    complex: bool,
    i: int,
)
    requires
        c.abi.arguments == d.abi.arguments,
        c.abi.banks == d.abi.banks,
        c.integer == d.integer,
        c.float == d.float,
    ensures
        argument_rules(c, size, ps, complex, i).0 == argument_rules(d, size, ps, complex, i).0,
        argument_rules(c, size, ps, complex, i).1.integer == argument_rules(
            d,
            size,
            ps,
            complex,
            i,
        ).1.integer,
        argument_rules(c, size, ps, complex, i).1.float == argument_rules(
            d,
            size,
            ps,
            complex,
            i,
        ).1.float,
    decreases c.abi.arguments.len() - i,
{
    if 0 <= i < c.abi.arguments.len() {
        lemma_same_argument_rules(c, d, size, ps, complex, i + 1);
    }
}

/// Two calls whose return rules, banks, return pointer and registers left are the same
/// classify an aggregate return value the same way and leave the same registers.
proof fn lemma_same_return_rules(
    c: CallView,
    d: CallView,
    size: u64,
    ps: Seq<Piece>,
    complex: bool,
    i: int,
)
    requires
        c.abi.returns == d.abi.returns,
        c.abi.banks == d.abi.banks,
        c.abi.return_pointer == d.abi.return_pointer,
        c.integer == d.integer,
        c.float == d.float,
    ensures
        return_rules(c, size, ps, complex, i).0 == return_rules(d, size, ps, complex, i).0,
        return_rules(c, size, ps, complex, i).1.integer == return_rules(
            d,
            size,
            ps,
            complex,
            i,
        ).1.integer,
        return_rules(c, size, ps, complex, i).1.float == return_rules(
            d,
            size,
            ps,
            complex,
            i,
        ).1.float,
    decreases c.abi.returns.len() - i,
{
    if 0 <= i < c.abi.returns.len() {
        lemma_same_return_rules(c, d, size, ps, complex, i + 1);
    }
}

/// Darwin arm64 classifies every fixed argument and every return value exactly as AAPCS64
/// does, from the same registers left to the same registers left: the two fields it changes
/// are about variadic arguments and the argument area.
pub proof fn darwin_fixed_arguments_are_aapcs(integer: u32, float: u32, arg: ArgView)
    ensures
        ({
            let darwin = CallView { abi: darwin_arm64_view(), integer, float };
            let aapcs = CallView { abi: aapcs64_view(), integer, float };
            let (p, after) = classify_argument(darwin, arg, false);
            let (q, other) = classify_argument(aapcs, arg, false);
            let (r, back) = classify_return(darwin, arg);
            let (t, again) = classify_return(aapcs, arg);
            &&& p == q
            &&& after.integer == other.integer
            &&& after.float == other.float
            &&& r == t
            &&& back.integer == again.integer
            &&& back.float == again.float
        }),
{
    let darwin = CallView { abi: darwin_arm64_view(), integer, float };
    let aapcs = CallView { abi: aapcs64_view(), integer, float };
    if let ArgView::Aggregate { size, pieces, complex, .. } = arg {
        lemma_same_argument_rules(darwin, aapcs, size, pieces, complex, 0);
        lemma_same_return_rules(darwin, aapcs, size, pieces, complex, 0);
    }
}

/// Windows x64 classifies an aggregate argument the same way however many registers are left:
/// the ninth argument travels the way the first one does.
pub proof fn win64_aggregates_ignore_what_is_left(
    integer: u32,
    float: u32,
    other_integer: u32,
    other_float: u32,
    size: u64,
    ps: Seq<Piece>,
    complex: bool,
)
    ensures
        argument_rules(CallView { abi: win64_view(), integer, float }, size, ps, complex, 0).0
            == argument_rules(
            CallView { abi: win64_view(), integer: other_integer, float: other_float },
            size,
            ps,
            complex,
            0,
        ).0,
{
    reveal_with_fuel(argument_rules, 4);
}

/// An aggregate of no size travels nowhere on every described ABI, as a fixed argument and as
/// a return value, and spends nothing.
pub proof fn an_empty_aggregate_travels_nowhere(
    abi: DescriptionView,
    integer: u32,
    float: u32,
    align: u64,
    ps: Seq<Piece>,
    complex: bool,
)
    requires
        abi == sysv_amd64_view() || abi == aapcs64_view() || abi == darwin_arm64_view() || abi
            == win64_view() || abi == riscv_lp64d_view(),
    ensures
        ({
            let c = CallView { abi, integer, float };
            let arg = ArgView::Aggregate { size: 0, align, pieces: ps, complex };
            &&& classify_argument(c, arg, false) == (PassView::Ignore, c)
            &&& classify_return(c, arg) == (PassView::Ignore, c)
        }),
{
}

/// Whether every general purpose register slot stays inside an object of this size.
pub open spec fn reads_inside(slots: Seq<Slot>, size: u64) -> bool {
    forall|i: int|
        0 <= i < slots.len() ==> match #[trigger] slots[i] {
            Slot::Integer { offset, size: width } => offset + width <= size,
            Slot::Float { .. } => true,
        }
}

/// Whether every piece lies inside an object of this size.
pub open spec fn pieces_inside(ps: Seq<Piece>, size: u64) -> bool {
    forall|i: int| 0 <= i < ps.len() ==> (#[trigger] ps[i]).spec_end() <= size
}

/// Whether every size a rule list accepts by list is at most eight bytes.
pub open spec fn listed_sizes_fit(rules: Seq<RuleView>) -> bool {
    forall|i: int, j: int|
        0 <= i < rules.len() && (#[trigger] rules[i]).when is SizeOneOf && 0 <= j
            < rules[i].when->SizeOneOf_0.len() ==> #[trigger] rules[i].when->SizeOneOf_0[j] <= 8
}

/// The eightbyte slots of an object stay inside it.
proof fn lemma_eightbyte_slots_inside(size: u64, ps: Seq<Piece>, m: int)
    requires
        m <= eightbyte_count(size),
    ensures
        reads_inside(eightbyte_slots(size, ps, m), size),
    decreases m,
{
    if m > 0 {
        lemma_eightbyte_slots_inside(size, ps, m - 1);
        let before = eightbyte_slots(size, ps, m - 1);
        let all = eightbyte_slots(size, ps, m);
        assert(8 * (m - 1) < size);
        assert forall|i: int| 0 <= i < all.len() implies match #[trigger] all[i] {
            Slot::Integer { offset, size: width } => offset + width <= size,
            Slot::Float { .. } => true,
        } by {
            if i < before.len() {
                assert(all[i] == before[i]);
            }
        }
    }
}

/// What a test finds stays inside the object, on registers eight bytes wide.
proof fn lemma_found_inside(t: TestView, size: u64, ps: Seq<Piece>, complex: bool, banks: Banks)
    requires
        banks.integer_width == 8,
        pieces_inside(ps, size),
    ensures
        found_by(t, size, ps, complex, banks) matches Some(found) ==> reads_inside(found, size),
{
    if let TestView::Eightbytes { limit } = t {
        lemma_eightbyte_slots_inside(size, ps, eightbyte_count(size));
    }
    if let TestView::FloatPair = t {
        let slots = Seq::new(ps.len(), |i: int| pair_slot(ps[i], banks.float_width));
        assert forall|i: int| 0 <= i < slots.len() implies match #[trigger] slots[i] {
            Slot::Integer { offset, size: width } => offset + width <= size,
            Slot::Float { .. } => true,
        } by {
            assert(ps[i].spec_end() <= size);
        }
    }
}

/// The slots a value travels in stay inside the object, on registers eight bytes wide and
/// for a size a register holds when it travels as one integer.
proof fn lemma_travel_inside(travel: Travel, found: Seq<Slot>, size: u64, banks: Banks)
    requires
        banks.integer_width == 8,
        reads_inside(found, size),
        travel is AsOneInteger ==> size <= 8,
    ensures
        reads_inside(travel_slots(travel, found, size, banks), size),
{
    if travel is AsIntegers {
        let cover = integer_cover(size, 8);
        assert forall|i: int| 0 <= i < cover.len() implies match #[trigger] cover[i] {
            Slot::Integer { offset, size: width } => offset + width <= size,
            Slot::Float { .. } => true,
        } by {
            assert(i * 8 < size);
        }
    }
}

/// Every pieces answer of the argument rules from rule `i` on stays inside the object.
proof fn lemma_argument_rules_inside(
    c: CallView,
    size: u64,
    ps: Seq<Piece>,
    complex: bool,
    i: int,
)
    requires
        c.abi.banks.integer_width == 8,
        listed_sizes_fit(c.abi.arguments),
        pieces_inside(ps, size),
    ensures
        argument_rules(c, size, ps, complex, i).0 matches PassView::Pieces(slots) ==> reads_inside(
            slots,
            size,
        ),
    decreases c.abi.arguments.len() - i,
{
    let rules = c.abi.arguments;
    if 0 <= i < rules.len() {
        lemma_argument_rules_inside(c, size, ps, complex, i + 1);
        let r = rules[i];
        lemma_found_inside(r.when, size, ps, complex, c.abi.banks);
        if let Some(found) = found_by(r.when, size, ps, complex, c.abi.banks) {
            if let TestView::SizeOneOf(sizes) = r.when {
                let j = choose|j: int| 0 <= j < sizes.len() && sizes[j] == size;
                assert(rules[i].when->SizeOneOf_0[j] <= 8);
            }
            if !(r.travel is AsOneInteger) || size <= 8 {
                lemma_travel_inside(r.travel, found, size, c.abi.banks);
            }
        }
    }
}

/// Every pieces answer of the return rules from rule `i` on stays inside the object.
proof fn lemma_return_rules_inside(c: CallView, size: u64, ps: Seq<Piece>, complex: bool, i: int)
    requires
        c.abi.banks.integer_width == 8,
        listed_sizes_fit(c.abi.returns),
        pieces_inside(ps, size),
    ensures
        return_rules(c, size, ps, complex, i).0 matches PassView::Pieces(slots) ==> reads_inside(
            slots,
            size,
        ),
    decreases c.abi.returns.len() - i,
{
    let rules = c.abi.returns;
    if 0 <= i < rules.len() {
        lemma_return_rules_inside(c, size, ps, complex, i + 1);
        let r = rules[i];
        lemma_found_inside(r.when, size, ps, complex, c.abi.banks);
        if let Some(found) = found_by(r.when, size, ps, complex, c.abi.banks) {
            if let TestView::SizeOneOf(sizes) = r.when {
                let j = choose|j: int| 0 <= j < sizes.len() && sizes[j] == size;
                assert(rules[i].when->SizeOneOf_0[j] <= 8);
            }
            if !(r.travel is AsOneInteger) || size <= 8 {
                lemma_travel_inside(r.travel, found, size, c.abi.banks);
            }
        }
    }
}

/// Nothing reads a byte past the object: on every described ABI, every general purpose register
/// an aggregate argument or return value travels in holds bytes of the object only, the last
/// one only as wide as what is left of it, provided its pieces lie inside it.
pub proof fn general_purpose_slots_stay_inside(
    abi: DescriptionView,
    integer: u32,
    float: u32,
    size: u64,
    align: u64,
    ps: Seq<Piece>,
    complex: bool,
    variadic: bool,
)
    requires
        abi == sysv_amd64_view() || abi == aapcs64_view() || abi == darwin_arm64_view() || abi
            == win64_view() || abi == riscv_lp64d_view(),
        pieces_inside(ps, size),
    ensures
        ({
            let c = CallView { abi, integer, float };
            let arg = ArgView::Aggregate { size, align, pieces: ps, complex };
            &&& classify_argument(c, arg, variadic).0 matches PassView::Pieces(slots)
                ==> reads_inside(slots, size)
            &&& classify_return(c, arg).0 matches PassView::Pieces(slots) ==> reads_inside(
                slots,
                size,
            )
        }),
{
    let c = CallView { abi, integer, float };
    assert(listed_sizes_fit(abi.arguments));
    assert(listed_sizes_fit(abi.returns));
    lemma_argument_rules_inside(c, size, ps, complex, 0);
    lemma_return_rules_inside(c, size, ps, complex, 0);
}

} // verus!
