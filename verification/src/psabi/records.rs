//! Laying out a record from its members the way C would: each member at the next offset its
//! alignment allows, and the whole rounded up to its strictest alignment.

use vstd::prelude::*;

use crate::psabi::shape::{Piece, Scalar, Shape};

verus! {

/// The smallest multiple of `m` that is at least `x`.
pub open spec fn round_up(x: int, m: int) -> int {
    if x % m == 0 {
        x
    } else {
        x + (m - x % m)
    }
}

/// The alignment a member is placed at: its own, or one for an alignment of zero.
pub open spec fn placement_align(s: Scalar) -> int {
    if s.align == 0 {
        1
    } else {
        s.align as int
    }
}

/// The offset one past the last member, once every member is placed.
pub open spec fn layout_end(scalars: Seq<Scalar>) -> int
    decreases scalars.len(),
{
    if scalars.len() == 0 {
        0
    } else {
        round_up(layout_end(scalars.drop_last()), placement_align(scalars.last()))
            + scalars.last().size
    }
}

/// Where member `i` is placed: the first offset after the members before it that its
/// alignment allows.
pub open spec fn member_offset(scalars: Seq<Scalar>, i: int) -> int {
    round_up(layout_end(scalars.take(i)), placement_align(scalars[i]))
}

/// Whether every offset the layout reaches fits in 64 bits.
pub open spec fn layout_fits(scalars: Seq<Scalar>) -> bool {
    forall|i: int| 0 <= i <= scalars.len() ==> #[trigger] layout_end(scalars.take(i)) <= u64::MAX
}

/// Rounding up gives a multiple of `m`, no smaller than `x` and less than `m` above it.
pub proof fn lemma_round_up(x: int, m: int)
    requires
        x >= 0,
        m > 0,
    ensures
        x <= round_up(x, m) < x + m,
        round_up(x, m) % m == 0,
{
    vstd::arithmetic::div_mod::lemma_fundamental_div_mod(x, m);
    vstd::arithmetic::div_mod::lemma_mod_pos_bound(x, m);
    if x % m != 0 {
        let q = x / m;
        let r = x % m;
        assert(round_up(x, m) == (q + 1) * m) by (nonlinear_arith)
            requires
                x == m * q + r,
                round_up(x, m) == x + (m - r),
        ;
        vstd::arithmetic::div_mod::lemma_mod_multiples_basic(q + 1, m);
    }
}

/// The layout never moves backwards.
proof fn lemma_layout_end_nonneg(scalars: Seq<Scalar>)
    ensures
        layout_end(scalars) >= 0,
    decreases scalars.len(),
{
    if scalars.len() > 0 {
        lemma_layout_end_nonneg(scalars.drop_last());
        lemma_round_up(layout_end(scalars.drop_last()), placement_align(scalars.last()));
    }
}

/// The smallest multiple of `m` that is at least `x`.
fn next_multiple_of(x: u64, m: u64) -> (r: u64)
    requires
        m > 0,
        round_up(x as int, m as int) <= u64::MAX,
    ensures
        r == round_up(x as int, m as int),
{
    let rem = x % m;
    if rem == 0 {
        x
    } else {
        x + (m - rem)
    }
}

/// The pieces of a record whose members are these, each at the next offset it fits: aligned
/// to its alignment, after the end of the member before it, in the order given.
pub fn pieces(scalars: &[Scalar]) -> (r: Vec<Piece>)
    requires
        layout_fits(scalars@),
    ensures
        r@.len() == scalars@.len(),
        forall|i: int|
            0 <= i < r@.len() ==> #[trigger] r@[i] == (Piece {
                offset: member_offset(scalars@, i) as u64,
                scalar: scalars@[i],
            }),
        forall|i: int| 0 <= i < r@.len() ==> (#[trigger] r@[i]).offset as int % placement_align(
            scalars@[i],
        ) == 0,
        forall|i: int|
            0 <= i < r@.len() ==> layout_end(scalars@.take(i)) <= (#[trigger] r@[i]).offset as int
                && r@[i].offset + r@[i].scalar.size == layout_end(scalars@.take(i + 1)),
{
    let mut out: Vec<Piece> = Vec::new();
    let mut at: u64 = 0;
    let mut i: usize = 0;
    assert(scalars@.take(0) =~= Seq::<Scalar>::empty());
    while i < scalars.len()
        invariant
            i <= scalars@.len(),
            layout_fits(scalars@),
            at == layout_end(scalars@.take(i as int)),
            out@.len() == i,
            forall|k: int|
                0 <= k < i ==> #[trigger] out@[k] == (Piece {
                    offset: member_offset(scalars@, k) as u64,
                    scalar: scalars@[k],
                }),
            forall|k: int| 0 <= k < i ==> (#[trigger] out@[k]).offset as int % placement_align(
                scalars@[k],
            ) == 0,
            forall|k: int|
                0 <= k < i ==> layout_end(scalars@.take(k)) <= (#[trigger] out@[k]).offset as int
                    && out@[k].offset + out@[k].scalar.size == layout_end(scalars@.take(k + 1)),
        decreases scalars@.len() - i,
    {
        let scalar = scalars[i];
        let align: u64 = if scalar.align == 0 {
            1
        } else {
            scalar.align
        };
        let ghost next = scalars@.take(i as int + 1);
        proof {
            assert(next.drop_last() =~= scalars@.take(i as int));
            assert(next.last() == scalar);
            lemma_layout_end_nonneg(scalars@.take(i as int));
            lemma_round_up(at as int, align as int);
            assert(layout_end(next) <= u64::MAX);
        }
        at = next_multiple_of(at, align);
        out.push(Piece { offset: at, scalar });
        at = at + scalar.size;
        i = i + 1;
    }
    out
}

/// The strictest alignment among the pieces, and zero for none.
pub open spec fn max_align(ps: Seq<Piece>) -> int
    decreases ps.len(),
{
    if ps.len() == 0 {
        0
    } else {
        let rest = max_align(ps.drop_last());
        let a = ps.last().scalar.align as int;
        if a > rest {
            a
        } else {
            rest
        }
    }
}

/// The furthest end among the pieces, and zero for none.
pub open spec fn max_end(ps: Seq<Piece>) -> int
    decreases ps.len(),
{
    if ps.len() == 0 {
        0
    } else {
        let rest = max_end(ps.drop_last());
        let e = ps.last().spec_end();
        if e > rest {
            e
        } else {
            rest
        }
    }
}

/// The alignment of a record: its strictest member's, and one when it has none.
pub open spec fn record_align(ps: Seq<Piece>) -> int {
    if ps.len() == 0 {
        1
    } else {
        max_align(ps)
    }
}

/// No piece ends past the furthest end, and no piece is aligned more strictly than the
/// strictest alignment.
proof fn lemma_max_bounds(ps: Seq<Piece>)
    ensures
        forall|i: int| 0 <= i < ps.len() ==> (#[trigger] ps[i]).spec_end() <= max_end(ps),
        forall|i: int| 0 <= i < ps.len() ==> (#[trigger] ps[i]).scalar.align <= max_align(ps),
        max_end(ps) >= 0,
    decreases ps.len(),
{
    if ps.len() > 0 {
        let rest = ps.drop_last();
        lemma_max_bounds(rest);
        assert forall|i: int| 0 <= i < ps.len() implies (#[trigger] ps[i]).spec_end() <= max_end(ps)
            && ps[i].scalar.align <= max_align(ps) by {
            if i < ps.len() - 1 {
                assert(ps[i] == rest[i]);
            }
        }
    }
}

/// The shape of a record whose members are these, sized and aligned the way C would: aligned
/// to its strictest member, and sized to the furthest end rounded up to that alignment.
pub fn record(pieces: &[Piece]) -> (r: Shape<'_>)
    requires
        forall|i: int| 0 <= i < pieces@.len() ==> (#[trigger] pieces@[i]).spec_end() <= u64::MAX,
        record_align(pieces@) > 0,
        round_up(max_end(pieces@), record_align(pieces@)) <= u64::MAX,
    ensures
        r.pieces@ == pieces@,
        r.align == record_align(pieces@),
        r.size == round_up(max_end(pieces@), record_align(pieces@)),
        !r.complex,
        r.size % r.align == 0,
        forall|i: int| 0 <= i < pieces@.len() ==> (#[trigger] pieces@[i]).spec_end() <= r.size,
        forall|i: int| 0 <= i < pieces@.len() ==> (#[trigger] pieces@[i]).scalar.align <= r.align,
{
    proof {
        lemma_max_bounds(pieces@);
        lemma_round_up(max_end(pieces@), record_align(pieces@));
    }
    let mut align: u64 = 0;
    let mut end: u64 = 0;
    let mut i: usize = 0;
    while i < pieces.len()
        invariant
            i <= pieces@.len(),
            forall|k: int| 0 <= k < pieces@.len() ==> (#[trigger] pieces@[k]).spec_end() <= u64::MAX,
            align == max_align(pieces@.take(i as int)),
            end == max_end(pieces@.take(i as int)),
        decreases pieces@.len() - i,
    {
        let ghost next = pieces@.take(i as int + 1);
        proof {
            assert(next.drop_last() =~= pieces@.take(i as int));
            assert(next.last() == pieces@[i as int]);
        }
        let piece_align = pieces[i].scalar.align;
        if piece_align > align {
            align = piece_align;
        }
        let piece_end = pieces[i].end();
        if piece_end > end {
            end = piece_end;
        }
        i = i + 1;
    }
    assert(pieces@.take(pieces@.len() as int) =~= pieces@);
    if pieces.len() == 0 {
        align = 1;
    }
    let size = next_multiple_of(end, align);
    Shape { size, align, pieces, complex: false }
}

} // verus!
