//! What a classifier is asked about, and what it answers: sizes, alignments, and where the
//! scalars inside an aggregate are, rather than C types.

use vstd::prelude::*;

verus! {

/// A floating point format. The width and the format are separate facts.
#[derive(Debug, Clone, Copy, PartialEq, Eq, PartialOrd, Ord, Hash, Structural)]
pub enum Format {
    /// IEEE binary16, `_Float16`.
    Half,
    /// The brain float, `__bf16`.
    BFloat16,
    /// IEEE binary32, `float`.
    Single,
    /// IEEE binary64, `double`.
    Double,
    /// The x87 eighty bit format, `long double` on x86.
    X87Extended,
    /// IEEE binary128, `_Float128`.
    Quad,
    /// IBM double-double, `long double` on legacy 64-bit PowerPC.
    DoubleDouble,
}

/// The short name a format is written under.
pub open spec fn format_name(f: Format) -> Seq<char> {
    match f {
        Format::Half => "f16"@,
        Format::BFloat16 => "bf16"@,
        Format::Single => "f32"@,
        Format::Double => "f64"@,
        Format::X87Extended => "f80"@,
        Format::Quad => "f128"@,
        Format::DoubleDouble => "ppc-f128"@,
    }
}

impl Format {
    /// The short name it is written under, which is its width in bits except for the two that
    /// the width does not tell apart from something else.
    pub fn name(self) -> (r: &'static str)
        ensures
            r@ == format_name(self),
    {
        match self {
            Format::Half => "f16",
            Format::BFloat16 => "bf16",
            Format::Single => "f32",
            Format::Double => "f64",
            Format::X87Extended => "f80",
            Format::Quad => "f128",
            Format::DoubleDouble => "ppc-f128",
        }
    }
}

/// What a scalar is, once the ABI is the one asking.
#[derive(Debug, Clone, Copy, PartialEq, Eq, Structural)]
pub enum Kind {
    /// An integer, an enumeration, a `bool` or a pointer.
    Integer,
    /// A floating point value in this format.
    Float(Format),
}

/// One scalar, with the three facts a psABI reads about it.
#[derive(Debug, Clone, Copy, PartialEq, Eq, Structural)]
pub struct Scalar {
    /// Whether it is an integer or a floating point value.
    pub kind: Kind,
    /// How many bytes it takes in memory.
    pub size: u64,
    /// What it is aligned to, in bytes; one for a bit-field.
    pub align: u64,
}

impl Scalar {
    /// An integer of this size, aligned to itself.
    pub fn integer(size: u64) -> (r: Scalar)
        ensures
            r == (Scalar { kind: Kind::Integer, size, align: size }),
    {
        Scalar { kind: Kind::Integer, size, align: size }
    }

    /// A floating point value in this format, of this size, aligned to itself.
    pub fn float(format: Format, size: u64) -> (r: Scalar)
        ensures
            r == (Scalar { kind: Kind::Float(format), size, align: size }),
    {
        Scalar { kind: Kind::Float(format), size, align: size }
    }

    /// Whether it is a floating point value.
    pub fn is_float(self) -> (r: bool)
        ensures
            r == (self.kind is Float),
    {
        matches!(self.kind, Kind::Float(_))
    }
}

/// One scalar inside an aggregate, at the offset the layout gave it.
#[derive(Debug, Clone, Copy, PartialEq, Eq, Structural)]
pub struct Piece {
    /// Where it starts, in bytes from the start of the aggregate.
    pub offset: u64,
    /// What it is.
    pub scalar: Scalar,
}

impl Piece {
    /// One past the last byte it covers, where a scalar of no size covers one byte.
    pub open spec fn spec_end(self) -> int {
        self.offset + if self.scalar.size == 0 {
            1
        } else {
            self.scalar.size as int
        }
    }

    /// One past the last byte it covers.
    pub fn end(&self) -> (r: u64)
        requires
            self.spec_end() <= u64::MAX,
        ensures
            r == self.spec_end(),
    {
        self.offset + if self.scalar.size == 0 {
            1
        } else {
            self.scalar.size
        }
    }
}

/// An aggregate, as much of it as an ABI cares about: its size and alignment, every scalar in
/// it in offset order, and whether it is a `_Complex`.
#[derive(Debug, Clone, Copy, PartialEq, Eq)]
pub struct Shape<'a> {
    /// The size of the whole thing in bytes, padding included.
    pub size: u64,
    /// What it is aligned to, in bytes.
    pub align: u64,
    /// The scalars in it.
    pub pieces: &'a [Piece],
    /// Whether it is a `_Complex` rather than a `struct` or a `union` of the same shape.
    pub complex: bool,
}

impl Shape<'_> {
    /// Whether it holds at least one scalar and every one of them is this format.
    pub fn is_all_of(&self, format: Format) -> (r: bool)
        ensures
            r == (self.pieces@.len() > 0 && forall|i: int|
                0 <= i < self.pieces@.len() ==> #[trigger] self.pieces@[i].scalar.kind
                    == Kind::Float(format)),
    {
        if self.pieces.len() == 0 {
            return false;
        }
        let mut i: usize = 0;
        while i < self.pieces.len()
            invariant
                i <= self.pieces@.len(),
                forall|k: int| 0 <= k < i ==> #[trigger] self.pieces@[k].scalar.kind == Kind::Float(
                    format,
                ),
            decreases self.pieces@.len() - i,
        {
            let matches_format = match self.pieces[i].scalar.kind {
                Kind::Float(f) => f == format,
                Kind::Integer => false,
            };
            if !matches_format {
                return false;
            }
            i = i + 1;
        }
        true
    }
}

/// One argument, or one return value, as much of it as an ABI cares about.
#[derive(Debug, Clone, Copy, PartialEq, Eq)]
pub enum Arg<'a> {
    /// `void`, which is a return type and never an argument.
    Void,
    /// A scalar.
    Scalar(Scalar),
    /// A `struct`, a `union`, an array or a `_Complex`.
    Aggregate(Shape<'a>),
}

/// One register's worth of an aggregate that travels in registers, and which of the object's
/// bytes go in it.
#[derive(Debug, Clone, Copy, PartialEq, Eq, Structural)]
pub enum Slot {
    /// An integer this many bytes wide, which is one general purpose register.
    Integer {
        /// Where its bytes start in the object.
        offset: u64,
        /// How many of them there are.
        size: u32,
    },
    /// A floating point value in this format, which is one vector register.
    Float {
        /// Where its bytes start in the object.
        offset: u64,
        /// What is read out of them.
        format: Format,
    },
}

impl Slot {
    /// Where its bytes start in the object.
    pub fn offset(self) -> (r: u64)
        ensures
            r == (match self {
                Slot::Integer { offset, .. } => offset,
                Slot::Float { offset, .. } => offset,
            }),
    {
        match self {
            Slot::Integer { offset, .. } | Slot::Float { offset, .. } => offset,
        }
    }

    /// Whether it is a vector register rather than a general purpose one.
    pub fn is_float(self) -> (r: bool)
        ensures
            r == (self is Float),
    {
        matches!(self, Slot::Float { .. })
    }
}

/// How one value travels.
#[derive(Debug, Clone, PartialEq, Eq)]
pub enum Pass {
    /// Nothing travels, which is `void` and an aggregate of no size.
    Ignore,
    /// The value itself. Every scalar is this.
    Direct,
    /// The object's bytes, in these slots.
    Pieces(Vec<Slot>),
    /// The address of a copy, in the place the value itself would have gone.
    Reference,
    /// The object's own bytes in the argument area, with no address anywhere.
    Memory,
}

/// An [`Arg`] as the values a classifier reads.
pub ghost enum ArgView {
    Void,
    Scalar(Scalar),
    Aggregate { size: u64, align: u64, pieces: Seq<Piece>, complex: bool },
}

impl View for Arg<'_> {
    type V = ArgView;

    open spec fn view(&self) -> ArgView {
        match self {
            Arg::Void => ArgView::Void,
            Arg::Scalar(s) => ArgView::Scalar(*s),
            Arg::Aggregate(shape) => ArgView::Aggregate {
                size: shape.size,
                align: shape.align,
                pieces: shape.pieces@,
                complex: shape.complex,
            },
        }
    }
}

/// A [`Pass`] with its slots as a sequence.
pub ghost enum PassView {
    Ignore,
    Direct,
    Pieces(Seq<Slot>),
    Reference,
    Memory,
}

impl View for Pass {
    type V = PassView;

    open spec fn view(&self) -> PassView {
        match self {
            Pass::Ignore => PassView::Ignore,
            Pass::Direct => PassView::Direct,
            Pass::Pieces(slots) => PassView::Pieces(slots@),
            Pass::Reference => PassView::Reference,
            Pass::Memory => PassView::Memory,
        }
    }
}

} // verus!
