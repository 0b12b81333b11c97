//! The child index of a derivation path and its encodings.
use vstd::prelude::*;

use crate::decimal::{
    decimal_text, is_digit, lemma_decimal_text_reads_back, parse_u32, push_decimal, u32_of_text,
};
use core::cmp::Ordering;
use vstd::std_specs::cmp::PartialOrdSpec;
use vstd::std_specs::convert::FromSpec;

verus! {

/// The interface for a generic derivation path: cloneable, comparable,
/// printable and shareable across threads. A path type is also expected to
/// implement `core::str::FromStr` for its own printed form; that bound is left
/// off here because Verus does not support `FromStr` as a supertrait.
pub trait DerivationPath: Clone + core::fmt::Debug + core::fmt::Display + Send + Sync + 'static + Eq + Sized {

}

/// The ways in which building or reading a derivation path can fail.
#[derive(Debug, PartialEq, Eq)]
pub enum DerivationPathError {
    /// A hardened index was expected, a normal one was found.
    ExpectedHardenedPath,
    /// A normal index was expected, a hardened one was found.
    ExpectedNormalPath,
    /// The number has bit 31 set, so it is no 31-bit payload.
    InvalidChildNumber(u32),
    /// The text is not an unsigned 32-bit decimal number.
    InvalidChildNumberFormat,
    /// A multi-segment path is malformed; the text says how.
    InvalidDerivationPath(String),
}

/// Bit 31 of the raw encoding: set for a hardened index.
pub const HARDENED_BIT: u32 = 0x8000_0000;

/// Represents a child index for a derivation path
#[derive(Clone, Copy, Debug, PartialEq, Eq, Structural, Ord, Hash)]
pub enum ChildIndex {
    /// A non-hardened index: `Normal(n)` is `n` in path notation.
    Normal(u32),
    /// A hardened index: `Hardened(n)` is `n'` in path notation, `n | 2^31` on the wire.
    Hardened(u32),
}

/// A character that marks a hardened index at the end of its text.
pub open spec fn is_hardened_marker(c: char) -> bool {
    c == '\'' || c == 'h'
}

impl ChildIndex {
    /// The number carried by either variant.
    pub open spec fn payload(self) -> u32 {
        match self {
            ChildIndex::Normal(n) => n,
            ChildIndex::Hardened(n) => n,
        }
    }

    /// The payload fits in 31 bits, as every index built by this library does.
    pub open spec fn is_valid(self) -> bool {
        self.payload() < HARDENED_BIT
    }

    /// `Normal(index)`, or the error for an index with bit 31 set.
    pub open spec fn normal_of(index: u32) -> Result<ChildIndex, DerivationPathError> {
        if index < HARDENED_BIT {
            Ok(ChildIndex::Normal(index))
        } else {
            Err(DerivationPathError::InvalidChildNumber(index))
        }
    }

    /// `Hardened(index)`, or the error for an index with bit 31 set.
    pub open spec fn hardened_of(index: u32) -> Result<ChildIndex, DerivationPathError> {
        if index < HARDENED_BIT {
            Ok(ChildIndex::Hardened(index))
        } else {
            Err(DerivationPathError::InvalidChildNumber(index))
        }
    }

    /// The index that a raw 32-bit number encodes: bit 31 selects the variant,
    /// the low 31 bits are the payload.
    pub open spec fn from_raw(raw: u32) -> ChildIndex {
        if raw >= HARDENED_BIT {
            ChildIndex::Hardened((raw - HARDENED_BIT) as u32)
        } else {
            ChildIndex::Normal(raw)
        }
    }

    /// The raw 32-bit encoding of an index.
    pub open spec fn to_raw(self) -> u32 {
        match self {
            ChildIndex::Normal(n) => n,
            ChildIndex::Hardened(n) => n | HARDENED_BIT,
        }
    }

    /// The canonical text: the decimal payload, then `'` for a hardened index.
    pub open spec fn text(self) -> Seq<char> {
        match self {
            ChildIndex::Normal(n) => decimal_text(n as nat),
            ChildIndex::Hardened(n) => decimal_text(n as nat).push('\''),
        }
    }

    /// What reading a text gives: a trailing `'` or `h` makes the index
    /// hardened, and the rest must be an unsigned 32-bit decimal number whose
    /// bit 31 is clear.
    pub open spec fn parsed(s: Seq<char>) -> Result<ChildIndex, DerivationPathError> {
        if s.len() > 0 && is_hardened_marker(s.last()) {
            match u32_of_text(s.drop_last()) {
                Some(n) => ChildIndex::hardened_of(n),
                None => Err(DerivationPathError::InvalidChildNumberFormat),
            }
        } else {
            match u32_of_text(s) {
                Some(n) => ChildIndex::normal_of(n),
                None => Err(DerivationPathError::InvalidChildNumberFormat),
            }
        }
    }

    /// Total order: every normal index before every hardened one, and
    /// within a variant by payload.
    pub open spec fn compare(self, other: ChildIndex) -> Ordering {
        match (self, other) {
            (ChildIndex::Normal(_), ChildIndex::Hardened(_)) => Ordering::Less,
            (ChildIndex::Hardened(_), ChildIndex::Normal(_)) => Ordering::Greater,
            _ => {
                if self.payload() < other.payload() {
                    Ordering::Less
                } else if self.payload() == other.payload() {
                    Ordering::Equal
                } else {
                    Ordering::Greater
                }
            },
        }
    }

    /// Returns [`ChildIndex::Normal`] from an index, or errors if the index is not within [0, 2^31 - 1].
    pub fn from_normal(index: u32) -> (r: Result<Self, DerivationPathError>)
        ensures
            r == ChildIndex::normal_of(index),
    {
        if index < HARDENED_BIT {
            Ok(ChildIndex::Normal(index))
        } else {
            Err(DerivationPathError::InvalidChildNumber(index))
        }
    }

    /// Returns [`ChildIndex::Hardened`] from an index, or errors if the index is not within [0, 2^31 - 1].
    pub fn from_hardened(index: u32) -> (r: Result<Self, DerivationPathError>)
        ensures
            r == ChildIndex::hardened_of(index),
    {
        if index < HARDENED_BIT {
            Ok(ChildIndex::Hardened(index))
        } else {
            Err(DerivationPathError::InvalidChildNumber(index))
        }
    }

    /// Returns `true` if the child index is a [`ChildIndex::Normal`] value.
    pub fn is_normal(&self) -> (r: bool)
        ensures
            r == (*self is Normal),
            r == !(*self is Hardened),
    {
        !self.is_hardened()
    }

    /// Returns `true` if the child index is a [`ChildIndex::Hardened`] value.
    pub fn is_hardened(&self) -> (r: bool)
        ensures
            r == (*self is Hardened),
    {
        match *self {
            ChildIndex::Hardened(_) => true,
            ChildIndex::Normal(_) => false,
        }
    }

    /// Reads an index from its text: `n` is normal, `n'` and `nh` are hardened.
    pub fn parse(s: &str) -> (r: Result<Self, DerivationPathError>)
        ensures
            r == ChildIndex::parsed(s@),
    {
        let len = s.unicode_len();
        if len > 0 && (s.get_char(len - 1) == '\'' || s.get_char(len - 1) == 'h') {
            let digits = s.substring_char(0, len - 1);
            assert(digits@ =~= s@.drop_last());
            match parse_u32(digits) {
                Some(n) => ChildIndex::from_hardened(n),
                None => Err(DerivationPathError::InvalidChildNumberFormat),
            }
        } else {
            match parse_u32(s) {
                Some(n) => ChildIndex::from_normal(n),
                None => Err(DerivationPathError::InvalidChildNumberFormat),
            }
        }
    }

    /// The canonical text of the index: `44` for a normal one, `44'` for a hardened one.
    pub fn to_string(&self) -> (r: String)
        ensures
            r@ == self.text(),
    {
        let mut out = String::new();
        match *self {
            ChildIndex::Normal(n) => {
                push_decimal(&mut out, n);
            },
            ChildIndex::Hardened(n) => {
                push_decimal(&mut out, n);
                proof {
                    reveal_strlit("'");
                }
                out.append("'");
            },
        }
        assert(out@ =~= self.text());
        out
    }
}

/// Every `u32` survives the trip through `ChildIndex::from` and back
/// through `u32::from`.
pub proof fn lemma_raw_round_trip(raw: u32)
    ensures
        ChildIndex::from_raw(raw).to_raw() == raw,
        <u32 as FromSpec<ChildIndex>>::from_spec(<ChildIndex as FromSpec<u32>>::from_spec(raw)) == raw,
{
    if raw >= HARDENED_BIT {
        assert(((raw - 0x8000_0000u32) as u32 | 0x8000_0000u32) == raw) by (bit_vector)
            requires
                raw >= 0x8000_0000u32,
        ;
    }
}

/// Every valid index survives the trip through `u32::from` and back
/// through `ChildIndex::from`.
pub proof fn lemma_index_round_trip(idx: ChildIndex)
    requires
        idx.is_valid(),
    ensures
        ChildIndex::from_raw(idx.to_raw()) == idx,
        <ChildIndex as FromSpec<u32>>::from_spec(<u32 as FromSpec<ChildIndex>>::from_spec(idx)) == idx,
{
    let n = idx.payload();
    assert(n < 0x8000_0000u32 ==> (n | 0x8000_0000u32) >= 0x8000_0000u32 && ((n | 0x8000_0000u32)
        - 0x8000_0000u32) as u32 == n) by (bit_vector);
}

/// Reading the canonical text of a valid index gives that index back.
pub proof fn lemma_text_round_trip(idx: ChildIndex)
    requires
        idx.is_valid(),
    ensures
        ChildIndex::parsed(idx.text()) == Ok::<ChildIndex, DerivationPathError>(idx),
{
    let t = decimal_text(idx.payload() as nat);
    lemma_decimal_text_reads_back(idx.payload() as nat);
    assert(is_digit(t[t.len() - 1]));
    if idx is Hardened {
        assert(idx.text().drop_last() =~= t);
    }
}

/// Every index is exactly one of normal and hardened.
pub proof fn lemma_normal_or_hardened(idx: ChildIndex)
    ensures
        (idx is Normal) != (idx is Hardened),
{
}

/// Child indices are totally ordered, and `partial_cmp` and `<` follow that
/// order: every normal index comes before every hardened one, and indices of
/// one variant are ordered by payload.
pub proof fn lemma_order_total(a: ChildIndex, b: ChildIndex, c: ChildIndex)
    ensures
        a.partial_cmp_spec(&b) == Some(a.compare(b)),
        (a.compare(b) == Ordering::Equal) == (a == b),
        (a.compare(b) == Ordering::Less) == (b.compare(a) == Ordering::Greater),
        a.compare(b) == Ordering::Less && b.compare(c) == Ordering::Less ==> a.compare(c)
            == Ordering::Less,
        a is Normal && b is Hardened ==> a.compare(b) == Ordering::Less,
        (a is Normal) == (b is Normal) ==> ((a.compare(b) == Ordering::Less) == (a.payload()
            < b.payload())),
{
}

impl PartialOrd for ChildIndex {
    fn partial_cmp(&self, other: &ChildIndex) -> Option<Ordering> {
        match (*self, *other) {
            (ChildIndex::Normal(_), ChildIndex::Hardened(_)) => Some(Ordering::Less),
            (ChildIndex::Hardened(_), ChildIndex::Normal(_)) => Some(Ordering::Greater),
            (ChildIndex::Normal(a), ChildIndex::Normal(b))
            | (ChildIndex::Hardened(a), ChildIndex::Hardened(b)) => {
                if a < b {
                    Some(Ordering::Less)
                } else if a == b {
                    Some(Ordering::Equal)
                } else {
                    Some(Ordering::Greater)
                }
            },
        }
    }
}

impl vstd::std_specs::cmp::PartialOrdSpecImpl for ChildIndex {
    open spec fn obeys_partial_cmp_spec() -> bool {
        true
    }

    open spec fn partial_cmp_spec(&self, other: &ChildIndex) -> Option<Ordering> {
        Some(self.compare(*other))
    }
}

impl From<u32> for ChildIndex {
    fn from(number: u32) -> Self {
        if number >= HARDENED_BIT {
            ChildIndex::Hardened(number - HARDENED_BIT)
        } else {
            ChildIndex::Normal(number)
        }
    }
}

impl vstd::std_specs::convert::FromSpecImpl<u32> for ChildIndex {
    open spec fn obeys_from_spec() -> bool {
        true
    }

    open spec fn from_spec(number: u32) -> ChildIndex {
        ChildIndex::from_raw(number)
    }
}

impl From<ChildIndex> for u32 {
    fn from(index: ChildIndex) -> Self {
        match index {
            ChildIndex::Normal(number) => number,
            ChildIndex::Hardened(number) => number | HARDENED_BIT,
        }
    }
}

impl vstd::std_specs::convert::FromSpecImpl<ChildIndex> for u32 {
    open spec fn obeys_from_spec() -> bool {
        true
    }

    open spec fn from_spec(index: ChildIndex) -> u32 {
        index.to_raw()
    }
}

impl core::str::FromStr for ChildIndex {
    type Err = DerivationPathError;

    fn from_str(s: &str) -> (r: Result<Self, Self::Err>)
        ensures
            r == ChildIndex::parsed(s@),
    {
        ChildIndex::parse(s)
    }
}

} // verus!
