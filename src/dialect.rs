use vstd::prelude::*;

use crate::event::{RawEvent, Variant};
use crate::json::JsonValue;

verus! {

/// A vocabulary of events: the ordered alternatives that a text frame may take, and the
/// mapping from a decoded alternative to the public event that handlers receive.
pub trait Dialect: Sized {
    type Event;

    /// How many alternatives the raw union has.
    spec fn count() -> nat;

    /// The alternative at position `i`, in the order in which decoding tries them.
    spec fn variant_at(i: int) -> Variant;

    /// The public event that a raw event of this dialect becomes.
    spec fn adapted(raw: RawEvent) -> Self::Event;

    fn variant_count() -> (n: usize)
        ensures
            n == Self::count(),
    ;

    fn nth_variant(i: usize) -> (v: Variant)
        requires
            i < Self::count(),
        ensures
            v == Self::variant_at(i as int),
    ;

    fn adapt(raw: RawEvent) -> (e: Self::Event)
        requires
            exists|i: int| 0 <= i < Self::count() && Self::variant_at(i) == raw.variant(),
        ensures
            e == Self::adapted(raw),
    ;
}

/// Whether `v` is one of the dialect's alternatives.
pub open spec fn allows<D: Dialect>(v: Variant) -> bool {
    exists|i: int| 0 <= i < D::count() && D::variant_at(i) == v
}

/// The first alternative, from position `i` on, that `j` fits.
pub open spec fn first_fit<D: Dialect>(j: JsonValue, i: int) -> Option<Variant>
    decreases D::count() - i,
{
    if i < 0 || i >= D::count() {
        None
    } else if D::variant_at(i).fits(j) {
        Some(D::variant_at(i))
    } else {
        first_fit::<D>(j, i + 1)
    }
}

/// The raw event that `j` decodes to as a bare event value, if any alternative fits it.
pub open spec fn bare<D: Dialect>(j: JsonValue) -> Option<RawEvent> {
    match first_fit::<D>(j, 0) {
        Some(v) => v.build(j),
        None => None,
    }
}

pub proof fn lemma_first_fit_allowed<D: Dialect>(j: JsonValue, i: int)
    requires
        0 <= i,
    ensures
        first_fit::<D>(j, i) matches Some(v) ==> allows::<D>(v) && v.fits(j),
    decreases D::count() - i,
{
    if i < D::count() && !D::variant_at(i).fits(j) {
        lemma_first_fit_allowed::<D>(j, i + 1);
    }
}

/// The first alternative of the dialect that `j` fits.
pub fn recognise<D: Dialect>(j: &JsonValue) -> (r: Option<Variant>)
    ensures
        r == first_fit::<D>(*j, 0),
{
    let n = D::variant_count();
    let mut i: usize = 0;
    while i < n
        invariant
            n == D::count(),
            i <= n,
            first_fit::<D>(*j, 0) == first_fit::<D>(*j, i as int),
        decreases n - i,
    {
        let v = D::nth_variant(i);
        if v.accepts(j) {
            return Some(v);
        }
        i = i + 1;
    }
    None
}

/// Decodes `j` as a bare event value of the dialect.
pub fn decode_bare<D: Dialect>(j: JsonValue) -> (r: Result<RawEvent, JsonValue>)
    ensures
        match r {
            Ok(raw) => bare::<D>(j) == Some(raw) && allows::<D>(raw.variant()),
            Err(back) => bare::<D>(j) is None && back == j,
        },
{
    match recognise::<D>(&j) {
        Some(v) => {
            proof {
                lemma_first_fit_allowed::<D>(j, 0);
            }
            Ok(v.make(j))
        },
        None => Err(j),
    }
}

} // verus!
