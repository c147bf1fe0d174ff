use vstd::prelude::*;
use vstd::arithmetic::div_mod::lemma_small_mod;
use vstd::arithmetic::power2::{lemma_pow2_pos, lemma_pow2_unfold, pow2};
use crate::derive::{Construct, Fragment};
use crate::model::{Body, DeriveInput, Variant};

verus! {

/// The value of a string of decimal digits.
pub open spec fn decimal(ds: Seq<char>) -> nat
    decreases ds.len(),
{
    if ds.len() == 0 {
        0
    } else {
        decimal(ds.drop_last()) * 10 + ((ds.last() as u32 - '0' as u32) as nat)
    }
}

/// The width in bits of the integer type named `ty` (`u8`, `isize`, ...).
pub open spec fn int_width(ty: Seq<char>) -> nat {
    let rest = ty.subrange(1, ty.len() as int);
    if rest == seq!['s', 'i', 'z', 'e'] {
        usize::BITS as nat
    } else {
        decimal(rest)
    }
}

/// Whether the integer type named `ty` is signed.
pub open spec fn int_signed(ty: Seq<char>) -> bool {
    ty[0] == 'i'
}

/// The least value of the integer type named `ty`.
pub open spec fn int_min(ty: Seq<char>) -> int {
    let w = int_width(ty);
    if int_signed(ty) && w > 0 {
        -pow2((w - 1) as nat)
    } else {
        0
    }
}

/// The greatest value of the integer type named `ty`.
pub open spec fn int_max(ty: Seq<char>) -> int {
    let w = int_width(ty);
    if int_signed(ty) && w > 0 {
        pow2((w - 1) as nat) - 1
    } else {
        pow2(w) - 1
    }
}

/// Whether `x` is a value of the integer type named `ty`.
pub open spec fn in_range(x: int, ty: Seq<char>) -> bool {
    int_min(ty) <= x <= int_max(ty)
}

/// `x as ty`: `x` wrapped into the integer type named `ty` (two's complement).
pub open spec fn cast(x: int, ty: Seq<char>) -> int {
    let w = int_width(ty);
    if int_signed(ty) && w > 0 {
        let half = pow2((w - 1) as nat) as int;
        (x + half) % (pow2(w) as int) - half
    } else {
        x % (pow2(w) as int)
    }
}

/// Whether no variant of `vs` has an explicit discriminant, so that the
/// variant at position `i` has discriminant `i`.
pub open spec fn dense(vs: Seq<Variant>) -> bool {
    forall|i: int| 0 <= i < vs.len() ==> #[trigger] vs[i].discriminant is None
}

/// The variant at position `x` that reinterpreting the discriminant `x` gives,
/// where the enum's discriminants are its positions; `None` where the outcome
/// is not one of them.
pub open spec fn reinterpret(ast: DeriveInput, x: int) -> Option<int> {
    match ast.body {
        Body::Enum(vs) => if dense(vs@) && 0 <= x < vs@.len() {
            Some(x)
        } else {
            None
        },
        Body::Struct(_) => None,
    }
}

/// What the direct construction `c` builds from `x`: for an enum the position
/// of the variant, for a struct the content of its field.
pub open spec fn built(ast: DeriveInput, c: Construct, x: int) -> Option<int> {
    match c {
        Construct::Transmute => reinterpret(ast, x),
        Construct::WrapNamed(_) => Some(x),
        Construct::WrapTuple => Some(x),
        _ => None,
    }
}

/// The first conversion of `fs` from `ty`, total or unchecked as `total` says.
pub open spec fn find_fragment(fs: Seq<Fragment>, ty: Seq<char>, total: bool) -> Option<Fragment>
    decreases fs.len(),
{
    if fs.len() == 0 {
        None
    } else if fs[0].source@ == ty && fs[0].total == total {
        Some(fs[0])
    } else {
        find_fragment(fs.drop_first(), ty, total)
    }
}

/// What the unchecked conversion of `fs` from `ty` gives on `x`.
pub open spec fn unchecked_from(ast: DeriveInput, fs: Seq<Fragment>, ty: Seq<char>, x: int) -> Option<int> {
    match find_fragment(fs, ty, false) {
        Some(g) => built(ast, g.construct, x),
        None => None,
    }
}

/// What the total conversion of `fs` from `ty` gives on `x`.
pub open spec fn total_from(ast: DeriveInput, fs: Seq<Fragment>, ty: Seq<char>, x: int) -> Option<int> {
    match find_fragment(fs, ty, true) {
        Some(g) => match g.construct {
            Construct::ReduceModulo(n) => if n > 0 {
                unchecked_from(ast, fs, ty, x % (n as int))
            } else {
                None
            },
            _ => None,
        },
        None => None,
    }
}

/// What the conversion `f`, one of the conversions `fs` generated for `ast`,
/// gives on the input `x`; `None` where the outcome is undefined.
pub open spec fn converts(ast: DeriveInput, fs: Seq<Fragment>, f: Fragment, x: int) -> Option<int> {
    match f.construct {
        Construct::CastUnchecked(r) => unchecked_from(ast, fs, r@, cast(x, r@)),
        Construct::ReduceModulo(n) => if n > 0 {
            unchecked_from(ast, fs, f.source@, x % (n as int))
        } else {
            None
        },
        Construct::CastFrom(r) => total_from(ast, fs, r@, cast(x, r@)),
        _ => built(ast, f.construct, x),
    }
}

/// A cast into a type that already holds the value leaves it unchanged.
pub proof fn lemma_cast_in_range(x: int, ty: Seq<char>)
    requires
        in_range(x, ty),
    ensures
        cast(x, ty) == x,
{
    let w = int_width(ty);
    lemma_pow2_pos(w);
    if int_signed(ty) && w > 0 {
        let half = pow2((w - 1) as nat) as int;
        lemma_pow2_unfold(w);
        lemma_small_mod((x + half) as nat, pow2(w));
    } else {
        lemma_small_mod(x as nat, pow2(w));
    }
}

} // verus!
