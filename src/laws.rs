use vstd::prelude::*;
use crate::derive::{
    extension_fragments, extension_types, planned, total_requested, variant_count, variant_error,
    Construct, Fragment,
};
use crate::error::DeriveError;
use crate::model::{Body, DeriveInput, Variant};
use crate::semantics::{converts, dense, find_fragment, in_range, lemma_cast_in_range};

verus! {

/// A list of variants passes the variant rules exactly when each variant is a
/// unit, and, where the total conversion is asked for, has no explicit
/// discriminant.
pub proof fn lemma_variant_error_none(vs: Seq<Variant>, total: bool)
    ensures
        (variant_error(vs, total) is None) <==> (forall|i: int|
            0 <= i < vs.len() ==> (#[trigger] vs[i]).data is Unit && (total
                ==> vs[i].discriminant is None)),
    decreases vs.len(),
{
    if vs.len() > 0 {
        lemma_variant_error_none(vs.drop_first(), total);
        if variant_error(vs, total) is None {
            assert forall|i: int| 0 <= i < vs.len() implies (#[trigger] vs[i]).data is Unit && (
            total ==> vs[i].discriminant is None) by {
                if i > 0 {
                    assert(vs.drop_first()[i - 1] == vs[i]);
                }
            }
        }
        if forall|i: int|
            0 <= i < vs.len() ==> (#[trigger] vs[i]).data is Unit && (total
                ==> vs[i].discriminant is None) {
            assert forall|i: int| 0 <= i < vs.drop_first().len() implies (#[trigger] vs.drop_first()[i]).data is Unit
                && (total ==> vs.drop_first()[i].discriminant is None) by {
                assert(vs.drop_first()[i] == vs[i + 1]);
            }
        }
    }
}

/// Each conversion from an extension type goes through `repr`: an unchecked
/// one casts and converts without check, a total one casts and reduces.
pub proof fn lemma_extension_fragments(others: Seq<String>, repr: String, total: bool)
    ensures
        forall|k: int|
            0 <= k < extension_fragments(others, repr, total).len() ==> {
                let f = #[trigger] extension_fragments(others, repr, total)[k];
                (!f.total && f.construct == Construct::CastUnchecked(repr)) || (f.total
                    && total && f.construct == Construct::CastFrom(repr))
            },
    decreases others.len(),
{
    if others.len() > 0 {
        lemma_extension_fragments(others.drop_last(), repr, total);
        let prev = extension_fragments(others.drop_last(), repr, total);
        let all = extension_fragments(others, repr, total);
        assert forall|k: int| 0 <= k < all.len() implies {
            let f = #[trigger] all[k];
            (!f.total && f.construct == Construct::CastUnchecked(repr)) || (f.total && total
                && f.construct == Construct::CastFrom(repr))
        } by {
            if k < prev.len() {
                assert(all[k] == prev[k]);
            }
        }
    }
}

/// The first conversion of a list is the one that lookups find for its source
/// and kind.
proof fn lemma_find_first(fs: Seq<Fragment>)
    requires
        fs.len() > 0,
    ensures
        find_fragment(fs, fs[0].source@, fs[0].total) == Some(fs[0]),
{
}

/// Reading the field of a single-field struct right after the unchecked
/// conversion into it gives back the converted value: the conversion goes from
/// the field's own type and puts its input, unchanged, into that field.
pub proof fn struct_round_trip(ast: DeriveInput, x: int)
    requires
        ast.body is Struct,
        ast.body->Struct_0.spec_fields().len() == 1,
        !total_requested(ast),
    ensures
        planned(ast) is Ok,
        planned(ast)->Ok_0[0].source == ast.body->Struct_0.spec_fields()[0].ty,
        !planned(ast)->Ok_0[0].total,
        converts(ast, planned(ast)->Ok_0, planned(ast)->Ok_0[0], x) == Some(x),
{
}

/// Where no variant of an enum has an explicit discriminant, the unchecked
/// conversion from its representation type turns each `v` in `0..N` into the
/// variant at position `v`.
pub proof fn enum_position(ast: DeriveInput, v: int)
    requires
        ast.body is Enum,
        planned(ast) is Ok,
        dense(ast.body->Enum_0@),
        0 <= v < variant_count(ast),
    ensures
        !planned(ast)->Ok_0[0].total,
        converts(ast, planned(ast)->Ok_0, planned(ast)->Ok_0[0], v) == Some(v),
{
}

/// For every value `x` of both an extension type and the representation type,
/// the unchecked conversion from the extension type gives what the unchecked
/// conversion from the representation type gives.
pub proof fn extension_agrees(ast: DeriveInput, k: int, x: int)
    requires
        ast.body is Enum,
        planned(ast) is Ok,
        1 <= k < planned(ast)->Ok_0.len(),
        !planned(ast)->Ok_0[k].total,
        in_range(x, planned(ast)->Ok_0[k].source@),
        in_range(x, planned(ast)->Ok_0[0].source@),
    ensures
        converts(ast, planned(ast)->Ok_0, planned(ast)->Ok_0[k], x) == converts(
            ast,
            planned(ast)->Ok_0,
            planned(ast)->Ok_0[0],
            x,
        ),
{
    let fs = planned(ast)->Ok_0;
    let repr = fs[0].source;
    let total = total_requested(ast);
    let others = extension_types(ast);
    let ext = extension_fragments(others, repr, total);
    let head_len: int = if total { 2 } else { 1 };
    assert(fs == fs.subrange(0, head_len) + ext);
    lemma_extension_fragments(others, repr, total);
    if k >= head_len {
        assert(fs[k] == ext[k - head_len]);
    }
    assert(fs[k].construct == Construct::CastUnchecked(repr));
    lemma_find_first(fs);
    lemma_cast_in_range(x, repr@);
}

/// Where the total conversion is asked for, it turns every value `x` of the
/// representation type into the variant at position `x mod N`, `N` the number
/// of variants: what the unchecked conversion gives on `x mod N`.
pub proof fn total_reduces(ast: DeriveInput, x: int)
    requires
        ast.body is Enum,
        total_requested(ast),
        planned(ast) is Ok,
        variant_count(ast) > 0,
        in_range(x, planned(ast)->Ok_0[0].source@),
    ensures
        planned(ast)->Ok_0[1].total,
        planned(ast)->Ok_0[1].source == planned(ast)->Ok_0[0].source,
        0 <= x % (variant_count(ast) as int) < variant_count(ast),
        converts(ast, planned(ast)->Ok_0, planned(ast)->Ok_0[1], x) == Some(
            x % (variant_count(ast) as int),
        ),
        converts(ast, planned(ast)->Ok_0, planned(ast)->Ok_0[1], x) == converts(
            ast,
            planned(ast)->Ok_0,
            planned(ast)->Ok_0[0],
            x % (variant_count(ast) as int),
        ),
{
    let fs = planned(ast)->Ok_0;
    let vs = ast.body->Enum_0@;
    lemma_variant_error_none(vs, true);
    assert(dense(vs));
    lemma_find_first(fs);
    let n = variant_count(ast) as int;
    assert(fs[1].construct == Construct::ReduceModulo(variant_count(ast)));
    assert(0 <= x % n < n);
    assert(converts(ast, fs, fs[0], x % n) == Some(x % n));
}

/// The rules that no derivation passes: a struct with two fields, an enum with
/// a variant that carries a payload, an enum that asks for the total
/// conversion and gives a variant an explicit discriminant, and a struct that
/// asks for the total conversion.
pub proof fn rejections(ast: DeriveInput)
    ensures
        ast.body is Struct && ast.body->Struct_0.spec_fields().len() == 2 ==> planned(ast) is Err,
        ast.body is Enum && (exists|i: int|
            0 <= i < ast.body->Enum_0@.len() && !(#[trigger] ast.body->Enum_0@[i].data is Unit))
            ==> planned(ast) is Err,
        ast.body is Enum && total_requested(ast) && (exists|i: int|
            0 <= i < ast.body->Enum_0@.len() && #[trigger] ast.body->Enum_0@[i].discriminant is Some)
            ==> planned(ast) is Err,
        ast.body is Struct && total_requested(ast) ==> planned(ast) == Err::<Seq<Fragment>, DeriveError>(
            DeriveError::FromOnStruct,
        ),
{
    match ast.body {
        Body::Enum(vs) => {
            lemma_variant_error_none(vs@, total_requested(ast));
        },
        Body::Struct(_) => {},
    }
}

} // verus!
