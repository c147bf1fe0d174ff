use vstd::prelude::*;
use crate::attrs::{
    asks_total, has_impl_from, item_refs, lists_named, meta_items, other_types, other_words,
    repr_of, repr_type, vec_views,
};
use crate::error::DeriveError;
use crate::model::{Body, DeriveInput, Field, NestedMetaItem, Variant, VariantData};
use crate::render::{render, rendered};

verus! {

/// How a generated conversion builds the subject from its input `inner`.
#[derive(Debug, PartialEq, Eq)]
pub enum Construct {
    /// Reinterprets the bits of `inner` as the enum (no check).
    Transmute,
    /// Builds the struct with `inner` as its named field.
    WrapNamed(String),
    /// Builds the struct with `inner` as its positional field.
    WrapTuple,
    /// Casts `inner` with `as` to the given type, then converts without check
    /// from that type.
    CastUnchecked(String),
    /// Reduces `inner` modulo the given number of variants, then converts
    /// without check from the same type.
    ReduceModulo(usize),
    /// Casts `inner` with `as` to the given type, then applies the total
    /// conversion from that type. The cast comes first: a value of a wider
    /// type is cut to its low bits before it is reduced.
    CastFrom(String),
}

/// One generated conversion into the subject: from `source`, total (`From`)
/// when `total` holds, unchecked (`FromUnchecked`) otherwise.
#[derive(Debug, PartialEq, Eq)]
pub struct Fragment {
    pub source: String,
    pub total: bool,
    pub construct: Construct,
}

/// The entries of the `uncon(...)` attribute blocks of `ast`.
pub open spec fn uncon_blocks(ast: DeriveInput) -> Seq<Seq<NestedMetaItem>> {
    lists_named(ast.attrs@, "uncon"@)
}

/// Whether `ast` asks for the total conversion (`uncon(impl_from)`).
pub open spec fn total_requested(ast: DeriveInput) -> bool {
    asks_total(uncon_blocks(ast))
}

/// The extension types of `ast` (`uncon(other(...))`), in order.
pub open spec fn extension_types(ast: DeriveInput) -> Seq<String> {
    other_words(uncon_blocks(ast))
}

/// The first rule that a variant of `vs` breaks: an explicit discriminant
/// where `total` holds, or a payload.
pub open spec fn variant_error(vs: Seq<Variant>, total: bool) -> Option<DeriveError>
    decreases vs.len(),
{
    if vs.len() == 0 {
        None
    } else if total && vs[0].discriminant is Some {
        Some(DeriveError::Discriminant { variant: vs[0].ident })
    } else if !(vs[0].data is Unit) {
        Some(DeriveError::NonUnitVariant { variant: vs[0].ident })
    } else {
        variant_error(vs.drop_first(), total)
    }
}

/// How the sole field `f` of a struct is filled.
pub open spec fn wrap_of(f: Field) -> Construct {
    match f.ident {
        Some(id) => Construct::WrapNamed(id),
        None => Construct::WrapTuple,
    }
}

/// The representation type of `ast` and how the unchecked conversion from it
/// builds the subject, or the rule that `ast` breaks.
pub open spec fn primary_of(ast: DeriveInput) -> Result<(String, Construct), DeriveError> {
    let total = total_requested(ast);
    match ast.body {
        Body::Enum(vs) => match variant_error(vs@, total) {
            Some(e) => Err(e),
            None => match repr_of(ast.attrs@) {
                Ok(r) => Ok((r, Construct::Transmute)),
                Err(e) => Err(e),
            },
        },
        Body::Struct(data) => {
            let fs = data.spec_fields();
            if total {
                Err(DeriveError::FromOnStruct)
            } else if fs.len() != 1 {
                Err(DeriveError::FieldCount { found: fs.len() as usize })
            } else {
                Ok((fs[0].ty, wrap_of(fs[0])))
            }
        },
    }
}

/// The number of variants of an enum (zero for a struct).
pub open spec fn variant_count(ast: DeriveInput) -> usize {
    match ast.body {
        Body::Enum(vs) => vs.len(),
        Body::Struct(_) => 0,
    }
}

/// The conversions from the extension types `others`, each through `repr`.
pub open spec fn extension_fragments(others: Seq<String>, repr: String, total: bool) -> Seq<
    Fragment,
>
    decreases others.len(),
{
    if others.len() == 0 {
        Seq::empty()
    } else {
        let x = others.last();
        let unchecked = Fragment {
            source: x,
            total: false,
            construct: Construct::CastUnchecked(repr),
        };
        let prev = extension_fragments(others.drop_last(), repr, total).push(unchecked);
        if total {
            prev.push(Fragment { source: x, total: true, construct: Construct::CastFrom(repr) })
        } else {
            prev
        }
    }
}

/// The conversions generated for `ast`, or the rule that it breaks: the
/// unchecked conversion from the representation type; the total one from it
/// when asked for; then, for each extension type, an unchecked conversion and,
/// when asked for, a total one.
pub open spec fn planned(ast: DeriveInput) -> Result<Seq<Fragment>, DeriveError> {
    let total = total_requested(ast);
    match primary_of(ast) {
        Err(e) => Err(e),
        Ok((repr, c)) => {
            let head = seq![Fragment { source: repr, total: false, construct: c }];
            let head = if total {
                head.push(
                    Fragment {
                        source: repr,
                        total: true,
                        construct: Construct::ReduceModulo(variant_count(ast)),
                    },
                )
            } else {
                head
            };
            Ok(head + extension_fragments(extension_types(ast), repr, total))
        },
    }
}

/// The first rule that a variant of `vs` breaks.
fn check_variants(vs: &Vec<Variant>, total: bool) -> (r: Option<DeriveError>)
    ensures
        r == variant_error(vs@, total),
{
    let mut i: usize = 0;
    assert(vs@.subrange(0, vs@.len() as int) =~= vs@);
    while i < vs.len()
        invariant
            i <= vs@.len(),
            variant_error(vs@, total) == variant_error(
                vs@.subrange(i as int, vs@.len() as int),
                total,
            ),
        decreases vs@.len() - i,
    {
        let ghost rest = vs@.subrange(i as int, vs@.len() as int);
        assert(rest[0] == vs@[i as int]);
        assert(rest.drop_first() =~= vs@.subrange(i + 1, vs@.len() as int));
        let v = &vs[i];
        if total && v.discriminant.is_some() {
            return Some(DeriveError::Discriminant { variant: v.ident.clone() });
        }
        if !v.data.is_unit() {
            return Some(DeriveError::NonUnitVariant { variant: v.ident.clone() });
        }
        i = i + 1;
    }
    None
}

/// The sole field of a struct body.
fn sole_field(data: &VariantData) -> (r: Result<&Field, DeriveError>)
    ensures
        data.spec_fields().len() == 1 ==> r is Ok && *r->Ok_0 == data.spec_fields()[0],
        data.spec_fields().len() != 1 ==> r == Err::<&Field, DeriveError>(
            DeriveError::FieldCount { found: data.spec_fields().len() as usize },
        ),
{
    match data {
        VariantData::Struct(fs) => if fs.len() == 1 {
            Ok(&fs[0])
        } else {
            Err(DeriveError::FieldCount { found: fs.len() })
        },
        VariantData::Tuple(fs) => if fs.len() == 1 {
            Ok(&fs[0])
        } else {
            Err(DeriveError::FieldCount { found: fs.len() })
        },
        VariantData::Unit => Err(DeriveError::FieldCount { found: 0 }),
    }
}

/// The conversions to generate for `ast`, or the rule that it breaks.
pub fn plan(ast: &DeriveInput) -> (r: Result<Vec<Fragment>, DeriveError>)
    ensures
        match planned(*ast) {
            Ok(fs) => r is Ok && r->Ok_0@ == fs,
            Err(e) => r == Err::<Vec<Fragment>, DeriveError>(e),
        },
{
    let top = item_refs(&ast.attrs);
    let blocks = meta_items(&top, "uncon");
    assert(vec_views(blocks@) == uncon_blocks(*ast));
    let total = has_impl_from(&blocks);
    let repr: String;
    let construct: Construct;
    let mut count: usize = 0;
    match &ast.body {
        Body::Enum(vs) => {
            match check_variants(vs, total) {
                Some(e) => {
                    return Err(e);
                },
                None => {},
            }
            match repr_type(&top) {
                Ok(r) => {
                    repr = r.clone();
                },
                Err(e) => {
                    return Err(e);
                },
            }
            construct = Construct::Transmute;
            count = vs.len();
        },
        Body::Struct(data) => {
            if total {
                return Err(DeriveError::FromOnStruct);
            }
            match sole_field(data) {
                Ok(f) => {
                    repr = f.ty.clone();
                    construct = match &f.ident {
                        Some(id) => Construct::WrapNamed(id.clone()),
                        None => Construct::WrapTuple,
                    };
                },
                Err(e) => {
                    return Err(e);
                },
            }
        },
    }
    assert(primary_of(*ast) == Ok::<(String, Construct), DeriveError>((repr, construct)));
    let mut frags: Vec<Fragment> = Vec::new();
    frags.push(Fragment { source: repr.clone(), total: false, construct });
    if total {
        frags.push(
            Fragment {
                source: repr.clone(),
                total: true,
                construct: Construct::ReduceModulo(count),
            },
        );
    }
    let ghost head = frags@;
    let others = other_types(&blocks);
    let mut i: usize = 0;
    while i < others.len()
        invariant
            i <= others@.len(),
            frags@ == head + extension_fragments(
                others@.subrange(0, i as int),
                repr,
                total,
            ),
        decreases others@.len() - i,
    {
        assert(others@.subrange(0, i + 1).drop_last() =~= others@.subrange(0, i as int));
        frags.push(
            Fragment {
                source: others[i].clone(),
                total: false,
                construct: Construct::CastUnchecked(repr.clone()),
            },
        );
        if total {
            frags.push(
                Fragment {
                    source: others[i].clone(),
                    total: true,
                    construct: Construct::CastFrom(repr.clone()),
                },
            );
        }
        i = i + 1;
        assert(frags@ =~= head + extension_fragments(others@.subrange(0, i as int), repr, total));
    }
    assert(others@.subrange(0, others@.len() as int) =~= others@);
    Ok(frags)
}

/// The source text of the conversion impls derived for `ast`, or the rule
/// that `ast` breaks.
pub fn impl_from_unchecked(ast: &DeriveInput) -> (r: Result<String, DeriveError>)
    ensures
        match planned(*ast) {
            Ok(fs) => r is Ok && r->Ok_0@ == rendered(*ast, fs),
            Err(e) => r == Err::<String, DeriveError>(e),
        },
{
    match plan(ast) {
        Ok(fs) => Ok(render(ast, &fs)),
        Err(e) => Err(e),
    }
}

} // verus!
