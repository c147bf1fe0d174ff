use vstd::prelude::*;
use crate::derive::{Construct, Fragment};
use crate::model::DeriveInput;

verus! {

/// The decimal digits of `n`, most significant first.
pub open spec fn decimal_text(n: nat) -> Seq<char>
    decreases n,
{
    let digit = seq!['0', '1', '2', '3', '4', '5', '6', '7', '8', '9'][(n % 10) as int];
    if n < 10 {
        seq![digit]
    } else {
        decimal_text(n / 10).push(digit)
    }
}

/// The header of an impl of `trait_path` for the subject of `ast`, up to and
/// including its opening brace.
pub open spec fn impl_head(ast: DeriveInput, trait_path: Seq<char>) -> Seq<char> {
    "impl"@ + ast.generics.impl_generics@ + " "@ + trait_path + " for "@ + ast.ident@
        + ast.generics.ty_generics@ + " "@ + ast.generics.where_clause@ + " {"@
}

/// The path of the unchecked conversion trait from `src`.
pub open spec fn unchecked_trait(src: Seq<char>) -> Seq<char> {
    "::uncon::FromUnchecked<"@ + src + ">"@
}

/// The path of the total conversion trait from `src`.
pub open spec fn total_trait(src: Seq<char>) -> Seq<char> {
    "::core::convert::From<"@ + src + ">"@
}

/// `inner` reduced modulo `n` into the range `0..n` of the integer type `src`:
/// through `i128` with a Euclidean remainder for a signed type, through `u128`
/// for an unsigned one, so that no value of `src` wraps before the reduction.
pub open spec fn reduced(src: Seq<char>, n: nat) -> Seq<char> {
    if src.len() > 0 && src[0] == 'i' {
        "(inner as i128).rem_euclid("@ + decimal_text(n) + ") as "@ + src
    } else {
        "(inner as u128 % "@ + decimal_text(n) + ") as "@ + src
    }
}

/// The expression that builds the subject from `inner` in the conversion `f`.
pub open spec fn body_expr(ast: DeriveInput, f: Fragment) -> Seq<char> {
    match f.construct {
        Construct::Transmute => "::core::mem::transmute(inner)"@,
        Construct::WrapNamed(id) => ast.ident@ + " { "@ + id@ + ": inner }"@,
        Construct::WrapTuple => ast.ident@ + "(inner)"@,
        Construct::CastUnchecked(r) => "<Self as "@ + unchecked_trait(r@) + ">::from_unchecked(inner as "@
            + r@ + ")"@,
        Construct::ReduceModulo(n) => "unsafe { <Self as "@ + unchecked_trait(f.source@)
            + ">::from_unchecked("@ + reduced(f.source@, n as nat) + ") }"@,
        Construct::CastFrom(r) => "<Self as "@ + total_trait(r@) + ">::from(inner as "@ + r@ + ")"@,
    }
}

/// The source text of the impl for the conversion `f`.
pub open spec fn fragment_text(ast: DeriveInput, f: Fragment) -> Seq<char> {
    if f.total {
        impl_head(ast, total_trait(f.source@)) + " #[inline] fn from(inner: "@ + f.source@
            + ") -> Self { "@ + body_expr(ast, f) + " } }\n"@
    } else {
        impl_head(ast, unchecked_trait(f.source@)) + " #[inline] unsafe fn from_unchecked(inner: "@
            + f.source@ + ") -> Self { "@ + body_expr(ast, f) + " } }\n"@
    }
}

/// The source text of the impls for the conversions `fs`, in order.
pub open spec fn rendered(ast: DeriveInput, fs: Seq<Fragment>) -> Seq<char>
    decreases fs.len(),
{
    if fs.len() == 0 {
        Seq::empty()
    } else {
        rendered(ast, fs.drop_last()) + fragment_text(ast, fs.last())
    }
}

/// Appends the decimal digits of `n` to `out`.
pub fn push_decimal(out: &mut String, n: usize)
    ensures
        final(out)@ == old(out)@ + decimal_text(n as nat),
    decreases n,
{
    if n >= 10 {
        push_decimal(out, n / 10);
    }
    let d: usize = n % 10;
    let digits = "0123456789";
    proof {
        reveal_strlit("0123456789");
    }
    let one = digits.substring_char(d, d + 1);
    assert(one@ =~= seq![seq!['0', '1', '2', '3', '4', '5', '6', '7', '8', '9'][d as int]]);
    out.append(one);
}

/// Appends the header of an impl of `trait_path` to `out`.
fn push_head(out: &mut String, ast: &DeriveInput, trait_path: &String)
    ensures
        final(out)@ == old(out)@ + impl_head(*ast, trait_path@),
{
    let ghost start = out@;
    out.append("impl");
    out.append(ast.generics.impl_generics.as_str());
    out.append(" ");
    out.append(trait_path.as_str());
    out.append(" for ");
    out.append(ast.ident.as_str());
    out.append(ast.generics.ty_generics.as_str());
    out.append(" ");
    out.append(ast.generics.where_clause.as_str());
    out.append(" {");
    assert(out@ =~= start + impl_head(*ast, trait_path@));
}

/// The path of the unchecked conversion trait from `src`.
fn unchecked_path(src: &String) -> (r: String)
    ensures
        r@ == unchecked_trait(src@),
{
    let mut r = String::from_str("::uncon::FromUnchecked<");
    r.append(src.as_str());
    r.append(">");
    r
}

/// The path of the total conversion trait from `src`.
fn total_path(src: &String) -> (r: String)
    ensures
        r@ == total_trait(src@),
{
    let mut r = String::from_str("::core::convert::From<");
    r.append(src.as_str());
    r.append(">");
    r
}

/// Appends the body expression of the conversion `f` to `out`.
fn push_body(out: &mut String, ast: &DeriveInput, f: &Fragment)
    ensures
        final(out)@ == old(out)@ + body_expr(*ast, *f),
{
    let ghost start = out@;
    match &f.construct {
        Construct::Transmute => {
            out.append("::core::mem::transmute(inner)");
        },
        Construct::WrapNamed(id) => {
            out.append(ast.ident.as_str());
            out.append(" { ");
            out.append(id.as_str());
            out.append(": inner }");
        },
        Construct::WrapTuple => {
            out.append(ast.ident.as_str());
            out.append("(inner)");
        },
        Construct::CastUnchecked(r) => {
            out.append("<Self as ");
            out.append(unchecked_path(r).as_str());
            out.append(">::from_unchecked(inner as ");
            out.append(r.as_str());
            out.append(")");
        },
        Construct::ReduceModulo(n) => {
            out.append("unsafe { <Self as ");
            out.append(unchecked_path(&f.source).as_str());
            out.append(">::from_unchecked(");
            let ghost before = out@;
            let signed = f.source.unicode_len() > 0 && f.source.as_str().get_char(0) == 'i';
            if signed {
                out.append("(inner as i128).rem_euclid(");
                push_decimal(out, *n);
                out.append(") as ");
            } else {
                out.append("(inner as u128 % ");
                push_decimal(out, *n);
                out.append(") as ");
            }
            out.append(f.source.as_str());
            assert(out@ =~= before + reduced(f.source@, *n as nat));
            out.append(") }");
        },
        Construct::CastFrom(r) => {
            out.append("<Self as ");
            out.append(total_path(r).as_str());
            out.append(">::from(inner as ");
            out.append(r.as_str());
            out.append(")");
        },
    }
    assert(out@ =~= start + body_expr(*ast, *f));
}

/// Appends the source text of the impl for the conversion `f` to `out`.
pub fn push_fragment(out: &mut String, ast: &DeriveInput, f: &Fragment)
    ensures
        final(out)@ == old(out)@ + fragment_text(*ast, *f),
{
    let ghost start = out@;
    if f.total {
        push_head(out, ast, &total_path(&f.source));
        out.append(" #[inline] fn from(inner: ");
    } else {
        push_head(out, ast, &unchecked_path(&f.source));
        out.append(" #[inline] unsafe fn from_unchecked(inner: ");
    }
    out.append(f.source.as_str());
    out.append(") -> Self { ");
    push_body(out, ast, f);
    out.append(" } }\n");
    assert(out@ =~= start + fragment_text(*ast, *f));
}

/// The source text of the impls for the conversions `fs`, in order.
pub fn render(ast: &DeriveInput, fs: &Vec<Fragment>) -> (r: String)
    ensures
        r@ == rendered(*ast, fs@),
{
    let mut out = String::new();
    let mut i: usize = 0;
    while i < fs.len()
        invariant
            i <= fs@.len(),
            out@ == rendered(*ast, fs@.subrange(0, i as int)),
        decreases fs@.len() - i,
    {
        assert(fs@.subrange(0, i + 1).drop_last() =~= fs@.subrange(0, i as int));
        push_fragment(&mut out, ast, &fs[i]);
        i = i + 1;
    }
    assert(fs@.subrange(0, fs@.len() as int) =~= fs@);
    out
}

} // verus!
