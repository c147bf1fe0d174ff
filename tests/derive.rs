use uncon_derive::{
    impl_from_unchecked, is_int_ty, plan, Body, Construct, DeriveError, DeriveInput, Field,
    Fragment, Generics, MetaItem, NestedMetaItem, Variant, VariantData,
};

fn s(x: &str) -> String {
    x.to_string()
}

fn word(x: &str) -> NestedMetaItem {
    NestedMetaItem::MetaItem(MetaItem::Word(s(x)))
}

fn list(name: &str, items: Vec<NestedMetaItem>) -> MetaItem {
    MetaItem::List(s(name), items)
}

fn no_generics() -> Generics {
    Generics { impl_generics: s(""), ty_generics: s(""), where_clause: s("") }
}

fn unit(name: &str) -> Variant {
    Variant { ident: s(name), data: VariantData::Unit, discriminant: None }
}

fn enum_input(name: &str, variants: Vec<Variant>, attrs: Vec<MetaItem>) -> DeriveInput {
    DeriveInput { ident: s(name), attrs, generics: no_generics(), body: Body::Enum(variants) }
}

fn struct_input(name: &str, data: VariantData, attrs: Vec<MetaItem>) -> DeriveInput {
    DeriveInput { ident: s(name), attrs, generics: no_generics(), body: Body::Struct(data) }
}

fn field(ident: Option<&str>, ty: &str) -> Field {
    Field { ident: ident.map(s), ty: s(ty) }
}

fn frag(source: &str, total: bool, construct: Construct) -> Fragment {
    Fragment { source: s(source), total, construct }
}

fn flag() -> DeriveInput {
    enum_input(
        "Flag",
        vec![unit("A"), unit("B"), unit("C"), unit("D")],
        vec![
            list(
                "uncon",
                vec![
                    word("impl_from"),
                    NestedMetaItem::MetaItem(list(
                        "other",
                        vec![word("u16"), word("u32"), word("u64"), word("usize")],
                    )),
                ],
            ),
            list("repr", vec![word("u8")]),
        ],
    )
}

#[test]
fn int_type_names() {
    for name in ["u8", "i8", "u16", "i32", "u64", "i128", "usize", "isize", "u7", "i0"] {
        assert!(is_int_ty(name), "{}", name);
    }
    for name in ["", "u", "i", "f32", "x8", "u8a", "usiz", "isizes", "C", "size", "u-8", "u 8"] {
        assert!(!is_int_ty(name), "{}", name);
    }
}

#[test]
fn flag_plan() {
    let fs = plan(&flag()).unwrap();
    let cast = |t: &str| Construct::CastUnchecked(s(t));
    let from = |t: &str| Construct::CastFrom(s(t));
    assert_eq!(
        fs,
        vec![
            frag("u8", false, Construct::Transmute),
            frag("u8", true, Construct::ReduceModulo(4)),
            frag("u16", false, cast("u8")),
            frag("u16", true, from("u8")),
            frag("u32", false, cast("u8")),
            frag("u32", true, from("u8")),
            frag("u64", false, cast("u8")),
            frag("u64", true, from("u8")),
            frag("usize", false, cast("u8")),
            frag("usize", true, from("u8")),
        ]
    );
}

#[test]
fn flag_text() {
    let text = impl_from_unchecked(&flag()).unwrap();
    assert!(text.starts_with(
        "impl ::uncon::FromUnchecked<u8> for Flag  { #[inline] unsafe fn from_unchecked(inner: u8) -> Self { ::core::mem::transmute(inner) } }\n"
    ));
    assert!(text.contains(
        "impl ::core::convert::From<u8> for Flag  { #[inline] fn from(inner: u8) -> Self { unsafe { <Self as ::uncon::FromUnchecked<u8>>::from_unchecked((inner as u128 % 4) as u8) } } }\n"
    ));
    assert!(text.contains(
        "impl ::uncon::FromUnchecked<u32> for Flag  { #[inline] unsafe fn from_unchecked(inner: u32) -> Self { <Self as ::uncon::FromUnchecked<u8>>::from_unchecked(inner as u8) } }\n"
    ));
    assert!(text.contains(
        "impl ::core::convert::From<usize> for Flag  { #[inline] fn from(inner: usize) -> Self { <Self as ::core::convert::From<u8>>::from(inner as u8) } }\n"
    ));
    assert_eq!(text.matches("impl ").count(), 10);
}

#[test]
fn flag_reductions() {
    // The total conversion from u8 reduces modulo the four variants before
    // the unchecked conversion: 6 goes to position 2, 0 to position 0, and
    // 2 as u8 and 2 as u32 both reach position 2 unchanged.
    let fs = plan(&flag()).unwrap();
    let n = match fs[1].construct {
        Construct::ReduceModulo(n) => n as u128,
        _ => panic!("no reduction"),
    };
    assert_eq!((6u8 as u128 % n) as u8, 2);
    assert_eq!((0u8 as u128 % n) as u8, 0);
    assert_eq!(fs[4].construct, Construct::CastUnchecked(s("u8")));
    assert_eq!(2u32 as u8, 2u8);
}

#[test]
fn named_struct() {
    let ast = struct_input("U4", VariantData::Struct(vec![field(Some("bits"), "u8")]), vec![]);
    assert_eq!(plan(&ast).unwrap(), vec![frag("u8", false, Construct::WrapNamed(s("bits")))]);
    assert_eq!(
        impl_from_unchecked(&ast).unwrap(),
        "impl ::uncon::FromUnchecked<u8> for U4  { #[inline] unsafe fn from_unchecked(inner: u8) -> Self { U4 { bits: inner } } }\n"
    );
}

#[test]
fn tuple_struct_with_extensions() {
    let ast = struct_input(
        "Flags",
        VariantData::Tuple(vec![field(None, "u8")]),
        vec![list("uncon", vec![NestedMetaItem::MetaItem(list("other", vec![word("i8")]))])],
    );
    assert_eq!(
        plan(&ast).unwrap(),
        vec![
            frag("u8", false, Construct::WrapTuple),
            frag("i8", false, Construct::CastUnchecked(s("u8"))),
        ]
    );
    let text = impl_from_unchecked(&ast).unwrap();
    assert!(text.contains("-> Self { Flags(inner) }"));
    assert!(text.contains("from_unchecked(inner: i8)"));
}

#[test]
fn generics_kept() {
    let mut ast = struct_input("W", VariantData::Tuple(vec![field(None, "T")]), vec![]);
    ast.generics = Generics {
        impl_generics: s("<T>"),
        ty_generics: s("<T>"),
        where_clause: s("where T: Copy"),
    };
    assert_eq!(
        impl_from_unchecked(&ast).unwrap(),
        "impl<T> ::uncon::FromUnchecked<T> for W<T> where T: Copy { #[inline] unsafe fn from_unchecked(inner: T) -> Self { W(inner) } }\n"
    );
}

#[test]
fn signed_repr_reduces_euclidean() {
    let ast = enum_input(
        "Dir",
        vec![unit("N"), unit("E"), unit("S")],
        vec![list("repr", vec![word("i16")]), list("uncon", vec![word("impl_from")])],
    );
    let text = impl_from_unchecked(&ast).unwrap();
    assert!(text.contains("from_unchecked((inner as i128).rem_euclid(3) as i16)"));
    assert_eq!((-1i16 as i128).rem_euclid(3) as i16, 2);
}

#[test]
fn repr_first_integer_item() {
    let ast = enum_input(
        "E",
        vec![unit("A")],
        vec![
            list("derive", vec![word("u32")]),
            list(
                "repr",
                vec![word("C"), NestedMetaItem::Literal(s("\"u64\"")), word("u16")],
            ),
            list("repr", vec![word("u8")]),
        ],
    );
    assert_eq!(plan(&ast).unwrap(), vec![frag("u16", false, Construct::Transmute)]);
}

#[test]
fn repeated_extensions_kept() {
    let other = |t: &str| NestedMetaItem::MetaItem(list("other", vec![word(t)]));
    let ast = enum_input(
        "E",
        vec![unit("A"), unit("B")],
        vec![
            list("repr", vec![word("u8")]),
            list("uncon", vec![other("u16"), NestedMetaItem::Literal(s("1"))]),
            MetaItem::Word(s("uncon")),
            list("uncon", vec![other("u16"), other("i64")]),
        ],
    );
    let sources: Vec<String> = plan(&ast).unwrap().into_iter().map(|f| f.source).collect();
    assert_eq!(sources, vec![s("u8"), s("u16"), s("u16"), s("i64")]);
}

#[test]
fn explicit_discriminants_without_total() {
    let mut b = unit("B");
    b.discriminant = Some(s("5"));
    let ast = enum_input("E", vec![unit("A"), b], vec![list("repr", vec![word("u8")])]);
    assert_eq!(plan(&ast).unwrap(), vec![frag("u8", false, Construct::Transmute)]);
}

#[test]
fn rejects_two_fields() {
    let ast = struct_input(
        "P",
        VariantData::Struct(vec![field(Some("x"), "u8"), field(Some("y"), "u8")]),
        vec![],
    );
    assert_eq!(plan(&ast), Err(DeriveError::FieldCount { found: 2 }));
    assert_eq!(impl_from_unchecked(&ast), Err(DeriveError::FieldCount { found: 2 }));
}

#[test]
fn rejects_unit_struct() {
    let ast = struct_input("Z", VariantData::Unit, vec![]);
    assert_eq!(plan(&ast), Err(DeriveError::FieldCount { found: 0 }));
}

#[test]
fn rejects_payload_variant() {
    let v = Variant {
        ident: s("B"),
        data: VariantData::Tuple(vec![field(None, "u8")]),
        discriminant: None,
    };
    let ast = enum_input("E", vec![unit("A"), v], vec![list("repr", vec![word("u8")])]);
    assert_eq!(plan(&ast), Err(DeriveError::NonUnitVariant { variant: s("B") }));
}

#[test]
fn rejects_discriminant_with_total() {
    let mut b = unit("B");
    b.discriminant = Some(s("3"));
    let ast = enum_input(
        "E",
        vec![unit("A"), b],
        vec![list("repr", vec![word("u8")]), list("uncon", vec![word("impl_from")])],
    );
    assert_eq!(plan(&ast), Err(DeriveError::Discriminant { variant: s("B") }));
}

#[test]
fn rejects_total_on_struct() {
    let ast = struct_input(
        "U4",
        VariantData::Struct(vec![field(Some("bits"), "u8")]),
        vec![list("uncon", vec![word("impl_from")])],
    );
    assert_eq!(plan(&ast), Err(DeriveError::FromOnStruct));
}

#[test]
fn rejects_missing_repr() {
    let ast = enum_input("E", vec![unit("A")], vec![MetaItem::Word(s("repr"))]);
    assert_eq!(plan(&ast), Err(DeriveError::MissingRepr));
}

#[test]
fn rejects_repr_without_integer() {
    let ast = enum_input("E", vec![unit("A")], vec![list("repr", vec![word("C")])]);
    assert_eq!(plan(&ast), Err(DeriveError::NoIntegerRepr));
}

#[test]
fn error_messages() {
    assert_eq!(
        DeriveError::Discriminant { variant: s("B") }.message("E"),
        "Cannot derive From due to E::B discriminant"
    );
    assert_eq!(
        DeriveError::NonUnitVariant { variant: s("B") }.message("E"),
        "E: found non-unit variant 'B'"
    );
    assert_eq!(DeriveError::MissingRepr.message("E"), "E: could not find `#[repr]` attribute");
    assert_eq!(
        DeriveError::NoIntegerRepr.message("E"),
        "E: could not find integer repr for conversion"
    );
    assert_eq!(DeriveError::FromOnStruct.message("S"), "S: cannot derive From for non-enum types");
    assert_eq!(
        DeriveError::FieldCount { found: 12 }.message("P"),
        "P: `FromUnchecked` can only be derived for types with a single field, found 12"
    );
}

#[test]
fn large_variant_count_text() {
    let variants: Vec<Variant> = (0..300).map(|i| unit(&format!("V{}", i))).collect();
    let ast = enum_input(
        "Big",
        variants,
        vec![list("repr", vec![word("u16")]), list("uncon", vec![word("impl_from")])],
    );
    let text = impl_from_unchecked(&ast).unwrap();
    assert!(text.contains("((inner as u128 % 300) as u16)"));
}
