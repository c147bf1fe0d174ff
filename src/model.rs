use vstd::prelude::*;

verus! {

/// One item of attribute metadata: `word`, `name(...)` or `name = "value"`.
pub enum MetaItem {
    Word(String),
    List(String, Vec<NestedMetaItem>),
    NameValue(String, String),
}

/// An entry inside a `name(...)` list: a further item, or a literal kept as
/// its source text.
pub enum NestedMetaItem {
    MetaItem(MetaItem),
    Literal(String),
}

/// A field of a struct or of an enum variant; `ident` is `None` for a
/// positional field.
pub struct Field {
    pub ident: Option<String>,
    pub ty: String,
}

/// The payload of a struct or enum variant.
pub enum VariantData {
    Struct(Vec<Field>),
    Tuple(Vec<Field>),
    Unit,
}

/// An enum variant, with its explicit discriminant expression if one is given.
pub struct Variant {
    pub ident: String,
    pub data: VariantData,
    pub discriminant: Option<String>,
}

/// The shape of a declaration.
pub enum Body {
    Enum(Vec<Variant>),
    Struct(VariantData),
}

/// The generic parameters of a declaration, as the source text that an impl
/// header needs: `<T: Bound>` after `impl`, `<T>` after the type's name, and
/// the `where` clause. Each is empty when the declaration has none.
pub struct Generics {
    pub impl_generics: String,
    pub ty_generics: String,
    pub where_clause: String,
}

/// A struct or enum declaration, with the metadata of its attributes.
pub struct DeriveInput {
    pub ident: String,
    pub attrs: Vec<MetaItem>,
    pub generics: Generics,
    pub body: Body,
}

impl MetaItem {
    pub open spec fn name_string(&self) -> String {
        match self {
            MetaItem::Word(n) => *n,
            MetaItem::List(n, _) => *n,
            MetaItem::NameValue(n, _) => *n,
        }
    }

    pub open spec fn spec_name(&self) -> Seq<char> {
        self.name_string()@
    }

    /// The name that leads the item.
    pub fn name(&self) -> (r: &String)
        ensures
            *r == self.name_string(),
    {
        match self {
            MetaItem::Word(n) => n,
            MetaItem::List(n, _) => n,
            MetaItem::NameValue(n, _) => n,
        }
    }
}

impl VariantData {
    pub open spec fn spec_fields(&self) -> Seq<Field> {
        match self {
            VariantData::Struct(f) => f@,
            VariantData::Tuple(f) => f@,
            VariantData::Unit => Seq::empty(),
        }
    }

    /// Whether the payload is empty (`Unit`).
    pub fn is_unit(&self) -> (r: bool)
        ensures
            r == (*self is Unit),
    {
        match self {
            VariantData::Unit => true,
            _ => false,
        }
    }

    /// How many fields the payload has.
    pub fn field_count(&self) -> (r: usize)
        ensures
            r == self.spec_fields().len(),
    {
        match self {
            VariantData::Struct(f) => f.len(),
            VariantData::Tuple(f) => f.len(),
            VariantData::Unit => 0,
        }
    }

}

} // verus!
