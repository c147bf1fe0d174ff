pub mod attrs;
pub mod convert;
pub mod derive;
pub mod error;
pub mod laws;
pub mod model;
pub mod render;
pub mod semantics;
pub mod text;

pub use convert::{FromUnchecked, IntoUnchecked};
pub use derive::{impl_from_unchecked, plan, Construct, Fragment};
pub use error::DeriveError;
pub use model::{Body, DeriveInput, Field, Generics, MetaItem, NestedMetaItem, Variant, VariantData};
pub use text::is_int_ty;
