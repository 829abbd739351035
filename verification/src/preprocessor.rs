//! Extraction of the parameters that a shader declares in its `params`
//! block, and the rewriting that turns the block and the references to its
//! parameters into plain GLSL.

pub mod accessor;
pub mod block;
pub mod field;
pub mod model;
pub mod unit;

pub use self::block::{
    convert_field, convert_params_block, create_sliders_from_fields, params_layout,
};
pub use self::field::create_slider_from_field;
pub(crate) use self::model::same_text;
pub use self::model::{
    Block, Define, Expr, ExtractError, FieldSpec, FieldType, Item, LayoutPair, Scalar, Unit,
    Value, Visit,
};
pub use self::unit::extract;
