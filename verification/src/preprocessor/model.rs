//! What the extraction reads of a shader: fields with their layout
//! qualifiers, uniform blocks, `#define` directives and expressions.

use vstd::prelude::*;
use crate::cast::{
    single_from_double,
    single_from_i32,
    single_from_u32,
    single_of_double,
    single_of_int,
    single_of_nat,
    u32_from_double,
    u32_from_i32,
    u32_from_single,
    uint_of_double,
    uint_of_int,
    uint_of_single,
};
use crate::number::{Double, Single, SINGLE_ONE_BITS};
use crate::shader::{Vector2, Vector3};

verus! {

/// Why no parameters could be read from a shader.
#[derive(Clone, Copy, Debug, PartialEq, Eq, Structural)]
pub enum ExtractError {
    /// A field of the `params` block has a type that no parameter has
    UnsupportedType,
    /// A setting of a field is given by an expression that is no constant
    NotConstant,
    /// A property is read that a parameter of this kind does not have
    NoSuchProperty,
}

impl ExtractError {
    /// A sentence for the user.
    pub fn message(&self) -> (text: &'static str)
        ensures
            text@ == match *self {
                ExtractError::UnsupportedType => "Invalid field in params block"@,
                ExtractError::NotConstant => "Anything other than a constant is not supported"@,
                ExtractError::NoSuchProperty => "No such property on float param"@,
            },
    {
        match self {
            ExtractError::UnsupportedType => "Invalid field in params block",
            ExtractError::NotConstant => "Anything other than a constant is not supported",
            ExtractError::NoSuchProperty => "No such property on float param",
        }
    }
}

/// The type of a field, as far as parameters tell types apart.
#[derive(Clone, Copy, Debug, PartialEq, Eq, Structural)]
pub enum FieldType {
    Float,
    UInt,
    Bool,
    Vec2,
    Vec3,
    Other,
}

/// An expression that is one literal, or anything else.
#[derive(Clone, Copy, Debug, PartialEq, Eq, Structural)]
pub enum Scalar {
    Int(i32),
    UInt(u32),
    Bool(bool),
    Float(Single),
    Double(Double),
    NotConstant,
}

/// The expression behind the `=` of a layout qualifier.
#[derive(Clone, Debug)]
pub enum Value {
    /// A literal, or an expression of no interest
    Scalar(Scalar),
    /// A call of the constructor of a type
    Constructor { ty: FieldType, args: Vec<Scalar> },
}

/// One entry of a layout qualifier: an identifier, with or without a value.
#[derive(Clone, Debug)]
pub struct LayoutPair {
    pub key: String,
    pub value: Option<Value>,
}

/// One field of a uniform block: its first name, its type, and the entries
/// of all its layout qualifiers in order.
#[derive(Clone, Debug)]
pub struct FieldSpec {
    pub name: String,
    pub ty: FieldType,
    pub qualifiers: Vec<LayoutPair>,
}

/// Compares two strings with `==`: they are equal when they hold the same
/// characters.
#[verifier::external_body]
pub(crate) fn same_text(a: &str, b: &str) -> (same: bool)
    ensures
        same == (a@ == b@),
{
    a == b
}

impl Scalar {
    /// The literal as a single-precision number: an integer or a
    /// double-precision number becomes the nearest one, `true` becomes one
    /// and `false` zero.
    pub open spec fn as_single(self) -> Option<Single> {
        match self {
            Scalar::Int(v) => Some(Single { bits: single_of_int(v as int) as u32 }),
            Scalar::UInt(v) => Some(Single { bits: single_of_nat(v as nat) as u32 }),
            Scalar::Bool(b) => Some(Single { bits: if b { SINGLE_ONE_BITS } else { 0 } }),
            Scalar::Float(x) => Some(x),
            Scalar::Double(x) => Some(Single { bits: single_of_double(x.bits as nat) as u32 }),
            Scalar::NotConstant => None,
        }
    }

    /// The literal as an unsigned integer: a signed integer keeps its bits,
    /// a floating-point number is cut down to its integer part inside the
    /// range of the type, `true` becomes one and `false` zero.
    pub open spec fn as_uint(self) -> Option<u32> {
        match self {
            Scalar::Int(v) => Some(uint_of_int(v as int) as u32),
            Scalar::UInt(v) => Some(v),
            Scalar::Bool(b) => Some(if b { 1u32 } else { 0u32 }),
            Scalar::Float(x) => Some(uint_of_single(x.bits as nat) as u32),
            Scalar::Double(x) => Some(uint_of_double(x.bits as nat) as u32),
            Scalar::NotConstant => None,
        }
    }

    /// Reads the literal as a single-precision number.
    pub fn coerce_single(&self) -> (r: Result<Single, ExtractError>)
        ensures
            r == match self.as_single() {
                Some(x) => Ok::<Single, ExtractError>(x),
                None => Err(ExtractError::NotConstant),
            },
    {
        match self {
            Scalar::Int(v) => Ok(single_from_i32(*v)),
            Scalar::UInt(v) => Ok(single_from_u32(*v)),
            Scalar::Bool(b) => Ok(if *b { Single::one() } else { Single::zero() }),
            Scalar::Float(x) => Ok(*x),
            Scalar::Double(x) => Ok(single_from_double(*x)),
            Scalar::NotConstant => Err(ExtractError::NotConstant),
        }
    }

    /// Reads the literal as an unsigned integer.
    pub fn coerce_uint(&self) -> (r: Result<u32, ExtractError>)
        ensures
            r == match self.as_uint() {
                Some(x) => Ok::<u32, ExtractError>(x),
                None => Err(ExtractError::NotConstant),
            },
    {
        match self {
            Scalar::Int(v) => Ok(u32_from_i32(*v)),
            Scalar::UInt(v) => Ok(*v),
            Scalar::Bool(b) => Ok(if *b { 1 } else { 0 }),
            Scalar::Float(x) => Ok(u32_from_single(*x)),
            Scalar::Double(x) => Ok(u32_from_double(*x)),
            Scalar::NotConstant => Err(ExtractError::NotConstant),
        }
    }
}

impl Value {
    /// The literal that the value is, if it is one.
    pub open spec fn scalar(self) -> Scalar {
        match self {
            Value::Scalar(s) => s,
            Value::Constructor { .. } => Scalar::NotConstant,
        }
    }

    /// The literal that the value is, or the mark of an expression that is
    /// none.
    pub fn to_scalar(&self) -> (s: Scalar)
        ensures
            s == self.scalar(),
    {
        match self {
            Value::Scalar(s) => *s,
            Value::Constructor { .. } => Scalar::NotConstant,
        }
    }
}

/// What the traversal of a shader does after a node: go on into the node, or
/// leave it.
#[derive(Clone, Copy, Debug, PartialEq, Eq, Structural)]
pub enum Visit {
    Children,
    Parent,
}

/// A uniform block: the entries of its first qualifier, where that is a
/// layout qualifier, and its fields.
#[derive(Clone, Debug)]
pub struct Block {
    pub layout: Option<Vec<LayoutPair>>,
    pub fields: Vec<FieldSpec>,
}

/// A `#define` directive: the name it defines, and whether it defines an
/// object rather than a function.
#[derive(Clone, Debug)]
pub struct Define {
    pub name: String,
    pub object_like: bool,
}

/// An expression, as far as the references to parameters are concerned.
#[derive(Clone, Debug)]
pub enum Expr {
    /// `variable.property`
    Dot { variable: String, property: String },
    /// A single-precision literal
    FloatConst(Single),
    /// `vec2(x, y)` on literals
    Vec2Call(Vector2),
    /// `vec3(x, y, z)` on literals
    Vec3Call(Vector3),
    /// Anything else
    Other,
}

/// One node of a shader that the extraction looks at.
#[derive(Clone, Debug)]
pub enum Item {
    Block(Block),
    Define(Define),
    Expr(Expr),
}

/// The nodes of a shader that the extraction looks at, in the order of the
/// source.
#[derive(Clone, Debug)]
pub struct Unit {
    pub items: Vec<Item>,
}

} // verus!
