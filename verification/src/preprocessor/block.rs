//! The `params` block: the parameters of its fields, and the plain uniform
//! block it becomes.

use vstd::prelude::*;
use super::field::{create_slider_from_field, slider_of_field};
use super::model::{same_text, Block, ExtractError, FieldSpec, LayoutPair, Scalar, Value, Visit};
use crate::shader::{ShaderMetadata, Slider};

verus! {

/// The block declares the parameters of the shader: the first entry of its
/// layout qualifier is the identifier `params`.
pub open spec fn is_params_block(block: Block) -> bool {
    block.layout is Some && block.layout->Some_0@.len() > 0 && block.layout->Some_0@[0].key@
        == "params"@
}

/// The layout of the uniform block that holds the parameters:
/// `std140, set = 1, binding = 0`.
pub open spec fn is_params_layout(layout: Seq<LayoutPair>) -> bool {
    &&& layout.len() == 3
    &&& layout[0].key@ == "std140"@
    &&& layout[0].value is None
    &&& layout[1].key@ == "set"@
    &&& layout[1].value == Some(Value::Scalar(Scalar::Int(1)))
    &&& layout[2].key@ == "binding"@
    &&& layout[2].value == Some(Value::Scalar(Scalar::Int(0)))
}

/// The fields of `after` are those of `before` without their layout
/// qualifiers.
pub open spec fn is_stripped(before: Seq<FieldSpec>, after: Seq<FieldSpec>) -> bool {
    &&& after.len() == before.len()
    &&& forall|i: int|
        #![trigger after[i]]
        0 <= i < before.len() ==> after[i].name == before[i].name && after[i].ty == before[i].ty
            && after[i].qualifiers@.len() == 0
}

/// The block `after` is the plain uniform block that `before` becomes: the
/// layout of the parameter buffer, and the same fields without their layout
/// qualifiers.
pub open spec fn is_converted(before: Block, after: Block) -> bool {
    &&& after.layout is Some
    &&& is_params_layout(after.layout->Some_0@)
    &&& is_stripped(before.fields@, after.fields@)
}

/// The parameters that the fields declare, in order. The first field that
/// declares none decides the error.
pub open spec fn sliders_of_fields(fields: Seq<FieldSpec>) -> Result<Seq<Slider>, ExtractError>
    decreases fields.len(),
{
    if fields.len() == 0 {
        Ok(Seq::empty())
    } else {
        match sliders_of_fields(fields.drop_last()) {
            Err(e) => Err(e),
            Ok(before) => match slider_of_field(fields.last()) {
                Err(e) => Err(e),
                Ok(slider) => Ok(before.push(slider)),
            },
        }
    }
}

/// An error among the first fields is the error of the whole block.
proof fn lemma_field_error_stays(fields: Seq<FieldSpec>, n: int)
    requires
        0 <= n <= fields.len(),
        sliders_of_fields(fields.take(n)) is Err,
    ensures
        sliders_of_fields(fields) == sliders_of_fields(fields.take(n)),
    decreases fields.len(),
{
    if n == fields.len() {
        assert(fields.take(n) =~= fields);
    } else {
        assert(fields.drop_last().take(n) =~= fields.take(n));
        lemma_field_error_stays(fields.drop_last(), n);
    }
}

/// Reads the parameters that the fields declare.
pub fn create_sliders_from_fields(fields: &Vec<FieldSpec>) -> (r: Result<Vec<Slider>, ExtractError>)
    ensures
        match sliders_of_fields(fields@) {
            Ok(sliders) => r is Ok && r->Ok_0@ == sliders,
            Err(e) => r == Err::<Vec<Slider>, ExtractError>(e),
        },
{
    let mut sliders: Vec<Slider> = Vec::new();
    let mut i: usize = 0;
    while i < fields.len()
        invariant
            i <= fields.len(),
            sliders_of_fields(fields@.take(i as int)) == Ok::<Seq<Slider>, ExtractError>(sliders@),
        decreases fields.len() - i,
    {
        proof {
            assert(fields@.take(i + 1).drop_last() =~= fields@.take(i as int));
            assert(fields@.take(i + 1).last() == fields@[i as int]);
        }
        match create_slider_from_field(&fields[i]) {
            Err(e) => {
                proof {
                    lemma_field_error_stays(fields@, i + 1);
                }
                return Err(e);
            },
            Ok(slider) => {
                sliders.push(slider);
            },
        }
        i = i + 1;
    }
    assert(fields@.take(i as int) =~= fields@);
    Ok(sliders)
}

/// The layout of the uniform block that holds the parameters.
pub fn params_layout() -> (layout: Vec<LayoutPair>)
    ensures
        is_params_layout(layout@),
{
    let mut layout: Vec<LayoutPair> = Vec::new();
    layout.push(LayoutPair { key: "std140".to_owned(), value: None });
    layout.push(LayoutPair { key: "set".to_owned(), value: Some(Value::Scalar(Scalar::Int(1))) });
    layout.push(
        LayoutPair { key: "binding".to_owned(), value: Some(Value::Scalar(Scalar::Int(0))) },
    );
    layout
}

/// Gives a `params` block the layout of the parameter buffer in place of its
/// own.
pub fn convert_params_block(block: &mut Block)
    ensures
        final(block).layout is Some,
        is_params_layout(final(block).layout->Some_0@),
        final(block).fields == old(block).fields,
{
    block.layout = Some(params_layout());
}

/// Takes the layout qualifiers off a field.
pub fn convert_field(field: &mut FieldSpec)
    ensures
        final(field).name == old(field).name,
        final(field).ty == old(field).ty,
        final(field).qualifiers@.len() == 0,
{
    field.qualifiers = Vec::new();
}

impl Block {
    /// The block declares the parameters of the shader.
    pub fn is_params(&self) -> (yes: bool)
        ensures
            yes == is_params_block(*self),
    {
        match &self.layout {
            Some(entries) => entries.len() > 0 && same_text(entries[0].key.as_str(), "params"),
            None => false,
        }
    }
}

impl ShaderMetadata {
    /// Visits a uniform block. A `params` block gives its parameters to the
    /// metadata and becomes a plain uniform block; where a field declares
    /// no parameter, nothing is changed. Any other block is left alone.
    pub fn visit_block(&mut self, block: &mut Block) -> (r: Result<Visit, ExtractError>)
        ensures
            !is_params_block(*old(block)) ==> r == Ok::<Visit, ExtractError>(Visit::Parent)
                && *final(self) == *old(self) && *final(block) == *old(block),
            is_params_block(*old(block)) ==> match sliders_of_fields(old(block).fields@) {
                Err(e) => r == Err::<Visit, ExtractError>(e) && *final(self) == *old(self)
                    && *final(block) == *old(block),
                Ok(sliders) => {
                    &&& r == Ok::<Visit, ExtractError>(Visit::Parent)
                    &&& final(self).sliders@ == old(self).sliders@ + sliders
                    &&& final(self).still_image == old(self).still_image
                    &&& is_converted(*old(block), *final(block))
                },
            },
    {
        if !block.is_params() {
            return Ok(Visit::Parent);
        }
        let mut sliders = match create_sliders_from_fields(&block.fields) {
            Err(e) => {
                return Err(e);
            },
            Ok(sliders) => sliders,
        };
        self.sliders.append(&mut sliders);
        let mut i: usize = 0;
        while i < block.fields.len()
            invariant
                i <= block.fields.len(),
                block.fields@.len() == old(block).fields@.len(),
                forall|k: int|
                    #![trigger block.fields@[k]]
                    0 <= k < i ==> block.fields@[k].name == old(block).fields@[k].name
                        && block.fields@[k].ty == old(block).fields@[k].ty
                        && block.fields@[k].qualifiers@.len() == 0,
                forall|k: int|
                    #![trigger block.fields@[k]]
                    i <= k < block.fields@.len() ==> block.fields@[k] == old(block).fields@[k],
            decreases block.fields.len() - i,
        {
            convert_field(&mut block.fields[i]);
            i = i + 1;
        }
        convert_params_block(block);
        Ok(Visit::Parent)
    }
}

/// Where one field declares no parameter, the fields declare none.
pub proof fn lemma_field_error(fields: Seq<FieldSpec>, j: int)
    requires
        0 <= j < fields.len(),
        slider_of_field(fields[j]) is Err,
    ensures
        sliders_of_fields(fields) is Err,
    decreases fields.len(),
{
    if j < fields.len() - 1 {
        let front = fields.drop_last();
        assert(front[j] == fields[j]);
        lemma_field_error(front, j);
    }
}

} // verus!
