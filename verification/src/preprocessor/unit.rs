//! The extraction over a whole shader.

use vstd::prelude::*;
use super::accessor::{expr_visited, lemma_no_sliders_no_rewrite, marks_still_image};
use super::block::{is_converted, is_params_block, lemma_field_error, sliders_of_fields};
use super::model::{ExtractError, FieldType, Item, Unit};
use crate::shader::{ShaderMetadata, Slider};

verus! {

/// The parameters that the `params` blocks among the items declare, in
/// order. The first field that declares none decides the error.
pub open spec fn declared(items: Seq<Item>) -> Result<Seq<Slider>, ExtractError>
    decreases items.len(),
{
    if items.len() == 0 {
        Ok(Seq::empty())
    } else {
        match declared(items.drop_last()) {
            Err(e) => Err(e),
            Ok(before) => match items.last() {
                Item::Block(block) => if is_params_block(block) {
                    match sliders_of_fields(block.fields@) {
                        Err(e) => Err(e),
                        Ok(sliders) => Ok(before + sliders),
                    }
                } else {
                    Ok(before)
                },
                _ => Ok(before),
            },
        }
    }
}

/// One of the items asks for a shader that is drawn once.
pub open spec fn asks_still_image(items: Seq<Item>) -> bool
    decreases items.len(),
{
    if items.len() == 0 {
        false
    } else {
        asks_still_image(items.drop_last()) || (items.last() is Define && marks_still_image(
            items.last()->Define_0,
        ))
    }
}

/// The first error among the expressions of the items, read against the
/// parameters `sliders`.
pub open spec fn expr_error(items: Seq<Item>, sliders: Seq<Slider>) -> Option<ExtractError>
    decreases items.len(),
{
    if items.len() == 0 {
        None
    } else {
        match expr_error(items.drop_last(), sliders) {
            Some(e) => Some(e),
            None => match items.last() {
                Item::Expr(expr) => match expr_visited(sliders, expr) {
                    Err(e) => Some(e),
                    Ok(_) => None,
                },
                _ => None,
            },
        }
    }
}

/// The item `after` is what the extraction makes of the item `before`: a
/// `params` block becomes a plain uniform block, a property of a parameter
/// becomes its constant, anything else is kept.
pub open spec fn is_extracted(before: Item, after: Item, sliders: Seq<Slider>) -> bool {
    match before {
        Item::Block(block) => if is_params_block(block) {
            after is Block && is_converted(block, after->Block_0)
        } else {
            after == before
        },
        Item::Define(_) => after == before,
        Item::Expr(expr) => expr_visited(sliders, expr) is Ok && after == Item::Expr(
            expr_visited(sliders, expr)->Ok_0.0,
        ),
    }
}

/// What the blocks and directives make of an item, before the expressions
/// are looked at.
pub open spec fn is_declared(before: Item, after: Item) -> bool {
    match before {
        Item::Block(block) => if is_params_block(block) {
            after is Block && is_converted(block, after->Block_0)
        } else {
            after == before
        },
        _ => after == before,
    }
}

/// An error among the first items is the error of them all.
proof fn lemma_declared_error_stays(items: Seq<Item>, n: int)
    requires
        0 <= n <= items.len(),
        declared(items.take(n)) is Err,
    ensures
        declared(items) == declared(items.take(n)),
    decreases items.len(),
{
    if n == items.len() {
        assert(items.take(n) =~= items);
    } else {
        assert(items.drop_last().take(n) =~= items.take(n));
        lemma_declared_error_stays(items.drop_last(), n);
    }
}

/// An error among the first expressions is the error of them all.
proof fn lemma_expr_error_stays(items: Seq<Item>, sliders: Seq<Slider>, n: int)
    requires
        0 <= n <= items.len(),
        expr_error(items.take(n), sliders) is Some,
    ensures
        expr_error(items, sliders) == expr_error(items.take(n), sliders),
    decreases items.len(),
{
    if n == items.len() {
        assert(items.take(n) =~= items);
    } else {
        assert(items.drop_last().take(n) =~= items.take(n));
        lemma_expr_error_stays(items.drop_last(), sliders, n);
    }
}

/// Reads the parameters of a shader and rewrites the shader into plain
/// GLSL. First the blocks and the directives are visited in order, then the
/// expressions, with all the parameters known. Nothing is returned of a
/// shader with a field or an expression that cannot be read.
pub fn extract(unit: Unit) -> (r: Result<(ShaderMetadata, Unit), ExtractError>)
    ensures
        match declared(unit.items@) {
            Err(e) => r == Err::<(ShaderMetadata, Unit), ExtractError>(e),
            Ok(sliders) => match expr_error(unit.items@, sliders) {
                Some(e) => r == Err::<(ShaderMetadata, Unit), ExtractError>(e),
                None => {
                    &&& r is Ok
                    &&& r->Ok_0.0.sliders@ == sliders
                    &&& r->Ok_0.0.still_image == asks_still_image(unit.items@)
                    &&& r->Ok_0.1.items@.len() == unit.items@.len()
                    &&& forall|i: int|
                        #![trigger r->Ok_0.1.items@[i]]
                        0 <= i < unit.items@.len() ==> is_extracted(
                            unit.items@[i],
                            r->Ok_0.1.items@[i],
                            sliders,
                        )
                },
            },
        },
{
    let ghost before = unit.items@;
    let mut work = unit;
    let mut metadata = ShaderMetadata::new();
    let mut i: usize = 0;
    while i < work.items.len()
        invariant
            i <= work.items.len(),
            before == unit.items@,
            work.items@.len() == before.len(),
            declared(before.take(i as int)) == Ok::<Seq<Slider>, ExtractError>(metadata.sliders@),
            metadata.still_image == asks_still_image(before.take(i as int)),
            forall|k: int|
                #![trigger work.items@[k]]
                0 <= k < i ==> is_declared(before[k], work.items@[k]),
            forall|k: int|
                #![trigger work.items@[k]]
                i <= k < before.len() ==> work.items@[k] == before[k],
        decreases work.items.len() - i,
    {
        proof {
            assert(before.take(i + 1).drop_last() =~= before.take(i as int));
            assert(before.take(i + 1).last() == before[i as int]);
        }
        match &mut work.items[i] {
            Item::Block(block) => {
                match metadata.visit_block(block) {
                    Err(e) => {
                        proof {
                            lemma_declared_error_stays(before, i + 1);
                        }
                        return Err(e);
                    },
                    Ok(_) => {},
                }
            },
            Item::Define(define) => {
                metadata.visit_preprocessor_define(define);
            },
            Item::Expr(_) => {},
        }
        i = i + 1;
    }
    assert(before.take(i as int) =~= before);
    let ghost sliders = metadata.sliders@;
    let ghost declared_items = work.items@;
    let mut j: usize = 0;
    while j < work.items.len()
        invariant
            j <= work.items.len(),
            before == unit.items@,
            declared(before) == Ok::<Seq<Slider>, ExtractError>(sliders),
            work.items@.len() == before.len(),
            declared_items.len() == before.len(),
            metadata.sliders@ == sliders,
            expr_error(before.take(j as int), sliders) is None,
            forall|k: int|
                #![trigger declared_items[k]]
                0 <= k < before.len() ==> is_declared(before[k], declared_items[k]),
            forall|k: int|
                #![trigger work.items@[k]]
                0 <= k < j ==> is_extracted(before[k], work.items@[k], sliders),
            forall|k: int|
                #![trigger work.items@[k]]
                j <= k < before.len() ==> work.items@[k] == declared_items[k],
        decreases work.items.len() - j,
    {
        proof {
            assert(before.take(j + 1).drop_last() =~= before.take(j as int));
            assert(before.take(j + 1).last() == before[j as int]);
            assert(is_declared(before[j as int], declared_items[j as int]));
        }
        match &mut work.items[j] {
            Item::Expr(expr) => {
                match metadata.visit_expr(expr) {
                    Err(e) => {
                        proof {
                            lemma_expr_error_stays(before, sliders, j + 1);
                        }
                        return Err(e);
                    },
                    Ok(_) => {},
                }
            },
            _ => {},
        }
        j = j + 1;
    }
    assert(before.take(j as int) =~= before);
    Ok((metadata, work))
}

/// A shader without a `params` block declares no parameter, and its
/// extraction succeeds and keeps every item as it is.
pub proof fn lemma_no_params_block(items: Seq<Item>)
    requires
        forall|i: int|
            0 <= i < items.len() && (#[trigger] items[i]) is Block ==> !is_params_block(
                items[i]->Block_0,
            ),
    ensures
        declared(items) == Ok::<Seq<Slider>, ExtractError>(Seq::empty()),
        expr_error(items, Seq::<Slider>::empty()) is None,
        forall|i: int, after: Item|
            0 <= i < items.len() ==> (#[trigger] is_extracted(
                items[i],
                after,
                Seq::<Slider>::empty(),
            ) <==> after == items[i]),
    decreases items.len(),
{
    if items.len() > 0 {
        let front = items.drop_last();
        assert forall|i: int| 0 <= i < front.len() && (#[trigger] front[i]) is Block implies
            !is_params_block(front[i]->Block_0) by {
            assert(front[i] == items[i]);
        }
        lemma_no_params_block(front);
        assert(items.last() == items[items.len() - 1]);
    }
    assert forall|i: int, after: Item| 0 <= i < items.len() implies (#[trigger] is_extracted(
        items[i],
        after,
        Seq::<Slider>::empty(),
    ) <==> after == items[i]) by {
        match items[i] {
            Item::Expr(expr) => {
                lemma_no_sliders_no_rewrite(expr);
            },
            _ => {},
        }
    }
}

/// Where a `params` block declares no parameters, the shader declares none.
pub proof fn lemma_block_error(items: Seq<Item>, i: int)
    requires
        0 <= i < items.len(),
        items[i] is Block,
        is_params_block(items[i]->Block_0),
        sliders_of_fields(items[i]->Block_0.fields@) is Err,
    ensures
        declared(items) is Err,
    decreases items.len(),
{
    if i < items.len() - 1 {
        let front = items.drop_last();
        assert(front[i] == items[i]);
        lemma_block_error(front, i);
    }
}

/// A field of a type that no parameter has, anywhere in a `params` block,
/// makes the extraction of the whole shader fail: no parameter is returned.
pub proof fn lemma_unsupported_field(items: Seq<Item>, i: int, j: int)
    requires
        0 <= i < items.len(),
        items[i] is Block,
        is_params_block(items[i]->Block_0),
        0 <= j < items[i]->Block_0.fields@.len(),
        items[i]->Block_0.fields@[j].ty == FieldType::Other,
    ensures
        declared(items) is Err,
{
    lemma_field_error(items[i]->Block_0.fields@, j);
    lemma_block_error(items, i);
}

} // verus!
