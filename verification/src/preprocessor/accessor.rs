//! The properties of parameters that a shader reads as constants, and the
//! directive that marks a still image.

use vstd::prelude::*;
use super::model::{same_text, Define, Expr, ExtractError, Visit};
use crate::shader::{ShaderMetadata, Slider};

verus! {

/// The directive asks for a shader that is drawn once:
/// `#define NUANCE_STILL_IMAGE`.
pub open spec fn marks_still_image(define: Define) -> bool {
    define.object_like && define.name@ == "NUANCE_STILL_IMAGE"@
}

/// The parameter answers to its name with constants: the numeric and the
/// vector parameters do, an unsigned one, a boolean and a color do not.
pub open spec fn answers_to(slider: Slider, variable: Seq<char>) -> bool {
    (slider is Float || slider is Vec2 || slider is Vec3) && slider.spec_name() == variable
}

/// The index of the first parameter from `from` on that answers to
/// `variable`.
pub open spec fn first_answering(sliders: Seq<Slider>, variable: Seq<char>, from: int) -> Option<
    int,
>
    decreases sliders.len() - from,
{
    if from < 0 || from >= sliders.len() {
        None
    } else if answers_to(sliders[from], variable) {
        Some(from)
    } else {
        first_answering(sliders, variable, from + 1)
    }
}

/// The constant that stands for `property` of the parameter, or the
/// expression `before` itself where the property is left to the GLSL
/// compiler. A numeric parameter has `min`, `max` and `init` and no other
/// property; a vector has `init`, the call of its constructor on the
/// components of its default.
pub open spec fn property_of(slider: Slider, property: Seq<char>, before: Expr) -> Result<
    Expr,
    ExtractError,
> {
    match slider {
        Slider::Float { min, max, default, .. } => if property == "max"@ {
            Ok(Expr::FloatConst(max))
        } else if property == "min"@ {
            Ok(Expr::FloatConst(min))
        } else if property == "init"@ {
            Ok(Expr::FloatConst(default))
        } else {
            Err(ExtractError::NoSuchProperty)
        },
        Slider::Vec2 { default, .. } => if property == "init"@ {
            Ok(Expr::Vec2Call(default))
        } else {
            Ok(before)
        },
        Slider::Vec3 { default, .. } => if property == "init"@ {
            Ok(Expr::Vec3Call(default))
        } else {
            Ok(before)
        },
        _ => Ok(before),
    }
}

/// What a visit makes of an expression, and how the traversal goes on: a
/// property of the first parameter that answers to the variable is replaced
/// by its constant and the traversal leaves the expression; any other
/// expression is kept and the traversal goes into it.
pub open spec fn expr_visited(sliders: Seq<Slider>, expr: Expr) -> Result<(Expr, Visit), ExtractError> {
    match expr {
        Expr::Dot { variable, property } => match first_answering(sliders, variable@, 0) {
            None => Ok((expr, Visit::Children)),
            Some(k) => match property_of(sliders[k], property@, expr) {
                Err(e) => Err(e),
                Ok(after) => Ok((after, Visit::Parent)),
            },
        },
        _ => Ok((expr, Visit::Children)),
    }
}

/// The first parameter that answers to a variable does answer to it, and
/// none before it does.
pub proof fn lemma_first_answering(sliders: Seq<Slider>, variable: Seq<char>, from: int)
    requires
        0 <= from,
    ensures
        match first_answering(sliders, variable, from) {
            Some(k) => from <= k < sliders.len() && answers_to(sliders[k], variable) && forall|
                j: int,
            |
                from <= j < k ==> !answers_to(#[trigger] sliders[j], variable),
            None => forall|j: int|
                from <= j < sliders.len() ==> !answers_to(#[trigger] sliders[j], variable),
        },
    decreases sliders.len() - from,
{
    if from < sliders.len() && !answers_to(sliders[from], variable) {
        lemma_first_answering(sliders, variable, from + 1);
    }
}

impl Slider {
    /// The parameter answers to `variable` with constants.
    pub fn answers(&self, variable: &str) -> (yes: bool)
        ensures
            yes == answers_to(*self, variable@),
    {
        match self {
            Slider::Float { name, .. } => same_text(name.as_str(), variable),
            Slider::Vec2 { name, .. } => same_text(name.as_str(), variable),
            Slider::Vec3 { name, .. } => same_text(name.as_str(), variable),
            _ => false,
        }
    }

    /// The constant that stands for `property` of the parameter, if one
    /// does: `None` where the expression is to be kept.
    pub fn property(&self, property: &str) -> (r: Result<Option<Expr>, ExtractError>)
        ensures
            forall|before: Expr| #[trigger]
                property_of(*self, property@, before) == match r {
                    Ok(Some(after)) => Ok::<Expr, ExtractError>(after),
                    Ok(None) => Ok(before),
                    Err(e) => Err(e),
                },
    {
        match self {
            Slider::Float { min, max, default, .. } => {
                if same_text(property, "max") {
                    Ok(Some(Expr::FloatConst(*max)))
                } else if same_text(property, "min") {
                    Ok(Some(Expr::FloatConst(*min)))
                } else if same_text(property, "init") {
                    Ok(Some(Expr::FloatConst(*default)))
                } else {
                    Err(ExtractError::NoSuchProperty)
                }
            },
            Slider::Vec2 { default, .. } => {
                if same_text(property, "init") {
                    Ok(Some(Expr::Vec2Call(*default)))
                } else {
                    Ok(None)
                }
            },
            Slider::Vec3 { default, .. } => {
                if same_text(property, "init") {
                    Ok(Some(Expr::Vec3Call(*default)))
                } else {
                    Ok(None)
                }
            },
            _ => Ok(None),
        }
    }
}

impl ShaderMetadata {
    /// Visits a `#define` directive: the one that asks for a still image
    /// sets the mark of the metadata.
    pub fn visit_preprocessor_define(&mut self, define: &Define) -> (visit: Visit)
        ensures
            visit == Visit::Parent,
            final(self).sliders == old(self).sliders,
            final(self).still_image == (old(self).still_image || marks_still_image(*define)),
    {
        if define.object_like && same_text(define.name.as_str(), "NUANCE_STILL_IMAGE") {
            self.still_image = true;
        }
        Visit::Parent
    }

    /// Visits an expression: a property of a parameter is replaced by its
    /// constant. On an error the expression is kept.
    pub fn visit_expr(&self, expr: &mut Expr) -> (r: Result<Visit, ExtractError>)
        ensures
            match expr_visited(self.sliders@, *old(expr)) {
                Ok((after, visit)) => r == Ok::<Visit, ExtractError>(visit) && *final(expr)
                    == after,
                Err(e) => r == Err::<Visit, ExtractError>(e) && *final(expr) == *old(expr),
            },
    {
        let found = match expr {
            Expr::Dot { variable, property } => {
                let mut i: usize = 0;
                let mut found: Option<Result<Option<Expr>, ExtractError>> = None;
                while i < self.sliders.len() && found.is_none()
                    invariant
                        i <= self.sliders.len(),
                        found is None ==> first_answering(self.sliders@, variable@, 0)
                            == first_answering(self.sliders@, variable@, i as int),
                        found is Some ==> first_answering(self.sliders@, variable@, 0) is Some
                            && forall|before: Expr| #[trigger]
                            property_of(
                                self.sliders@[first_answering(self.sliders@, variable@, 0)->Some_0],
                                property@,
                                before,
                            ) == match found->Some_0 {
                                Ok(Some(after)) => Ok::<Expr, ExtractError>(after),
                                Ok(None) => Ok(before),
                                Err(e) => Err(e),
                            },
                    decreases self.sliders.len() - i + (if found is None { 1int } else { 0int }),
                {
                    if self.sliders[i].answers(variable.as_str()) {
                        found = Some(self.sliders[i].property(property.as_str()));
                    } else {
                        i = i + 1;
                    }
                }
                found
            },
            _ => None,
        };
        match found {
            None => Ok(Visit::Children),
            Some(Err(e)) => Err(e),
            Some(Ok(None)) => Ok(Visit::Parent),
            Some(Ok(Some(after))) => {
                *expr = after;
                Ok(Visit::Parent)
            },
        }
    }
}

/// Without parameters no expression is rewritten.
pub proof fn lemma_no_sliders_no_rewrite(expr: Expr)
    ensures
        expr_visited(Seq::<Slider>::empty(), expr) == Ok::<(Expr, Visit), ExtractError>(
            (expr, Visit::Children),
        ),
{
}

/// The properties `min`, `max` and `init` of a numeric parameter are
/// replaced by its bounds and its default, wherever the first parameter that
/// answers to the variable is that one.
pub proof fn lemma_float_accessors(sliders: Seq<Slider>, variable: String, property: String)
    requires
        first_answering(sliders, variable@, 0) is Some,
        sliders[first_answering(sliders, variable@, 0)->Some_0] is Float,
        property@ == "min"@ || property@ == "max"@ || property@ == "init"@,
    ensures
        ({
            let slider = sliders[first_answering(sliders, variable@, 0)->Some_0];
            let constant = if property@ == "min"@ {
                slider->Float_min
            } else if property@ == "max"@ {
                slider->Float_max
            } else {
                slider->Float_default
            };
            expr_visited(sliders, Expr::Dot { variable, property }) == Ok::<
                (Expr, Visit),
                ExtractError,
            >((Expr::FloatConst(constant), Visit::Parent))
        }),
{
    reveal_strlit("min");
    reveal_strlit("max");
    reveal_strlit("init");
    assert("max"@[1] != "min"@[1]);
    assert("init"@.len() != "min"@.len());
    assert("init"@.len() != "max"@.len());
}

} // verus!
