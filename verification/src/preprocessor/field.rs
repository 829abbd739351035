//! The parameter that one field of the `params` block declares.

use vstd::prelude::*;
use super::model::{same_text, ExtractError, FieldSpec, FieldType, LayoutPair, Scalar, Value};
use crate::number::{Single, SINGLE_ONE_BITS};
use crate::shader::{Slider, Vector2, Vector3};

verus! {

/// The bounds and the start value of a numeric parameter, as read so far.
#[derive(Clone, Copy, Debug, PartialEq, Eq, Structural)]
pub struct FloatSettings {
    pub min: Single,
    pub max: Single,
    pub init: Single,
}

/// The bounds and the start value of an unsigned parameter, as read so far.
#[derive(Clone, Copy, Debug, PartialEq, Eq, Structural)]
pub struct UintSettings {
    pub min: u32,
    pub max: u32,
    pub init: u32,
}

/// The start value of a three-component parameter and whether it is a
/// color, as read so far.
#[derive(Clone, Copy, Debug, PartialEq, Eq, Structural)]
pub struct Vec3Settings {
    pub init: Vector3,
    pub color: bool,
}

/// What one entry makes of the settings of a `float` field: `min`, `max`
/// and `init` with a value set the bound or the start value, and the value
/// must be a literal; any other entry changes nothing.
pub open spec fn float_entry(before: FloatSettings, pair: LayoutPair) -> Result<
    FloatSettings,
    ExtractError,
> {
    if pair.value is Some && (pair.key@ == "min"@ || pair.key@ == "max"@ || pair.key@ == "init"@) {
        match pair.value->Some_0.scalar().as_single() {
            None => Err(ExtractError::NotConstant),
            Some(x) => Ok(
                if pair.key@ == "min"@ {
                    FloatSettings { min: x, ..before }
                } else if pair.key@ == "max"@ {
                    FloatSettings { max: x, ..before }
                } else {
                    FloatSettings { init: x, ..before }
                },
            ),
        }
    } else {
        Ok(before)
    }
}

/// The settings of a `float` field: bounds zero and one and start value
/// zero, changed by each entry in turn. The first entry that cannot be read
/// decides the error.
pub open spec fn float_settings(pairs: Seq<LayoutPair>) -> Result<FloatSettings, ExtractError>
    decreases pairs.len(),
{
    if pairs.len() == 0 {
        Ok(
            FloatSettings {
                min: Single { bits: 0 },
                max: Single { bits: SINGLE_ONE_BITS },
                init: Single { bits: 0 },
            },
        )
    } else {
        match float_settings(pairs.drop_last()) {
            Err(e) => Err(e),
            Ok(before) => float_entry(before, pairs.last()),
        }
    }
}

/// What one entry makes of the settings of a `uint` field: as for a `float`
/// field, the value read as an unsigned integer.
pub open spec fn uint_entry(before: UintSettings, pair: LayoutPair) -> Result<
    UintSettings,
    ExtractError,
> {
    if pair.value is Some && (pair.key@ == "min"@ || pair.key@ == "max"@ || pair.key@ == "init"@) {
        match pair.value->Some_0.scalar().as_uint() {
            None => Err(ExtractError::NotConstant),
            Some(x) => Ok(
                if pair.key@ == "min"@ {
                    UintSettings { min: x, ..before }
                } else if pair.key@ == "max"@ {
                    UintSettings { max: x, ..before }
                } else {
                    UintSettings { init: x, ..before }
                },
            ),
        }
    } else {
        Ok(before)
    }
}

/// The settings of a `uint` field: bounds zero and a hundred and start value
/// zero, changed by each entry in turn.
pub open spec fn uint_settings(pairs: Seq<LayoutPair>) -> Result<UintSettings, ExtractError>
    decreases pairs.len(),
{
    if pairs.len() == 0 {
        Ok(UintSettings { min: 0, max: 100, init: 0 })
    } else {
        match uint_settings(pairs.drop_last()) {
            Err(e) => Err(e),
            Ok(before) => uint_entry(before, pairs.last()),
        }
    }
}

/// What one entry makes of the start value of a `bool` field: `init` with a
/// boolean literal sets it, to one for `true` and to zero for `false`.
pub open spec fn bool_entry(before: u32, pair: LayoutPair) -> u32 {
    if pair.key@ == "init"@ && pair.value is Some && pair.value->Some_0.scalar() is Bool {
        if pair.value->Some_0.scalar()->Bool_0 {
            1
        } else {
            0
        }
    } else {
        before
    }
}

/// The start value of a `bool` field: zero, changed by each entry in turn.
pub open spec fn bool_settings(pairs: Seq<LayoutPair>) -> u32
    decreases pairs.len(),
{
    if pairs.len() == 0 {
        0
    } else {
        bool_entry(bool_settings(pairs.drop_last()), pairs.last())
    }
}

/// The value is a call of the constructor of `ty` with `count` arguments.
pub open spec fn constructs(value: Option<Value>, ty: FieldType, count: nat) -> bool {
    value is Some && value->Some_0 is Constructor && value->Some_0->ty == ty
        && value->Some_0->args@.len() == count
}

/// What one entry makes of the start value of a `vec2` field: `init` with a
/// call of `vec2` on two literals sets it.
pub open spec fn vec2_entry(before: Vector2, pair: LayoutPair) -> Result<Vector2, ExtractError> {
    if pair.key@ == "init"@ && constructs(pair.value, FieldType::Vec2, 2) {
        let args = pair.value->Some_0->args@;
        match (args[0].as_single(), args[1].as_single()) {
            (Some(x), Some(y)) => Ok(Vector2 { x, y }),
            _ => Err(ExtractError::NotConstant),
        }
    } else {
        Ok(before)
    }
}

/// The start value of a `vec2` field: the zero vector, changed by each entry
/// in turn.
pub open spec fn vec2_settings(pairs: Seq<LayoutPair>) -> Result<Vector2, ExtractError>
    decreases pairs.len(),
{
    if pairs.len() == 0 {
        Ok(Vector2 { x: Single { bits: 0 }, y: Single { bits: 0 } })
    } else {
        match vec2_settings(pairs.drop_last()) {
            Err(e) => Err(e),
            Ok(before) => vec2_entry(before, pairs.last()),
        }
    }
}

/// What one entry makes of the settings of a `vec3` field: `color`, with a
/// value or without, makes it a color; `init` with a call of `vec3` on three
/// literals sets the start value.
pub open spec fn vec3_entry(before: Vec3Settings, pair: LayoutPair) -> Result<
    Vec3Settings,
    ExtractError,
> {
    if pair.key@ == "color"@ {
        Ok(Vec3Settings { color: true, ..before })
    } else if pair.key@ == "init"@ && constructs(pair.value, FieldType::Vec3, 3) {
        let args = pair.value->Some_0->args@;
        match (args[0].as_single(), args[1].as_single(), args[2].as_single()) {
            (Some(x), Some(y), Some(z)) => Ok(Vec3Settings { init: Vector3 { x, y, z }, ..before }),
            _ => Err(ExtractError::NotConstant),
        }
    } else {
        Ok(before)
    }
}

/// The settings of a `vec3` field: the zero vector and no color, changed by
/// each entry in turn.
pub open spec fn vec3_settings(pairs: Seq<LayoutPair>) -> Result<Vec3Settings, ExtractError>
    decreases pairs.len(),
{
    if pairs.len() == 0 {
        Ok(
            Vec3Settings {
                init: Vector3 { x: Single { bits: 0 }, y: Single { bits: 0 }, z: Single { bits: 0 } },
                color: false,
            },
        )
    } else {
        match vec3_settings(pairs.drop_last()) {
            Err(e) => Err(e),
            Ok(before) => vec3_entry(before, pairs.last()),
        }
    }
}

/// The parameter that a field of the `params` block declares: its kind
/// follows the type of the field, its settings the layout qualifiers, and it
/// starts at its default. A field of another type declares none.
pub open spec fn slider_of_field(field: FieldSpec) -> Result<Slider, ExtractError> {
    match field.ty {
        FieldType::Float => match float_settings(field.qualifiers@) {
            Err(e) => Err(e),
            Ok(s) => Ok(
                Slider::Float {
                    name: field.name,
                    min: s.min,
                    max: s.max,
                    value: s.init,
                    default: s.init,
                },
            ),
        },
        FieldType::UInt => match uint_settings(field.qualifiers@) {
            Err(e) => Err(e),
            Ok(s) => Ok(
                Slider::Uint {
                    name: field.name,
                    value: s.init,
                    min: s.min,
                    max: s.max,
                    default: s.init,
                },
            ),
        },
        FieldType::Bool => Ok(
            Slider::Bool {
                name: field.name,
                value: bool_settings(field.qualifiers@),
                default: bool_settings(field.qualifiers@),
            },
        ),
        FieldType::Vec2 => match vec2_settings(field.qualifiers@) {
            Err(e) => Err(e),
            Ok(init) => Ok(Slider::Vec2 { name: field.name, value: init, default: init }),
        },
        FieldType::Vec3 => match vec3_settings(field.qualifiers@) {
            Err(e) => Err(e),
            Ok(s) => Ok(
                if s.color {
                    Slider::Color { name: field.name, value: s.init, default: s.init }
                } else {
                    Slider::Vec3 { name: field.name, value: s.init, default: s.init }
                },
            ),
        },
        FieldType::Other => Err(ExtractError::UnsupportedType),
    }
}

/// Applies one entry to the settings of a `float` field.
pub fn apply_float_entry(before: FloatSettings, pair: &LayoutPair) -> (r: Result<
    FloatSettings,
    ExtractError,
>)
    ensures
        r == float_entry(before, *pair),
{
    match &pair.value {
        None => Ok(before),
        Some(value) => {
            let is_min = same_text(pair.key.as_str(), "min");
            let is_max = same_text(pair.key.as_str(), "max");
            let is_init = same_text(pair.key.as_str(), "init");
            if is_min || is_max || is_init {
                match value.to_scalar().coerce_single() {
                    Err(e) => Err(e),
                    Ok(x) => Ok(
                        if is_min {
                            FloatSettings { min: x, ..before }
                        } else if is_max {
                            FloatSettings { max: x, ..before }
                        } else {
                            FloatSettings { init: x, ..before }
                        },
                    ),
                }
            } else {
                Ok(before)
            }
        },
    }
}

/// Applies one entry to the settings of a `uint` field.
pub fn apply_uint_entry(before: UintSettings, pair: &LayoutPair) -> (r: Result<
    UintSettings,
    ExtractError,
>)
    ensures
        r == uint_entry(before, *pair),
{
    match &pair.value {
        None => Ok(before),
        Some(value) => {
            let is_min = same_text(pair.key.as_str(), "min");
            let is_max = same_text(pair.key.as_str(), "max");
            let is_init = same_text(pair.key.as_str(), "init");
            if is_min || is_max || is_init {
                match value.to_scalar().coerce_uint() {
                    Err(e) => Err(e),
                    Ok(x) => Ok(
                        if is_min {
                            UintSettings { min: x, ..before }
                        } else if is_max {
                            UintSettings { max: x, ..before }
                        } else {
                            UintSettings { init: x, ..before }
                        },
                    ),
                }
            } else {
                Ok(before)
            }
        },
    }
}

/// Applies one entry to the start value of a `bool` field.
pub fn apply_bool_entry(before: u32, pair: &LayoutPair) -> (r: u32)
    ensures
        r == bool_entry(before, *pair),
{
    if same_text(pair.key.as_str(), "init") {
        match &pair.value {
            Some(Value::Scalar(Scalar::Bool(b))) => if *b {
                1
            } else {
                0
            },
            _ => before,
        }
    } else {
        before
    }
}

/// Applies one entry to the start value of a `vec2` field.
pub fn apply_vec2_entry(before: Vector2, pair: &LayoutPair) -> (r: Result<Vector2, ExtractError>)
    ensures
        r == vec2_entry(before, *pair),
{
    if same_text(pair.key.as_str(), "init") {
        match &pair.value {
            Some(Value::Constructor { ty: FieldType::Vec2, args }) => {
                if args.len() == 2 {
                    match (args[0].coerce_single(), args[1].coerce_single()) {
                        (Ok(x), Ok(y)) => Ok(Vector2 { x, y }),
                        _ => Err(ExtractError::NotConstant),
                    }
                } else {
                    Ok(before)
                }
            },
            _ => Ok(before),
        }
    } else {
        Ok(before)
    }
}

/// Applies one entry to the settings of a `vec3` field.
pub fn apply_vec3_entry(before: Vec3Settings, pair: &LayoutPair) -> (r: Result<
    Vec3Settings,
    ExtractError,
>)
    ensures
        r == vec3_entry(before, *pair),
{
    if same_text(pair.key.as_str(), "color") {
        Ok(Vec3Settings { color: true, ..before })
    } else if same_text(pair.key.as_str(), "init") {
        match &pair.value {
            Some(Value::Constructor { ty: FieldType::Vec3, args }) => {
                if args.len() == 3 {
                    match (
                        args[0].coerce_single(),
                        args[1].coerce_single(),
                        args[2].coerce_single(),
                    ) {
                        (Ok(x), Ok(y), Ok(z)) => Ok(
                            Vec3Settings { init: Vector3 { x, y, z }, ..before },
                        ),
                        _ => Err(ExtractError::NotConstant),
                    }
                } else {
                    Ok(before)
                }
            },
            _ => Ok(before),
        }
    } else {
        Ok(before)
    }
}

/// Reads the settings of a `float` field from its entries.
pub fn read_float_settings(pairs: &Vec<LayoutPair>) -> (r: Result<FloatSettings, ExtractError>)
    ensures
        r == float_settings(pairs@),
{
    let mut settings = FloatSettings { min: Single::zero(), max: Single::one(), init: Single::zero() };
    let mut i: usize = 0;
    while i < pairs.len()
        invariant
            i <= pairs.len(),
            float_settings(pairs@.take(i as int)) == Ok::<FloatSettings, ExtractError>(settings),
        decreases pairs.len() - i,
    {
        proof {
            assert(pairs@.take(i + 1).drop_last() =~= pairs@.take(i as int));
            assert(pairs@.take(i + 1).last() == pairs@[i as int]);
            assert(float_settings(pairs@.take(i + 1)) == float_entry(settings, pairs@[i as int]));
        }
        match apply_float_entry(settings, &pairs[i]) {
            Err(e) => {
                proof {
                    lemma_float_error_stays(pairs@, i + 1);
                }
                return Err(e);
            },
            Ok(next) => {
                settings = next;
            },
        }
        i = i + 1;
    }
    assert(pairs@.take(i as int) =~= pairs@);
    Ok(settings)
}

/// Reads the settings of a `uint` field from its entries.
pub fn read_uint_settings(pairs: &Vec<LayoutPair>) -> (r: Result<UintSettings, ExtractError>)
    ensures
        r == uint_settings(pairs@),
{
    let mut settings = UintSettings { min: 0, max: 100, init: 0 };
    let mut i: usize = 0;
    while i < pairs.len()
        invariant
            i <= pairs.len(),
            uint_settings(pairs@.take(i as int)) == Ok::<UintSettings, ExtractError>(settings),
        decreases pairs.len() - i,
    {
        proof {
            assert(pairs@.take(i + 1).drop_last() =~= pairs@.take(i as int));
            assert(pairs@.take(i + 1).last() == pairs@[i as int]);
            assert(uint_settings(pairs@.take(i + 1)) == uint_entry(settings, pairs@[i as int]));
        }
        match apply_uint_entry(settings, &pairs[i]) {
            Err(e) => {
                proof {
                    lemma_uint_error_stays(pairs@, i + 1);
                }
                return Err(e);
            },
            Ok(next) => {
                settings = next;
            },
        }
        i = i + 1;
    }
    assert(pairs@.take(i as int) =~= pairs@);
    Ok(settings)
}

/// Reads the start value of a `bool` field from its entries.
pub fn read_bool_settings(pairs: &Vec<LayoutPair>) -> (init: u32)
    ensures
        init == bool_settings(pairs@),
{
    let mut init: u32 = 0;
    let mut i: usize = 0;
    while i < pairs.len()
        invariant
            i <= pairs.len(),
            bool_settings(pairs@.take(i as int)) == init,
        decreases pairs.len() - i,
    {
        proof {
            assert(pairs@.take(i + 1).drop_last() =~= pairs@.take(i as int));
            assert(pairs@.take(i + 1).last() == pairs@[i as int]);
        }
        init = apply_bool_entry(init, &pairs[i]);
        i = i + 1;
    }
    assert(pairs@.take(i as int) =~= pairs@);
    init
}

/// Reads the start value of a `vec2` field from its entries.
pub fn read_vec2_settings(pairs: &Vec<LayoutPair>) -> (r: Result<Vector2, ExtractError>)
    ensures
        r == vec2_settings(pairs@),
{
    let mut settings = Vector2::zero();
    let mut i: usize = 0;
    while i < pairs.len()
        invariant
            i <= pairs.len(),
            vec2_settings(pairs@.take(i as int)) == Ok::<Vector2, ExtractError>(settings),
        decreases pairs.len() - i,
    {
        proof {
            assert(pairs@.take(i + 1).drop_last() =~= pairs@.take(i as int));
            assert(pairs@.take(i + 1).last() == pairs@[i as int]);
            assert(vec2_settings(pairs@.take(i + 1)) == vec2_entry(settings, pairs@[i as int]));
        }
        match apply_vec2_entry(settings, &pairs[i]) {
            Err(e) => {
                proof {
                    lemma_vec2_error_stays(pairs@, i + 1);
                }
                return Err(e);
            },
            Ok(next) => {
                settings = next;
            },
        }
        i = i + 1;
    }
    assert(pairs@.take(i as int) =~= pairs@);
    Ok(settings)
}

/// Reads the settings of a `vec3` field from its entries.
pub fn read_vec3_settings(pairs: &Vec<LayoutPair>) -> (r: Result<Vec3Settings, ExtractError>)
    ensures
        r == vec3_settings(pairs@),
{
    let mut settings = Vec3Settings { init: Vector3::zero(), color: false };
    let mut i: usize = 0;
    while i < pairs.len()
        invariant
            i <= pairs.len(),
            vec3_settings(pairs@.take(i as int)) == Ok::<Vec3Settings, ExtractError>(settings),
        decreases pairs.len() - i,
    {
        proof {
            assert(pairs@.take(i + 1).drop_last() =~= pairs@.take(i as int));
            assert(pairs@.take(i + 1).last() == pairs@[i as int]);
            assert(vec3_settings(pairs@.take(i + 1)) == vec3_entry(settings, pairs@[i as int]));
        }
        match apply_vec3_entry(settings, &pairs[i]) {
            Err(e) => {
                proof {
                    lemma_vec3_error_stays(pairs@, i + 1);
                }
                return Err(e);
            },
            Ok(next) => {
                settings = next;
            },
        }
        i = i + 1;
    }
    assert(pairs@.take(i as int) =~= pairs@);
    Ok(settings)
}

/// Reads the parameter that a field of the `params` block declares.
pub fn create_slider_from_field(field: &FieldSpec) -> (r: Result<Slider, ExtractError>)
    ensures
        r == slider_of_field(*field),
        r is Ok ==> r->Ok_0.at_default() && r->Ok_0.spec_name() == field.name@,
{
    match field.ty {
        FieldType::Float => match read_float_settings(&field.qualifiers) {
            Err(e) => Err(e),
            Ok(s) => Ok(
                Slider::Float {
                    name: field.name.clone(),
                    min: s.min,
                    max: s.max,
                    value: s.init,
                    default: s.init,
                },
            ),
        },
        FieldType::UInt => match read_uint_settings(&field.qualifiers) {
            Err(e) => Err(e),
            Ok(s) => Ok(
                Slider::Uint {
                    name: field.name.clone(),
                    value: s.init,
                    min: s.min,
                    max: s.max,
                    default: s.init,
                },
            ),
        },
        FieldType::Bool => {
            let init = read_bool_settings(&field.qualifiers);
            Ok(Slider::Bool { name: field.name.clone(), value: init, default: init })
        },
        FieldType::Vec2 => match read_vec2_settings(&field.qualifiers) {
            Err(e) => Err(e),
            Ok(init) => Ok(Slider::Vec2 { name: field.name.clone(), value: init, default: init }),
        },
        FieldType::Vec3 => match read_vec3_settings(&field.qualifiers) {
            Err(e) => Err(e),
            Ok(s) => if s.color {
                Ok(Slider::Color { name: field.name.clone(), value: s.init, default: s.init })
            } else {
                Ok(Slider::Vec3 { name: field.name.clone(), value: s.init, default: s.init })
            },
        },
        FieldType::Other => Err(ExtractError::UnsupportedType),
    }
}

/// An error among the first entries of a `float` field is the error of the
/// whole list.
proof fn lemma_float_error_stays(pairs: Seq<LayoutPair>, n: int)
    requires
        0 <= n <= pairs.len(),
        float_settings(pairs.take(n)) is Err,
    ensures
        float_settings(pairs) == float_settings(pairs.take(n)),
    decreases pairs.len(),
{
    if n == pairs.len() {
        assert(pairs.take(n) =~= pairs);
    } else {
        assert(pairs.drop_last().take(n) =~= pairs.take(n));
        lemma_float_error_stays(pairs.drop_last(), n);
    }
}

/// An error among the first entries of a `uint` field is the error of the
/// whole list.
proof fn lemma_uint_error_stays(pairs: Seq<LayoutPair>, n: int)
    requires
        0 <= n <= pairs.len(),
        uint_settings(pairs.take(n)) is Err,
    ensures
        uint_settings(pairs) == uint_settings(pairs.take(n)),
    decreases pairs.len(),
{
    if n == pairs.len() {
        assert(pairs.take(n) =~= pairs);
    } else {
        assert(pairs.drop_last().take(n) =~= pairs.take(n));
        lemma_uint_error_stays(pairs.drop_last(), n);
    }
}

/// An error among the first entries of a `vec2` field is the error of the
/// whole list.
proof fn lemma_vec2_error_stays(pairs: Seq<LayoutPair>, n: int)
    requires
        0 <= n <= pairs.len(),
        vec2_settings(pairs.take(n)) is Err,
    ensures
        vec2_settings(pairs) == vec2_settings(pairs.take(n)),
    decreases pairs.len(),
{
    if n == pairs.len() {
        assert(pairs.take(n) =~= pairs);
    } else {
        assert(pairs.drop_last().take(n) =~= pairs.take(n));
        lemma_vec2_error_stays(pairs.drop_last(), n);
    }
}

/// An error among the first entries of a `vec3` field is the error of the
/// whole list.
proof fn lemma_vec3_error_stays(pairs: Seq<LayoutPair>, n: int)
    requires
        0 <= n <= pairs.len(),
        vec3_settings(pairs.take(n)) is Err,
    ensures
        vec3_settings(pairs) == vec3_settings(pairs.take(n)),
    decreases pairs.len(),
{
    if n == pairs.len() {
        assert(pairs.take(n) =~= pairs);
    } else {
        assert(pairs.drop_last().take(n) =~= pairs.take(n));
        lemma_vec3_error_stays(pairs.drop_last(), n);
    }
}

/// The entry sets one of the numeric settings: it is `min`, `max` or `init`
/// with a value.
pub open spec fn is_numeric_setting(pair: LayoutPair) -> bool {
    pair.value is Some && (pair.key@ == "min"@ || pair.key@ == "max"@ || pair.key@ == "init"@)
}

/// The index of the last entry that gives `key` a value, if there is one.
pub open spec fn last_setting(pairs: Seq<LayoutPair>, key: Seq<char>) -> Option<int>
    decreases pairs.len(),
{
    if pairs.len() == 0 {
        None
    } else if pairs.last().value is Some && pairs.last().key@ == key {
        Some(pairs.len() - 1)
    } else {
        last_setting(pairs.drop_last(), key)
    }
}

/// The value that the last entry for `key` gives, read as a number, or
/// `otherwise` where no entry gives one.
pub open spec fn last_single(pairs: Seq<LayoutPair>, key: Seq<char>, otherwise: Single) -> Single {
    match last_setting(pairs, key) {
        Some(i) => pairs[i].value->Some_0.scalar().as_single()->Some_0,
        None => otherwise,
    }
}

/// The last entry that gives `key` a value is an entry of the list, and no
/// later entry gives the key a value.
pub proof fn lemma_last_setting(pairs: Seq<LayoutPair>, key: Seq<char>)
    ensures
        match last_setting(pairs, key) {
            Some(i) => 0 <= i < pairs.len() && pairs[i].value is Some && pairs[i].key@ == key
                && forall|j: int|
                i < j < pairs.len() ==> !((#[trigger] pairs[j]).value is Some && pairs[j].key@
                    == key),
            None => forall|j: int|
                0 <= j < pairs.len() ==> !((#[trigger] pairs[j]).value is Some && pairs[j].key@
                    == key),
        },
    decreases pairs.len(),
{
    if pairs.len() > 0 {
        let front = pairs.drop_last();
        lemma_last_setting(front, key);
        assert forall|j: int| 0 <= j < front.len() implies front[j] == pairs[j] by {}
    }
}

/// The last value for a key is that of the last entry where this entry
/// gives one, and the last value among the entries before it otherwise.
proof fn lemma_last_single_step(pairs: Seq<LayoutPair>, key: Seq<char>, otherwise: Single)
    requires
        pairs.len() > 0,
    ensures
        last_single(pairs, key, otherwise) == (if pairs.last().value is Some && pairs.last().key@
            == key {
            pairs.last().value->Some_0.scalar().as_single()->Some_0
        } else {
            last_single(pairs.drop_last(), key, otherwise)
        }),
{
    let front = pairs.drop_last();
    lemma_last_setting(front, key);
    if !(pairs.last().value is Some && pairs.last().key@ == key) {
        if last_setting(front, key) is Some {
            let i = last_setting(front, key)->Some_0;
            assert(front[i] == pairs[i]);
        }
    }
}

/// The settings of a `float` field can be read exactly when every entry that
/// sets one of them holds a literal. Each setting then has the value of the
/// last entry that sets it, in whatever order the entries come, and the
/// value it has by default where none does.
pub proof fn lemma_float_settings(pairs: Seq<LayoutPair>)
    ensures
        float_settings(pairs) is Ok <==> forall|i: int|
            0 <= i < pairs.len() && is_numeric_setting(#[trigger] pairs[i])
                ==> pairs[i].value->Some_0.scalar().as_single() is Some,
        float_settings(pairs) is Err ==> float_settings(pairs)->Err_0 == ExtractError::NotConstant,
        float_settings(pairs) is Ok ==> float_settings(pairs)->Ok_0 == (FloatSettings {
            min: last_single(pairs, "min"@, Single { bits: 0 }),
            max: last_single(pairs, "max"@, Single { bits: SINGLE_ONE_BITS }),
            init: last_single(pairs, "init"@, Single { bits: 0 }),
        }),
    decreases pairs.len(),
{
    reveal_strlit("min");
    reveal_strlit("max");
    reveal_strlit("init");
    assert("max"@[1] != "min"@[1]);
    assert("init"@.len() != "min"@.len());
    assert("init"@.len() != "max"@.len());
    if pairs.len() > 0 {
        let front = pairs.drop_last();
        lemma_float_settings(front);
        lemma_last_single_step(pairs, "min"@, Single { bits: 0 });
        lemma_last_single_step(pairs, "max"@, Single { bits: SINGLE_ONE_BITS });
        lemma_last_single_step(pairs, "init"@, Single { bits: 0 });
        assert(pairs.last() == pairs[pairs.len() - 1]);
        assert forall|i: int| 0 <= i < front.len() implies front[i] == pairs[i] by {}
        if float_settings(pairs) is Ok {
            assert forall|i: int|
                0 <= i < pairs.len() && is_numeric_setting(#[trigger] pairs[i])
                    implies pairs[i].value->Some_0.scalar().as_single() is Some by {
                if i < front.len() {
                    assert(front[i] == pairs[i]);
                }
            }
        } else if float_settings(front) is Err {
            let i = choose|i: int|
                0 <= i < front.len() && is_numeric_setting(#[trigger] front[i])
                    && !(front[i].value->Some_0.scalar().as_single() is Some);
            assert(pairs[i] == front[i]);
        }
    }
}

/// A `float` field declared with `min`, `max` and `init`, in this order and
/// each a literal, gives the numeric parameter with these bounds that starts
/// at `init` and has it as its default.
pub proof fn lemma_float_field(field: FieldSpec, min: Scalar, max: Scalar, init: Scalar)
    requires
        field.ty == FieldType::Float,
        field.qualifiers@.len() == 3,
        field.qualifiers@[0].key@ == "min"@,
        field.qualifiers@[0].value == Some(Value::Scalar(min)),
        field.qualifiers@[1].key@ == "max"@,
        field.qualifiers@[1].value == Some(Value::Scalar(max)),
        field.qualifiers@[2].key@ == "init"@,
        field.qualifiers@[2].value == Some(Value::Scalar(init)),
        min.as_single() is Some,
        max.as_single() is Some,
        init.as_single() is Some,
    ensures
        slider_of_field(field) == Ok::<Slider, ExtractError>(
            Slider::Float {
                name: field.name,
                min: min.as_single()->Some_0,
                max: max.as_single()->Some_0,
                value: init.as_single()->Some_0,
                default: init.as_single()->Some_0,
            },
        ),
{
    reveal_strlit("min");
    reveal_strlit("max");
    reveal_strlit("init");
    let pairs = field.qualifiers@;
    let two = pairs.drop_last();
    let one = two.drop_last();
    assert(one.drop_last() =~= Seq::<LayoutPair>::empty());
    assert(one.last() == pairs[0]);
    assert(two.last() == pairs[1]);
    assert(pairs.last() == pairs[2]);
    assert("max"@[1] != "min"@[1]);
    assert("init"@.len() != "min"@.len());
    assert("init"@.len() != "max"@.len());
    assert(float_settings(one.drop_last()) is Ok);
    assert(float_settings(one) is Ok);
    assert(float_settings(two) is Ok);
}

/// Every parameter that a field declares starts at its default and has the
/// name of the field.
pub proof fn lemma_slider_starts_at_default(field: FieldSpec)
    requires
        slider_of_field(field) is Ok,
    ensures
        slider_of_field(field)->Ok_0.at_default(),
        slider_of_field(field)->Ok_0.spec_name() == field.name@,
{
}

/// The settings of a `vec3` field make it a color exactly when one of its
/// entries is `color`.
proof fn lemma_vec3_color_entries(pairs: Seq<LayoutPair>)
    requires
        vec3_settings(pairs) is Ok,
    ensures
        vec3_settings(pairs)->Ok_0.color <==> exists|i: int|
            0 <= i < pairs.len() && (#[trigger] pairs[i]).key@ == "color"@,
    decreases pairs.len(),
{
    if pairs.len() > 0 {
        let front = pairs.drop_last();
        lemma_vec3_color_entries(front);
        if vec3_settings(pairs)->Ok_0.color {
            if pairs.last().key@ == "color"@ {
                assert(pairs[pairs.len() - 1].key@ == "color"@);
            } else {
                let i = choose|i: int| 0 <= i < front.len() && (#[trigger] front[i]).key@ == "color"@;
                assert(pairs[i] == front[i]);
            }
        } else {
            assert forall|i: int| 0 <= i < pairs.len() implies (#[trigger] pairs[i]).key@
                != "color"@ by {
                if i < front.len() {
                    assert(front[i] == pairs[i]);
                }
            }
        }
    }
}

/// A `vec3` field with a `color` qualifier declares a color, and one
/// without declares a vector.
pub proof fn lemma_vec3_color(field: FieldSpec)
    requires
        field.ty == FieldType::Vec3,
        slider_of_field(field) is Ok,
    ensures
        slider_of_field(field)->Ok_0 is Color || slider_of_field(field)->Ok_0 is Vec3,
        slider_of_field(field)->Ok_0 is Color <==> exists|i: int|
            0 <= i < field.qualifiers@.len() && (#[trigger] field.qualifiers@[i]).key@ == "color"@,
{
    lemma_vec3_color_entries(field.qualifiers@);
}

} // verus!
