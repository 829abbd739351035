use nuance::number::{Double, Single};
use nuance::preprocessor::{
    convert_field, convert_params_block, create_slider_from_field, create_sliders_from_fields,
    extract, params_layout, Block, Define, Expr, ExtractError, FieldSpec, FieldType, Item,
    LayoutPair, Scalar, Unit, Value, Visit,
};
use nuance::shader::{ShaderMetadata, Slider, Vector2, Vector3};

fn single(x: f32) -> Single {
    Single { bits: x.to_bits() }
}

fn vec2(x: f32, y: f32) -> Vector2 {
    Vector2 { x: single(x), y: single(y) }
}

fn vec3(x: f32, y: f32, z: f32) -> Vector3 {
    Vector3 { x: single(x), y: single(y), z: single(z) }
}

fn flag(key: &str) -> LayoutPair {
    LayoutPair { key: key.to_string(), value: None }
}

fn pair(key: &str, value: Scalar) -> LayoutPair {
    LayoutPair { key: key.to_string(), value: Some(Value::Scalar(value)) }
}

fn call(key: &str, ty: FieldType, args: Vec<Scalar>) -> LayoutPair {
    LayoutPair { key: key.to_string(), value: Some(Value::Constructor { ty, args }) }
}

fn field(name: &str, ty: FieldType, qualifiers: Vec<LayoutPair>) -> FieldSpec {
    FieldSpec { name: name.to_string(), ty, qualifiers }
}

fn float(x: f32) -> Scalar {
    Scalar::Float(single(x))
}

fn params_block(fields: Vec<FieldSpec>) -> Block {
    Block { layout: Some(vec![flag("params")]), fields }
}

fn dot(variable: &str, property: &str) -> Item {
    Item::Expr(Expr::Dot { variable: variable.to_string(), property: property.to_string() })
}

fn is_dot(item: &Item, variable: &str, property: &str) -> bool {
    matches!(item, Item::Expr(Expr::Dot { variable: v, property: p }) if v == variable && p == property)
}

fn is_float_const(item: &Item, x: f32) -> bool {
    matches!(item, Item::Expr(Expr::FloatConst(c)) if *c == single(x))
}

fn assert_params_layout(layout: &[LayoutPair]) {
    assert_eq!(layout.len(), 3);
    assert_eq!(layout[0].key, "std140");
    assert!(layout[0].value.is_none());
    assert_eq!(layout[1].key, "set");
    assert!(matches!(layout[1].value, Some(Value::Scalar(Scalar::Int(1)))));
    assert_eq!(layout[2].key, "binding");
    assert!(matches!(layout[2].value, Some(Value::Scalar(Scalar::Int(0)))));
}

#[test]
fn a_float_field_has_bounds_zero_and_one_by_default() {
    let slider = create_slider_from_field(&field("speed", FieldType::Float, Vec::new())).unwrap();
    match slider {
        Slider::Float { name, min, max, value, default } => {
            assert_eq!(name, "speed");
            assert_eq!(min, single(0.0));
            assert_eq!(max, single(1.0));
            assert_eq!(value, single(0.0));
            assert_eq!(default, single(0.0));
        }
        other => panic!("{:?}", other),
    }
}

#[test]
fn a_float_field_takes_min_max_and_init() {
    let qualifiers = vec![
        pair("min", Scalar::Int(0)),
        pair("max", Scalar::Int(10)),
        pair("init", Scalar::Int(5)),
    ];
    let slider = create_slider_from_field(&field("speed", FieldType::Float, qualifiers)).unwrap();
    match slider {
        Slider::Float { name, min, max, value, default } => {
            assert_eq!(name, "speed");
            assert_eq!(f32::from_bits(min.bits), 0.0);
            assert_eq!(f32::from_bits(max.bits), 10.0);
            assert_eq!(f32::from_bits(value.bits), 5.0);
            assert_eq!(f32::from_bits(default.bits), 5.0);
        }
        other => panic!("{:?}", other),
    }
}

#[test]
fn a_float_field_reads_every_kind_of_literal() {
    let qualifiers = vec![
        pair("min", Scalar::Double(Double { bits: (-2.5f64).to_bits() })),
        pair("max", Scalar::UInt(3_000_000_000)),
        pair("init", Scalar::Bool(true)),
    ];
    let slider = create_slider_from_field(&field("x", FieldType::Float, qualifiers)).unwrap();
    match slider {
        Slider::Float { min, max, value, default, .. } => {
            assert_eq!(f32::from_bits(min.bits), -2.5);
            assert_eq!(f32::from_bits(max.bits), 3_000_000_000u32 as f32);
            assert_eq!(f32::from_bits(value.bits), 1.0);
            assert_eq!(default, value);
        }
        other => panic!("{:?}", other),
    }
}

#[test]
fn the_last_of_two_settings_wins_and_unknown_ones_are_passed_over() {
    let qualifiers = vec![
        pair("init", float(0.25)),
        pair("step", float(9.0)),
        flag("min"),
        pair("init", float(0.75)),
    ];
    let slider = create_slider_from_field(&field("x", FieldType::Float, qualifiers)).unwrap();
    match slider {
        Slider::Float { min, max, value, default, .. } => {
            assert_eq!(min, single(0.0));
            assert_eq!(max, single(1.0));
            assert_eq!(value, single(0.75));
            assert_eq!(default, single(0.75));
        }
        other => panic!("{:?}", other),
    }
}

#[test]
fn a_setting_that_is_no_constant_is_an_error() {
    let broken = field("x", FieldType::Float, vec![pair("max", Scalar::NotConstant)]);
    assert_eq!(create_slider_from_field(&broken).unwrap_err(), ExtractError::NotConstant);
    let call_as_bound =
        field("x", FieldType::Float, vec![call("min", FieldType::Vec2, vec![float(1.0), float(2.0)])]);
    assert_eq!(create_slider_from_field(&call_as_bound).unwrap_err(), ExtractError::NotConstant);
    let uint = field("n", FieldType::UInt, vec![pair("init", Scalar::NotConstant)]);
    assert_eq!(create_slider_from_field(&uint).unwrap_err(), ExtractError::NotConstant);
    let vector = field(
        "v",
        FieldType::Vec2,
        vec![call("init", FieldType::Vec2, vec![float(1.0), Scalar::NotConstant])],
    );
    assert_eq!(create_slider_from_field(&vector).unwrap_err(), ExtractError::NotConstant);
    let vector3 = field(
        "v",
        FieldType::Vec3,
        vec![call("init", FieldType::Vec3, vec![Scalar::NotConstant, float(1.0), float(1.0)])],
    );
    assert_eq!(create_slider_from_field(&vector3).unwrap_err(), ExtractError::NotConstant);
}

#[test]
fn a_uint_field_has_bounds_zero_and_a_hundred_by_default() {
    let slider = create_slider_from_field(&field("n", FieldType::UInt, Vec::new())).unwrap();
    assert!(matches!(slider, Slider::Uint { value: 0, min: 0, max: 100, default: 0, .. }));
    let qualifiers = vec![
        pair("min", Scalar::UInt(2)),
        pair("max", float(7.9)),
        pair("init", Scalar::Int(-1)),
    ];
    let slider = create_slider_from_field(&field("n", FieldType::UInt, qualifiers)).unwrap();
    match slider {
        Slider::Uint { name, value, min, max, default } => {
            assert_eq!(name, "n");
            assert_eq!(min, 2);
            assert_eq!(max, 7);
            assert_eq!(value, u32::MAX);
            assert_eq!(default, u32::MAX);
        }
        other => panic!("{:?}", other),
    }
}

#[test]
fn a_bool_field_honors_a_boolean_init_only() {
    let slider = create_slider_from_field(&field("on", FieldType::Bool, Vec::new())).unwrap();
    assert!(matches!(slider, Slider::Bool { value: 0, default: 0, .. }));
    let on = field("on", FieldType::Bool, vec![pair("init", Scalar::Bool(true))]);
    assert!(matches!(create_slider_from_field(&on).unwrap(), Slider::Bool { value: 1, default: 1, .. }));
    let off = field(
        "on",
        FieldType::Bool,
        vec![pair("init", Scalar::Bool(true)), pair("init", Scalar::Bool(false))],
    );
    assert!(matches!(create_slider_from_field(&off).unwrap(), Slider::Bool { value: 0, default: 0, .. }));
    let number = field(
        "on",
        FieldType::Bool,
        vec![pair("init", Scalar::Int(1)), pair("min", Scalar::Bool(true)), pair("init", Scalar::NotConstant)],
    );
    assert!(matches!(create_slider_from_field(&number).unwrap(), Slider::Bool { value: 0, default: 0, .. }));
}

#[test]
fn a_vec2_field_honors_a_constructor_of_two_constants() {
    let plain = create_slider_from_field(&field("p", FieldType::Vec2, Vec::new())).unwrap();
    assert!(matches!(plain, Slider::Vec2 { value, default, .. } if value == vec2(0.0, 0.0) && default == value));
    let init = field("p", FieldType::Vec2, vec![call("init", FieldType::Vec2, vec![float(1.5), Scalar::Int(2)])]);
    match create_slider_from_field(&init).unwrap() {
        Slider::Vec2 { name, value, default } => {
            assert_eq!(name, "p");
            assert_eq!(value, vec2(1.5, 2.0));
            assert_eq!(default, vec2(1.5, 2.0));
        }
        other => panic!("{:?}", other),
    }
    let wrong = vec![
        field("p", FieldType::Vec2, vec![call("init", FieldType::Vec2, vec![float(1.0)])]),
        field("p", FieldType::Vec2, vec![call("init", FieldType::Vec3, vec![float(1.0), float(1.0)])]),
        field("p", FieldType::Vec2, vec![pair("init", float(1.0))]),
        field("p", FieldType::Vec2, vec![call("start", FieldType::Vec2, vec![float(1.0), float(1.0)])]),
        field("p", FieldType::Vec2, vec![flag("init")]),
    ];
    for f in wrong {
        let slider = create_slider_from_field(&f).unwrap();
        assert!(matches!(slider, Slider::Vec2 { value, .. } if value == vec2(0.0, 0.0)), "{:?}", f);
    }
}

#[test]
fn a_vec3_field_with_color_is_a_color() {
    let vector = create_slider_from_field(&field("c", FieldType::Vec3, Vec::new())).unwrap();
    assert!(matches!(vector, Slider::Vec3 { value, default, .. } if value == vec3(0.0, 0.0, 0.0) && default == value));

    let color = create_slider_from_field(&field("c", FieldType::Vec3, vec![flag("color")])).unwrap();
    assert!(matches!(color, Slider::Color { value, default, .. } if value == vec3(0.0, 0.0, 0.0) && default == value));

    let with_value =
        create_slider_from_field(&field("c", FieldType::Vec3, vec![pair("color", Scalar::Int(1))])).unwrap();
    assert!(matches!(with_value, Slider::Color { .. }));

    let init = call("init", FieldType::Vec3, vec![float(0.5), Scalar::Int(1), Scalar::UInt(0)]);
    let both = create_slider_from_field(&field("c", FieldType::Vec3, vec![init.clone(), flag("color")])).unwrap();
    match both {
        Slider::Color { name, value, default } => {
            assert_eq!(name, "c");
            assert_eq!(value, vec3(0.5, 1.0, 0.0));
            assert_eq!(default, value);
        }
        other => panic!("{:?}", other),
    }
    let plain = create_slider_from_field(&field("c", FieldType::Vec3, vec![init])).unwrap();
    assert!(matches!(plain, Slider::Vec3 { value, .. } if value == vec3(0.5, 1.0, 0.0)));

    let on_float = create_slider_from_field(&field("c", FieldType::Float, vec![flag("color")])).unwrap();
    assert!(matches!(on_float, Slider::Float { .. }));
}

#[test]
fn a_field_of_another_type_declares_no_parameter() {
    let mat4 = field("m", FieldType::Other, vec![pair("init", float(1.0))]);
    assert_eq!(create_slider_from_field(&mat4).unwrap_err(), ExtractError::UnsupportedType);
    assert_eq!(ExtractError::UnsupportedType.message(), "Invalid field in params block");
    assert_eq!(ExtractError::NotConstant.message(), "Anything other than a constant is not supported");
    assert_eq!(ExtractError::NoSuchProperty.message(), "No such property on float param");
}

#[test]
fn the_first_field_that_fails_decides_the_error() {
    let fields = vec![
        field("a", FieldType::Float, Vec::new()),
        field("b", FieldType::Float, vec![pair("min", Scalar::NotConstant)]),
        field("c", FieldType::Other, Vec::new()),
    ];
    assert_eq!(create_sliders_from_fields(&fields).unwrap_err(), ExtractError::NotConstant);
    let ok = create_sliders_from_fields(&fields[0..1].to_vec()).unwrap();
    assert_eq!(ok.len(), 1);
    assert_eq!(create_sliders_from_fields(&Vec::new()).unwrap().len(), 0);
}

#[test]
fn the_params_layout_is_std140_set_one_binding_zero() {
    assert_params_layout(&params_layout());
    let mut block = params_block(vec![field("a", FieldType::Float, vec![pair("min", float(1.0))])]);
    convert_params_block(&mut block);
    assert_params_layout(block.layout.as_ref().unwrap());
    assert_eq!(block.fields.len(), 1);
    assert_eq!(block.fields[0].qualifiers.len(), 1);
    convert_field(&mut block.fields[0]);
    assert_eq!(block.fields[0].name, "a");
    assert_eq!(block.fields[0].ty, FieldType::Float);
    assert!(block.fields[0].qualifiers.is_empty());
}

#[test]
fn only_a_block_that_starts_with_params_is_one() {
    assert!(params_block(Vec::new()).is_params());
    assert!(Block { layout: Some(vec![pair("params", Scalar::Int(1)), flag("std140")]), fields: Vec::new() }
        .is_params());
    assert!(!Block { layout: None, fields: Vec::new() }.is_params());
    assert!(!Block { layout: Some(Vec::new()), fields: Vec::new() }.is_params());
    assert!(!Block { layout: Some(vec![flag("std140"), flag("params")]), fields: Vec::new() }.is_params());
    assert!(!Block { layout: Some(vec![flag("param")]), fields: Vec::new() }.is_params());
}

#[test]
fn visit_block_leaves_another_block_alone() {
    let mut metadata = ShaderMetadata::new();
    let mut block = Block {
        layout: Some(vec![flag("std140"), pair("binding", Scalar::Int(3))]),
        fields: vec![field("m", FieldType::Other, vec![flag("row_major")])],
    };
    assert_eq!(metadata.visit_block(&mut block), Ok(Visit::Parent));
    assert!(metadata.sliders.is_empty());
    assert_eq!(block.layout.as_ref().unwrap().len(), 2);
    assert_eq!(block.layout.as_ref().unwrap()[0].key, "std140");
    assert_eq!(block.fields[0].qualifiers.len(), 1);
}

#[test]
fn visit_block_adds_the_parameters_and_converts_the_block() {
    let mut metadata = ShaderMetadata::new();
    metadata.sliders.push(Slider::Bool { name: "first".to_string(), value: 0, default: 0 });
    let mut block = params_block(vec![
        field("speed", FieldType::Float, vec![pair("max", Scalar::Int(4))]),
        field("tint", FieldType::Vec3, vec![flag("color")]),
    ]);
    assert_eq!(metadata.visit_block(&mut block), Ok(Visit::Parent));
    assert_eq!(metadata.sliders.len(), 3);
    assert!(matches!(&metadata.sliders[0], Slider::Bool { .. }));
    assert!(matches!(&metadata.sliders[1], Slider::Float { name, max, .. } if name == "speed" && *max == single(4.0)));
    assert!(matches!(&metadata.sliders[2], Slider::Color { name, .. } if name == "tint"));
    assert_params_layout(block.layout.as_ref().unwrap());
    assert_eq!(block.fields.len(), 2);
    assert_eq!(block.fields[0].name, "speed");
    assert_eq!(block.fields[0].ty, FieldType::Float);
    assert!(block.fields[0].qualifiers.is_empty());
    assert_eq!(block.fields[1].name, "tint");
    assert_eq!(block.fields[1].ty, FieldType::Vec3);
    assert!(block.fields[1].qualifiers.is_empty());
}

#[test]
fn visit_block_changes_nothing_when_a_field_fails() {
    let mut metadata = ShaderMetadata::new();
    let mut block = params_block(vec![
        field("speed", FieldType::Float, vec![pair("max", Scalar::Int(4))]),
        field("m", FieldType::Other, Vec::new()),
    ]);
    assert_eq!(metadata.visit_block(&mut block), Err(ExtractError::UnsupportedType));
    assert!(metadata.sliders.is_empty());
    assert!(block.is_params());
    assert_eq!(block.fields[0].qualifiers.len(), 1);
}

#[test]
fn the_still_image_define_sets_the_mark() {
    let mut metadata = ShaderMetadata::new();
    let other = Define { name: "PI".to_string(), object_like: true };
    assert_eq!(metadata.visit_preprocessor_define(&other), Visit::Parent);
    assert!(!metadata.still_image);
    let function = Define { name: "NUANCE_STILL_IMAGE".to_string(), object_like: false };
    metadata.visit_preprocessor_define(&function);
    assert!(!metadata.still_image);
    let still = Define { name: "NUANCE_STILL_IMAGE".to_string(), object_like: true };
    assert_eq!(metadata.visit_preprocessor_define(&still), Visit::Parent);
    assert!(metadata.still_image);
    metadata.visit_preprocessor_define(&other);
    assert!(metadata.still_image);
}

fn some_metadata() -> ShaderMetadata {
    ShaderMetadata {
        sliders: vec![
            Slider::Uint { name: "speed".to_string(), value: 1, min: 0, max: 9, default: 1 },
            Slider::Color { name: "tint".to_string(), value: vec3(0.0, 0.0, 0.0), default: vec3(1.0, 1.0, 1.0) },
            Slider::Float {
                name: "speed".to_string(),
                min: single(-1.0),
                max: single(10.0),
                value: single(7.0),
                default: single(5.0),
            },
            Slider::Vec2 { name: "pos".to_string(), value: vec2(9.0, 9.0), default: vec2(0.5, -0.5) },
            Slider::Vec3 { name: "dir".to_string(), value: vec3(9.0, 9.0, 9.0), default: vec3(1.0, 2.0, 3.0) },
            Slider::Float {
                name: "speed".to_string(),
                min: single(100.0),
                max: single(200.0),
                value: single(150.0),
                default: single(150.0),
            },
        ],
        still_image: false,
    }
}

fn visited(metadata: &ShaderMetadata, variable: &str, property: &str) -> (Result<Visit, ExtractError>, Item) {
    let mut expr = Expr::Dot { variable: variable.to_string(), property: property.to_string() };
    let r = metadata.visit_expr(&mut expr);
    (r, Item::Expr(expr))
}

#[test]
fn the_properties_of_a_float_become_its_constants() {
    let metadata = some_metadata();
    let (r, item) = visited(&metadata, "speed", "min");
    assert_eq!(r, Ok(Visit::Parent));
    assert!(is_float_const(&item, -1.0));
    let (r, item) = visited(&metadata, "speed", "max");
    assert_eq!(r, Ok(Visit::Parent));
    assert!(is_float_const(&item, 10.0));
    let (r, item) = visited(&metadata, "speed", "init");
    assert_eq!(r, Ok(Visit::Parent));
    assert!(is_float_const(&item, 5.0));
}

#[test]
fn another_property_of_a_float_is_an_error() {
    let metadata = some_metadata();
    let (r, item) = visited(&metadata, "speed", "x");
    assert_eq!(r, Err(ExtractError::NoSuchProperty));
    assert!(is_dot(&item, "speed", "x"));
}

#[test]
fn the_init_of_a_vector_becomes_a_constructor_call() {
    let metadata = some_metadata();
    let (r, item) = visited(&metadata, "pos", "init");
    assert_eq!(r, Ok(Visit::Parent));
    assert!(matches!(item, Item::Expr(Expr::Vec2Call(v)) if v == vec2(0.5, -0.5)));
    let (r, item) = visited(&metadata, "dir", "init");
    assert_eq!(r, Ok(Visit::Parent));
    assert!(matches!(item, Item::Expr(Expr::Vec3Call(v)) if v == vec3(1.0, 2.0, 3.0)));
    let (r, item) = visited(&metadata, "dir", "xy");
    assert_eq!(r, Ok(Visit::Parent));
    assert!(is_dot(&item, "dir", "xy"));
    let (r, item) = visited(&metadata, "pos", "min");
    assert_eq!(r, Ok(Visit::Parent));
    assert!(is_dot(&item, "pos", "min"));
}

#[test]
fn other_expressions_are_kept_and_entered() {
    let metadata = some_metadata();
    let (r, item) = visited(&metadata, "tint", "init");
    assert_eq!(r, Ok(Visit::Children));
    assert!(is_dot(&item, "tint", "init"));
    let (r, item) = visited(&metadata, "unknown", "max");
    assert_eq!(r, Ok(Visit::Children));
    assert!(is_dot(&item, "unknown", "max"));
    let mut other = Expr::Other;
    assert_eq!(metadata.visit_expr(&mut other), Ok(Visit::Children));
    assert!(matches!(other, Expr::Other));
    let mut constant = Expr::FloatConst(single(2.0));
    assert_eq!(metadata.visit_expr(&mut constant), Ok(Visit::Children));
    assert!(matches!(constant, Expr::FloatConst(c) if c == single(2.0)));
    let empty = ShaderMetadata::new();
    let (r, item) = visited(&empty, "speed", "max");
    assert_eq!(r, Ok(Visit::Children));
    assert!(is_dot(&item, "speed", "max"));
}

#[test]
fn a_shader_without_params_block_is_kept_as_it_is() {
    let unit = Unit {
        items: vec![
            Item::Define(Define { name: "PI".to_string(), object_like: true }),
            Item::Block(Block {
                layout: Some(vec![flag("std140"), pair("binding", Scalar::Int(2))]),
                fields: vec![field("m", FieldType::Other, vec![flag("row_major")])],
            }),
            Item::Block(Block { layout: None, fields: vec![field("t", FieldType::Float, Vec::new())] }),
            dot("speed", "max"),
            Item::Expr(Expr::FloatConst(single(1.0))),
            Item::Expr(Expr::Other),
        ],
    };
    let (metadata, out) = extract(unit.clone()).unwrap();
    assert!(metadata.sliders.is_empty());
    assert!(!metadata.still_image);
    assert_eq!(metadata.params_buffer(), Vec::<u8>::new());
    assert_eq!(format!("{:?}", out), format!("{:?}", unit));

    let (metadata, out) = extract(Unit { items: Vec::new() }).unwrap();
    assert!(metadata.sliders.is_empty());
    assert!(out.items.is_empty());
}

#[test]
fn a_float_parameter_and_its_max_elsewhere() {
    let unit = Unit {
        items: vec![
            Item::Block(params_block(vec![field(
                "speed",
                FieldType::Float,
                vec![pair("min", Scalar::Int(0)), pair("max", Scalar::Int(10)), pair("init", Scalar::Int(5))],
            )])),
            dot("speed", "max"),
        ],
    };
    let (metadata, out) = extract(unit).unwrap();
    assert_eq!(metadata.sliders.len(), 1);
    match &metadata.sliders[0] {
        Slider::Float { name, min, max, value, default } => {
            assert_eq!(name, "speed");
            assert_eq!(f32::from_bits(min.bits), 0.0);
            assert_eq!(f32::from_bits(max.bits), 10.0);
            assert_eq!(f32::from_bits(value.bits), 5.0);
            assert_eq!(f32::from_bits(default.bits), 5.0);
        }
        other => panic!("{:?}", other),
    }
    assert!(!metadata.still_image);
    assert_eq!(out.items.len(), 2);
    match &out.items[0] {
        Item::Block(block) => {
            assert_params_layout(block.layout.as_ref().unwrap());
            assert_eq!(block.fields.len(), 1);
            assert_eq!(block.fields[0].name, "speed");
            assert_eq!(block.fields[0].ty, FieldType::Float);
            assert!(block.fields[0].qualifiers.is_empty());
        }
        other => panic!("{:?}", other),
    }
    assert!(is_float_const(&out.items[1], 10.0));
    assert_eq!(metadata.params_buffer(), 5.0f32.to_le_bytes().to_vec());
}

#[test]
fn accessors_before_the_block_are_replaced_too() {
    let unit = Unit {
        items: vec![
            dot("a", "min"),
            Item::Define(Define { name: "NUANCE_STILL_IMAGE".to_string(), object_like: true }),
            dot("b", "init"),
            Item::Block(params_block(vec![
                field("a", FieldType::Float, vec![pair("min", float(-3.0)), pair("init", float(2.0))]),
                field("b", FieldType::Vec2, vec![call("init", FieldType::Vec2, vec![float(1.0), float(2.0)])]),
            ])),
            dot("a", "init"),
            dot("c", "init"),
            Item::Block(params_block(vec![field("c", FieldType::Vec3, Vec::new())])),
        ],
    };
    let (metadata, out) = extract(unit).unwrap();
    assert!(metadata.still_image);
    assert_eq!(metadata.sliders.len(), 3);
    assert!(matches!(&metadata.sliders[0], Slider::Float { name, .. } if name == "a"));
    assert!(matches!(&metadata.sliders[1], Slider::Vec2 { name, .. } if name == "b"));
    assert!(matches!(&metadata.sliders[2], Slider::Vec3 { name, .. } if name == "c"));
    assert_eq!(out.items.len(), 7);
    assert!(is_float_const(&out.items[0], -3.0));
    assert!(matches!(&out.items[1], Item::Define(d) if d.name == "NUANCE_STILL_IMAGE" && d.object_like));
    assert!(matches!(&out.items[2], Item::Expr(Expr::Vec2Call(v)) if *v == vec2(1.0, 2.0)));
    assert!(is_float_const(&out.items[4], 2.0));
    assert!(matches!(&out.items[5], Item::Expr(Expr::Vec3Call(v)) if *v == vec3(0.0, 0.0, 0.0)));
    assert!(matches!(&out.items[6], Item::Block(b) if b.fields[0].qualifiers.is_empty() && !b.is_params()));
}

#[test]
fn a_mat4_field_fails_the_whole_extraction() {
    let unit = Unit {
        items: vec![
            Item::Block(params_block(vec![
                field("speed", FieldType::Float, Vec::new()),
                field("transform", FieldType::Other, Vec::new()),
                field("tint", FieldType::Vec3, vec![flag("color")]),
            ])),
            dot("speed", "max"),
        ],
    };
    assert_eq!(extract(unit).unwrap_err(), ExtractError::UnsupportedType);
}

#[test]
fn an_error_in_a_block_comes_before_one_in_an_expression() {
    let unit = Unit {
        items: vec![
            Item::Block(params_block(vec![field("speed", FieldType::Float, Vec::new())])),
            dot("speed", "step"),
            Item::Block(params_block(vec![field("n", FieldType::UInt, vec![pair("max", Scalar::NotConstant)])])),
        ],
    };
    assert_eq!(extract(unit).unwrap_err(), ExtractError::NotConstant);
    let unit = Unit {
        items: vec![
            Item::Block(params_block(vec![field("speed", FieldType::Float, Vec::new())])),
            dot("speed", "step"),
        ],
    };
    assert_eq!(extract(unit).unwrap_err(), ExtractError::NoSuchProperty);
}

#[test]
fn scalars_coerce_to_both_kinds() {
    assert_eq!(Scalar::Int(-2).coerce_single(), Ok(single(-2.0)));
    assert_eq!(Scalar::UInt(7).coerce_single(), Ok(single(7.0)));
    assert_eq!(Scalar::Bool(false).coerce_single(), Ok(single(0.0)));
    assert_eq!(Scalar::Bool(true).coerce_single(), Ok(single(1.0)));
    assert_eq!(float(0.1).coerce_single(), Ok(single(0.1)));
    assert_eq!(Scalar::Double(Double { bits: 0.1f64.to_bits() }).coerce_single(), Ok(single(0.1f64 as f32)));
    assert_eq!(Scalar::NotConstant.coerce_single(), Err(ExtractError::NotConstant));
    assert_eq!(Scalar::Int(-2).coerce_uint(), Ok(-2i32 as u32));
    assert_eq!(Scalar::UInt(7).coerce_uint(), Ok(7));
    assert_eq!(Scalar::Bool(true).coerce_uint(), Ok(1));
    assert_eq!(Scalar::Bool(false).coerce_uint(), Ok(0));
    assert_eq!(float(3.99).coerce_uint(), Ok(3));
    assert_eq!(Scalar::Double(Double { bits: 1e10f64.to_bits() }).coerce_uint(), Ok(u32::MAX));
    assert_eq!(Scalar::NotConstant.coerce_uint(), Err(ExtractError::NotConstant));
    assert_eq!(Value::Scalar(Scalar::Int(3)).to_scalar(), Scalar::Int(3));
    assert_eq!(
        Value::Constructor { ty: FieldType::Vec2, args: vec![float(1.0)] }.to_scalar(),
        Scalar::NotConstant
    );
}
