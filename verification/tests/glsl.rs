use glsl_lang::ast;
use glsl_lang::parse::{DefaultLexer, ParseBuilder, ParseContext, ParseOptions};
use glsl_lang::transpiler::glsl::{show_translation_unit, FormattingState};
use glsl_lang::visitor::{Host, HostMut, Visit, Visitor, VisitorMut};
use nuance::loader::GLSL_VERSION;
use nuance::number::{Double, Single};
use nuance::preprocessor::{
    extract, Block, Define, Expr, ExtractError, FieldSpec, FieldType, Item, LayoutPair, Scalar,
    Unit, Value,
};
use nuance::shader::{ShaderMetadata, Slider};

fn read_type(ty: &ast::TypeSpecifierNonArrayData) -> FieldType {
    match ty {
        ast::TypeSpecifierNonArrayData::Float => FieldType::Float,
        ast::TypeSpecifierNonArrayData::UInt => FieldType::UInt,
        ast::TypeSpecifierNonArrayData::Bool => FieldType::Bool,
        ast::TypeSpecifierNonArrayData::Vec2 => FieldType::Vec2,
        ast::TypeSpecifierNonArrayData::Vec3 => FieldType::Vec3,
        _ => FieldType::Other,
    }
}

fn read_scalar(expr: &ast::ExprData) -> Scalar {
    match expr {
        ast::ExprData::IntConst(v) => Scalar::Int(*v),
        ast::ExprData::UIntConst(v) => Scalar::UInt(*v),
        ast::ExprData::BoolConst(v) => Scalar::Bool(*v),
        ast::ExprData::FloatConst(v) => Scalar::Float(Single { bits: v.to_bits() }),
        ast::ExprData::DoubleConst(v) => Scalar::Double(Double { bits: v.to_bits() }),
        _ => Scalar::NotConstant,
    }
}

fn read_value(expr: &ast::ExprData) -> Value {
    match expr {
        ast::ExprData::FunCall(fun, args) => match &fun.content {
            ast::FunIdentifierData::TypeSpecifier(ty) => Value::Constructor {
                ty: read_type(&ty.content.ty.content),
                args: args.iter().map(|arg| read_scalar(&arg.content)).collect(),
            },
            _ => Value::Scalar(Scalar::NotConstant),
        },
        other => Value::Scalar(read_scalar(other)),
    }
}

fn read_layout(layout: &ast::LayoutQualifierData) -> Vec<LayoutPair> {
    layout
        .ids
        .iter()
        .map(|id| match &id.content {
            ast::LayoutQualifierSpecData::Identifier(key, value) => LayoutPair {
                key: key.content.0.to_string(),
                value: value.as_ref().map(|expr| read_value(&expr.content)),
            },
            ast::LayoutQualifierSpecData::Shared => LayoutPair { key: "shared".to_string(), value: None },
        })
        .collect()
}

fn read_field(field: &ast::StructFieldSpecifierData) -> FieldSpec {
    let mut qualifiers: Vec<LayoutPair> = Vec::new();
    if let Some(qualifier) = &field.qualifier {
        for spec in qualifier.content.qualifiers.iter() {
            if let ast::TypeQualifierSpecData::Layout(layout) = &spec.content {
                qualifiers.extend(read_layout(&layout.content));
            }
        }
    }
    FieldSpec {
        name: field.identifiers.first().map(|id| id.content.ident.content.0.to_string()).unwrap_or_default(),
        ty: read_type(&field.ty.content.ty.content),
        qualifiers,
    }
}

fn read_block(block: &ast::BlockData) -> Block {
    let layout = match block.qualifier.content.qualifiers.first().map(|spec| &spec.content) {
        Some(ast::TypeQualifierSpecData::Layout(layout)) => Some(read_layout(&layout.content)),
        _ => None,
    };
    Block { layout, fields: block.fields.iter().map(|field| read_field(&field.content)).collect() }
}

fn read_accessor(expr: &ast::ExprData) -> Option<Expr> {
    if let ast::ExprData::Dot(base, property) = expr {
        if let ast::ExprData::Variable(variable) = &base.content {
            return Some(Expr::Dot {
                variable: variable.content.0.to_string(),
                property: property.content.0.to_string(),
            });
        }
    }
    None
}

struct Reader {
    items: Vec<Item>,
}

impl Visitor for Reader {
    fn visit_block(&mut self, block: &ast::Block) -> Visit {
        self.items.push(Item::Block(read_block(&block.content)));
        Visit::Parent
    }

    fn visit_preprocessor_define(&mut self, define: &ast::PreprocessorDefine) -> Visit {
        let (name, object_like) = match &define.content {
            ast::PreprocessorDefineData::ObjectLike { ident, .. } => (ident.content.0.to_string(), true),
            ast::PreprocessorDefineData::FunctionLike { ident, .. } => (ident.content.0.to_string(), false),
        };
        self.items.push(Item::Define(Define { name, object_like }));
        Visit::Parent
    }

    fn visit_expr(&mut self, expr: &ast::Expr) -> Visit {
        match read_accessor(&expr.content) {
            Some(accessor) => {
                self.items.push(Item::Expr(accessor));
                Visit::Parent
            }
            None => Visit::Children,
        }
    }
}

fn constant(x: Single) -> ast::Expr {
    ast::ExprData::FloatConst(f32::from_bits(x.bits)).into()
}

fn constructor(ty: ast::TypeSpecifierNonArrayData, args: Vec<ast::Expr>) -> ast::ExprData {
    let specifier = ast::TypeSpecifierData { ty: ty.into(), array_specifier: None };
    ast::ExprData::FunCall(ast::FunIdentifierData::TypeSpecifier(Box::new(specifier.into())).into(), args)
}

fn write_value(value: &Value) -> ast::Expr {
    match value {
        Value::Scalar(Scalar::Int(v)) => ast::ExprData::IntConst(*v).into(),
        Value::Scalar(Scalar::UInt(v)) => ast::ExprData::UIntConst(*v).into(),
        Value::Scalar(Scalar::Bool(v)) => ast::ExprData::BoolConst(*v).into(),
        Value::Scalar(Scalar::Float(v)) => constant(*v),
        Value::Scalar(Scalar::Double(v)) => ast::ExprData::DoubleConst(f64::from_bits(v.bits)).into(),
        _ => ast::ExprData::IntConst(0).into(),
    }
}

fn write_layout(pairs: &[LayoutPair]) -> ast::TypeQualifierSpec {
    let ids = pairs
        .iter()
        .map(|pair| {
            ast::LayoutQualifierSpecData::Identifier(
                ast::IdentifierData(pair.key.as_str().into()).into(),
                pair.value.as_ref().map(|value| Box::new(write_value(value))),
            )
            .into()
        })
        .collect();
    ast::TypeQualifierSpecData::Layout(ast::LayoutQualifierData { ids }.into()).into()
}

struct Writer {
    items: std::vec::IntoIter<Item>,
}

impl VisitorMut for Writer {
    fn visit_block(&mut self, block: &mut ast::Block) -> Visit {
        let was_params = read_block(&block.content).is_params();
        if let Some(Item::Block(after)) = self.items.next() {
            if was_params {
                if let Some(layout) = &after.layout {
                    block.content.qualifier.content.qualifiers[0] = write_layout(layout);
                }
                for (field, converted) in block.content.fields.iter_mut().zip(after.fields.iter()) {
                    if converted.qualifiers.is_empty() {
                        field.content.qualifier = None;
                    }
                }
            }
        }
        Visit::Parent
    }

    fn visit_preprocessor_define(&mut self, _: &mut ast::PreprocessorDefine) -> Visit {
        self.items.next();
        Visit::Parent
    }

    fn visit_expr(&mut self, expr: &mut ast::Expr) -> Visit {
        if read_accessor(&expr.content).is_none() {
            return Visit::Children;
        }
        match self.items.next() {
            Some(Item::Expr(Expr::FloatConst(x))) => {
                expr.content = ast::ExprData::FloatConst(f32::from_bits(x.bits));
            }
            Some(Item::Expr(Expr::Vec2Call(v))) => {
                expr.content = constructor(ast::TypeSpecifierNonArrayData::Vec2, vec![constant(v.x), constant(v.y)]);
            }
            Some(Item::Expr(Expr::Vec3Call(v))) => {
                expr.content = constructor(
                    ast::TypeSpecifierNonArrayData::Vec3,
                    vec![constant(v.x), constant(v.y), constant(v.z)],
                );
            }
            _ => {}
        }
        Visit::Parent
    }
}

fn parse(source: &str) -> ast::TranslationUnit {
    let options = ParseOptions {
        default_version: GLSL_VERSION,
        target_vulkan: true,
        source_id: lang_util::FileId::new(0),
        allow_rs_ident: false,
    };
    let (unit, _, _) = ParseBuilder::<DefaultLexer, ast::TranslationUnit>::new(source)
        .opts(&options)
        .context(&ParseContext::new_with_comments())
        .parse()
        .unwrap();
    unit
}

fn show(unit: &ast::TranslationUnit) -> String {
    let mut text = String::new();
    show_translation_unit(&mut text, unit, FormattingState::default()).unwrap();
    text
}

fn extract_source(source: &str) -> Result<(ShaderMetadata, String), ExtractError> {
    let mut ast = parse(source);
    let mut reader = Reader { items: Vec::new() };
    ast.visit(&mut reader);
    let (metadata, unit) = extract(Unit { items: reader.items })?;
    ast.visit_mut(&mut Writer { items: unit.items.into_iter() });
    Ok((metadata, show(&ast)))
}

fn squeeze(text: &str) -> String {
    text.split_whitespace().collect::<Vec<&str>>().join(" ")
}

#[test]
fn a_shader_without_params_comes_back_as_it_was() {
    let source = "#version 460\n\
        layout(std140, set = 0, binding = 1) uniform Camera { mat4 view; vec3 eye; };\n\
        layout(location = 0) out vec4 color;\n\
        float twice(float x) { return x * 2.; }\n\
        void main() { vec3 p = eye.xyz; color = vec4(p.x, twice(p.y), eye.z, 1.); }\n";
    let (metadata, text) = extract_source(source).unwrap();
    assert!(metadata.sliders.is_empty());
    assert!(!metadata.still_image);
    assert_eq!(squeeze(&text), squeeze(&show(&parse(source))));
    assert_eq!(show(&parse(&text)), text);
}

#[test]
fn the_speed_of_the_sample_shader() {
    let source = "layout(params) uniform P { layout(min=0,max=10,init=5) float speed; };\n\
        layout(location = 0) out vec4 color;\n\
        void main() { color = vec4(speed / speed.max); }\n";
    let (metadata, text) = extract_source(source).unwrap();
    assert_eq!(metadata.sliders.len(), 1);
    match &metadata.sliders[0] {
        Slider::Float { name, min, max, value, default } => {
            assert_eq!(name, "speed");
            assert_eq!(f32::from_bits(min.bits), 0.0);
            assert_eq!(f32::from_bits(max.bits), 10.0);
            assert_eq!(f32::from_bits(value.bits), 5.0);
            assert_eq!(f32::from_bits(default.bits), 5.0);
        }
        other => panic!("{:?}", other),
    }
    let expected = "layout(std140, set = 1, binding = 0) uniform P { float speed; };\n\
        layout(location = 0) out vec4 color;\n\
        void main() { color = vec4(speed / 10.); }\n";
    assert_eq!(squeeze(&text), squeeze(&show(&parse(expected))));
    assert!(!text.contains("speed.max"));
    assert!(!text.contains("params"));
    assert!(text.contains("10."), "{}", text);
}

#[test]
fn every_kind_of_parameter_is_read_from_source() {
    let source = "#define NUANCE_STILL_IMAGE 1\n\
        layout(params) uniform Params {\n\
            layout(min = 0.5, max = 2.5lf, init = 1u) float a;\n\
            layout(max = 50, init = 7.9) uint n;\n\
            layout(init = true) bool on;\n\
            layout(init = vec2(0.5, 2)) vec2 p;\n\
            layout(init = vec3(1, 2, 3)) vec3 d;\n\
            layout(color, init = vec3(0.25, 0.5, 1.0)) vec3 tint;\n\
            float plain;\n\
        };\n\
        layout(location = 0) out vec4 color;\n\
        void main() {\n\
            float range = a.max - a.min + a.init;\n\
            vec2 q = p.init + p.xy;\n\
            vec3 e = d.init * tint.rgb;\n\
            color = vec4(e, range + q.x + float(n));\n\
        }\n";
    let (metadata, text) = extract_source(source).unwrap();
    assert!(metadata.still_image);
    assert_eq!(metadata.sliders.len(), 7);
    assert!(matches!(&metadata.sliders[0], Slider::Float { name, min, max, value, default }
        if name == "a" && f32::from_bits(min.bits) == 0.5 && f32::from_bits(max.bits) == 2.5
            && f32::from_bits(value.bits) == 1.0 && default == value));
    assert!(matches!(&metadata.sliders[1], Slider::Uint { name, value: 7, min: 0, max: 50, default: 7 } if name == "n"));
    assert!(matches!(&metadata.sliders[2], Slider::Bool { name, value: 1, default: 1 } if name == "on"));
    assert!(matches!(&metadata.sliders[3], Slider::Vec2 { name, value, default }
        if name == "p" && f32::from_bits(value.x.bits) == 0.5 && f32::from_bits(value.y.bits) == 2.0 && default == value));
    assert!(matches!(&metadata.sliders[4], Slider::Vec3 { name, value, .. }
        if name == "d" && f32::from_bits(value.x.bits) == 1.0 && f32::from_bits(value.z.bits) == 3.0));
    assert!(matches!(&metadata.sliders[5], Slider::Color { name, value, .. }
        if name == "tint" && f32::from_bits(value.x.bits) == 0.25 && f32::from_bits(value.z.bits) == 1.0));
    assert!(matches!(&metadata.sliders[6], Slider::Float { name, min, max, value, .. }
        if name == "plain" && min.bits == 0 && f32::from_bits(max.bits) == 1.0 && value.bits == 0));
    let expected = "#define NUANCE_STILL_IMAGE 1\n\
        layout(std140, set = 1, binding = 0) uniform Params {\n\
            float a; uint n; bool on; vec2 p; vec3 d; vec3 tint; float plain;\n\
        };\n\
        layout(location = 0) out vec4 color;\n\
        void main() {\n\
            float range = 2.5 - 0.5 + 1.;\n\
            vec2 q = vec2(0.5, 2.) + p.xy;\n\
            vec3 e = vec3(1., 2., 3.) * tint.rgb;\n\
            color = vec4(e, range + q.x + float(n));\n\
        }\n";
    assert_eq!(squeeze(&text), squeeze(&show(&parse(expected))));
    assert_eq!(metadata.params_buffer_size(), 64);
}

#[test]
fn a_mat4_field_in_the_params_block_fails() {
    let source = "layout(params) uniform P { float speed; mat4 transform; };\n\
        void main() { }\n";
    assert_eq!(extract_source(source).unwrap_err(), ExtractError::UnsupportedType);
}

#[test]
fn an_initializer_that_is_no_constant_fails() {
    let source = "layout(params) uniform P { layout(init = vec2(1.0, sin(2.0))) vec2 p; };\n\
        void main() { }\n";
    assert_eq!(extract_source(source).unwrap_err(), ExtractError::NotConstant);
    let source = "layout(params) uniform P { layout(max = 2 * 3) float x; };\n\
        void main() { }\n";
    assert_eq!(extract_source(source).unwrap_err(), ExtractError::NotConstant);
    let source = "layout(params) uniform P { layout(min = -1.5) float x; };\n\
        void main() { }\n";
    assert_eq!(extract_source(source).unwrap_err(), ExtractError::NotConstant);
}
