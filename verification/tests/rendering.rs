use cgen::ctype::CType;
use cgen::cvalue::CValue;

#[test]
fn scalar_types_render_by_table() {
    assert_eq!(CType::Int(8).to_string(), "i8");
    assert_eq!(CType::Int(16).to_string(), "i16");
    assert_eq!(CType::Int(32).to_string(), "int");
    assert_eq!(CType::Int(64).to_string(), "i64");
    assert_eq!(CType::Float(32).to_string(), "float");
    assert_eq!(CType::Double.to_string(), "double");
    assert_eq!(CType::Void.to_string(), "void");
    assert_eq!(CType::Char.to_string(), "char");
    assert_eq!(CType::Bool.to_string(), "bool");
}

#[test]
fn off_table_widths_render_placeholder() {
    assert_eq!(CType::Int(7).to_string(), "unimplemented");
    assert_eq!(CType::Float(64).to_string(), "unimplemented");
}

#[test]
fn array_type_renders_bracketed() {
    let t = CType::Array(Box::new(CType::Int(32)), 4);
    assert_eq!(t.to_string(), "[4 x int]");
}

#[test]
fn named_aggregates_render_percent_name() {
    assert_eq!(CType::Struct("point".to_string()).to_string(), "%point");
    assert_eq!(CType::Union("u".to_string()).to_string(), "%u");
    assert_eq!(CType::Enum("color".to_string()).to_string(), "%color");
}

#[test]
fn function_type_renders_arrow() {
    let t = CType::Func(vec![CType::Int(32), CType::Bool], Box::new(CType::Double));
    assert_eq!(t.to_string(), "(int, bool) -> double");
    let none = CType::Func(vec![], Box::new(CType::Void));
    assert_eq!(none.to_string(), "() -> void");
}

#[test]
fn pointer_prefixes_stack() {
    let once = CType::Int(32).as_ptr();
    assert_eq!(once.to_string(), "*int");
    let twice = once.as_ptr();
    assert_eq!(twice.to_string(), "**int");
}

#[test]
fn integer_values_render_decimal() {
    assert_eq!(CValue::Int(32, 42).to_string(), "42");
    assert_eq!(CValue::Int(64, -7).to_string(), "-7");
    assert_eq!(CValue::Int(64, i64::MIN).to_string(), "-9223372036854775808");
    assert_eq!(CValue::Int(64, i64::MAX).to_string(), "9223372036854775807");
    assert_eq!(CValue::Int(8, 0).to_string(), "0");
}

#[test]
fn scalar_values_render() {
    assert_eq!(CValue::Void.to_string(), "void");
    assert_eq!(CValue::Char('A').to_string(), "A");
    assert_eq!(CValue::Bool(true).to_string(), "true");
    assert_eq!(CValue::Bool(false).to_string(), "false");
    assert_eq!(CValue::StringLiteral("hi".to_string()).to_string(), "\"hi\"");
}

#[test]
fn aggregate_values_render() {
    let arr = CValue::Array(vec![CValue::Int(32, 1), CValue::Int(32, 2)]);
    assert_eq!(arr.to_string(), "[1, 2]");
    let st = CValue::Struct("point".to_string(), vec![CValue::Int(32, 1), CValue::Int(32, 2)]);
    assert_eq!(st.to_string(), "point { 1, 2 }");
    let un = CValue::Union("u".to_string(), vec![CValue::Int(32, 9)]);
    assert_eq!(un.to_string(), "u { 9 }");
    let f = CValue::Func(vec![CValue::Int(32, 1)], Box::new(CValue::Void));
    assert_eq!(f.to_string(), "(1) -> void");
}

#[test]
fn pointer_value_renders_prefix() {
    let v = CValue::Int(32, 5).as_ptr();
    assert_eq!(v.to_string(), "*5");
}

#[test]
fn derive_scalars_from_type() {
    assert_eq!(CType::Int(32).into_value(17).to_string(), "17");
    assert_eq!(CType::Bool.into_value(0).to_string(), "false");
    assert_eq!(CType::Bool.into_value(5).to_string(), "true");
    assert_eq!(CType::Char.into_value(65).to_string(), "A");
    assert_eq!(CType::Double.into_value(-3).to_string(), "-3");
    assert_eq!(CType::Float(32).into_value(2).to_string(), "2");
    assert_eq!(CType::Void.into_value(1).to_string(), "void");
}

#[test]
fn derive_array_replicates_element() {
    let t = CType::Array(Box::new(CType::Int(32)), 3);
    let v = t.into_value(5);
    match &v {
        CValue::Array(items) => {
            assert_eq!(items.len(), 3);
            for item in items {
                assert_eq!(item.to_string(), "5");
            }
        },
        _ => panic!("expected an array value"),
    }
    assert_eq!(v.to_string(), "[5, 5, 5]");
}

#[test]
fn derive_empty_array() {
    let t = CType::Array(Box::new(CType::Int(32)), 0);
    assert_eq!(t.into_value(5).to_string(), "[]");
}

#[test]
fn derive_aggregates_and_enum() {
    let s = CType::Struct("point".to_string()).into_value(5);
    assert_eq!(s.to_string(), "point {  }");
    let e = CType::Enum("color".to_string()).into_value(3);
    assert_eq!(e.to_string(), "3");
    let p = CType::Int(32).as_ptr().into_value(8);
    assert_eq!(p.to_string(), "*8");
}

#[test]
fn derive_via_from_type() {
    let v = CValue::from_type(CType::Int(16), -12);
    assert_eq!(v.to_string(), "-12");
}

#[test]
fn clones_render_identically() {
    let t = CType::Func(
        vec![CType::Int(32), CType::Array(Box::new(CType::Bool), 2)],
        Box::new(CType::Char.as_ptr()),
    );
    assert_eq!(t.clone().to_string(), t.to_string());
    let v = CValue::Struct("s".to_string(), vec![CValue::Int(32, 1).as_ptr()]);
    assert_eq!(v.clone().to_string(), v.to_string());
}
