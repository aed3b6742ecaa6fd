use cgen::block::Block;
use cgen::builder::Builder;
use cgen::callvalue::CallValue;
use cgen::ctype::CType;
use cgen::cvalue::CValue;
use cgen::function::Function;
use cgen::module::Module;

#[test]
fn block_renders_braced_lines() {
    let mut b = Block::new();
    assert_eq!(b.emit_c(), "{\n}\n");
    b.add_line("x = 1;");
    b.add_line("return x;");
    assert_eq!(b.emit_c(), "{\n\tx = 1;\n\treturn x;\n}\n");
    assert_eq!(b.code().len(), 2);
    assert_eq!(b.code()[0], "x = 1;");
}

#[test]
fn function_decl_with_parameters() {
    let f = Function::new("foo", &CType::Int(32), Some(vec![CType::Int(32)]), false, false);
    assert_eq!(f.emit_decl(), "int foo(int);");
    assert_eq!(f.emit_h(), "int foo(int);\n");
    assert_eq!(f.emit_c(), "int foo(int);");
}

#[test]
fn function_decl_variadic() {
    let f = Function::new(
        "printf",
        &CType::Int(32),
        Some(vec![CType::Char.as_ptr()]),
        true,
        false,
    );
    assert_eq!(f.emit_decl(), "int printf(*char, ...);");
}

#[test]
fn function_decl_without_parameters_is_void_style() {
    let f = Function::new("f", &CType::Int(32), None, false, false);
    assert_eq!(f.emit_decl(), "int f(void);");
}

#[test]
fn function_getters() {
    let f = Function::new("g", &CType::Bool, Some(vec![CType::Char]), true, true);
    assert_eq!(f.name(), "g");
    assert_eq!(f.ret_type().to_string(), "bool");
    assert_eq!(f.args().as_ref().unwrap().len(), 1);
    assert!(f.is_variadic());
    assert!(f.is_static());
}

#[test]
fn static_function_definition_is_prefixed() {
    let f = Function::new("h", &CType::Void, None, false, true);
    assert_eq!(f.emit_c(), "static void h(void);");
}

#[test]
fn function_with_body_renders_body_not_terminator() {
    let mut f = Function::new("f", &CType::Void, None, false, false);
    f.add_block();
    assert_eq!(f.emit_c(), "void f(void) {\n}\n");
    let mut body = Block::new();
    body.add_line("return;");
    f.set_block(body);
    assert_eq!(f.emit_c(), "void f(void) {\n\treturn;\n}\n");
}

#[test]
fn call_value_carries_return_type() {
    let cv = CallValue::new(&CType::Double);
    assert_eq!(cv.value().to_string(), "double");
}

#[test]
fn builder_call_with_result_name() {
    let callee = Function::new("get", &CType::Int(32), Some(vec![]), false, false);
    let mut b = Builder::new();
    b.position_at_end(Block::new());
    b.build_call(&callee, vec![], Some("t"));
    let blk = b.take_block().unwrap();
    assert_eq!(blk.emit_c(), "{\n\tint t = get();\n}\n");
}

#[test]
fn builder_call_without_result_name_is_bare() {
    let callee = Function::new(
        "printf",
        &CType::Int(32),
        Some(vec![CType::Char.as_ptr()]),
        true,
        false,
    );
    let mut b = Builder::new();
    b.position_at_end(Block::new());
    let cv = b.build_call(
        &callee,
        vec![CValue::StringLiteral("hi".to_string())],
        None,
    );
    assert_eq!(cv.value().to_string(), "int");
    let blk = b.take_block().unwrap();
    assert_eq!(blk.emit_c(), "{\n\tprintf(\"hi\");\n}\n");
}

#[test]
fn builder_return_statement() {
    let mut b = Builder::new();
    b.position_at_end(Block::new());
    b.build_return(&CValue::Int(32, 0));
    let blk = b.take_block().unwrap();
    assert_eq!(blk.emit_c(), "{\n\treturn 0;\n}\n");
}

#[test]
fn builder_without_target_drops_lines() {
    let mut b = Builder::new();
    b.build_return(&CValue::Int(32, 1));
    b.position_at_end(Block::new());
    b.build_return(&CValue::Int(32, 2));
    let blk = b.take_block().unwrap();
    assert_eq!(blk.emit_c(), "{\n\treturn 2;\n}\n");
    assert!(b.take_block().is_none());
}

#[test]
fn builder_reposition_hands_back_previous_block() {
    let mut b = Builder::new();
    assert!(b.position_at_end(Block::new()).is_none());
    b.build_return(&CValue::Bool(true));
    let displaced = b.position_at_end(Block::new());
    assert_eq!(displaced.unwrap().emit_c(), "{\n\treturn true;\n}\n");
    let fresh = b.take_block().unwrap();
    assert_eq!(fresh.emit_c(), "{\n}\n");
}

#[test]
fn module_name_is_kept() {
    let m = Module::new("demo");
    assert_eq!(m.name(), "demo");
}

#[test]
fn includes_render_system_before_local_in_call_order() {
    let mut m = Module::new("demo");
    m.add_include("local_one.h", true);
    m.add_include("stdio.h", false);
    m.add_include("stdlib.h", false);
    m.add_include("local_two.h", true);
    let source = m.emit_c();
    assert_eq!(
        source,
        "#include <stdio.h>\n#include <stdlib.h>\n#include \"local_one.h\"\n#include \"local_two.h\"\n\n"
    );
}

#[test]
fn source_emits_functions_in_registration_order() {
    let mut m = Module::new("demo");
    m.add_function("b", &CType::Void, None, false, false);
    m.add_function("a", &CType::Void, None, false, false);
    assert_eq!(m.emit_c(), "\nvoid b(void);void a(void);");
}

#[test]
fn header_excludes_static_and_main() {
    let mut m = Module::new("demo");
    m.add_function("foo", &CType::Int(32), None, false, false);
    m.add_function("main", &CType::Int(32), None, false, false);
    m.add_function("helper", &CType::Void, None, false, true);
    let header = m.emit_h();
    assert_eq!(
        header,
        "#ifndef DEMO_H\n#define DEMO_H\n\n\nint foo(void);\n\n#endif // DEMO_H\n"
    );
}

#[test]
fn rendering_twice_is_byte_identical() {
    let mut m = Module::new("demo");
    m.add_include("stdio.h", false);
    let i = m.add_function("foo", &CType::Int(32), Some(vec![CType::Bool]), false, false);
    let mut body = Block::new();
    body.add_line("return 1;");
    m.set_block(i, body);
    assert_eq!(m.emit_h(), m.emit_h());
    assert_eq!(m.emit_c(), m.emit_c());
}

#[test]
fn end_to_end_hello_world_source() {
    let mut m = Module::new("m");
    m.add_include("stdio.h", false);
    let printf_idx = m.add_function(
        "printf",
        &CType::Int(32),
        Some(vec![CType::Char.as_ptr()]),
        true,
        false,
    );
    let main_idx = m.add_function("main", &CType::Int(32), None, false, false);
    let mut b = Builder::new();
    b.position_at_end(Block::new());
    let cv = b.build_call(
        &m.functions[printf_idx],
        vec![CValue::StringLiteral("hi".to_string())],
        None,
    );
    assert_eq!(cv.value().to_string(), "int");
    b.build_return(&CValue::Int(32, 0));
    let body = b.take_block().unwrap();
    m.set_block(main_idx, body);

    let source = m.emit_c();
    assert_eq!(
        source,
        "#include <stdio.h>\n\nint printf(*char, ...);int main(void) {\n\tprintf(\"hi\");\n\treturn 0;\n}\n"
    );

    let include_at = source.find("#include <stdio.h>\n").unwrap();
    let blank_at = source.find("\n\n").unwrap();
    let sig_at = source.find("int main(void)").unwrap();
    let open_at = source.find('{').unwrap();
    let call_at = source.find("\tprintf(\"hi\");\n").unwrap();
    let ret_at = source.find("\treturn 0;\n").unwrap();
    let close_at = source.rfind('}').unwrap();
    assert!(include_at < blank_at);
    assert!(blank_at < sig_at);
    assert!(sig_at < open_at);
    assert!(open_at < call_at);
    assert!(call_at < ret_at);
    assert!(ret_at < close_at);

    let header = m.emit_h();
    assert_eq!(
        header,
        "#ifndef M_H\n#define M_H\n\n#include <stdio.h>\n\nint printf(*char, ...);\n\n#endif // M_H\n"
    );
}
