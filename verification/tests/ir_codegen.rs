use grid_kernel::ir_backends::{CSharpBackend, GoBackend, JavascriptBackend, LanguageBackend, PythonBackend};
use grid_kernel::ir_codegen::{
    generate_rust_code, BinaryOperator, IRFunction, IRModule, IRNode, IRResult, UnaryOperator, Value,
};

const HEADER: &str = "#![deny(unsafe_code)]\n\nuse std::collections::HashMap;\nuse crate::universal_frontend::{Value, IRInput, IRResult};\nuse crate::sovereign_bus::SovereignMessage;\n\n";
const DEFAULT_RESULT: &str = "    IRResult { value: Value::Int(0), bus_messages: vec![] }\n";

fn var(name: &str) -> IRNode {
    IRNode::Variable(name.to_string())
}

fn function(name: &str, params: &[&str], body: IRNode) -> IRFunction {
    IRFunction { name: name.to_string(), parameters: params.iter().map(|p| p.to_string()).collect(), body }
}

fn wrap_function(name: &str, params_code: &str, body_code: &str) -> String {
    format!(
        "fn {name}(input: &IRInput) -> IRResult {{\n    let mut locals: HashMap<String, Value> = HashMap::new();\n{params_code}{body_code}{DEFAULT_RESULT}}}\n"
    )
}

#[test]
fn empty_module_executes_default_result() {
    let module = IRModule { functions: vec![], constants: vec![] };
    let expected = format!("{HEADER}\npub fn execute(input: IRInput) -> IRResult {{\n{DEFAULT_RESULT}}}\n");
    assert_eq!(generate_rust_code(&module), expected);
}

#[test]
fn constants_are_upper_cased_and_rendered() {
    let module = IRModule {
        functions: vec![],
        constants: vec![
            ("max_load".to_string(), Value::Int(-5)),
            ("enabled".to_string(), Value::Bool(false)),
            ("label".to_string(), Value::String("grid".to_string())),
            ("ratio".to_string(), Value::Float("0.25".to_string())),
        ],
    };
    let expected = format!(
        "{HEADER}const MAX_LOAD: Value = Value::Int(-5);\nconst ENABLED: Value = Value::Bool(false);\nconst LABEL: Value = Value::String(\"grid\".to_string());\nconst RATIO: Value = Value::Float(0.25);\n\npub fn execute(input: IRInput) -> IRResult {{\n{DEFAULT_RESULT}}}\n"
    );
    assert_eq!(generate_rust_code(&module), expected);
}

#[test]
fn assignment_and_return_render_with_parameters() {
    let body = IRNode::Block(vec![
        IRNode::Assign(
            "y".to_string(),
            Box::new(IRNode::BinaryOp(Box::new(var("x")), BinaryOperator::Add, Box::new(IRNode::Constant(Value::Int(1))))),
        ),
        IRNode::Return(Box::new(var("y"))),
    ]);
    let module = IRModule { functions: vec![function("main", &["x"], body)], constants: vec![] };
    let params = "    if let Some(val) = input.args.get(\"x\") {\n        locals.insert(\"x\".to_string(), val.clone());\n    }\n";
    let body_code = "    let temp = Value::Int(1);\n    let temp = locals.get(\"x\").cloned().unwrap_or(Value::Int(0)) + temp;\n    locals.insert(\"y\".to_string(), temp);\n    return IRResult { value: locals.get(\"y\").cloned().unwrap_or(Value::Int(0)), bus_messages: vec![] };\n";
    let expected = format!(
        "{HEADER}\n{}\npub fn execute(input: IRInput) -> IRResult {{\n    main(&input)\n}}\n",
        wrap_function("main", params, body_code)
    );
    assert_eq!(generate_rust_code(&module), expected);
}

#[test]
fn branches_and_loops_indent_one_level_deeper() {
    let branch = IRNode::If(
        Box::new(IRNode::Constant(Value::Bool(true))),
        Box::new(IRNode::Return(Box::new(IRNode::Constant(Value::String("a".to_string()))))),
        Box::new(IRNode::Block(vec![])),
    );
    let looped = IRNode::Loop(
        "i".to_string(),
        Box::new(var("c")),
        Box::new(IRNode::UnaryOp(UnaryOperator::Not, Box::new(IRNode::Constant(Value::Float("2.5".to_string()))))),
    );
    let module = IRModule {
        functions: vec![function("f", &[], IRNode::Block(vec![branch, looped])), function("g", &[], IRNode::Block(vec![]))],
        constants: vec![],
    };
    let body_code = [
        "    let temp = Value::Bool(true);\n",
        "    if temp {\n",
        "        let temp = Value::String(\"a\".to_string());\n",
        "        return IRResult { value: temp, bus_messages: vec![] };\n",
        "    }} else {\n",
        "    }}\n",
        "    while locals.get(\"c\").cloned().unwrap_or(Value::Int(0)) {\n",
        "        let temp = Value::Float(2.5);\n",
        "        let temp = !temp;\n",
        "    }}\n",
    ].concat();
    let expected = format!(
        "{HEADER}\n{}\n{}\npub fn execute(input: IRInput) -> IRResult {{\n    f(&input)\n}}\n",
        wrap_function("f", "", &body_code),
        wrap_function("g", "", "")
    );
    assert_eq!(generate_rust_code(&module), expected);
}

#[test]
fn calls_join_argument_expressions() {
    let call = IRNode::Call(
        "sqrt".to_string(),
        vec![IRNode::Constant(Value::Int(4)), var("z"), IRNode::UnaryOp(UnaryOperator::Negate, Box::new(var("w")))],
    );
    let module = IRModule { functions: vec![function("h", &[], call)], constants: vec![] };
    let body_code = [
        "    let temp = Value::Int(4);\n",
        "    let temp = -locals.get(\"w\").cloned().unwrap_or(Value::Int(0));\n",
        "    let temp = sqrt_builtin(temp, locals.get(\"z\").cloned().unwrap_or(Value::Int(0)), temp);\n",
    ].concat();
    let expected = format!(
        "{HEADER}\n{}\npub fn execute(input: IRInput) -> IRResult {{\n    h(&input)\n}}\n",
        wrap_function("h", "", &body_code)
    );
    assert_eq!(generate_rust_code(&module), expected);
}

#[test]
fn every_binary_operator_has_its_symbol() {
    let ops = [
        (BinaryOperator::Subtract, "-"),
        (BinaryOperator::Multiply, "*"),
        (BinaryOperator::Divide, "/"),
        (BinaryOperator::Equal, "=="),
        (BinaryOperator::NotEqual, "!="),
        (BinaryOperator::Less, "<"),
        (BinaryOperator::LessEqual, "<="),
        (BinaryOperator::Greater, ">"),
        (BinaryOperator::GreaterEqual, ">="),
        (BinaryOperator::And, "&&"),
        (BinaryOperator::Or, "||"),
    ];
    for (op, symbol) in ops {
        let node = IRNode::BinaryOp(Box::new(var("a")), op, Box::new(var("b")));
        let module = IRModule { functions: vec![function("k", &[], node)], constants: vec![] };
        let line = format!(
            "    let temp = locals.get(\"a\").cloned().unwrap_or(Value::Int(0)) {symbol} locals.get(\"b\").cloned().unwrap_or(Value::Int(0));\n"
        );
        assert!(generate_rust_code(&module).contains(&line), "operator {symbol}");
    }
}

#[test]
fn backends_render_return_statements() {
    let module = IRModule { functions: vec![], constants: vec![] };
    let int = IRResult { value: Value::Int(42) };
    let boolean = IRResult { value: Value::Bool(true) };
    let float = IRResult { value: Value::Float("1.5".to_string()) };
    let text = IRResult { value: Value::String("hi".to_string()) };
    assert_eq!(PythonBackend.emit(&int, &module), "return 42");
    assert_eq!(PythonBackend.emit(&text, &module), "return \"hi\"");
    assert_eq!(JavascriptBackend.emit(&boolean, &module), "return true;");
    assert_eq!(JavascriptBackend.emit(&float, &module), "return 1.5;");
    assert_eq!(CSharpBackend.emit(&float, &module), "return 1.5f;");
    assert_eq!(CSharpBackend.emit(&int, &module), "return 42;");
    assert_eq!(GoBackend.emit(&float, &module), "return 1.5");
    assert_eq!(GoBackend.emit(&IRResult { value: Value::Int(-7) }, &module), "return -7");
}
