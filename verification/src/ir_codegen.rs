//! Deterministic IR and its rendering as Rust source text.
//!
//! An IR module is a list of named constants and a list of functions whose
//! bodies are expression trees. `generate_rust_code` renders a module as the
//! text of a Rust module that the sovereign kernel can compile; the rendering is
//! a pure function of the module, stated here as `rust_code_text`.

use vstd::prelude::*;
use crate::text::{push_str, push_signed_decimal, signed_decimal, to_uppercase, unicode_uppercase};

verus! {

/// A literal value of the IR.
#[derive(Clone, Debug)]
pub enum Value {
    Int(i64),
    /// A floating-point literal, held as the decimal text it is written with.
    Float(String),
    Bool(bool),
    String(String),
}

#[derive(Clone, Copy, Debug)]
pub enum BinaryOperator {
    Add,
    Subtract,
    Multiply,
    Divide,
    Equal,
    NotEqual,
    Less,
    LessEqual,
    Greater,
    GreaterEqual,
    And,
    Or,
}

#[derive(Clone, Copy, Debug)]
pub enum UnaryOperator {
    Not,
    Negate,
}

/// A node of an IR expression tree.
#[derive(Debug)]
pub enum IRNode {
    Constant(Value),
    Variable(String),
    BinaryOp(Box<IRNode>, BinaryOperator, Box<IRNode>),
    UnaryOp(UnaryOperator, Box<IRNode>),
    Call(String, Vec<IRNode>),
    If(Box<IRNode>, Box<IRNode>, Box<IRNode>),
    Loop(String, Box<IRNode>, Box<IRNode>),
    Assign(String, Box<IRNode>),
    Return(Box<IRNode>),
    Block(Vec<IRNode>),
}

#[derive(Debug)]
pub struct IRFunction {
    pub name: String,
    pub parameters: Vec<String>,
    pub body: IRNode,
}

#[derive(Debug)]
pub struct IRModule {
    pub functions: Vec<IRFunction>,
    pub constants: Vec<(String, Value)>,
}

/// Input for IR execution: argument values by parameter name, in order.
#[derive(Clone, Debug)]
pub struct IRInput {
    pub args: Vec<(String, Value)>,
}

/// Result of IR execution.
#[derive(Clone, Debug)]
pub struct IRResult {
    pub value: Value,
}

/// `n` levels of four-space indentation.
pub open spec fn indent_text(n: nat) -> Seq<char>
    decreases n,
{
    if n == 0 {
        Seq::empty()
    } else {
        indent_text((n - 1) as nat) + "    "@
    }
}

/// The text of a boolean literal.
pub open spec fn bool_literal(b: bool) -> Seq<char> {
    if b {
        "true"@
    } else {
        "false"@
    }
}

/// The Rust expression that constructs `v`.
pub open spec fn value_text(v: Value) -> Seq<char> {
    match v {
        Value::Int(i) => "Value::Int("@ + signed_decimal(i as int) + ")"@,
        Value::Float(f) => "Value::Float("@ + f@ + ")"@,
        Value::Bool(b) => "Value::Bool("@ + bool_literal(b) + ")"@,
        Value::String(s) => "Value::String(\""@ + s@ + "\".to_string())"@,
    }
}

pub open spec fn binary_operator_text(op: BinaryOperator) -> Seq<char> {
    match op {
        BinaryOperator::Add => "+"@,
        BinaryOperator::Subtract => "-"@,
        BinaryOperator::Multiply => "*"@,
        BinaryOperator::Divide => "/"@,
        BinaryOperator::Equal => "=="@,
        BinaryOperator::NotEqual => "!="@,
        BinaryOperator::Less => "<"@,
        BinaryOperator::LessEqual => "<="@,
        BinaryOperator::Greater => ">"@,
        BinaryOperator::GreaterEqual => ">="@,
        BinaryOperator::And => "&&"@,
        BinaryOperator::Or => "||"@,
    }
}

pub open spec fn unary_operator_text(op: UnaryOperator) -> Seq<char> {
    match op {
        UnaryOperator::Not => "!"@,
        UnaryOperator::Negate => "-"@,
    }
}

/// The expression through which the generated code refers to the value of `node`.
pub open spec fn node_var(node: IRNode) -> Seq<char> {
    match node {
        IRNode::Constant(_) => "temp"@,
        IRNode::Variable(name) => "locals.get(\""@ + name@ + "\").cloned().unwrap_or(Value::Int(0))"@,
        IRNode::BinaryOp(..) => "temp"@,
        IRNode::UnaryOp(..) => "temp"@,
        IRNode::Call(..) => "temp"@,
        IRNode::Assign(var, _) => var@,
        _ => "Value::Int(0)"@,
    }
}

/// The names through which the generated code refers to each node of `s`.
pub open spec fn seq_vars(s: Seq<IRNode>) -> Seq<Seq<char>> {
    s.map_values(|n: IRNode| node_var(n))
}

/// The texts of the strings of `v`.
pub open spec fn string_views(v: Seq<String>) -> Seq<Seq<char>> {
    v.map_values(|p: String| p@)
}

/// The parts joined with `sep` between consecutive ones.
pub open spec fn join_text(parts: Seq<Seq<char>>, sep: Seq<char>) -> Seq<char>
    decreases parts.len(),
{
    if parts.len() == 0 {
        Seq::empty()
    } else if parts.len() == 1 {
        parts[0]
    } else {
        join_text(parts.drop_last(), sep) + sep + parts.last()
    }
}

/// The statements generated for `node` at indentation level `lvl`.
pub open spec fn node_code(node: IRNode, lvl: nat) -> Seq<char>
    decreases node,
{
    let ind = indent_text(lvl);
    match node {
        IRNode::Constant(v) => ind + "let temp = "@ + value_text(v) + ";\n"@,
        IRNode::Variable(_) => Seq::empty(),
        IRNode::BinaryOp(l, op, r) => node_code(*l, lvl) + node_code(*r, lvl) + ind + "let temp = "@
            + node_var(*l) + " "@ + binary_operator_text(op) + " "@ + node_var(*r) + ";\n"@,
        IRNode::UnaryOp(op, e) => node_code(*e, lvl) + ind + "let temp = "@ + unary_operator_text(op)
            + node_var(*e) + ";\n"@,
        IRNode::Call(f, args) => seq_code(args@, lvl) + ind + "let temp = "@ + f@ + "_builtin("@
            + join_text(seq_vars(args@), ", "@) + ");\n"@,
        IRNode::If(c, t, e) => node_code(*c, lvl) + ind + "if "@ + node_var(*c) + " {\n"@
            + node_code(*t, lvl + 1) + ind + "}"@ + "} else {\n"@ + node_code(*e, lvl + 1) + ind
            + "}"@ + "}\n"@,
        IRNode::Loop(_, c, b) => node_code(*c, lvl) + ind + "while "@ + node_var(*c) + " {\n"@
            + node_code(*b, lvl + 1) + ind + "}"@ + "}\n"@,
        IRNode::Assign(var, e) => node_code(*e, lvl) + ind + "locals.insert(\""@ + var@
            + "\".to_string(), "@ + node_var(*e) + ");\n"@,
        IRNode::Return(e) => node_code(*e, lvl) + ind + "return IRResult { value: "@ + node_var(*e)
            + ", bus_messages: vec![] };\n"@,
        IRNode::Block(nodes) => seq_code(nodes@, lvl),
    }
}

/// The statements generated for each node of `s` in turn, all at level `lvl`.
pub open spec fn seq_code(s: Seq<IRNode>, lvl: nat) -> Seq<char>
    decreases s,
{
    if s.len() == 0 {
        Seq::empty()
    } else {
        seq_code(s.subrange(0, s.len() - 1), lvl) + node_code(s[s.len() - 1], lvl)
    }
}

/// How many indentation levels `node` adds below its own.
pub open spec fn node_depth(node: IRNode) -> nat
    decreases node,
{
    match node {
        IRNode::BinaryOp(l, _, r) => vstd::math::max(node_depth(*l) as int, node_depth(*r) as int) as nat,
        IRNode::UnaryOp(_, e) => node_depth(*e),
        IRNode::Call(_, args) => seq_depth(args@),
        IRNode::If(c, t, e) => vstd::math::max(
            node_depth(*c) as int,
            1 + vstd::math::max(node_depth(*t) as int, node_depth(*e) as int),
        ) as nat,
        IRNode::Loop(_, c, b) => vstd::math::max(node_depth(*c) as int, 1 + node_depth(*b) as int) as nat,
        IRNode::Assign(_, e) => node_depth(*e),
        IRNode::Return(e) => node_depth(*e),
        IRNode::Block(nodes) => seq_depth(nodes@),
        _ => 0,
    }
}

/// The greatest depth of the nodes of `s`.
pub open spec fn seq_depth(s: Seq<IRNode>) -> nat
    decreases s,
{
    if s.len() == 0 {
        0
    } else {
        vstd::math::max(
            seq_depth(s.subrange(0, s.len() - 1)) as int,
            node_depth(s[s.len() - 1]) as int,
        ) as nat
    }
}

proof fn lemma_seq_depth_bounds(s: Seq<IRNode>, i: int)
    requires
        0 <= i < s.len(),
    ensures
        node_depth(s[i]) <= seq_depth(s),
    decreases s.len(),
{
    if i < s.len() - 1 {
        lemma_seq_depth_bounds(s.subrange(0, s.len() - 1), i);
    }
}

/// `n` levels of indentation.
fn indent(n: usize) -> (res: String)
    ensures
        res@ == indent_text(n as nat),
{
    let mut s = String::new();
    let mut i: usize = 0;
    while i < n
        invariant
            i <= n,
            s@ == indent_text(i as nat),
        decreases n - i,
    {
        push_str(&mut s, "    ");
        i += 1;
    }
    s
}

fn push_value_text(s: &mut String, v: &Value)
    ensures
        final(s)@ == old(s)@ + value_text(*v),
{
    match v {
        Value::Int(i) => {
            push_str(s, "Value::Int(");
            push_signed_decimal(s, *i as i128);
            push_str(s, ")");
        },
        Value::Float(f) => {
            push_str(s, "Value::Float(");
            push_str(s, f.as_str());
            push_str(s, ")");
        },
        Value::Bool(b) => {
            push_str(s, "Value::Bool(");
            if *b {
                push_str(s, "true");
            } else {
                push_str(s, "false");
            }
            push_str(s, ")");
        },
        Value::String(t) => {
            push_str(s, "Value::String(\"");
            push_str(s, t.as_str());
            push_str(s, "\".to_string())");
        },
    }
    assert(final(s)@ =~= old(s)@ + value_text(*v));
}

fn binary_operator_str(op: BinaryOperator) -> (res: &'static str)
    ensures
        res@ == binary_operator_text(op),
{
    match op {
        BinaryOperator::Add => "+",
        BinaryOperator::Subtract => "-",
        BinaryOperator::Multiply => "*",
        BinaryOperator::Divide => "/",
        BinaryOperator::Equal => "==",
        BinaryOperator::NotEqual => "!=",
        BinaryOperator::Less => "<",
        BinaryOperator::LessEqual => "<=",
        BinaryOperator::Greater => ">",
        BinaryOperator::GreaterEqual => ">=",
        BinaryOperator::And => "&&",
        BinaryOperator::Or => "||",
    }
}

fn unary_operator_str(op: UnaryOperator) -> (res: &'static str)
    ensures
        res@ == unary_operator_text(op),
{
    match op {
        UnaryOperator::Not => "!",
        UnaryOperator::Negate => "-",
    }
}

/// The parts joined with `sep`.
fn join(parts: &Vec<String>, sep: &str) -> (res: String)
    ensures
        res@ == join_text(string_views(parts@), sep@),
{
    let ghost views = string_views(parts@);
    let mut s = String::new();
    let mut i: usize = 0;
    while i < parts.len()
        invariant
            i <= parts.len(),
            views == string_views(parts@),
            s@ == join_text(views.take(i as int), sep@),
        decreases parts.len() - i,
    {
        proof {
            assert(views.take(i + 1).drop_last() =~= views.take(i as int));
        }
        if i > 0 {
            push_str(&mut s, sep);
        } else {
            assert(s@ =~= Seq::<char>::empty());
        }
        push_str(&mut s, parts[i].as_str());
        proof {
            assert(views.take(i + 1).last() == parts@[i as int]@);
            if i == 0 {
                assert(s@ =~= views.take(1)[0]);
            }
        }
        i += 1;
    }
    assert(views.take(parts.len() as int) =~= views);
    s
}

/// The code generated for `node` at indentation level `indent_level`, and the
/// expression through which that code's value is referred to.
fn generate_node(node: &IRNode, indent_level: usize) -> (res: (String, String))
    requires
        indent_level + node_depth(*node) <= usize::MAX,
    ensures
        res.0@ == node_code(*node, indent_level as nat),
        res.1@ == node_var(*node),
    decreases node,
{
    let ind = indent(indent_level);
    let lvl = Ghost(indent_level as nat);
    match node {
        IRNode::Constant(val) => {
            let mut code = ind;
            push_str(&mut code, "let temp = ");
            push_value_text(&mut code, val);
            push_str(&mut code, ";\n");
            (code, String::from_str("temp"))
        },
        IRNode::Variable(name) => {
            let mut var = String::from_str("locals.get(\"");
            push_str(&mut var, name.as_str());
            push_str(&mut var, "\").cloned().unwrap_or(Value::Int(0))");
            (String::new(), var)
        },
        IRNode::BinaryOp(left, op, right) => {
            let (left_code, left_var) = generate_node(left, indent_level);
            let (right_code, right_var) = generate_node(right, indent_level);
            let mut code = left_code;
            push_str(&mut code, right_code.as_str());
            push_str(&mut code, ind.as_str());
            push_str(&mut code, "let temp = ");
            push_str(&mut code, left_var.as_str());
            push_str(&mut code, " ");
            push_str(&mut code, binary_operator_str(*op));
            push_str(&mut code, " ");
            push_str(&mut code, right_var.as_str());
            push_str(&mut code, ";\n");
            (code, String::from_str("temp"))
        },
        IRNode::UnaryOp(op, expr) => {
            let (expr_code, expr_var) = generate_node(expr, indent_level);
            let mut code = expr_code;
            push_str(&mut code, ind.as_str());
            push_str(&mut code, "let temp = ");
            push_str(&mut code, unary_operator_str(*op));
            push_str(&mut code, expr_var.as_str());
            push_str(&mut code, ";\n");
            (code, String::from_str("temp"))
        },
        IRNode::Call(func_name, args) => {
            let mut arg_vars: Vec<String> = Vec::new();
            let mut code = String::new();
            let mut i: usize = 0;
            while i < args.len()
                invariant
                    i <= args.len(),
                    arg_vars.len() == i,
                    indent_level + seq_depth(args@) <= usize::MAX,
                    lvl@ == indent_level as nat,
                    code@ == seq_code(args@.take(i as int), lvl@),
                    string_views(arg_vars@) == seq_vars(args@.take(i as int)),
                    forall|k: int| 0 <= k < args.len() ==> decreases_to!(node => #[trigger] args@[k]),
                decreases args.len() - i,
            {
                proof {
                    lemma_seq_depth_bounds(args@, i as int);
                    assert(args@.take(i + 1).subrange(0, i as int) =~= args@.take(i as int));
                }
                let ghost before = arg_vars@;
                let (arg_code, arg_var) = generate_node(&args[i], indent_level);
                push_str(&mut code, arg_code.as_str());
                arg_vars.push(arg_var);
                proof {
                    assert(args@.take(i + 1)[i as int] == args@[i as int]);
                    assert(seq_code(args@.take(i + 1), lvl@) == seq_code(args@.take(i as int), lvl@)
                        + node_code(args@[i as int], lvl@));
                    assert forall|k: int| 0 <= k < i + 1 implies #[trigger] string_views(arg_vars@)[k]
                        == seq_vars(args@.take(i + 1))[k] by {
                        assert(arg_vars@ == before.push(arg_var));
                        assert(string_views(arg_vars@)[k] == arg_vars@[k]@);
                        assert(seq_vars(args@.take(i + 1))[k] == node_var(args@.take(i + 1)[k]));
                        if k < i {
                            assert(string_views(before)[k] == seq_vars(args@.take(i as int))[k]);
                            assert(string_views(before)[k] == before[k]@);
                            assert(seq_vars(args@.take(i as int))[k] == node_var(args@.take(i as int)[k]));
                        }
                    }
                    assert(string_views(arg_vars@) =~= seq_vars(args@.take(i + 1)));
                }
                i += 1;
            }
            proof {
                assert(args@.take(args.len() as int) =~= args@);
            }
            let args_str = join(&arg_vars, ", ");
            let mut code_full = code;
            push_str(&mut code_full, ind.as_str());
            push_str(&mut code_full, "let temp = ");
            push_str(&mut code_full, func_name.as_str());
            push_str(&mut code_full, "_builtin(");
            push_str(&mut code_full, args_str.as_str());
            push_str(&mut code_full, ");\n");
            (code_full, String::from_str("temp"))
        },
        IRNode::If(cond, then_branch, else_branch) => {
            let (cond_code, cond_var) = generate_node(cond, indent_level);
            let (then_code, _) = generate_node(then_branch, indent_level + 1);
            let (else_code, _) = generate_node(else_branch, indent_level + 1);
            let mut code = cond_code;
            push_str(&mut code, ind.as_str());
            push_str(&mut code, "if ");
            push_str(&mut code, cond_var.as_str());
            push_str(&mut code, " {\n");
            push_str(&mut code, then_code.as_str());
            push_str(&mut code, ind.as_str());
            push_str(&mut code, "}");
            push_str(&mut code, "} else {\n");
            push_str(&mut code, else_code.as_str());
            push_str(&mut code, ind.as_str());
            push_str(&mut code, "}");
            push_str(&mut code, "}\n");
            (code, String::from_str("Value::Int(0)"))
        },
        IRNode::Loop(_var, cond, body) => {
            let (cond_code, cond_var) = generate_node(cond, indent_level);
            let (body_code, _) = generate_node(body, indent_level + 1);
            let mut code = cond_code;
            push_str(&mut code, ind.as_str());
            push_str(&mut code, "while ");
            push_str(&mut code, cond_var.as_str());
            push_str(&mut code, " {\n");
            push_str(&mut code, body_code.as_str());
            push_str(&mut code, ind.as_str());
            push_str(&mut code, "}");
            push_str(&mut code, "}\n");
            (code, String::from_str("Value::Int(0)"))
        },
        IRNode::Assign(var, expr) => {
            let (expr_code, expr_var) = generate_node(expr, indent_level);
            let mut code = expr_code;
            push_str(&mut code, ind.as_str());
            push_str(&mut code, "locals.insert(\"");
            push_str(&mut code, var.as_str());
            push_str(&mut code, "\".to_string(), ");
            push_str(&mut code, expr_var.as_str());
            push_str(&mut code, ");\n");
            (code, var.clone())
        },
        IRNode::Return(expr) => {
            let (expr_code, expr_var) = generate_node(expr, indent_level);
            let mut code = expr_code;
            push_str(&mut code, ind.as_str());
            push_str(&mut code, "return IRResult { value: ");
            push_str(&mut code, expr_var.as_str());
            push_str(&mut code, ", bus_messages: vec![] };\n");
            (code, String::from_str("Value::Int(0)"))
        },
        IRNode::Block(nodes) => {
            let mut code = String::new();
            let mut i: usize = 0;
            while i < nodes.len()
                invariant
                    i <= nodes.len(),
                    indent_level + seq_depth(nodes@) <= usize::MAX,
                    lvl@ == indent_level as nat,
                    code@ == seq_code(nodes@.take(i as int), lvl@),
                    forall|k: int| 0 <= k < nodes.len() ==> decreases_to!(node => #[trigger] nodes@[k]),
                decreases nodes.len() - i,
            {
                proof {
                    lemma_seq_depth_bounds(nodes@, i as int);
                    assert(nodes@.take(i + 1).subrange(0, i as int) =~= nodes@.take(i as int));
                }
                let (node_code_part, _) = generate_node(&nodes[i], indent_level);
                push_str(&mut code, node_code_part.as_str());
                proof {
                    assert(nodes@.take(i + 1)[i as int] == nodes@[i as int]);
                    assert(seq_code(nodes@.take(i + 1), lvl@) == seq_code(nodes@.take(i as int), lvl@)
                        + node_code(nodes@[i as int], lvl@));
                }
                i += 1;
            }
            proof {
                assert(nodes@.take(nodes.len() as int) =~= nodes@);
            }
            (code, String::from_str("Value::Int(0)"))
        },
    }
}

/// The statements that copy each parameter of `params` from the input into the
/// function's locals.
pub open spec fn params_text(params: Seq<String>) -> Seq<char>
    decreases params.len(),
{
    if params.len() == 0 {
        Seq::empty()
    } else {
        params_text(params.drop_last()) + "    if let Some(val) = input.args.get(\""@ + params.last()@
            + "\") {\n"@ + "        locals.insert(\""@ + params.last()@ + "\".to_string(), val.clone());\n"@
            + "    }\n"@
    }
}

/// The closing line of every generated function and the empty `execute`.
pub open spec fn default_result_line() -> Seq<char> {
    "    IRResult { value: Value::Int(0), bus_messages: vec![] }\n"@
}

/// The Rust function generated for `f`.
pub open spec fn function_text(f: IRFunction) -> Seq<char> {
    "fn "@ + f.name@ + "(input: &IRInput) -> IRResult {\n"@
        + "    let mut locals: HashMap<String, Value> = HashMap::new();\n"@ + params_text(f.parameters@)
        + node_code(f.body, 1) + default_result_line() + "}\n"@
}

/// The constant declaration generated for `c`.
pub open spec fn constant_text(c: (String, Value)) -> Seq<char> {
    "const "@ + unicode_uppercase(c.0@) + ": Value = "@ + value_text(c.1) + ";\n"@
}

pub open spec fn constants_text(cs: Seq<(String, Value)>) -> Seq<char>
    decreases cs.len(),
{
    if cs.len() == 0 {
        Seq::empty()
    } else {
        constants_text(cs.drop_last()) + constant_text(cs.last())
    }
}

pub open spec fn functions_text(fs: Seq<IRFunction>) -> Seq<char>
    decreases fs.len(),
{
    if fs.len() == 0 {
        Seq::empty()
    } else {
        functions_text(fs.drop_last()) + function_text(fs.last()) + "\n"@
    }
}

/// The lines that open every generated module.
pub open spec fn module_header() -> Seq<char> {
    "#![deny(unsafe_code)]\n\n"@ + "use std::collections::HashMap;\n"@
        + "use crate::universal_frontend::{Value, IRInput, IRResult};\n"@
        + "use crate::sovereign_bus::SovereignMessage;\n\n"@
}

/// The Rust module generated for `m`: header, constants, functions, then an
/// `execute` entry point that calls the first function.
pub open spec fn rust_code_text(m: IRModule) -> Seq<char> {
    let fs = m.functions@;
    module_header() + constants_text(m.constants@) + "\n"@ + functions_text(fs)
        + "pub fn execute(input: IRInput) -> IRResult {\n"@ + (if fs.len() > 0 {
        "    "@ + fs[0].name@ + "(&input)\n"@
    } else {
        default_result_line()
    }) + "}\n"@
}

/// Every function body of `fs` can be rendered one level in.
pub open spec fn functions_renderable(fs: Seq<IRFunction>) -> bool {
    forall|i: int| 0 <= i < fs.len() ==> 1 + node_depth(#[trigger] fs[i].body) <= usize::MAX
}

/// Generate a single function.
fn generate_function(func: &IRFunction) -> (res: String)
    requires
        1 + node_depth(func.body) <= usize::MAX,
    ensures
        res@ == function_text(*func),
{
    let mut code = String::from_str("fn ");
    push_str(&mut code, func.name.as_str());
    push_str(&mut code, "(input: &IRInput) -> IRResult {\n");
    push_str(&mut code, "    let mut locals: HashMap<String, Value> = HashMap::new();\n");
    let ghost head = code@;
    let mut i: usize = 0;
    while i < func.parameters.len()
        invariant
            i <= func.parameters.len(),
            code@ == head + params_text(func.parameters@.take(i as int)),
        decreases func.parameters.len() - i,
    {
        let param = func.parameters[i].as_str();
        push_str(&mut code, "    if let Some(val) = input.args.get(\"");
        push_str(&mut code, param);
        push_str(&mut code, "\") {\n");
        push_str(&mut code, "        locals.insert(\"");
        push_str(&mut code, param);
        push_str(&mut code, "\".to_string(), val.clone());\n");
        push_str(&mut code, "    }\n");
        proof {
            assert(func.parameters@.take(i + 1).drop_last() =~= func.parameters@.take(i as int));
            assert(code@ =~= head + params_text(func.parameters@.take(i + 1)));
        }
        i += 1;
    }
    proof {
        assert(func.parameters@.take(func.parameters.len() as int) =~= func.parameters@);
    }
    let (body_code, _) = generate_node(&func.body, 1);
    push_str(&mut code, body_code.as_str());
    push_str(&mut code, "    IRResult { value: Value::Int(0), bus_messages: vec![] }\n");
    push_str(&mut code, "}\n");
    assert(code@ =~= function_text(*func));
    code
}

/// Generate deterministic Rust code from an IR module.
pub fn generate_rust_code(ir_module: &IRModule) -> (res: String)
    requires
        functions_renderable(ir_module.functions@),
    ensures
        res@ == rust_code_text(*ir_module),
{
    let mut code = String::new();
    push_str(&mut code, "#![deny(unsafe_code)]\n\n");
    push_str(&mut code, "use std::collections::HashMap;\n");
    push_str(&mut code, "use crate::universal_frontend::{Value, IRInput, IRResult};\n");
    push_str(&mut code, "use crate::sovereign_bus::SovereignMessage;\n\n");
    assert(code@ =~= module_header());
    let constants = &ir_module.constants;
    let mut i: usize = 0;
    while i < constants.len()
        invariant
            i <= constants.len(),
            code@ == module_header() + constants_text(constants@.take(i as int)),
        decreases constants.len() - i,
    {
        let (name, value) = &constants[i];
        push_str(&mut code, "const ");
        let upper = to_uppercase(name.as_str());
        push_str(&mut code, upper.as_str());
        push_str(&mut code, ": Value = ");
        push_value_text(&mut code, value);
        push_str(&mut code, ";\n");
        proof {
            assert(constants@.take(i + 1).drop_last() =~= constants@.take(i as int));
            assert(code@ =~= module_header() + constants_text(constants@.take(i + 1)));
        }
        i += 1;
    }
    proof {
        assert(constants@.take(constants.len() as int) =~= constants@);
    }
    push_str(&mut code, "\n");
    let ghost head = code@;
    let functions = &ir_module.functions;
    let mut j: usize = 0;
    while j < functions.len()
        invariant
            j <= functions.len(),
            functions_renderable(functions@),
            code@ == head + functions_text(functions@.take(j as int)),
        decreases functions.len() - j,
    {
        let text = generate_function(&functions[j]);
        push_str(&mut code, text.as_str());
        push_str(&mut code, "\n");
        proof {
            assert(functions@.take(j + 1).drop_last() =~= functions@.take(j as int));
            assert(code@ =~= head + functions_text(functions@.take(j + 1)));
        }
        j += 1;
    }
    proof {
        assert(functions@.take(functions.len() as int) =~= functions@);
    }
    push_str(&mut code, "pub fn execute(input: IRInput) -> IRResult {\n");
    if functions.len() > 0 {
        push_str(&mut code, "    ");
        push_str(&mut code, functions[0].name.as_str());
        push_str(&mut code, "(&input)\n");
    } else {
        push_str(&mut code, "    IRResult { value: Value::Int(0), bus_messages: vec![] }\n");
    }
    push_str(&mut code, "}\n");
    assert(code@ =~= rust_code_text(*ir_module));
    code
}

} // verus!
