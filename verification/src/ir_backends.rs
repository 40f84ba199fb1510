//! Output re-emission: renders an execution result as a `return` statement in
//! the caller's language.

use vstd::prelude::*;
use crate::text::{push_str, push_signed_decimal, signed_decimal};
use crate::ir_codegen::{IRModule, IRResult, Value, bool_literal};

verus! {

/// The text of `v` as a literal of the caller's language (strings in double quotes).
pub open spec fn value_literal_text(v: Value) -> Seq<char> {
    match v {
        Value::Int(i) => signed_decimal(i as int),
        Value::Float(f) => f@,
        Value::Bool(b) => bool_literal(b),
        Value::String(s) => "\""@ + s@ + "\""@,
    }
}

/// `return <value>`, the form of Python and Go.
pub open spec fn bare_return_text(v: Value) -> Seq<char> {
    "return "@ + value_literal_text(v)
}

/// `return <value>;`, the form of JavaScript.
pub open spec fn terminated_return_text(v: Value) -> Seq<char> {
    bare_return_text(v) + ";"@
}

/// The C# form: as JavaScript, with floating-point literals suffixed by `f`.
pub open spec fn csharp_return_text(v: Value) -> Seq<char> {
    match v {
        Value::Float(f) => "return "@ + f@ + "f;"@,
        _ => terminated_return_text(v),
    }
}

fn push_value_literal(s: &mut String, v: &Value)
    ensures
        final(s)@ == old(s)@ + value_literal_text(*v),
{
    match v {
        Value::Int(i) => push_signed_decimal(s, *i as i128),
        Value::Float(f) => push_str(s, f.as_str()),
        Value::Bool(b) => {
            if *b {
                push_str(s, "true");
            } else {
                push_str(s, "false");
            }
        },
        Value::String(t) => {
            push_str(s, "\"");
            push_str(s, t.as_str());
            push_str(s, "\"");
        },
    }
    assert(final(s)@ =~= old(s)@ + value_literal_text(*v));
}

fn bare_return(v: &Value) -> (res: String)
    ensures
        res@ == bare_return_text(*v),
{
    let mut s = String::from_str("return ");
    push_value_literal(&mut s, v);
    s
}

fn terminated_return(v: &Value) -> (res: String)
    ensures
        res@ == terminated_return_text(*v),
{
    let mut s = bare_return(v);
    push_str(&mut s, ";");
    s
}

/// A language into which execution results are rendered.
pub trait LanguageBackend {
    fn emit(&self, result: &IRResult, source_ir: &IRModule) -> String;
}

/// Python backend.
pub struct PythonBackend;

impl LanguageBackend for PythonBackend {
    fn emit(&self, result: &IRResult, _source_ir: &IRModule) -> (res: String)
        ensures
            res@ == bare_return_text(result.value),
    {
        bare_return(&result.value)
    }
}

/// JavaScript backend.
pub struct JavascriptBackend;

impl LanguageBackend for JavascriptBackend {
    fn emit(&self, result: &IRResult, _source_ir: &IRModule) -> (res: String)
        ensures
            res@ == terminated_return_text(result.value),
    {
        terminated_return(&result.value)
    }
}

/// C# backend.
pub struct CSharpBackend;

impl LanguageBackend for CSharpBackend {
    fn emit(&self, result: &IRResult, _source_ir: &IRModule) -> (res: String)
        ensures
            res@ == csharp_return_text(result.value),
    {
        match &result.value {
            Value::Float(f) => {
                let mut s = String::from_str("return ");
                push_str(&mut s, f.as_str());
                push_str(&mut s, "f;");
                s
            },
            _ => terminated_return(&result.value),
        }
    }
}

/// Go backend.
pub struct GoBackend;

impl LanguageBackend for GoBackend {
    fn emit(&self, result: &IRResult, _source_ir: &IRModule) -> (res: String)
        ensures
            res@ == bare_return_text(result.value),
    {
        bare_return(&result.value)
    }
}

} // verus!
