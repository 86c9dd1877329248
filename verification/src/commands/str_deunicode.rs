//! The command `str deunicode`: a string goes in, its transliteration into
//! ASCII comes out.

use crate::transliterate::{lemma_transliteration_idempotent, transliterate, transliteration};
use crate::value::{ShellError, ShellErrorView, Span, Value, ValueView};
use vstd::prelude::*;

verus! {

/// The type of a value, as a signature names it.
#[derive(Clone, Copy, Debug, PartialEq, Eq, Structural)]
pub enum Type {
    String,
}

/// The group of commands that a command is listed under.
#[derive(Clone, Copy, Debug, PartialEq, Eq, Structural)]
pub enum Category {
    Strings,
}

/// What a command is called and what it takes and gives.
#[derive(Debug)]
pub struct Signature {
    /// The command's name.
    pub name: String,
    /// The types of input that the command takes, each with the type of
    /// output that it gives for it.
    pub input_output_types: Vec<(Type, Type)>,
    /// The group that the command is listed under.
    pub category: Category,
}

/// A use of a command, for its documentation.
#[derive(Debug)]
pub struct Example {
    /// What the example shows.
    pub description: &'static str,
    /// The command line.
    pub example: &'static str,
    /// What the command line evaluates to.
    pub result: Option<Value>,
}

/// A call of a command.
#[derive(Clone, Copy, Debug, PartialEq, Eq, Structural)]
pub struct EvaluatedCall {
    /// Where the command was called.
    pub head: Span,
}

/// A failure of a command as a whole, with its message.
#[derive(Debug, PartialEq, Eq)]
pub struct LabeledError {
    pub msg: String,
}

/// The command `str deunicode`.
pub struct StrDeunicode;

/// What the command gives for `input` when called at `head`.
///
/// A string becomes its transliteration, at `head`. A failure stays as it
/// is. Any other value becomes a failure at `head` that names the type
/// `string` as the one the command takes, and the type of the input.
pub open spec fn deunicode_value(input: ValueView, head: Span) -> ValueView {
    match input {
        ValueView::String { val, .. } => ValueView::String {
            val: transliteration(val),
            span: head,
        },
        ValueView::Error { .. } => input,
        ValueView::Other { ty, span } => ValueView::Error {
            error: ShellErrorView::OnlySupportsThisInputType {
                exp_input_type: "string"@,
                wrong_type: ty,
                dst_span: head,
                src_span: span,
            },
            span: head,
        },
    }
}

/// Running the command on what it gave, at the same place, changes nothing.
pub proof fn lemma_deunicode_value_idempotent(input: ValueView, head: Span)
    ensures
        deunicode_value(deunicode_value(input, head), head) == deunicode_value(input, head),
{
    if let ValueView::String { val, .. } = input {
        lemma_transliteration_idempotent(val);
    }
}

/// Applies the command to `input`, for a call at `head`.
pub fn do_deunicode(input: &Value, head: Span) -> (r: Value)
    ensures
        r@ == deunicode_value(input@, head),
{
    match input {
        Value::String { val, .. } => Value::string(transliterate(val.as_str()), head),
        Value::Error { .. } => input.clone(),
        Value::Other { ty, span } => Value::error(
            ShellError::OnlySupportsThisInputType {
                exp_input_type: "string".to_owned(),
                wrong_type: ty.clone(),
                dst_span: head,
                src_span: *span,
            },
            head,
        ),
    }
}

impl StrDeunicode {
    /// The name that the command goes by.
    pub fn name(&self) -> (r: &'static str)
        ensures
            r@ == "str deunicode"@,
    {
        "str deunicode"
    }

    /// The command's signature: it goes by its name, takes a string, gives
    /// a string, and is listed with the commands on strings.
    pub fn signature(&self) -> (r: Signature)
        ensures
            r.name@ == "str deunicode"@,
            r.input_output_types@ == seq![(Type::String, Type::String)],
            r.category == Category::Strings,
    {
        Signature {
            name: self.name().to_owned(),
            input_output_types: vec![(Type::String, Type::String)],
            category: Category::Strings,
        }
    }

    /// What the command does, in a sentence.
    pub fn description(&self) -> (r: &'static str)
        ensures
            r@ == "Convert Unicode string to pure ASCII."@,
    {
        "Convert Unicode string to pure ASCII."
    }

    /// The words that the command is found by.
    pub fn search_terms(&self) -> (r: Vec<&'static str>)
        ensures
            r@.len() == 2,
            r@[0]@ == "convert"@,
            r@[1]@ == "ascii"@,
    {
        vec!["convert", "ascii"]
    }

    /// The uses of the command that its documentation shows.
    pub fn examples(&self) -> (r: Vec<Example>)
        ensures
            r@.len() == 1,
            r@[0].description@ == "deunicode a string"@,
            r@[0].example@ == "'A\u{2026}C' | str deunicode"@,
            r@[0].result matches Some(v) && v@ == (ValueView::String {
                val: "A...C"@,
                span: Span::spec_test_data(),
            }),
    {
        vec![
            Example {
                description: "deunicode a string",
                example: "'A\u{2026}C' | str deunicode",
                result: Some(Value::test_string("A...C")),
            },
        ]
    }

    /// Runs the command on `input`. The call never fails as a whole: what
    /// goes wrong with the input is in the value that comes back.
    pub fn run(&self, call: &EvaluatedCall, input: &Value) -> (r: Result<Value, LabeledError>)
        ensures
            r matches Ok(v) && v@ == deunicode_value(input@, call.head),
    {
        Ok(do_deunicode(input, call.head))
    }
}

} // verus!
