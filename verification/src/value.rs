//! The values that a command is handed and hands back, as far as the
//! command looks into them.

use vstd::prelude::*;

verus! {

/// A stretch of source text, from `start` up to `end`.
#[derive(Clone, Copy, Debug, PartialEq, Eq, Structural)]
pub struct Span {
    pub start: usize,
    pub end: usize,
}

impl Span {
    /// The span from `start` up to `end`.
    pub fn new(start: usize, end: usize) -> (r: Span)
        ensures
            r == (Span { start, end }),
    {
        Span { start, end }
    }

    /// The span that test data carries. It points into no source.
    pub open spec fn spec_test_data() -> Span {
        Span { start: (usize::MAX / 2) as usize, end: (usize::MAX / 2) as usize }
    }

    /// Returns the span that test data carries.
    pub fn test_data() -> (r: Span)
        ensures
            r == Span::spec_test_data(),
    {
        Span { start: usize::MAX / 2, end: usize::MAX / 2 }
    }
}

/// A failure.
#[derive(Debug, PartialEq, Eq)]
pub enum ShellError {
    /// The input of a command was of a type that the command does not take.
    OnlySupportsThisInputType {
        /// The type that the command takes.
        exp_input_type: String,
        /// The type of the input.
        wrong_type: String,
        /// Where the command was called.
        dst_span: Span,
        /// Where the input came from.
        src_span: Span,
    },
    /// A failure of any other kind, of which only the message is kept.
    Other { msg: String },
}

/// What a [`ShellError`] holds.
pub ghost enum ShellErrorView {
    OnlySupportsThisInputType {
        exp_input_type: Seq<char>,
        wrong_type: Seq<char>,
        dst_span: Span,
        src_span: Span,
    },
    Other { msg: Seq<char> },
}

impl View for ShellError {
    type V = ShellErrorView;

    open spec fn view(&self) -> ShellErrorView {
        match self {
            ShellError::OnlySupportsThisInputType {
                exp_input_type,
                wrong_type,
                dst_span,
                src_span,
            } => ShellErrorView::OnlySupportsThisInputType {
                exp_input_type: exp_input_type@,
                wrong_type: wrong_type@,
                dst_span: *dst_span,
                src_span: *src_span,
            },
            ShellError::Other { msg } => ShellErrorView::Other { msg: msg@ },
        }
    }
}

impl Clone for ShellError {
    fn clone(&self) -> (r: Self)
        ensures
            r@ == self@,
    {
        match self {
            ShellError::OnlySupportsThisInputType {
                exp_input_type,
                wrong_type,
                dst_span,
                src_span,
            } => ShellError::OnlySupportsThisInputType {
                exp_input_type: exp_input_type.clone(),
                wrong_type: wrong_type.clone(),
                dst_span: *dst_span,
                src_span: *src_span,
            },
            ShellError::Other { msg } => ShellError::Other { msg: msg.clone() },
        }
    }
}

/// A value, as a command that works on strings sees it.
#[derive(Debug, PartialEq, Eq)]
pub enum Value {
    /// A string.
    String { val: String, span: Span },
    /// A failure that runs through the pipeline in place of a value.
    Error { error: ShellError, span: Span },
    /// A value of any other type, of which only the type's name is kept.
    Other { ty: String, span: Span },
}

/// What a [`Value`] holds.
pub ghost enum ValueView {
    String { val: Seq<char>, span: Span },
    Error { error: ShellErrorView, span: Span },
    Other { ty: Seq<char>, span: Span },
}

impl View for Value {
    type V = ValueView;

    open spec fn view(&self) -> ValueView {
        match self {
            Value::String { val, span } => ValueView::String { val: val@, span: *span },
            Value::Error { error, span } => ValueView::Error { error: error@, span: *span },
            Value::Other { ty, span } => ValueView::Other {
                ty: ty@,
                span: *span,
            },
        }
    }
}

impl Clone for Value {
    fn clone(&self) -> (r: Self)
        ensures
            r@ == self@,
    {
        match self {
            Value::String { val, span } => Value::String { val: val.clone(), span: *span },
            Value::Error { error, span } => Value::Error { error: error.clone(), span: *span },
            Value::Other { ty, span } => Value::Other {
                ty: ty.clone(),
                span: *span,
            },
        }
    }
}

impl Value {
    /// The string `val`, with the span `span`.
    pub fn string(val: String, span: Span) -> (r: Value)
        ensures
            r@ == (ValueView::String { val: val@, span }),
    {
        Value::String { val, span }
    }

    /// The failure `error`, with the span `span`.
    pub fn error(error: ShellError, span: Span) -> (r: Value)
        ensures
            r@ == (ValueView::Error { error: error@, span }),
    {
        Value::Error { error, span }
    }

    /// The string `val` as test data.
    pub fn test_string(val: &str) -> (r: Value)
        ensures
            r@ == (ValueView::String { val: val@, span: Span::spec_test_data() }),
    {
        Value::String { val: val.to_owned(), span: Span::test_data() }
    }

    /// The span of the value.
    pub open spec fn spec_span(&self) -> Span {
        match self {
            Value::String { span, .. } => *span,
            Value::Error { span, .. } => *span,
            Value::Other { span, .. } => *span,
        }
    }

    /// Returns the span of the value.
    pub fn span(&self) -> (r: Span)
        ensures
            r == self.spec_span(),
    {
        match self {
            Value::String { span, .. } => *span,
            Value::Error { span, .. } => *span,
            Value::Other { span, .. } => *span,
        }
    }
}

} // verus!
