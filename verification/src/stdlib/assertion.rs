//! `assert`: abort the program unless a condition holds.

use crate::compiler::expression::{ExpressionError, Resolved};
use crate::diagnostic::Span;
use crate::stdlib::util::{from_utf8_lossy, utf8_lossy};
use crate::compiler::function::{Category, Example, Parameter};
use crate::value::kind::{kind_of, BOOLEAN, BYTES};
use crate::value::{Value, ValueView};
use vstd::prelude::*;

verus! {

/// The message of a failed assertion that has no message of its own: the
/// source text of the condition after `assertion failed: `, or just
/// `assertion failed` when the text is not known.
pub open spec fn default_message(format: Option<Seq<char>>) -> Seq<char> {
    match format {
        Some(f) => "assertion failed: "@ + f,
        None => "assertion failed"@,
    }
}

/// A failed assertion without a message of its own says `assertion failed`,
/// followed by `: ` and the condition's source text when that is known.
pub proof fn law_default_message(format: Option<Seq<char>>)
    ensures
        format is None ==> default_message(format) == seq![
            'a', 's', 's', 'e', 'r', 't', 'i', 'o', 'n', ' ', 'f', 'a', 'i', 'l', 'e', 'd',
        ],
        format matches Some(f) ==> default_message(format) == seq![
            'a', 's', 's', 'e', 'r', 't', 'i', 'o', 'n', ' ', 'f', 'a', 'i', 'l', 'e', 'd', ':', ' ',
        ] + f,
{
    reveal_strlit("assertion failed");
    reveal_strlit("assertion failed: ");
    if let Some(f) = format {
        assert(default_message(format) =~= seq![
            'a', 's', 's', 'e', 'r', 't', 'i', 'o', 'n', ' ', 'f', 'a', 'i', 'l', 'e', 'd', ':', ' ',
        ] + f);
    } else {
        assert(default_message(format) =~= seq![
            'a', 's', 's', 'e', 'r', 't', 'i', 'o', 'n', ' ', 'f', 'a', 'i', 'l', 'e', 'd',
        ]);
    }
}

/// What `assert` resolves to when its condition is `false`.
pub open spec fn failed_assertion(message: Option<ValueView>, format: Option<Seq<char>>, span: Span, r: Resolved) -> bool {
    match message {
        Some(ValueView::Bytes(b)) => r matches Err(ExpressionError::Abort { span: s, message: Some(m) })
            && s == span && m@ == utf8_lossy(b),
        Some(m) => r == Err::<Value, ExpressionError>(ExpressionError::Expected { got: kind_of(m), expected: BYTES }),
        None => r matches Err(ExpressionError::Abort { span: s, message: Some(m) }) && s == span && m@
            == default_message(format),
    }
}

pub open spec fn view_opt_value(v: Option<Value>) -> Option<ValueView> {
    match v {
        Some(v) => Some(v@),
        None => None,
    }
}

pub open spec fn view_opt_string(s: Option<String>) -> Option<Seq<char>> {
    match s {
        Some(s) => Some(s@),
        None => None,
    }
}

/// `assert(condition, message)`: `true` when the condition is `true`;
/// otherwise an abort at `span` with `message` (read as UTF-8, invalid bytes
/// replaced) or the default message built from `format`, the source text of
/// the condition. A condition that is not a boolean, or a message that is not
/// bytes, is an error of kind.
pub fn assert_condition(condition: Value, message: Option<Value>, format: Option<String>, span: Span) -> (r: Resolved)
    ensures
        match condition@ {
            ValueView::Boolean(true) => r matches Ok(v) && v@ == ValueView::Boolean(true),
            ValueView::Boolean(false) => failed_assertion(view_opt_value(message), view_opt_string(format), span, r),
            c => r == Err::<Value, ExpressionError>(ExpressionError::Expected { got: kind_of(c), expected: BOOLEAN }),
        },
{
    let holds = match &condition {
        Value::Boolean(b) => *b,
        other => {
            return Err(ExpressionError::Expected { got: other.kind(), expected: BOOLEAN });
        },
    };
    if holds {
        return Ok(Value::Boolean(true));
    }
    let text = match message {
        Some(m) => match &m {
            Value::Bytes(b) => from_utf8_lossy(b.as_slice()),
            other => {
                return Err(ExpressionError::Expected { got: other.kind(), expected: BYTES });
            },
        },
        None => match format {
            Some(string) => {
                let prefix = "assertion failed: ";
                let mut t = String::from_str(prefix);
                t.append(string.as_str());
                t
            },
            None => String::from_str("assertion failed"),
        },
    };
    Err(ExpressionError::Abort { span, message: Some(text) })
}

/// The `assert` function of the standard library.
#[derive(Clone, Copy, Debug)]
pub struct Assert;

/// What `assert` does, as its documentation says it.
pub const ASSERT_USAGE: &'static str = "Asserts the `condition`, which must be a Boolean expression. The program is aborted with `message` if the condition evaluates to `false`.";

pub const ASSERT_NOTICE: &'static str = "The `assert` function should be used in a standalone fashion and only when you want\nto abort the program. You should avoid it in logical expressions and other situations\nin which you want the program to continue if the condition evaluates to `false`.\n";

pub const ASSERT_FAILURE: &'static str = "`condition` evaluates to `false`.";

impl Assert {
    /// The name programs call the function by.
    pub fn identifier(&self) -> (r: &'static str)
        ensures
            r@ == "assert"@,
    {
        "assert"
    }

    /// What the function does.
    pub fn usage(&self) -> (r: &'static str)
        ensures
            r == ASSERT_USAGE,
    {
        ASSERT_USAGE
    }

    /// The category the function is listed under.
    pub fn category(&self) -> (r: &'static str)
        ensures
            r@ == "Debug"@,
    {
        Category::Debug.as_ref()
    }

    /// Why a call with arguments of the right kinds can still fail.
    pub fn internal_failure_reasons(&self) -> (r: Vec<&'static str>)
        ensures
            r@ == seq![ASSERT_FAILURE],
    {
        let mut r: Vec<&'static str> = Vec::new();
        r.push(ASSERT_FAILURE);
        r
    }

    /// The kinds of value the function resolves to.
    pub fn return_kind(&self) -> (r: u16)
        ensures
            r == BOOLEAN,
    {
        BOOLEAN
    }

    /// Advice on where the function belongs in a program.
    pub fn notices(&self) -> (r: Vec<&'static str>)
        ensures
            r@ == seq![ASSERT_NOTICE],
    {
        let mut r: Vec<&'static str> = Vec::new();
        r.push(ASSERT_NOTICE);
        r
    }

    /// Whether a call has no effect besides its result: an assertion can
    /// abort the program, so it is not pure.
    pub fn pure(&self) -> (r: bool)
        ensures
            !r,
    {
        false
    }

    /// The parameters of the function.
    pub fn parameters(&self) -> (r: Vec<Parameter>)
        ensures
            r@ == seq![Parameter { keyword: "condition", kind: BOOLEAN, required: true, description: "The condition to check." }, Parameter { keyword: "message", kind: BYTES, required: false, description: "An optional custom error message. If the equality assertion fails, `message` is\nappended to the default message prefix. See the [examples](#assert-examples) below\nfor a fully formed log message sample." }],
    {
        let mut r: Vec<Parameter> = Vec::new();
        r.push(Parameter::required("condition", BOOLEAN, "The condition to check."));
        r.push(Parameter::optional("message", BYTES, "An optional custom error message. If the equality assertion fails, `message` is\nappended to the default message prefix. See the [examples](#assert-examples) below\nfor a fully formed log message sample."));
        r
    }

    /// Example programs that call the function.
    pub fn examples(&self) -> (r: Vec<Example>)
        ensures
            r@ == seq![(Example { title: "Assertion (true) - with message", source: "assert!(\"foo\" == \"foo\", message: \"\\\"foo\\\" must be \\\"foo\\\"!\")", result: Ok("true") }), (Example { title: "Assertion (false) - with message", source: "assert!(\"foo\" == \"bar\", message: \"\\\"foo\\\" must be \\\"foo\\\"!\")", result: Err("\"foo\" must be \"foo\"!") }), (Example { title: "Assertion (false) - simple", source: "assert!(false)", result: Err("assertion failed") })],
    {
        let mut r: Vec<Example> = Vec::new();
        r.push(Example { title: "Assertion (true) - with message", source: "assert!(\"foo\" == \"foo\", message: \"\\\"foo\\\" must be \\\"foo\\\"!\")", result: Ok("true") });
        r.push(Example { title: "Assertion (false) - with message", source: "assert!(\"foo\" == \"bar\", message: \"\\\"foo\\\" must be \\\"foo\\\"!\")", result: Err("\"foo\" must be \"foo\"!") });
        r.push(Example { title: "Assertion (false) - simple", source: "assert!(false)", result: Err("assertion failed") });
        r
    }
}

} // verus!
