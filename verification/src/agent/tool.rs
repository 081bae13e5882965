//! Tools an agent can call, and the built-in calculator's reading of its
//! input.
use vstd::prelude::*;
use crate::text::{find, trim, trim_spec};
use super::parser::is_first;

verus! {

/// What a tool returns.
#[derive(Debug)]
pub struct ToolOutput {
    pub content: String,
    pub metadata: Option<serde_json::Value>,
}

/// The built-in calculator tool, which adds two numbers written as
/// `a + b`.
#[derive(Debug, Clone, Copy)]
pub struct CalculatorTool;

/// The two operand texts of an addition: the trimmed text before the first
/// `+`, and the trimmed text between it and the next `+` (or the end).
pub open spec fn operands_spec(expr: Seq<char>, plus: int, next: Option<int>) -> (Seq<char>, Seq<char>) {
    let rest = expr.subrange(plus + 1, expr.len() as int);
    let second = match next {
        Some(q) => rest.subrange(0, q),
        None => rest,
    };
    (trim_spec(expr.subrange(0, plus)), trim_spec(second))
}

impl CalculatorTool {
    /// The tool's name.
    pub fn name(&self) -> (r: &'static str)
        ensures
            r@ == "calculator"@,
    {
        "calculator"
    }

    /// The tool's description.
    pub fn description(&self) -> (r: &'static str)
        ensures
            r@ == "Perform basic arithmetic operations"@,
    {
        "Perform basic arithmetic operations"
    }

    /// The operand texts of an expression `a + b`: the trimmed parts before
    /// the first `+` and up to the next one; `None` when there is no `+`.
    pub fn operands(expression: &str) -> (r: Option<(String, String)>)
        ensures
            match r {
                Some((a, b)) => exists|plus: int, next: Option<int>| {
                    &&& is_first(expression@, "+"@, Some(plus))
                    &&& is_first(expression@.subrange(plus + 1, expression@.len() as int), "+"@, next)
                    &&& (a@, b@) == operands_spec(expression@, plus, next)
                },
                None => is_first(expression@, "+"@, None),
            },
    {
        proof {
            reveal_strlit("+");
        }
        match find(expression, "+") {
            Some(p) => {
                let n = expression.unicode_len();
                let rest = expression.substring_char(p + 1, n);
                let a = trim(expression.substring_char(0, p));
                match find(rest, "+") {
                    Some(q) => {
                        let b = trim(rest.substring_char(0, q));
                        assert(is_first(expression@, "+"@, Some(p as int)));
                        assert(is_first(rest@, "+"@, Some(q as int)));
                        assert((a@, b@) == operands_spec(expression@, p as int, Some(q as int)));
                        Some((a, b))
                    },
                    None => {
                        let b = trim(rest);
                        assert(is_first(expression@, "+"@, Some(p as int)));
                        assert(is_first(rest@, "+"@, None));
                        assert((a@, b@) == operands_spec(expression@, p as int, None));
                        Some((a, b))
                    },
                }
            },
            None => None,
        }
    }
}

} // verus!
