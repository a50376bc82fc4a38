//! SQL statements with the values bound to their parameters.

use vstd::prelude::*;

verus! {

/// A value bound to a parameter of a statement.
#[derive(Debug, PartialEq, Eq)]
pub enum Value {
    Null,
    Integer(i64),
    Text(String),
}

/// A [`Value`] with its text taken as a sequence of characters.
pub enum ValueView {
    Null,
    Integer(int),
    Text(Seq<char>),
}

impl View for Value {
    type V = ValueView;

    open spec fn view(&self) -> ValueView {
        match self {
            Value::Null => ValueView::Null,
            Value::Integer(n) => ValueView::Integer(*n as int),
            Value::Text(text) => ValueView::Text(text@),
        }
    }
}

/// A statement and the values of its parameters, in order.
#[derive(Debug, PartialEq, Eq)]
pub struct Statement {
    pub sql: String,
    pub params: Vec<Value>,
}

impl Statement {
    /// The bound values, in order.
    pub open spec fn bound(self) -> Seq<ValueView> {
        self.params@.map_values(|value: Value| value@)
    }
}

/// The text between the brackets of `IN (..)` for `n` values: `n` question marks,
/// separated by commas.
pub open spec fn placeholders(n: nat) -> Seq<char> {
    Seq::new(
        if n == 0 {
            0
        } else {
            (2 * n - 1) as nat
        },
        |i: int|
            if i % 2 == 0 {
                '?'
            } else {
                ','
            },
    )
}

/// Writes the question marks for a list of `n` values.
pub fn placeholder_list(n: usize) -> (text: String)
    ensures
        text@ == placeholders(n as nat),
{
    let mut text = String::new();
    let mut i: usize = 0;
    while i < n
        invariant
            i <= n,
            text@ == placeholders(i as nat),
        decreases n - i,
    {
        proof {
            reveal_strlit("?");
            reveal_strlit(",");
        }
        if i > 0 {
            text.append(",");
        }
        text.append("?");
        i = i + 1;
        assert(text@ =~= placeholders(i as nat));
    }
    text
}

} // verus!
