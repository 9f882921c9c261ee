use vstd::prelude::*;

verus! {

/// A value as the dynamically typed caller hands it over or receives it.
#[derive(Clone, Debug, PartialEq, Eq)]
pub enum Value {
    Nil,
    Boolean(bool),
    Integer(i64),
    /// A floating value, held by its integral part: rounded toward zero,
    /// an out-of-range value at the nearest end of `i64`, not-a-number as 0.
    Number(i64),
    Text(String),
    /// An array of strings.
    List(Vec<String>),
}

/// What a [`Value`] holds.
pub enum ValueView {
    Nil,
    Boolean(bool),
    Integer(int),
    Number(int),
    Text(Seq<char>),
    List(Seq<Seq<char>>),
}

/// The characters of each string of `names`.
pub open spec fn texts(names: Seq<String>) -> Seq<Seq<char>> {
    Seq::new(names.len(), |i: int| names[i]@)
}

impl View for Value {
    type V = ValueView;

    open spec fn view(&self) -> ValueView {
        match self {
            Value::Nil => ValueView::Nil,
            Value::Boolean(b) => ValueView::Boolean(*b),
            Value::Integer(n) => ValueView::Integer(*n as int),
            Value::Number(n) => ValueView::Number(*n as int),
            Value::Text(s) => ValueView::Text(s@),
            Value::List(items) => ValueView::List(texts(items@)),
        }
    }
}

} // verus!
