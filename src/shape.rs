//! Shapes made by name.
use vstd::prelude::*;
use vstd::string::StringExecFns;
use crate::text::{decimal, push_decimal};

verus! {

/// The size of a shape.
pub struct Attributes {
    pub width: usize,
    pub height: usize,
}

impl Default for Attributes {
    fn default() -> (r: Attributes)
        ensures
            r.width == 0,
            r.height == 0,
    {
        Attributes { width: 0, height: 0 }
    }
}

pub enum Type {
    Triangle(Attributes),
    Rectangle(Attributes),
    Circle(Attributes),
    Square(Attributes),
    Unknown,
}

/// Attributes of a shape that was just made.
pub open spec fn blank() -> Attributes {
    Attributes { width: 0, height: 0 }
}

/// Whether two strings hold the same characters.
pub fn same_text(a: &str, b: &str) -> (r: bool)
    ensures
        r == (a@ == b@),
{
    let n = a.unicode_len();
    if n != b.unicode_len() {
        return false;
    }
    let mut i: usize = 0;
    while i < n
        invariant
            n == a@.len(),
            n == b@.len(),
            i <= n,
            forall|j: int| 0 <= j < i ==> a@[j] == b@[j],
        decreases n - i,
    {
        if a.get_char(i) != b.get_char(i) {
            return false;
        }
        i = i + 1;
    }
    assert(a@ =~= b@);
    true
}

/// The four shape names are pairwise different.
proof fn lemma_shape_names_differ()
    ensures
        "triangle"@ != "circle"@,
        "triangle"@ != "rectangle"@,
        "triangle"@ != "square"@,
        "circle"@ != "rectangle"@,
        "circle"@ != "square"@,
        "rectangle"@ != "square"@,
{
    reveal_strlit("triangle");
    reveal_strlit("circle");
    reveal_strlit("rectangle");
    reveal_strlit("square");
    assert("triangle"@[0] != "circle"@[0]);
    assert("triangle"@[0] != "rectangle"@[0]);
    assert("triangle"@[0] != "square"@[0]);
    assert("circle"@[0] != "rectangle"@[0]);
    assert("circle"@[0] != "square"@[0]);
    assert("rectangle"@[0] != "square"@[0]);
}

/// "Width: w, Height: h".
pub open spec fn size_text(a: Attributes) -> Seq<char> {
    "Width: "@ + decimal(a.width as nat) + ", Height: "@ + decimal(a.height as nat)
}

/// Writes "Width: w, Height: h".
pub fn size_description(a: &Attributes) -> (r: String)
    ensures
        r@ == size_text(*a),
{
    let mut r = String::from_str("Width: ");
    push_decimal(&mut r, a.width as u64);
    r.append(", Height: ");
    push_decimal(&mut r, a.height as u64);
    r
}

impl Type {
    /// The shape's size as text; an unknown shape has none.
    pub open spec fn text(&self) -> Seq<char> {
        match self {
            Type::Triangle(a) => size_text(*a),
            Type::Rectangle(a) => size_text(*a),
            Type::Circle(a) => size_text(*a),
            Type::Square(a) => size_text(*a),
            Type::Unknown => "Width: Invalid, Height: Invalid"@,
        }
    }

    /// The shape's size as text, as it is displayed.
    pub fn describe(&self) -> (r: String)
        ensures
            r@ == self.text(),
    {
        match self {
            Type::Triangle(a) => size_description(a),
            Type::Rectangle(a) => size_description(a),
            Type::Circle(a) => size_description(a),
            Type::Square(a) => size_description(a),
            Type::Unknown => String::from_str("Width: Invalid, Height: Invalid"),
        }
    }

    /// The shape named `shape`, with blank attributes. The names
    /// "rectangle" and "square" give a square and a rectangle respectively;
    /// any other name gives none.
    pub fn create(shape: &str) -> (r: Option<Type>)
        ensures
            shape@ == "triangle"@ ==> r == Some(Type::Triangle(blank())),
            shape@ == "circle"@ ==> r == Some(Type::Circle(blank())),
            shape@ == "rectangle"@ ==> r == Some(Type::Square(blank())),
            shape@ == "square"@ ==> r == Some(Type::Rectangle(blank())),
            r is None <==> shape@ != "triangle"@ && shape@ != "circle"@ && shape@ != "rectangle"@
                && shape@ != "square"@,
    {
        proof {
            lemma_shape_names_differ();
        }
        if same_text(shape, "triangle") {
            Some(Type::Triangle(Attributes::default()))
        } else if same_text(shape, "circle") {
            Some(Type::Circle(Attributes::default()))
        } else if same_text(shape, "rectangle") {
            Some(Type::Square(Attributes::default()))
        } else if same_text(shape, "square") {
            Some(Type::Rectangle(Attributes::default()))
        } else {
            None
        }
    }

    /// Whether `shape` holds a rectangle or a square.
    pub fn is_quadrangle(shape: &Option<Type>) -> (r: bool)
        ensures
            r == (shape matches Some(Type::Rectangle(_)) || shape matches Some(Type::Square(_))),
    {
        match shape {
            Some(Type::Rectangle(_)) => true,
            Some(Type::Square(_)) => true,
            _ => false,
        }
    }

    /// The shape named `shape`, with blank attributes, or `Unknown` for
    /// any other name.
    pub fn non_guaranteed_shape(shape: &str) -> (r: Option<Type>)
        ensures
            shape@ == "triangle"@ ==> r == Some(Type::Triangle(blank())),
            shape@ == "rectangle"@ ==> r == Some(Type::Rectangle(blank())),
            shape@ == "circle"@ ==> r == Some(Type::Circle(blank())),
            shape@ == "square"@ ==> r == Some(Type::Square(blank())),
            shape@ != "triangle"@ && shape@ != "circle"@ && shape@ != "rectangle"@ && shape@ != "square"@
                ==> r == Some(Type::Unknown),
    {
        proof {
            lemma_shape_names_differ();
        }
        if same_text(shape, "triangle") {
            return Some(Type::Triangle(Attributes::default()));
        }
        if same_text(shape, "rectangle") {
            return Some(Type::Rectangle(Attributes::default()));
        }
        if same_text(shape, "circle") {
            return Some(Type::Circle(Attributes::default()));
        }
        if same_text(shape, "square") {
            return Some(Type::Square(Attributes::default()));
        }
        Some(Type::Unknown)
    }
}

} // verus!
