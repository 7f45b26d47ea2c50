//! Enumeration types and their literals.

use crate::kind::{Type, TypeKind};
use crate::text::{joined, lemma_joined_push, push_char};
use vstd::prelude::*;
use vstd::string::StringExecFns;

verus! {

/// A literal of an enumeration: an identifier such as `FOO`, or a character
/// such as `'0'`.
#[derive(Debug)]
pub enum EnumLiteral {
    /// An identifier, by its text.
    Ident(String),
    /// A character.
    Char(char),
}

impl EnumLiteral {
    /// An identifier bare, a character between single quotes.
    pub open spec fn text(&self) -> Seq<char> {
        match self {
            EnumLiteral::Ident(n) => n@,
            EnumLiteral::Char(c) => seq!['\'', *c, '\''],
        }
    }

    /// Appends the text of the literal to `s`.
    pub fn push_text(&self, s: &mut String)
        ensures
            final(s)@ == old(s)@ + self.text(),
    {
        match self {
            EnumLiteral::Ident(n) => {
                s.append(n.as_str());
            },
            EnumLiteral::Char(c) => {
                push_char(s, '\'');
                push_char(s, *c);
                push_char(s, '\'');
                assert(final(s)@ =~= old(s)@ + self.text());
            },
        }
    }

    /// The text of the literal.
    pub fn render(&self) -> (r: String)
        ensures
            r@ == self.text(),
    {
        let mut s = String::new();
        self.push_text(&mut s);
        assert(s@ =~= self.text());
        s
    }
}

/// The texts of literals.
pub open spec fn literal_texts(lits: Seq<EnumLiteral>) -> Seq<Seq<char>> {
    lits.map_values(|l: EnumLiteral| l.text())
}

/// An enumeration type: its literals, in the order that gives them their
/// positions.
#[derive(Debug)]
pub struct EnumType {
    lits: Vec<EnumLiteral>,
}

impl View for EnumType {
    type V = Seq<EnumLiteral>;

    closed spec fn view(&self) -> Seq<EnumLiteral> {
        self.lits@
    }
}

impl EnumType {
    /// `(lit, lit, ...)`.
    pub open spec fn text(&self) -> Seq<char> {
        "("@ + joined(literal_texts(self@)) + ")"@
    }

    /// An enumeration type of the literals, in order.
    pub fn new(lits: Vec<EnumLiteral>) -> (r: EnumType)
        ensures
            r@ == lits@,
    {
        EnumType { lits }
    }

    /// The number of literals.
    pub fn len(&self) -> (r: usize)
        ensures
            r == self@.len(),
    {
        self.lits.len()
    }

    /// The literal at position `pos`.
    pub fn literal(&self, pos: usize) -> (r: &EnumLiteral)
        requires
            pos < self@.len(),
        ensures
            *r == self@[pos as int],
    {
        &self.lits[pos]
    }

    /// All literals, in order.
    pub fn literals(&self) -> (r: &[EnumLiteral])
        ensures
            r@ == self@,
    {
        self.lits.as_slice()
    }

    /// The text `(lit, lit, ...)`.
    pub fn render(&self) -> (r: String)
        ensures
            r@ == self.text(),
    {
        let mut s = String::from_str("(");
        let mut i: usize = 0;
        while i < self.lits.len()
            invariant
                i <= self@.len(),
                s@ == "("@ + joined(literal_texts(self@.take(i as int))),
            decreases self@.len() - i,
        {
            let ghost before = s@;
            if i > 0 {
                s.append(", ");
            }
            self.lits[i].push_text(&mut s);
            proof {
                let prev = literal_texts(self@.take(i as int));
                assert(literal_texts(self@.take(i + 1)) =~= prev.push(self@[i as int].text()));
                lemma_joined_push(prev, self@[i as int].text());
                assert(s@ =~= "("@ + joined(literal_texts(self@.take(i + 1))));
            }
            i = i + 1;
        }
        s.append(")");
        assert(self@.take(self@.len() as int) =~= self@);
        s
    }
}

impl Type for EnumType {
    open spec fn type_kind(&self) -> TypeKind {
        TypeKind::Enum
    }

    fn is_scalar(&self) -> (r: bool) {
        true
    }

    fn is_discrete(&self) -> (r: bool) {
        true
    }

    fn is_numeric(&self) -> (r: bool) {
        false
    }

    fn is_composite(&self) -> (r: bool) {
        false
    }
}

} // verus!
