//! Templates: fixed source text with placeholders, and the substitution that
//! turns one into the text of a generated file.
//!
//! A template is a sequence of segments, each a piece of literal text or a
//! placeholder slot. The text it stands for writes each slot as its token
//! (`@NAME@`, `@SNAKE_NAME@`, `@STRUCT_NAME@`). Filling binds some
//! placeholders to values: every slot of a bound placeholder becomes its
//! value, once, and the slots of unbound placeholders keep their tokens.
use vstd::prelude::*;

verus! {

/// Token written for a slot of the package name.
pub const NAME_TOKEN: &'static str = "@NAME@";

/// Token written for a slot of the package name in snake case.
pub const SNAKE_NAME_TOKEN: &'static str = "@SNAKE_NAME@";

/// Token written for a slot of the package name as a type name.
pub const STRUCT_NAME_TOKEN: &'static str = "@STRUCT_NAME@";

/// What a slot of a template stands for.
#[derive(Clone, Copy, Debug, PartialEq, Eq, Structural)]
pub enum Placeholder {
    Name,
    SnakeName,
    StructName,
}

impl Placeholder {
    /// The token that stands for this placeholder in template text.
    pub open spec fn token(self) -> Seq<char> {
        match self {
            Placeholder::Name => NAME_TOKEN@,
            Placeholder::SnakeName => SNAKE_NAME_TOKEN@,
            Placeholder::StructName => STRUCT_NAME_TOKEN@,
        }
    }

    pub fn token_str(&self) -> (r: &'static str)
        ensures
            r@ == self.token(),
    {
        match self {
            Placeholder::Name => NAME_TOKEN,
            Placeholder::SnakeName => SNAKE_NAME_TOKEN,
            Placeholder::StructName => STRUCT_NAME_TOKEN,
        }
    }
}

/// One segment of a template.
#[derive(Clone, Copy, Debug)]
pub enum Segment {
    Text(&'static str),
    Slot(Placeholder),
}

/// The mathematical model of a segment.
pub enum Piece {
    Text(Seq<char>),
    Slot(Placeholder),
}

impl Piece {
    /// The text of the piece: its own text, or the token of its slot.
    pub open spec fn text(self) -> Seq<char> {
        match self {
            Piece::Text(s) => s,
            Piece::Slot(p) => p.token(),
        }
    }
}

impl View for Segment {
    type V = Piece;

    open spec fn view(&self) -> Piece {
        match *self {
            Segment::Text(s) => Piece::Text(s@),
            Segment::Slot(p) => Piece::Slot(p),
        }
    }
}

/// The model of a template.
pub open spec fn pieces(t: Seq<Segment>) -> Seq<Piece> {
    t.map_values(|s: Segment| s@)
}

/// The text that a sequence of pieces stands for.
pub open spec fn text_of(t: Seq<Piece>) -> Seq<char>
    decreases t.len(),
{
    if t.len() == 0 {
        Seq::empty()
    } else {
        text_of(t.drop_last()) + t.last().text()
    }
}

/// Every slot of placeholder `p` in `t` replaced by the text `v`.
pub open spec fn substitute(t: Seq<Piece>, p: Placeholder, v: Seq<char>) -> Seq<Piece> {
    t.map_values(|x: Piece| if x == Piece::Slot(p) { Piece::Text(v) } else { x })
}

/// Every slot of a placeholder that `b` binds replaced by its value.
pub open spec fn bind(t: Seq<Piece>, b: Map<Placeholder, Seq<char>>) -> Seq<Piece> {
    t.map_values(
        |x: Piece|
            match x {
                Piece::Slot(p) => if b.contains_key(p) {
                    Piece::Text(b[p])
                } else {
                    x
                },
                Piece::Text(_) => x,
            },
    )
}

/// Whether `t` holds no slot.
pub open spec fn slot_free(t: Seq<Piece>) -> bool {
    forall|i: int| 0 <= i < t.len() ==> t[i] is Text
}

/// Whether every slot of `t` is of a placeholder that `b` binds.
pub open spec fn covers(b: Map<Placeholder, Seq<char>>, t: Seq<Piece>) -> bool {
    forall|i: int| 0 <= i < t.len() && t[i] is Slot ==> b.contains_key(#[trigger] t[i]->Slot_0)
}

/// Values for the placeholders that a fill binds; `None` leaves a placeholder
/// unbound.
pub struct Substitutions {
    pub name: Option<String>,
    pub snake_name: Option<String>,
    pub struct_name: Option<String>,
}

impl Substitutions {
    pub open spec fn binding(&self, p: Placeholder) -> Option<String> {
        match p {
            Placeholder::Name => self.name,
            Placeholder::SnakeName => self.snake_name,
            Placeholder::StructName => self.struct_name,
        }
    }

    fn get(&self, p: Placeholder) -> (r: &Option<String>)
        ensures
            *r == self.binding(p),
    {
        match p {
            Placeholder::Name => &self.name,
            Placeholder::SnakeName => &self.snake_name,
            Placeholder::StructName => &self.struct_name,
        }
    }
}

impl View for Substitutions {
    type V = Map<Placeholder, Seq<char>>;

    open spec fn view(&self) -> Map<Placeholder, Seq<char>> {
        Map::new(|p: Placeholder| self.binding(p) is Some, |p: Placeholder| self.binding(p)->Some_0@)
    }
}

/// The text of template `t` filled with the values of `subs`.
pub fn fill(t: &Vec<Segment>, subs: &Substitutions) -> (r: String)
    ensures
        r@ == text_of(bind(pieces(t@), subs@)),
{
    let mut out = String::new();
    let mut i: usize = 0;
    while i < t.len()
        invariant
            i <= t@.len(),
            out@ == text_of(bind(pieces(t@.take(i as int)), subs@)),
        decreases t@.len() - i,
    {
        let ghost before = bind(pieces(t@.take(i as int)), subs@);
        let ghost after = bind(pieces(t@.take(i + 1)), subs@);
        assert(after.drop_last() =~= before);
        match t[i] {
            Segment::Text(s) => out.append(s),
            Segment::Slot(p) => match subs.get(p) {
                Some(v) => out.append(v.as_str()),
                None => out.append(p.token_str()),
            },
        }
        i = i + 1;
    }
    assert(t@.take(t@.len() as int) =~= t@);
    out
}

/// Substituting a placeholder a second time changes nothing: its slots are
/// gone after the first.
pub proof fn lemma_substitute_idempotent(t: Seq<Piece>, p: Placeholder, v: Seq<char>)
    ensures
        substitute(substitute(t, p, v), p, v) == substitute(t, p, v),
{
    assert(substitute(substitute(t, p, v), p, v) =~= substitute(t, p, v));
}

/// Filling a second time with the same values changes nothing.
pub proof fn lemma_bind_idempotent(t: Seq<Piece>, b: Map<Placeholder, Seq<char>>)
    ensures
        bind(bind(t, b), b) == bind(t, b),
{
    assert(bind(bind(t, b), b) =~= bind(t, b));
}

/// Filling replaces each slot of a bound placeholder by its value, exactly
/// once, and leaves every other piece as it was.
pub proof fn lemma_bind_pointwise(t: Seq<Piece>, b: Map<Placeholder, Seq<char>>)
    ensures
        bind(t, b).len() == t.len(),
        forall|i: int|
            0 <= i < t.len() && t[i] is Slot && b.contains_key(t[i]->Slot_0) ==> #[trigger] bind(
                t,
                b,
            )[i] == Piece::Text(b[t[i]->Slot_0]),
        forall|i: int|
            0 <= i < t.len() && !(t[i] is Slot && b.contains_key(t[i]->Slot_0)) ==> #[trigger] bind(
                t,
                b,
            )[i] == t[i],
{
}

/// Filling with values for every placeholder that has a slot in the template
/// leaves no slot, so no token, behind.
pub proof fn lemma_bind_covering(t: Seq<Piece>, b: Map<Placeholder, Seq<char>>)
    requires
        covers(b, t),
    ensures
        slot_free(bind(t, b)),
{
}

/// Filling with values for all three placeholders is substituting them one
/// after the other, the name first, then its snake-case form, then the type
/// name; no value is substituted into.
pub proof fn lemma_bind_as_substitutions(
    t: Seq<Piece>,
    name: Seq<char>,
    snake_name: Seq<char>,
    struct_name: Seq<char>,
)
    ensures
        bind(
            t,
            map![Placeholder::Name => name, Placeholder::SnakeName => snake_name, Placeholder::StructName => struct_name],
        ) == substitute(
            substitute(substitute(t, Placeholder::Name, name), Placeholder::SnakeName, snake_name),
            Placeholder::StructName,
            struct_name,
        ),
{
    let b = map![Placeholder::Name => name, Placeholder::SnakeName => snake_name, Placeholder::StructName => struct_name];
    assert(bind(t, b) =~= substitute(
        substitute(substitute(t, Placeholder::Name, name), Placeholder::SnakeName, snake_name),
        Placeholder::StructName,
        struct_name,
    ));
}

} // verus!
