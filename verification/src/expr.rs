//! The query-expression tree and its rendering to the wire query syntax.
//!
//! An [`Expr`] is a boolean combination of leaf predicates and raw
//! fragments.  [`Expr::render`] serializes a tree deterministically:
//! conjunctions join their children with a single space (the service's
//! implicit AND), disjunctions join theirs with ` OR ` and are wrapped in
//! parentheses when they have more than one child, so grouping survives
//! arbitrary nesting.  Rendering never fails; malformed predicate values
//! are rejected when the predicate is constructed.
//!
//! The empty combinators never occur in the service's own syntax, so a
//! convention is chosen and documented here: `And` of no children (the
//! conjunction that matches everything) and `Or` of no children (the
//! disjunction that matches nothing) both render as the empty fragment.

use vstd::prelude::*;

verus! {

/// The comparison operator of a numeric predicate.
#[derive(Clone, Copy, Debug, PartialEq, Eq)]
pub enum Comparison {
    Eq,
    Lt,
    Le,
    Gt,
    Ge,
}

/// The fixed enumeration of card rarities the service understands.
#[derive(Clone, Copy, Debug, PartialEq, Eq)]
pub enum Rarity {
    Common,
    Uncommon,
    Rare,
    Mythic,
}

/// The parity of a card's converted mana cost.
#[derive(Clone, Copy, Debug, PartialEq, Eq)]
pub enum Parity {
    Even,
    Odd,
}

/// Why constructing a query component was refused.
#[derive(Clone, Copy, Debug, PartialEq, Eq)]
pub enum QueryError {
    /// A predicate operand lay outside its domain.
    InvalidPredicate,
}

/// A leaf search condition: a named field compared against a value.
pub enum Predicate {
    /// Compare the power of a creature against a number.
    Power(Comparison, u64),
    /// Compare the toughness of a creature against a number.
    Toughness(Comparison, u64),
    /// Restrict to a set, by its set code.
    SetCode(String),
    /// Restrict to a rarity.
    Rarity(Rarity),
    /// Restrict to cards whose converted mana cost has the given parity.
    CmcParity(Parity),
}

/// A boolean combination of search predicates.
pub enum Expr {
    /// A terminal predicate.
    Pred(Predicate),
    /// All children must hold; the empty conjunction matches everything.
    And(Vec<Expr>),
    /// At least one child must hold; the empty disjunction matches nothing.
    Or(Vec<Expr>),
    /// An already-formatted query fragment, passed through verbatim.
    Raw(String),
}

/// The wire token of a comparison operator.
pub open spec fn comparison_text(c: Comparison) -> Seq<char> {
    match c {
        Comparison::Eq => "="@,
        Comparison::Lt => "<"@,
        Comparison::Le => "<="@,
        Comparison::Gt => ">"@,
        Comparison::Ge => ">="@,
    }
}

/// The wire token of a rarity.
pub open spec fn rarity_text(r: Rarity) -> Seq<char> {
    match r {
        Rarity::Common => "common"@,
        Rarity::Uncommon => "uncommon"@,
        Rarity::Rare => "rare"@,
        Rarity::Mythic => "mythic"@,
    }
}

/// The decimal digit character for a value below ten.
pub open spec fn digit_char(d: nat) -> char
    recommends
        d < 10,
{
    if d == 0 {
        '0'
    } else if d == 1 {
        '1'
    } else if d == 2 {
        '2'
    } else if d == 3 {
        '3'
    } else if d == 4 {
        '4'
    } else if d == 5 {
        '5'
    } else if d == 6 {
        '6'
    } else if d == 7 {
        '7'
    } else if d == 8 {
        '8'
    } else {
        '9'
    }
}

/// The usual decimal rendering of a natural number, without leading zeros.
pub open spec fn decimal_text(n: nat) -> Seq<char>
    decreases n,
{
    if n < 10 {
        seq![digit_char(n)]
    } else {
        decimal_text(n / 10).push(digit_char(n % 10))
    }
}

/// The rendering of a leaf predicate: `<field><operator><value>`.
pub open spec fn predicate_text(p: Predicate) -> Seq<char> {
    match p {
        Predicate::Power(c, n) => "power"@ + comparison_text(c) + decimal_text(n as nat),
        Predicate::Toughness(c, n) => "toughness"@ + comparison_text(c) + decimal_text(n as nat),
        Predicate::SetCode(code) => "s:"@ + code@,
        Predicate::Rarity(r) => "r:"@ + rarity_text(r),
        Predicate::CmcParity(p) => if p is Odd {
            "cmc%2=1"@
        } else {
            "cmc%2=0"@
        },
    }
}

/// The rendering of a whole expression tree.
pub open spec fn render_spec(e: Expr) -> Seq<char>
    decreases e,
{
    match e {
        Expr::Pred(p) => predicate_text(p),
        Expr::And(children) => render_list(children@, " "@),
        Expr::Or(children) => if children@.len() > 1 {
            "("@ + render_list(children@, " OR "@) + ")"@
        } else {
            render_list(children@, " OR "@)
        },
        Expr::Raw(s) => s@,
    }
}

/// The renderings of a list of subtrees, joined by `sep`.
pub open spec fn render_list(children: Seq<Expr>, sep: Seq<char>) -> Seq<char>
    decreases children,
{
    if children.len() == 0 {
        Seq::empty()
    } else if children.len() == 1 {
        render_spec(children[0])
    } else {
        render_spec(children[0]) + sep + render_list(children.drop_first(), sep)
    }
}

impl Comparison {
    /// The wire token of this operator.
    pub fn token(&self) -> (t: &'static str)
        ensures
            t@ == comparison_text(*self),
    {
        match self {
            Comparison::Eq => "=",
            Comparison::Lt => "<",
            Comparison::Le => "<=",
            Comparison::Gt => ">",
            Comparison::Ge => ">=",
        }
    }
}

impl Rarity {
    /// The wire token of this rarity.
    pub fn token(&self) -> (t: &'static str)
        ensures
            t@ == rarity_text(*self),
    {
        match self {
            Rarity::Common => "common",
            Rarity::Uncommon => "uncommon",
            Rarity::Rare => "rare",
            Rarity::Mythic => "mythic",
        }
    }
}

/// The one-character string for a decimal digit.
fn digit_str(d: u64) -> (t: &'static str)
    requires
        d < 10,
    ensures
        t@ == seq![digit_char(d as nat)],
{
    proof {
        reveal_strlit("0");
        reveal_strlit("1");
        reveal_strlit("2");
        reveal_strlit("3");
        reveal_strlit("4");
        reveal_strlit("5");
        reveal_strlit("6");
        reveal_strlit("7");
        reveal_strlit("8");
        reveal_strlit("9");
    }
    let t: &'static str = if d == 0 {
        "0"
    } else if d == 1 {
        "1"
    } else if d == 2 {
        "2"
    } else if d == 3 {
        "3"
    } else if d == 4 {
        "4"
    } else if d == 5 {
        "5"
    } else if d == 6 {
        "6"
    } else if d == 7 {
        "7"
    } else if d == 8 {
        "8"
    } else {
        "9"
    };
    proof {
        assert(t@ =~= seq![digit_char(d as nat)]);
    }
    t
}

/// Appends the decimal rendering of `n` to `out`.
fn push_decimal(n: u64, out: &mut String)
    ensures
        final(out)@ == old(out)@ + decimal_text(n as nat),
    decreases n,
{
    if n < 10 {
        out.append(digit_str(n));
    } else {
        push_decimal(n / 10, out);
        out.append(digit_str(n % 10));
        proof {
            assert(final(out)@ =~= old(out)@ + decimal_text(n as nat));
        }
    }
}

/// Joining a list extended by one more subtree appends a separator (once
/// the list is non-empty) and the new subtree's rendering.
proof fn lemma_join_push(children: Seq<Expr>, sep: Seq<char>, x: Expr)
    requires
        children.len() >= 1,
    ensures
        render_list(children.push(x), sep) == render_list(children, sep) + sep + render_spec(x),
    decreases children.len(),
{
    if children.len() == 1 {
        assert(children.push(x).drop_first() =~= seq![x]);
        assert(render_list(seq![x], sep) == render_spec(x));
    } else {
        lemma_join_push(children.drop_first(), sep, x);
        assert(children.push(x).drop_first() =~= children.drop_first().push(x));
        assert(render_list(children.push(x), sep) =~= render_list(children, sep) + sep
            + render_spec(x));
    }
}

/// Renders each child and joins the results with `sep`.
fn render_join(children: &Vec<Expr>, sep: &str) -> (s: String)
    ensures
        s@ == render_list(children@, sep@),
    decreases children@,
{
    let mut out = String::new();
    let n = children.len();
    let mut i: usize = 0;
    while i < n
        invariant
            n == children@.len(),
            i <= n,
            out@ == render_list(children@.take(i as int), sep@),
        decreases n - i,
    {
        if i > 0 {
            out.append(sep);
        }
        let piece = children[i].render();
        out.append(piece.as_str());
        proof {
            assert(children@.take(i + 1 as int) =~= children@.take(i as int).push(
                children@[i as int],
            ));
            if i > 0 {
                lemma_join_push(children@.take(i as int), sep@, children@[i as int]);
                assert(out@ =~= render_list(children@.take(i + 1 as int), sep@));
            } else {
                assert(out@ =~= render_list(children@.take(1int), sep@));
            }
        }
        i += 1;
    }
    proof {
        assert(children@.take(n as int) =~= children@);
    }
    out
}

impl Expr {
    /// The wire rendering of this expression tree: a pure, deterministic
    /// function of the tree, with parentheses added around multi-child
    /// disjunctions so the intended grouping survives nesting.
    pub fn render(&self) -> (s: String)
        ensures
            s@ == render_spec(*self),
        decreases *self,
    {
        match self {
            Expr::Pred(p) => p.render(),
            Expr::Raw(s) => s.clone(),
            Expr::And(children) => render_join(children, " "),
            Expr::Or(children) => {
                let inner = render_join(children, " OR ");
                if children.len() > 1 {
                    let mut s = "(".to_owned();
                    s.append(inner.as_str());
                    s.append(")");
                    proof {
                        assert(s@ =~= render_spec(*self));
                    }
                    s
                } else {
                    inner
                }
            },
        }
    }
}

impl Predicate {
    /// Builds a rarity predicate from a service token, refusing tokens
    /// outside the fixed enumeration.
    pub fn rarity_from_token(token: &str) -> (r: Result<Predicate, QueryError>)
        ensures
            (r is Ok) <==> (token@ == "common"@ || token@ == "uncommon"@ || token@ == "rare"@
                || token@ == "mythic"@),
            r matches Ok(p) ==> (p matches Predicate::Rarity(x) && rarity_text(x) == token@),
            r matches Err(e) ==> e == QueryError::InvalidPredicate,
    {
        let t = token.to_owned();
        if t == String::from_str("common") {
            Ok(Predicate::Rarity(Rarity::Common))
        } else if t == String::from_str("uncommon") {
            Ok(Predicate::Rarity(Rarity::Uncommon))
        } else if t == String::from_str("rare") {
            Ok(Predicate::Rarity(Rarity::Rare))
        } else if t == String::from_str("mythic") {
            Ok(Predicate::Rarity(Rarity::Mythic))
        } else {
            Err(QueryError::InvalidPredicate)
        }
    }

    /// The wire rendering of this predicate.
    pub fn render(&self) -> (s: String)
        ensures
            s@ == predicate_text(*self),
    {
        match self {
            Predicate::Power(c, n) => {
                let mut s = "power".to_owned();
                s.append(c.token());
                push_decimal(*n, &mut s);
                proof {
                    assert(s@ =~= predicate_text(*self));
                }
                s
            },
            Predicate::Toughness(c, n) => {
                let mut s = "toughness".to_owned();
                s.append(c.token());
                push_decimal(*n, &mut s);
                proof {
                    assert(s@ =~= predicate_text(*self));
                }
                s
            },
            Predicate::SetCode(code) => {
                let mut s = "s:".to_owned();
                s.append(code.as_str());
                s
            },
            Predicate::Rarity(r) => {
                let mut s = "r:".to_owned();
                s.append(r.token());
                s
            },
            Predicate::CmcParity(p) => {
                match p {
                    Parity::Odd => "cmc%2=1".to_owned(),
                    Parity::Even => "cmc%2=0".to_owned(),
                }
            },
        }
    }
}

} // verus!
