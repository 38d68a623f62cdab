//! The pattern combinator engine: a tree of pattern nodes interpreted
//! against a token sequence to build syntax tree fragments. Interpretation
//! is position-passing, so a failed attempt never moves the caller's
//! position, and it carries an explicit recursion budget so that any rule
//! table, even a cyclic one, is interpreted safely.

use vstd::prelude::*;

use crate::ast::{nodes_view, AstNode, AstNodeView};
use crate::grammar::{assemble, declaration_rule, expression_alternatives, identifier_expr_rule,
    number_expr_rule, spec_assemble, Node};
use crate::hydrogen::TokenSpecification;
use crate::token::Token;

verus! {

/// The recursion budget handed to one pattern interpretation. It bounds the
/// nesting depth of combinators and rule expansions, and is far beyond what
/// the wired grammar can reach.
pub const PARSE_FUEL: u64 = 64;

/// A grammar pattern: match one token of a kind, match a grammar node's
/// rule, all in order, first full match of several, zero or one, or zero or
/// more.
#[derive(Debug)]
pub enum Pattern {
    Token(TokenSpecification),
    Node(Node),
    Sequence(Vec<Pattern>),
    OneOf(Vec<Pattern>),
    Optional(Box<Pattern>),
    List(Box<Pattern>),
}

/// What matching one token yields: the token's raw text as a leaf, iff a
/// token of the wanted kind stands at `pos`.
pub open spec fn spec_token_match(
    kind: TokenSpecification,
    tokens: Seq<Token<TokenSpecification>>,
    pos: int,
) -> Option<(AstNodeView, int)> {
    if 0 <= pos < tokens.len() && tokens[pos].kind == kind {
        Some((AstNodeView::Token(tokens[pos].value@), pos + 1))
    } else {
        None
    }
}

/// What interpreting one pattern yields: the fragment of nodes it produced
/// and the position after it, or nothing when the pattern, or the budget,
/// fails.
pub open spec fn spec_consume(
    p: Pattern,
    tokens: Seq<Token<TokenSpecification>>,
    pos: int,
    fuel: nat,
) -> Option<(Seq<AstNodeView>, int)>
    decreases fuel, 1int,
{
    match p {
        Pattern::Token(kind) => match spec_token_match(kind, tokens, pos) {
            Some((n, p2)) => Some((seq![n], p2)),
            None => None,
        },
        Pattern::Node(g) => match spec_node(g, tokens, pos, fuel) {
            Some((n, p2)) => Some((seq![n], p2)),
            None => None,
        },
        Pattern::Sequence(v) => if fuel == 0 {
            None
        } else {
            spec_seq(v@, tokens, pos, (fuel - 1) as nat)
        },
        Pattern::OneOf(v) => if fuel == 0 {
            None
        } else {
            spec_oneof(v@, tokens, pos, (fuel - 1) as nat)
        },
        Pattern::Optional(b) => if fuel == 0 {
            None
        } else {
            match spec_consume(*b, tokens, pos, (fuel - 1) as nat) {
                Some(r) => Some(r),
                None => Some((Seq::empty(), pos)),
            }
        },
        Pattern::List(b) => if fuel == 0 {
            None
        } else {
            spec_list(*b, tokens, pos, (fuel - 1) as nat)
        },
    }
}

/// What interpreting a sequence of patterns yields: every element must
/// match, in order, against the running position; the fragment is the
/// concatenation of the elements' fragments.
pub open spec fn spec_seq(
    patterns: Seq<Pattern>,
    tokens: Seq<Token<TokenSpecification>>,
    pos: int,
    fuel: nat,
) -> Option<(Seq<AstNodeView>, int)>
    decreases fuel, 2int,
{
    if patterns.len() == 0 {
        Some((Seq::empty(), pos))
    } else if fuel == 0 {
        None
    } else {
        match spec_consume(patterns[0], tokens, pos, (fuel - 1) as nat) {
            None => None,
            Some((ns, p2)) => match spec_seq(patterns.drop_first(), tokens, p2, (fuel - 1) as nat) {
                None => None,
                Some((rest, p3)) => Some((ns + rest, p3)),
            },
        }
    }
}

/// What interpreting an alternation yields: the first alternative, in
/// listed order, that fully matches; none matching is an overall failure.
pub open spec fn spec_oneof(
    alternatives: Seq<Pattern>,
    tokens: Seq<Token<TokenSpecification>>,
    pos: int,
    fuel: nat,
) -> Option<(Seq<AstNodeView>, int)>
    decreases fuel, 2int,
{
    if alternatives.len() == 0 {
        None
    } else if fuel == 0 {
        None
    } else {
        match spec_consume(alternatives[0], tokens, pos, (fuel - 1) as nat) {
            Some(r) => Some(r),
            None => spec_oneof(alternatives.drop_first(), tokens, pos, (fuel - 1) as nat),
        }
    }
}

/// What interpreting a repetition yields: the inner pattern as often as it
/// matches and makes progress. Zero matches still succeed with an empty
/// fragment, and a match that consumes nothing is kept once and ends the
/// repetition.
pub open spec fn spec_list(
    p: Pattern,
    tokens: Seq<Token<TokenSpecification>>,
    pos: int,
    fuel: nat,
) -> Option<(Seq<AstNodeView>, int)>
    decreases fuel, 2int,
{
    if fuel == 0 {
        None
    } else {
        match spec_consume(p, tokens, pos, (fuel - 1) as nat) {
            None => Some((Seq::empty(), pos)),
            Some((ns, p2)) => if p2 == pos {
                Some((ns, p2))
            } else {
                match spec_list(p, tokens, p2, (fuel - 1) as nat) {
                    None => None,
                    Some((rest, p3)) => Some((ns + rest, p3)),
                }
            },
        }
    }
}

/// Wraps an interpreted rule's outcome through the grammar kind's assembly.
pub open spec fn wrap_node(kind: Node, r: Option<(Seq<AstNodeView>, int)>) -> Option<
    (AstNodeView, int),
> {
    match r {
        None => None,
        Some((parts, p2)) => match spec_assemble(kind, parts) {
            Some(n) => Some((n, p2)),
            None => None,
        },
    }
}

/// The interpretation of the expression rule's single alternation element,
/// written out over the rule's alternatives.
pub open spec fn spec_expression_seq(
    tokens: Seq<Token<TokenSpecification>>,
    pos: int,
    fuel: nat,
) -> Option<(Seq<AstNodeView>, int)>
    decreases fuel, 2int,
{
    if fuel == 0 {
        None
    } else {
        let inner = if fuel - 1 == 0 {
            None
        } else {
            spec_oneof(expression_alternatives(), tokens, pos, (fuel - 2) as nat)
        };
        match inner {
            None => None,
            Some((ns, p2)) => Some((ns + Seq::empty(), p2)),
        }
    }
}

/// What interpreting a grammar node yields: its rule from the table,
/// interpreted and wrapped in the kind's AST variant; a kind with an empty
/// rule never succeeds.
pub open spec fn spec_node(
    kind: Node,
    tokens: Seq<Token<TokenSpecification>>,
    pos: int,
    fuel: nat,
) -> Option<(AstNodeView, int)>
    decreases fuel, 0int,
{
    if fuel == 0 {
        None
    } else {
        match kind {
            Node::Declaration => wrap_node(
                kind,
                spec_seq(declaration_rule(), tokens, pos, (fuel - 1) as nat),
            ),
            Node::NumberExpr => wrap_node(
                kind,
                spec_seq(number_expr_rule(), tokens, pos, (fuel - 1) as nat),
            ),
            Node::IdentifierExpr => wrap_node(
                kind,
                spec_seq(identifier_expr_rule(), tokens, pos, (fuel - 1) as nat),
            ),
            Node::Expression => wrap_node(
                kind,
                spec_expression_seq(tokens, pos, (fuel - 1) as nat),
            ),
            _ => None,
        }
    }
}

impl Pattern {
    /// Matches exactly one upcoming token: succeeds iff its kind equals
    /// `kind`, and the token's raw text becomes a leaf node.
    pub fn token(kind: TokenSpecification, tokens: &Vec<Token<TokenSpecification>>, pos: usize) -> (r:
        Option<(AstNode, usize)>)
        requires
            pos <= tokens@.len(),
        ensures
            match r {
                Some((n, p2)) => spec_token_match(kind, tokens@, pos as int) == Some(
                    (n@, p2 as int),
                ) && pos < p2 <= tokens@.len(),
                None => spec_token_match(kind, tokens@, pos as int) is None,
            },
    {
        if pos < tokens.len() {
            let t = &tokens[pos];
            if t.kind == kind {
                let value = String::from_str(t.value.as_str());
                return Some((AstNode::Token(value), pos + 1));
            }
        }
        None
    }

    /// Matches a grammar node: looks the kind's rule up in the table,
    /// interprets it recursively, and wraps the fragment in the kind's AST
    /// variant.
    pub fn node(kind: Node, tokens: &Vec<Token<TokenSpecification>>, pos: usize, fuel: u64) -> (r:
        Option<(AstNode, usize)>)
        requires
            pos <= tokens@.len(),
        ensures
            match r {
                Some((n, p2)) => spec_node(kind, tokens@, pos as int, fuel as nat) == Some(
                    (n@, p2 as int),
                ) && pos <= p2 <= tokens@.len(),
                None => spec_node(kind, tokens@, pos as int, fuel as nat) is None,
            },
        decreases fuel, 0int,
    {
        if fuel == 0 {
            return None;
        }
        let rule = kind.fetch_pattern();
        if rule.len() == 0 {
            return None;
        }
        let res = Pattern::is_match(tokens, pos, &rule, fuel - 1);
        proof {
            let f = (fuel - 1) as nat;
            if kind == Node::Expression {
                assert(spec_seq(rule@, tokens@, pos as int, f) == spec_expression_seq(
                    tokens@,
                    pos as int,
                    f,
                )) by {
                    reveal_with_fuel(spec_seq, 2);
                    if f > 0 {
                        let alts = rule@[0]->OneOf_0;
                        assert(alts@ == expression_alternatives());
                        assert(rule@.len() == 1);
                        assert(rule@.drop_first().len() == 0);
                    }
                }
            }
        }
        match res {
            None => None,
            Some((parts, p2)) => match assemble(kind, parts) {
                Some(n) => Some((n, p2)),
                None => None,
            },
        }
    }

    /// Interprets one pattern element against the token sequence.
    pub fn consume(&self, tokens: &Vec<Token<TokenSpecification>>, pos: usize, fuel: u64) -> (r:
        Option<(Vec<AstNode>, usize)>)
        requires
            pos <= tokens@.len(),
        ensures
            match r {
                Some((ns, p2)) => spec_consume(*self, tokens@, pos as int, fuel as nat) == Some(
                    (nodes_view(ns@), p2 as int),
                ) && pos <= p2 <= tokens@.len(),
                None => spec_consume(*self, tokens@, pos as int, fuel as nat) is None,
            },
        decreases fuel, 1int,
    {
        match self {
            Pattern::Token(kind) => match Pattern::token(*kind, tokens, pos) {
                Some((n, p2)) => {
                    let ghost nv = n@;
                    let mut ns: Vec<AstNode> = Vec::new();
                    ns.push(n);
                    proof {
                        assert(nodes_view(ns@) =~= seq![nv]);
                    }
                    Some((ns, p2))
                },
                None => None,
            },
            Pattern::Node(g) => match Pattern::node(*g, tokens, pos, fuel) {
                Some((n, p2)) => {
                    let ghost nv = n@;
                    let mut ns: Vec<AstNode> = Vec::new();
                    ns.push(n);
                    proof {
                        assert(nodes_view(ns@) =~= seq![nv]);
                    }
                    Some((ns, p2))
                },
                None => None,
            },
            Pattern::Sequence(v) => {
                if fuel == 0 {
                    return None;
                }
                Pattern::is_match(tokens, pos, v, fuel - 1)
            },
            Pattern::OneOf(v) => {
                if fuel == 0 {
                    return None;
                }
                proof {
                    assert(v@.skip(0) =~= v@);
                }
                Pattern::oneof_from(tokens, pos, v, 0, fuel - 1)
            },
            Pattern::Optional(b) => {
                if fuel == 0 {
                    return None;
                }
                match b.consume(tokens, pos, fuel - 1) {
                    Some(r) => Some(r),
                    None => {
                        let ns: Vec<AstNode> = Vec::new();
                        proof {
                            assert(nodes_view(ns@) =~= Seq::<AstNodeView>::empty());
                        }
                        Some((ns, pos))
                    },
                }
            },
            Pattern::List(b) => {
                if fuel == 0 {
                    return None;
                }
                Pattern::list_match(b, tokens, pos, fuel - 1)
            },
        }
    }

    /// Interprets a whole pattern list in order against the running
    /// position: all elements must match.
    pub fn is_match(
        tokens: &Vec<Token<TokenSpecification>>,
        pos: usize,
        pattern: &Vec<Pattern>,
        fuel: u64,
    ) -> (r: Option<(Vec<AstNode>, usize)>)
        requires
            pos <= tokens@.len(),
        ensures
            match r {
                Some((ns, p2)) => spec_seq(pattern@, tokens@, pos as int, fuel as nat) == Some(
                    (nodes_view(ns@), p2 as int),
                ) && pos <= p2 <= tokens@.len(),
                None => spec_seq(pattern@, tokens@, pos as int, fuel as nat) is None,
            },
        decreases fuel, 3int,
    {
        proof {
            assert(pattern@.skip(0) =~= pattern@);
        }
        Pattern::match_from(tokens, pos, pattern, 0, fuel)
    }

    /// Interprets the pattern list from element `i` on.
    fn match_from(
        tokens: &Vec<Token<TokenSpecification>>,
        pos: usize,
        pattern: &Vec<Pattern>,
        i: usize,
        fuel: u64,
    ) -> (r: Option<(Vec<AstNode>, usize)>)
        requires
            pos <= tokens@.len(),
            i <= pattern@.len(),
        ensures
            match r {
                Some((ns, p2)) => spec_seq(pattern@.skip(i as int), tokens@, pos as int, fuel as nat)
                    == Some((nodes_view(ns@), p2 as int)) && pos <= p2 <= tokens@.len(),
                None => spec_seq(pattern@.skip(i as int), tokens@, pos as int, fuel as nat) is None,
            },
        decreases fuel, 2int,
    {
        if i == pattern.len() {
            let ns: Vec<AstNode> = Vec::new();
            proof {
                assert(nodes_view(ns@) =~= Seq::<AstNodeView>::empty());
            }
            return Some((ns, pos));
        }
        if fuel == 0 {
            return None;
        }
        proof {
            assert(pattern@.skip(i as int)[0] == pattern@[i as int]);
            assert(pattern@.skip(i as int).drop_first() =~= pattern@.skip(i as int + 1));
        }
        let p = &pattern[i];
        match p.consume(tokens, pos, fuel - 1) {
            None => None,
            Some((ns, p2)) => {
                match Pattern::match_from(tokens, p2, pattern, i + 1, fuel - 1) {
                    None => None,
                    Some((rest, p3)) => {
                        let ghost ns_before = ns@;
                        let ghost rest_before = rest@;
                        let mut ns = ns;
                        let mut rest = rest;
                        ns.append(&mut rest);
                        proof {
                            assert(nodes_view(ns@) =~= nodes_view(ns_before) + nodes_view(
                                rest_before,
                            ));
                        }
                        Some((ns, p3))
                    },
                }
            },
        }
    }

    /// Tries the alternatives from index `i` on; the first that fully
    /// matches wins.
    fn oneof_from(
        tokens: &Vec<Token<TokenSpecification>>,
        pos: usize,
        alternatives: &Vec<Pattern>,
        i: usize,
        fuel: u64,
    ) -> (r: Option<(Vec<AstNode>, usize)>)
        requires
            pos <= tokens@.len(),
            i <= alternatives@.len(),
        ensures
            match r {
                Some((ns, p2)) => spec_oneof(
                    alternatives@.skip(i as int),
                    tokens@,
                    pos as int,
                    fuel as nat,
                ) == Some((nodes_view(ns@), p2 as int)) && pos <= p2 <= tokens@.len(),
                None => spec_oneof(
                    alternatives@.skip(i as int),
                    tokens@,
                    pos as int,
                    fuel as nat,
                ) is None,
            },
        decreases fuel, 2int,
    {
        if i == alternatives.len() {
            return None;
        }
        if fuel == 0 {
            return None;
        }
        proof {
            assert(alternatives@.skip(i as int)[0] == alternatives@[i as int]);
            assert(alternatives@.skip(i as int).drop_first() =~= alternatives@.skip(i as int + 1));
        }
        let p = &alternatives[i];
        match p.consume(tokens, pos, fuel - 1) {
            Some(r) => Some(r),
            None => Pattern::oneof_from(tokens, pos, alternatives, i + 1, fuel - 1),
        }
    }

    /// Repeats the inner pattern while it matches and makes progress.
    fn list_match(p: &Pattern, tokens: &Vec<Token<TokenSpecification>>, pos: usize, fuel: u64) -> (r:
        Option<(Vec<AstNode>, usize)>)
        requires
            pos <= tokens@.len(),
        ensures
            match r {
                Some((ns, p2)) => spec_list(*p, tokens@, pos as int, fuel as nat) == Some(
                    (nodes_view(ns@), p2 as int),
                ) && pos <= p2 <= tokens@.len(),
                None => spec_list(*p, tokens@, pos as int, fuel as nat) is None,
            },
        decreases fuel, 2int,
    {
        if fuel == 0 {
            return None;
        }
        match p.consume(tokens, pos, fuel - 1) {
            None => {
                let ns: Vec<AstNode> = Vec::new();
                proof {
                    assert(nodes_view(ns@) =~= Seq::<AstNodeView>::empty());
                }
                Some((ns, pos))
            },
            Some((ns, p2)) => {
                if p2 == pos {
                    return Some((ns, p2));
                }
                match Pattern::list_match(p, tokens, p2, fuel - 1) {
                    None => None,
                    Some((rest, p3)) => {
                        let ghost ns_before = ns@;
                        let ghost rest_before = rest@;
                        let mut ns = ns;
                        let mut rest = rest;
                        ns.append(&mut rest);
                        proof {
                            assert(nodes_view(ns@) =~= nodes_view(ns_before) + nodes_view(
                                rest_before,
                            ));
                        }
                        Some((ns, p3))
                    },
                }
            },
        }
    }
}

/// Law: the option combinator never fails on zero matches. When its inner
/// pattern does not match, the option yields an empty fragment and consumes
/// no token.
pub proof fn lemma_optional_zero_matches(
    q: Pattern,
    tokens: Seq<Token<TokenSpecification>>,
    pos: int,
    fuel: nat,
)
    requires
        fuel > 0,
        q matches Pattern::Optional(inner) && spec_consume(
            *inner,
            tokens,
            pos,
            (fuel - 1) as nat,
        ) is None,
    ensures
        spec_consume(q, tokens, pos, fuel) == Some((Seq::<AstNodeView>::empty(), pos)),
{
}

/// Law: the repetition combinator never fails on zero matches. When its
/// inner pattern does not match, the repetition yields an empty fragment and
/// consumes no token.
pub proof fn lemma_list_zero_matches(
    q: Pattern,
    tokens: Seq<Token<TokenSpecification>>,
    pos: int,
    fuel: nat,
)
    requires
        fuel >= 2,
        q matches Pattern::List(inner) && spec_consume(
            *inner,
            tokens,
            pos,
            (fuel - 2) as nat,
        ) is None,
    ensures
        spec_consume(q, tokens, pos, fuel) == Some((Seq::<AstNodeView>::empty(), pos)),
{
    let b = q->List_0;
    assert(spec_consume(q, tokens, pos, fuel) == spec_list(*b, tokens, pos, (fuel - 1) as nat));
    assert(spec_consume(*b, tokens, pos, (((fuel - 1) as nat) - 1) as nat) is None);
}

} // verus!
