//! The directive mini-grammar, defined mathematically over token views.
//!
//! The surface syntax of one directive's argument sequence is
//!
//! ```text
//! directive       := '(' target_name (',' directive_body)? ')'
//! directive_body  := field_list (',' derive_form)? | derive_form
//! field_list      := Identifier (',' Identifier)*
//! derive_form     := 'derive' '(' capability_list? ')'
//! capability_list := Path (',' Path)*
//! Path            := Identifier (PathSep Identifier)*
//! ```
//!
//! with these tolerances: a single trailing comma before a closing
//! parenthesis is consumed (so `(Name,)`, `(Name, f,)`, `(Name, derive(D),)`
//! and `derive(D,)` are all accepted), and an empty capability list
//! (`derive()`) is legal.  The `derive` sub-form, once opened, terminates
//! the field list: a field reference after it is a grammar error.  Every
//! token of the sequence must be consumed.
//!
//! The functions here return `None` exactly on the argument sequences that
//! the grammar rejects; the executable parser is proved to agree with them.

use vstd::prelude::*;

use crate::model::DirectiveView;
use crate::model::TokenView;

verus! {

/// The keyword that introduces a capability sub-form.
pub open spec fn derive_keyword() -> Seq<char> {
    "derive"@
}

/// Parses a capability list from position `i`, where a path may start or a
/// closing parenthesis may end the list.  `done` holds the paths parsed so
/// far.  On success, returns all paths and the index of the closing
/// parenthesis (which is not consumed).
pub open spec fn caps_at_item(
    t: Seq<TokenView>,
    i: int,
    done: Seq<Seq<Seq<char>>>,
) -> Option<(Seq<Seq<Seq<char>>>, int)>
    decreases t.len() - i,
{
    if i >= t.len() {
        None
    } else {
        match t[i] {
            TokenView::RParen => Some((done, i)),
            TokenView::Ident(s) => caps_after_segment(t, i + 1, done, seq![s]),
            _ => None,
        }
    }
}

/// Parses the continuation of a capability path whose segments so far are
/// `cur`, from position `j` (just after a segment): either more segments,
/// a comma starting the next path, or the closing parenthesis.
pub open spec fn caps_after_segment(
    t: Seq<TokenView>,
    j: int,
    done: Seq<Seq<Seq<char>>>,
    cur: Seq<Seq<char>>,
) -> Option<(Seq<Seq<Seq<char>>>, int)>
    decreases t.len() - j,
{
    if j >= t.len() {
        None
    } else {
        match t[j] {
            TokenView::RParen => Some((done.push(cur), j)),
            TokenView::Comma => caps_at_item(t, j + 1, done.push(cur)),
            TokenView::PathSep => {
                if j + 1 < t.len() {
                    match t[j + 1] {
                        TokenView::Ident(s) => caps_after_segment(t, j + 2, done, cur.push(s)),
                        _ => None,
                    }
                } else {
                    None
                }
            },
            _ => None,
        }
    }
}

/// Parses a directive body from position `i` (just after a comma): field
/// references, an optional terminating `derive` sub-form, and the final
/// closing parenthesis, which must be the last token.  Returns the field
/// references in source order and the capability list if a `derive`
/// sub-form was present.
pub open spec fn body_at(t: Seq<TokenView>, i: int) -> Option<
    (Seq<Seq<char>>, Option<Seq<Seq<Seq<char>>>>),
>
    decreases t.len() - i,
{
    if i >= t.len() {
        None
    } else {
        match t[i] {
            TokenView::RParen => if i == t.len() - 1 {
                Some((seq![], None))
            } else {
                None
            },
            TokenView::Ident(s) => {
                if s == derive_keyword() {
                    if i + 1 < t.len() && t[i + 1] is LParen {
                        match caps_at_item(t, i + 2, seq![]) {
                            Some((ps, k)) => {
                                let j = k + 1;
                                if j == t.len() - 1 && t[j] is RParen {
                                    Some((seq![], Some(ps)))
                                } else if j + 1 == t.len() - 1 && j + 1 < t.len() && t[j] is Comma
                                    && t[j + 1] is RParen {
                                    Some((seq![], Some(ps)))
                                } else {
                                    None
                                }
                            },
                            None => None,
                        }
                    } else {
                        None
                    }
                } else {
                    let j = i + 1;
                    if j >= t.len() {
                        None
                    } else if j == t.len() - 1 && t[j] is RParen {
                        Some((seq![s], None))
                    } else if t[j] is Comma {
                        match body_at(t, j + 1) {
                            Some((refs, caps)) => Some((seq![s] + refs, caps)),
                            None => None,
                        }
                    } else {
                        None
                    }
                }
            },
            _ => None,
        }
    }
}

/// Parses one whole directive argument sequence, outer parentheses
/// included.  `None` exactly on the sequences the grammar rejects.
pub open spec fn parse_directive_tokens(t: Seq<TokenView>) -> Option<DirectiveView> {
    if t.len() < 3 {
        None
    } else if !(t[0] is LParen) {
        None
    } else {
        match t[1] {
            TokenView::Ident(name) => {
                if t.len() == 3 && t[2] is RParen {
                    Some(DirectiveView { target_name: name, field_refs: seq![], capability_list: None })
                } else if t[2] is Comma {
                    match body_at(t, 3) {
                        Some((refs, caps)) => Some(
                            DirectiveView { target_name: name, field_refs: refs, capability_list: caps },
                        ),
                        None => None,
                    }
                } else {
                    None
                }
            },
            _ => None,
        }
    }
}

/// Parses a standalone `derive(...)` sub-form covering the whole token
/// sequence: the capability paths, or `None` if the sequence does not match
/// the sub-grammar.
pub open spec fn parse_derive_form_tokens(t: Seq<TokenView>) -> Option<Seq<Seq<Seq<char>>>> {
    if t.len() < 3 {
        None
    } else {
        match t[0] {
            TokenView::Ident(s) => {
                if s == derive_keyword() && t[1] is LParen {
                    match caps_at_item(t, 2, seq![]) {
                        Some((ps, k)) => if k == t.len() - 1 {
                            Some(ps)
                        } else {
                            None
                        },
                        None => None,
                    }
                } else {
                    None
                }
            },
            _ => None,
        }
    }
}

/// On success, a capability list ends at a closing parenthesis inside the
/// sequence: the returned index is in bounds, at or after the start, and
/// holds `RParen`.
pub proof fn lemma_caps_at_item_bounds(t: Seq<TokenView>, i: int, done: Seq<Seq<Seq<char>>>)
    requires
        caps_at_item(t, i, done) is Some,
    ensures
        i <= caps_at_item(t, i, done)->Some_0.1 < t.len(),
        t[caps_at_item(t, i, done)->Some_0.1] is RParen,
    decreases t.len() - i,
{
    if i < t.len() {
        match t[i] {
            TokenView::RParen => {},
            TokenView::Ident(s) => {
                lemma_caps_after_segment_bounds(t, i + 1, done, seq![s]);
            },
            _ => {},
        }
    }
}

/// Companion of [`lemma_caps_at_item_bounds`] for the mid-path state.
pub proof fn lemma_caps_after_segment_bounds(
    t: Seq<TokenView>,
    j: int,
    done: Seq<Seq<Seq<char>>>,
    cur: Seq<Seq<char>>,
)
    requires
        caps_after_segment(t, j, done, cur) is Some,
    ensures
        j <= caps_after_segment(t, j, done, cur)->Some_0.1 < t.len(),
        t[caps_after_segment(t, j, done, cur)->Some_0.1] is RParen,
    decreases t.len() - j,
{
    if j < t.len() {
        match t[j] {
            TokenView::RParen => {},
            TokenView::Comma => {
                lemma_caps_at_item_bounds(t, j + 1, done.push(cur));
            },
            TokenView::PathSep => {
                if j + 1 < t.len() {
                    match t[j + 1] {
                        TokenView::Ident(s) => {
                            lemma_caps_after_segment_bounds(t, j + 2, done, cur.push(s));
                        },
                        _ => {},
                    }
                }
            },
            _ => {},
        }
    }
}

} // verus!
