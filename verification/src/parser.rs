//! The executable directive parser, proved to agree exactly with the
//! grammar: it returns `Ok` precisely on the token sequences the grammar
//! accepts, with the parsed directive equal to the grammar's parse, and
//! otherwise a [`GrammarError`] carrying the enclosing directive's span.

use vstd::prelude::*;
use vstd::string::StringExecFns;

use crate::grammar::body_at;
use crate::grammar::caps_after_segment;
use crate::grammar::caps_at_item;
use crate::grammar::derive_keyword;
use crate::grammar::lemma_caps_at_item_bounds;
use crate::grammar::parse_derive_form_tokens;
use crate::grammar::parse_directive_tokens;
use crate::model::CapabilityPath;
use crate::model::GrammarError;
use crate::model::ProjectionDirective;
use crate::model::Span;
use crate::model::Token;

verus! {

fn is_derive_keyword(s: &String) -> (b: bool)
    ensures
        b == (s@ == derive_keyword()),
{
    let kw: String = String::from_str("derive");
    *s == kw
}

fn tok_is_lparen(tok: &Token) -> (b: bool)
    ensures
        b == (tok@ is LParen),
{
    match tok {
        Token::LParen => true,
        _ => false,
    }
}

fn tok_is_rparen(tok: &Token) -> (b: bool)
    ensures
        b == (tok@ is RParen),
{
    match tok {
        Token::RParen => true,
        _ => false,
    }
}

fn tok_is_comma(tok: &Token) -> (b: bool)
    ensures
        b == (tok@ is Comma),
{
    match tok {
        Token::Comma => true,
        _ => false,
    }
}

fn caps_item(t: &Vec<Token>, i: usize, done: Vec<CapabilityPath>) -> (r: Option<
    (Vec<CapabilityPath>, usize),
>)
    ensures
        ({
            let s = caps_at_item(t.deep_view(), i as int, done.deep_view());
            match r {
                None => s is None,
                Some((ps, k)) => s == Some((ps.deep_view(), k as int)),
            }
        }),
    decreases t.len() - i,
{
    if i >= t.len() {
        None
    } else {
        match &t[i] {
            Token::RParen => Some((done, i)),
            Token::Ident(s) => {
                let ghost s0 = s@;
                let mut cur: Vec<String> = Vec::new();
                cur.push(s.clone());
                proof {
                    assert(cur.deep_view() =~= seq![s0]);
                }
                caps_segment(t, i + 1, done, cur)
            },
            _ => None,
        }
    }
}

fn caps_segment(t: &Vec<Token>, j: usize, done: Vec<CapabilityPath>, cur: Vec<String>) -> (r:
    Option<(Vec<CapabilityPath>, usize)>)
    ensures
        ({
            let s = caps_after_segment(t.deep_view(), j as int, done.deep_view(), cur.deep_view());
            match r {
                None => s is None,
                Some((ps, k)) => s == Some((ps.deep_view(), k as int)),
            }
        }),
    decreases t.len() - j,
{
    if j >= t.len() {
        None
    } else {
        match &t[j] {
            Token::RParen => {
                let ghost done0 = done.deep_view();
                let ghost cur0 = cur.deep_view();
                let mut done2 = done;
                done2.push(CapabilityPath { segments: cur });
                proof {
                    assert(done2.deep_view() =~= done0.push(cur0));
                }
                Some((done2, j))
            },
            Token::Comma => {
                let ghost done0 = done.deep_view();
                let ghost cur0 = cur.deep_view();
                let mut done2 = done;
                done2.push(CapabilityPath { segments: cur });
                proof {
                    assert(done2.deep_view() =~= done0.push(cur0));
                }
                caps_item(t, j + 1, done2)
            },
            Token::PathSep => {
                if j + 1 < t.len() {
                    match &t[j + 1] {
                        Token::Ident(s) => {
                            let ghost cur0 = cur.deep_view();
                            let ghost s0 = s@;
                            let mut cur2 = cur;
                            cur2.push(s.clone());
                            proof {
                                assert(cur2.deep_view() =~= cur0.push(s0));
                            }
                            caps_segment(t, j + 2, done, cur2)
                        },
                        _ => None,
                    }
                } else {
                    None
                }
            },
            _ => None,
        }
    }
}

fn parse_body(t: &Vec<Token>, i: usize) -> (r: Option<
    (Vec<String>, Option<Vec<CapabilityPath>>),
>)
    ensures
        ({
            let s = body_at(t.deep_view(), i as int);
            match r {
                None => s is None,
                Some((refs, caps)) => s == Some((refs.deep_view(), caps.deep_view())),
            }
        }),
    decreases t.len() - i,
{
    if i >= t.len() {
        return None;
    }
    match &t[i] {
        Token::RParen => {
            if i == t.len() - 1 {
                let refs: Vec<String> = Vec::new();
                proof {
                    assert(refs.deep_view() =~= Seq::<Seq<char>>::empty());
                }
                Some((refs, None))
            } else {
                None
            }
        },
        Token::Ident(s) => {
            if is_derive_keyword(s) {
                if i + 1 < t.len() && tok_is_lparen(&t[i + 1]) {
                    let empty: Vec<CapabilityPath> = Vec::new();
                    proof {
                        assert(empty.deep_view() =~= Seq::<Seq<Seq<char>>>::empty());
                    }
                    match caps_item(t, i + 2, empty) {
                        Some((ps, k)) => {
                            proof {
                                lemma_caps_at_item_bounds(
                                    t.deep_view(),
                                    i + 2 as int,
                                    Seq::empty(),
                                );
                            }
                            let j = k + 1;
                            if j == t.len() - 1 && tok_is_rparen(&t[j]) {
                                let refs: Vec<String> = Vec::new();
                                proof {
                                    assert(refs.deep_view() =~= Seq::<Seq<char>>::empty());
                                }
                                Some((refs, Some(ps)))
                            } else if j == t.len() - 2 && tok_is_comma(&t[j]) && tok_is_rparen(
                                &t[j + 1],
                            ) {
                                let refs: Vec<String> = Vec::new();
                                proof {
                                    assert(refs.deep_view() =~= Seq::<Seq<char>>::empty());
                                }
                                Some((refs, Some(ps)))
                            } else {
                                None
                            }
                        },
                        None => None,
                    }
                } else {
                    None
                }
            } else {
                let ghost s0 = s@;
                let name = s.clone();
                let j = i + 1;
                if j >= t.len() {
                    None
                } else if j == t.len() - 1 && tok_is_rparen(&t[j]) {
                    let mut refs: Vec<String> = Vec::new();
                    refs.push(name);
                    proof {
                        assert(refs.deep_view() =~= seq![s0]);
                    }
                    Some((refs, None))
                } else if tok_is_comma(&t[j]) {
                    match parse_body(t, j + 1) {
                        Some((rest, caps)) => {
                            let ghost rest0 = rest.deep_view();
                            let mut refs = rest;
                            refs.insert(0, name);
                            proof {
                                assert(refs.deep_view() =~= seq![s0] + rest0);
                            }
                            Some((refs, caps))
                        },
                        None => None,
                    }
                } else {
                    None
                }
            }
        },
        _ => None,
    }
}

/// Parses one directive's argument token sequence, outer parentheses
/// included.  `span` is the enclosing directive's source span; every
/// rejection is attributed to it.
pub fn parse_directive(tokens: &Vec<Token>, span: Span) -> (r: Result<
    ProjectionDirective,
    GrammarError,
>)
    ensures
        ({
            let p = parse_directive_tokens(tokens.deep_view());
            match r {
                Ok(d) => p == Some(d.deep_view()),
                Err(e) => p is None && e == (GrammarError { span }),
            }
        }),
{
    if tokens.len() < 3 {
        return Err(GrammarError { span });
    }
    if !tok_is_lparen(&tokens[0]) {
        return Err(GrammarError { span });
    }
    match &tokens[1] {
        Token::Ident(name) => {
            if tokens.len() == 3 && tok_is_rparen(&tokens[2]) {
                let refs: Vec<String> = Vec::new();
                proof {
                    assert(refs.deep_view() =~= Seq::<Seq<char>>::empty());
                }
                Ok(
                    ProjectionDirective {
                        target_name: name.clone(),
                        field_refs: refs,
                        capability_list: None,
                    },
                )
            } else if tok_is_comma(&tokens[2]) {
                match parse_body(tokens, 3) {
                    Some((refs, caps)) => Ok(
                        ProjectionDirective {
                            target_name: name.clone(),
                            field_refs: refs,
                            capability_list: caps,
                        },
                    ),
                    None => Err(GrammarError { span }),
                }
            } else {
                Err(GrammarError { span })
            }
        },
        _ => Err(GrammarError { span }),
    }
}

/// Parses a standalone `derive(...)` sub-form covering the whole token
/// sequence, returning its capability paths.
pub fn parse_derive_form(tokens: &Vec<Token>, span: Span) -> (r: Result<
    Vec<CapabilityPath>,
    GrammarError,
>)
    ensures
        ({
            let p = parse_derive_form_tokens(tokens.deep_view());
            match r {
                Ok(ps) => p == Some(ps.deep_view()),
                Err(e) => p is None && e == (GrammarError { span }),
            }
        }),
{
    if tokens.len() < 3 {
        return Err(GrammarError { span });
    }
    match &tokens[0] {
        Token::Ident(s) => {
            if is_derive_keyword(s) && tok_is_lparen(&tokens[1]) {
                let empty: Vec<CapabilityPath> = Vec::new();
                proof {
                    assert(empty.deep_view() =~= Seq::<Seq<Seq<char>>>::empty());
                }
                match caps_item(tokens, 2, empty) {
                    Some((ps, k)) => {
                        if k == tokens.len() - 1 {
                            Ok(ps)
                        } else {
                            Err(GrammarError { span })
                        }
                    },
                    None => Err(GrammarError { span }),
                }
            } else {
                Err(GrammarError { span })
            }
        },
        _ => Err(GrammarError { span }),
    }
}

} // verus!
