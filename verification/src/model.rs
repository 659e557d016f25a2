//! The data model shared by the whole pipeline: directive tokens, fields,
//! raw annotations, parsed directives, projected records and errors, each
//! with a mathematical view used by the contracts.

use vstd::prelude::*;

verus! {

/// A half-open range of positions in the host's source text.  The library
/// never interprets the positions; it only carries them into error values so
/// a diagnostic can point at the directive (or declaration) that caused it.
#[derive(Clone, Copy, PartialEq, Eq, Structural, Debug)]
pub struct Span {
    pub lo: usize,
    pub hi: usize,
}

impl DeepView for Span {
    type V = Span;

    open spec fn deep_view(&self) -> Span {
        *self
    }
}

/// One token of a directive's argument sequence, as handed over by the host
/// front end.  Parenthesized grouping is kept flat (`LParen`/`RParen`), so an
/// unterminated parenthesis is representable and is rejected by the parser.
#[derive(Debug)]
pub enum Token {
    /// An identifier, including the `derive` keyword of the sub-form.
    Ident(String),
    /// The list separator `,`.
    Comma,
    /// The module separator joining the segments of a capability path.
    PathSep,
    /// An opening parenthesis.
    LParen,
    /// A closing parenthesis.
    RParen,
}

/// The mathematical value of a [`Token`].
pub enum TokenView {
    Ident(Seq<char>),
    Comma,
    PathSep,
    LParen,
    RParen,
}

impl View for Token {
    type V = TokenView;

    open spec fn view(&self) -> TokenView {
        match self {
            Token::Ident(s) => TokenView::Ident(s@),
            Token::Comma => TokenView::Comma,
            Token::PathSep => TokenView::PathSep,
            Token::LParen => TokenView::LParen,
            Token::RParen => TokenView::RParen,
        }
    }
}

impl DeepView for Token {
    type V = TokenView;

    open spec fn deep_view(&self) -> TokenView {
        self.view()
    }
}

impl Clone for Token {
    fn clone(&self) -> (r: Self)
        ensures
            r == *self,
    {
        match self {
            Token::Ident(s) => Token::Ident(s.clone()),
            Token::Comma => Token::Comma,
            Token::PathSep => Token::PathSep,
            Token::LParen => Token::LParen,
            Token::RParen => Token::RParen,
        }
    }
}

/// One field of the input record: its name, and the full original field
/// syntax (visibility, type, field-level annotations) as an opaque payload
/// that is copied into output declarations byte for byte, never parsed.
#[derive(Debug)]
pub struct Field {
    pub name: String,
    pub raw_syntax: String,
}

/// The mathematical value of a [`Field`].
pub struct FieldView {
    pub name: Seq<char>,
    pub raw_syntax: Seq<char>,
}

impl View for Field {
    type V = FieldView;

    open spec fn view(&self) -> FieldView {
        FieldView { name: self.name@, raw_syntax: self.raw_syntax@ }
    }
}

impl DeepView for Field {
    type V = FieldView;

    open spec fn deep_view(&self) -> FieldView {
        self.view()
    }
}

impl Clone for Field {
    fn clone(&self) -> (r: Self)
        ensures
            r == *self,
    {
        Field { name: self.name.clone(), raw_syntax: self.raw_syntax.clone() }
    }
}

/// A possibly qualified capability reference from a `derive(...)` sub-form,
/// e.g. `Clone` or `module::Validate`: one identifier per segment, at least
/// one segment.  Copied opaquely; never resolved or validated.
#[derive(Debug)]
pub struct CapabilityPath {
    pub segments: Vec<String>,
}

impl DeepView for CapabilityPath {
    type V = Seq<Seq<char>>;

    open spec fn deep_view(&self) -> Seq<Seq<char>> {
        self.segments.deep_view()
    }
}

fn clone_strings(v: &Vec<String>) -> (r: Vec<String>)
    ensures
        r@ == v@,
{
    let mut r: Vec<String> = Vec::new();
    let mut i: usize = 0;
    while i < v.len()
        invariant
            i <= v.len(),
            r@ == v@.take(i as int),
        decreases v.len() - i,
    {
        r.push(v[i].clone());
        proof {
            assert(v@.take(i + 1).drop_last() =~= v@.take(i as int));
            assert(r@ =~= v@.take(i + 1));
        }
        i += 1;
    }
    proof {
        assert(v@.take(v.len() as int) =~= v@);
    }
    r
}

impl Clone for CapabilityPath {
    fn clone(&self) -> (r: Self)
        ensures
            r.deep_view() == self.deep_view(),
    {
        let r = CapabilityPath { segments: clone_strings(&self.segments) };
        proof {
            assert(r.deep_view() =~= self.deep_view());
        }
        r
    }
}

/// One record-level annotation as collected by the host: the directive name
/// it was written under, its raw argument tokens, and its source span.
#[derive(Debug)]
pub struct RawAnnotation {
    pub directive_name: String,
    pub argument_tokens: Vec<Token>,
    pub source_span: Span,
}

/// The mathematical value of a [`RawAnnotation`].
pub struct RawAnnotationView {
    pub directive_name: Seq<char>,
    pub argument_tokens: Seq<TokenView>,
    pub source_span: Span,
}

impl DeepView for RawAnnotation {
    type V = RawAnnotationView;

    open spec fn deep_view(&self) -> RawAnnotationView {
        RawAnnotationView {
            directive_name: self.directive_name@,
            argument_tokens: self.argument_tokens.deep_view(),
            source_span: self.source_span,
        }
    }
}

fn clone_tokens(v: &Vec<Token>) -> (r: Vec<Token>)
    ensures
        r@ == v@,
{
    let mut r: Vec<Token> = Vec::new();
    let mut i: usize = 0;
    while i < v.len()
        invariant
            i <= v.len(),
            r@ == v@.take(i as int),
        decreases v.len() - i,
    {
        r.push(v[i].clone());
        proof {
            assert(r@ =~= v@.take(i + 1));
        }
        i += 1;
    }
    proof {
        assert(v@.take(v.len() as int) =~= v@);
    }
    r
}

impl Clone for RawAnnotation {
    fn clone(&self) -> (r: Self)
        ensures
            r.deep_view() == self.deep_view(),
    {
        let r = RawAnnotation {
            directive_name: self.directive_name.clone(),
            argument_tokens: clone_tokens(&self.argument_tokens),
            source_span: self.source_span,
        };
        proof {
            assert(r.argument_tokens.deep_view() =~= self.argument_tokens.deep_view());
        }
        r
    }
}

/// The structural shape of the input declaration.  Only a plain named-field
/// record can be projected; the two other shapes are rejected with a
/// structural error.
#[derive(Clone, Copy, PartialEq, Eq, Structural, Debug)]
pub enum RecordShape {
    NamedFields,
    TaggedUnion,
    PositionalFields,
}

/// The input declaration as the host hands it over: name, shape, ordered
/// fields, and the record-level annotations in source order.
#[derive(Debug)]
pub struct InputRecord {
    pub name: String,
    pub shape: RecordShape,
    pub fields: Vec<Field>,
    pub annotations: Vec<RawAnnotation>,
}

/// The mathematical value of an [`InputRecord`].
pub struct InputRecordView {
    pub name: Seq<char>,
    pub shape: RecordShape,
    pub fields: Seq<FieldView>,
    pub annotations: Seq<RawAnnotationView>,
}

impl DeepView for InputRecord {
    type V = InputRecordView;

    open spec fn deep_view(&self) -> InputRecordView {
        InputRecordView {
            name: self.name@,
            shape: self.shape,
            fields: self.fields.deep_view(),
            annotations: self.annotations.deep_view(),
        }
    }
}

/// The parsed form of one directive's argument tokens: the new record's
/// name, the referenced field names in source order, and the capability
/// paths of the `derive(...)` sub-form if one was present (`Some` even when
/// its list is empty).
#[derive(Debug)]
pub struct ProjectionDirective {
    pub target_name: String,
    pub field_refs: Vec<String>,
    pub capability_list: Option<Vec<CapabilityPath>>,
}

/// The mathematical value of a [`ProjectionDirective`].
pub struct DirectiveView {
    pub target_name: Seq<char>,
    pub field_refs: Seq<Seq<char>>,
    pub capability_list: Option<Seq<Seq<Seq<char>>>>,
}

impl DeepView for ProjectionDirective {
    type V = DirectiveView;

    open spec fn deep_view(&self) -> DirectiveView {
        DirectiveView {
            target_name: self.target_name@,
            field_refs: self.field_refs.deep_view(),
            capability_list: self.capability_list.deep_view(),
        }
    }
}

/// The field-selection rule of a pipeline: `Omit` keeps the fields whose
/// names are not referenced by the directive, `Pick` keeps exactly the
/// referenced ones.
#[derive(Clone, Copy, PartialEq, Eq, Structural, Debug)]
pub enum ProjectionMode {
    Omit,
    Pick,
}

/// One synthesized output declaration: the target name, the projected
/// fields in original record order, and the capability paths to attach,
/// if the directive requested any.
#[derive(Debug)]
pub struct ProjectedRecord {
    pub name: String,
    pub fields: Vec<Field>,
    pub capability_list: Option<Vec<CapabilityPath>>,
}

/// The mathematical value of a [`ProjectedRecord`].
pub struct ProjectedRecordView {
    pub name: Seq<char>,
    pub fields: Seq<FieldView>,
    pub capability_list: Option<Seq<Seq<Seq<char>>>>,
}

impl DeepView for ProjectedRecord {
    type V = ProjectedRecordView;

    open spec fn deep_view(&self) -> ProjectedRecordView {
        ProjectedRecordView {
            name: self.name@,
            fields: self.fields.deep_view(),
            capability_list: self.capability_list.deep_view(),
        }
    }
}

/// A directive whose argument tokens do not match the mini-grammar.  The
/// span is the enclosing directive's source span, so the diagnostic points
/// at the offending directive as a whole.
#[derive(Clone, Copy, PartialEq, Eq, Structural, Debug)]
pub struct GrammarError {
    pub span: Span,
}

/// The error of one transformation call.  Grammar errors are accumulated
/// across all of the record's directives before reporting; a structural
/// mismatch is attributed to the declaration's name.
#[derive(Debug)]
pub enum TransformError {
    /// The input declaration is not a plain named-field record.
    StructuralError { record_name: String },
    /// One or more directives failed to parse, in source order.
    Grammar { errors: Vec<GrammarError> },
}

} // verus!
