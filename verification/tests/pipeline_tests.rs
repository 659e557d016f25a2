use evil::model::Field;
use evil::model::InputRecord;
use evil::model::ProjectionMode;
use evil::model::RawAnnotation;
use evil::model::RecordShape;
use evil::model::Span;
use evil::model::Token;
use evil::model::TransformError;
use evil::pipeline::transform;
use evil::synth::render_declaration;
use evil::synth::render_output;

fn ident(s: &str) -> Token {
    Token::Ident(s.to_string())
}

fn field(name: &str, raw: &str) -> Field {
    Field {
        name: name.to_string(),
        raw_syntax: raw.to_string(),
    }
}

fn annotation(directive_name: &str, tokens: Vec<Token>, lo: usize, hi: usize) -> RawAnnotation {
    RawAnnotation {
        directive_name: directive_name.to_string(),
        argument_tokens: tokens,
        source_span: Span { lo, hi },
    }
}

/// `(target, ref)`
fn one_ref(target: &str, field_ref: &str) -> Vec<Token> {
    vec![
        Token::LParen,
        ident(target),
        Token::Comma,
        ident(field_ref),
        Token::RParen,
    ]
}

/// `(target, ref, derive(Debug, Clone))`
fn one_ref_with_derives(target: &str, field_ref: &str) -> Vec<Token> {
    vec![
        Token::LParen,
        ident(target),
        Token::Comma,
        ident(field_ref),
        Token::Comma,
        ident("derive"),
        Token::LParen,
        ident("Debug"),
        Token::Comma,
        ident("Clone"),
        Token::RParen,
        Token::RParen,
    ]
}

/// The `Hoge` record: `{ id: u64, age: u64 }` with the given annotations.
fn hoge(annotations: Vec<RawAnnotation>) -> InputRecord {
    InputRecord {
        name: "Hoge".to_string(),
        shape: RecordShape::NamedFields,
        fields: vec![field("id", "pub id: u64"), field("age", "pub age: u64")],
        annotations,
    }
}

fn names(fields: &[Field]) -> Vec<&str> {
    fields.iter().map(|f| f.name.as_str()).collect()
}

#[test]
fn test_hoge() {
    let record = hoge(vec![
        annotation("omit", one_ref("NewHoge", "id"), 1, 20),
        annotation("omit", one_ref("OldHoge", "age"), 21, 40),
    ]);
    let decls = transform(&record, ProjectionMode::Omit).unwrap();
    assert_eq!(decls.len(), 2);
    assert_eq!(names(&record.fields), vec!["id", "age"]);
}

#[test]
fn test_new_hoge() {
    let record = hoge(vec![
        annotation("omit", one_ref("NewHoge", "id"), 1, 20),
        annotation("omit", one_ref("OldHoge", "age"), 21, 40),
    ]);
    let decls = transform(&record, ProjectionMode::Omit).unwrap();
    assert_eq!(decls[0].name, "NewHoge");
    assert_eq!(names(&decls[0].fields), vec!["age"]);
}

#[test]
fn test_omit_hoge() {
    let record = hoge(vec![
        annotation("omit", one_ref_with_derives("NewHoge", "id"), 1, 20),
        annotation("omit", one_ref("OldHoge", "age"), 21, 40),
    ]);
    let decls = transform(&record, ProjectionMode::Omit).unwrap();
    assert_eq!(decls.len(), 2);
    assert_eq!(names(&record.fields), vec!["id", "age"]);
}

#[test]
fn test_omit_new_hoge() {
    let record = hoge(vec![
        annotation("omit", one_ref_with_derives("NewHoge", "id"), 1, 20),
        annotation("omit", one_ref("OldHoge", "age"), 21, 40),
    ]);
    let decls = transform(&record, ProjectionMode::Omit).unwrap();
    assert_eq!(decls[0].name, "NewHoge");
    assert_eq!(names(&decls[0].fields), vec!["age"]);
    let caps = decls[0].capability_list.as_ref().unwrap();
    assert_eq!(caps[0].segments, vec!["Debug"]);
    assert_eq!(caps[1].segments, vec!["Clone"]);
}

#[test]
fn test_pick_hoge() {
    let record = hoge(vec![annotation(
        "pick",
        one_ref_with_derives("NewHoge", "id"),
        1,
        20,
    )]);
    let decls = transform(&record, ProjectionMode::Pick).unwrap();
    assert_eq!(decls.len(), 1);
    assert_eq!(names(&record.fields), vec!["id", "age"]);
}

#[test]
fn test_pick_new_hoge() {
    let record = hoge(vec![annotation(
        "pick",
        one_ref_with_derives("NewHoge", "id"),
        1,
        20,
    )]);
    let decls = transform(&record, ProjectionMode::Pick).unwrap();
    assert_eq!(decls[0].name, "NewHoge");
    assert_eq!(names(&decls[0].fields), vec!["id"]);
}

#[test]
fn omit_with_no_references_keeps_every_field() {
    // (NewHoge,) under omit: no exclusions.
    let tokens = vec![Token::LParen, ident("NewHoge"), Token::Comma, Token::RParen];
    let record = hoge(vec![annotation("omit", tokens, 1, 20)]);
    let decls = transform(&record, ProjectionMode::Omit).unwrap();
    assert_eq!(names(&decls[0].fields), vec!["id", "age"]);
}

#[test]
fn pick_with_no_references_keeps_no_field() {
    // (NewHoge,) under pick: no inclusions — a record with zero fields.
    let tokens = vec![Token::LParen, ident("NewHoge"), Token::Comma, Token::RParen];
    let record = hoge(vec![annotation("pick", tokens, 1, 20)]);
    let decls = transform(&record, ProjectionMode::Pick).unwrap();
    assert_eq!(decls.len(), 1);
    assert!(decls[0].fields.is_empty());
}

#[test]
fn omit_unknown_reference_is_inert() {
    // (NewHoge, nonexistent): succeeds and keeps every field, no error.
    let record = hoge(vec![annotation("omit", one_ref("NewHoge", "nonexistent"), 1, 20)]);
    let decls = transform(&record, ProjectionMode::Omit).unwrap();
    assert_eq!(names(&decls[0].fields), vec!["id", "age"]);
}

#[test]
fn pick_unknown_reference_contributes_nothing() {
    let record = hoge(vec![annotation("pick", one_ref("NewHoge", "nonexistent"), 1, 20)]);
    let decls = transform(&record, ProjectionMode::Pick).unwrap();
    assert!(decls[0].fields.is_empty());
}

#[test]
fn duplicate_references_are_inert() {
    // (NewHoge, id, id): duplicates are syntactically permitted and
    // semantically inert.
    let tokens = vec![
        Token::LParen,
        ident("NewHoge"),
        Token::Comma,
        ident("id"),
        Token::Comma,
        ident("id"),
        Token::RParen,
    ];
    let record = hoge(vec![annotation("omit", tokens, 1, 20)]);
    let decls = transform(&record, ProjectionMode::Omit).unwrap();
    assert_eq!(names(&decls[0].fields), vec!["age"]);
}

#[test]
fn capability_passthrough_is_exact() {
    // omit(NewUser, id, derive(Debug, Clone)) on { id: u64, age: u64 }
    // yields NewUser { age: u64 } carrying exactly [Debug, Clone].
    let record = InputRecord {
        name: "User".to_string(),
        shape: RecordShape::NamedFields,
        fields: vec![field("id", "id: u64"), field("age", "age: u64")],
        annotations: vec![annotation("omit", one_ref_with_derives("NewUser", "id"), 1, 20)],
    };
    let decls = transform(&record, ProjectionMode::Omit).unwrap();
    assert_eq!(decls.len(), 1);
    assert_eq!(decls[0].name, "NewUser");
    assert_eq!(names(&decls[0].fields), vec!["age"]);
    assert_eq!(decls[0].fields[0].raw_syntax, "age: u64");
    let caps = decls[0].capability_list.as_ref().unwrap();
    assert_eq!(caps.len(), 2);
    assert_eq!(caps[0].segments, vec!["Debug"]);
    assert_eq!(caps[1].segments, vec!["Clone"]);
    assert_eq!(
        render_declaration(&decls[0]),
        "#[derive(Debug, Clone)] struct NewUser { age: u64, }"
    );
}

#[test]
fn multiple_directives_project_independently() {
    // omit(A, id) and omit(B, age): each declaration is derived from the
    // original field set, not from the other's output.
    let record = hoge(vec![
        annotation("omit", one_ref("A", "id"), 1, 20),
        annotation("omit", one_ref("B", "age"), 21, 40),
    ]);
    let decls = transform(&record, ProjectionMode::Omit).unwrap();
    assert_eq!(decls.len(), 2);
    assert_eq!(decls[0].name, "A");
    assert_eq!(names(&decls[0].fields), vec!["age"]);
    assert_eq!(decls[1].name, "B");
    assert_eq!(names(&decls[1].fields), vec!["id"]);
}

#[test]
fn tagged_union_is_rejected_structurally() {
    let record = InputRecord {
        name: "Foo".to_string(),
        shape: RecordShape::TaggedUnion,
        fields: vec![],
        annotations: vec![annotation("omit", one_ref("NewFoo", "id"), 1, 20)],
    };
    match transform(&record, ProjectionMode::Omit) {
        Err(TransformError::StructuralError { record_name }) => {
            assert_eq!(record_name, "Foo");
        }
        _ => panic!("expected a structural error"),
    }
}

#[test]
fn positional_record_is_rejected_structurally() {
    let record = InputRecord {
        name: "Pair".to_string(),
        shape: RecordShape::PositionalFields,
        fields: vec![],
        annotations: vec![],
    };
    match transform(&record, ProjectionMode::Omit) {
        Err(TransformError::StructuralError { record_name }) => {
            assert_eq!(record_name, "Pair");
        }
        _ => panic!("expected a structural error"),
    }
}

#[test]
fn double_comma_is_a_grammar_error() {
    // omit(Name, , extra): fails with a grammar error attributed to the
    // directive's span; no declarations are emitted.
    let tokens = vec![
        Token::LParen,
        ident("Name"),
        Token::Comma,
        Token::Comma,
        ident("extra"),
        Token::RParen,
    ];
    let record = hoge(vec![annotation("omit", tokens, 13, 37)]);
    match transform(&record, ProjectionMode::Omit) {
        Err(TransformError::Grammar { errors }) => {
            assert_eq!(errors.len(), 1);
            assert_eq!(errors[0].span, Span { lo: 13, hi: 37 });
        }
        _ => panic!("expected a grammar error"),
    }
}

#[test]
fn grammar_errors_accumulate_across_directives() {
    // Two malformed directives: both errors are reported, in source order.
    let bad_first = vec![Token::LParen, Token::RParen];
    let bad_second = vec![Token::LParen, ident("B"), Token::Comma];
    let record = hoge(vec![
        annotation("omit", bad_first, 1, 10),
        annotation("omit", one_ref("Fine", "id"), 11, 20),
        annotation("omit", bad_second, 21, 30),
    ]);
    match transform(&record, ProjectionMode::Omit) {
        Err(TransformError::Grammar { errors }) => {
            assert_eq!(errors.len(), 2);
            assert_eq!(errors[0].span, Span { lo: 1, hi: 10 });
            assert_eq!(errors[1].span, Span { lo: 21, hi: 30 });
        }
        _ => panic!("expected grammar errors"),
    }
}

#[test]
fn grammar_errors_take_precedence_over_shape() {
    // A malformed directive on a tagged union reports the grammar error.
    let tokens = vec![Token::LParen, Token::RParen];
    let record = InputRecord {
        name: "Foo".to_string(),
        shape: RecordShape::TaggedUnion,
        fields: vec![],
        annotations: vec![annotation("omit", tokens, 5, 9)],
    };
    match transform(&record, ProjectionMode::Omit) {
        Err(TransformError::Grammar { errors }) => {
            assert_eq!(errors.len(), 1);
            assert_eq!(errors[0].span, Span { lo: 5, hi: 9 });
        }
        _ => panic!("expected a grammar error"),
    }
}

#[test]
fn record_with_no_directives_yields_no_declarations() {
    let record = hoge(vec![]);
    let decls = transform(&record, ProjectionMode::Omit).unwrap();
    assert!(decls.is_empty());
}

#[test]
fn unrelated_annotations_are_ignored() {
    // Only annotations under this pipeline's keyword are collected.
    let record = hoge(vec![
        annotation("serde", vec![ident("rename_all")], 1, 10),
        annotation("omit", one_ref("NewHoge", "id"), 11, 30),
        annotation("pick", one_ref("Picked", "id"), 31, 50),
    ]);
    let decls = transform(&record, ProjectionMode::Omit).unwrap();
    assert_eq!(decls.len(), 1);
    assert_eq!(decls[0].name, "NewHoge");
}

#[test]
fn pick_ignores_omit_annotations() {
    let record = hoge(vec![annotation("omit", one_ref("NewHoge", "id"), 1, 20)]);
    let decls = transform(&record, ProjectionMode::Pick).unwrap();
    assert!(decls.is_empty());
}

#[test]
fn empty_capability_list_is_emitted_inert() {
    // derive() yields a capability attachment with zero capabilities.
    let tokens = vec![
        Token::LParen,
        ident("NewHoge"),
        Token::Comma,
        ident("derive"),
        Token::LParen,
        Token::RParen,
        Token::RParen,
    ];
    let record = hoge(vec![annotation("omit", tokens, 1, 20)]);
    let decls = transform(&record, ProjectionMode::Omit).unwrap();
    assert_eq!(
        render_declaration(&decls[0]),
        "#[derive()] struct NewHoge { pub id: u64, pub age: u64, }"
    );
}

#[test]
fn output_concatenates_declarations_in_source_order() {
    let record = hoge(vec![
        annotation("omit", one_ref("A", "id"), 1, 20),
        annotation("omit", one_ref("B", "age"), 21, 40),
    ]);
    let decls = transform(&record, ProjectionMode::Omit).unwrap();
    assert_eq!(
        render_output(&decls),
        "struct A { pub age: u64, }\nstruct B { pub id: u64, }\n"
    );
}

#[test]
fn omit_and_pick_are_dual_on_the_same_references() {
    // With references {id, name} on fields {id, age, name}: omit keeps the
    // complement, pick keeps the intersection.
    let refs = vec![
        Token::LParen,
        ident("T"),
        Token::Comma,
        ident("id"),
        Token::Comma,
        ident("name"),
        Token::RParen,
    ];
    let fields = vec![
        field("id", "id: u64"),
        field("age", "age: u64"),
        field("name", "name: String"),
    ];
    let omit_record = InputRecord {
        name: "R".to_string(),
        shape: RecordShape::NamedFields,
        fields: fields.clone(),
        annotations: vec![annotation("omit", refs.clone(), 1, 20)],
    };
    let pick_record = InputRecord {
        name: "R".to_string(),
        shape: RecordShape::NamedFields,
        fields,
        annotations: vec![annotation("pick", refs, 1, 20)],
    };
    let omitted = transform(&omit_record, ProjectionMode::Omit).unwrap();
    let picked = transform(&pick_record, ProjectionMode::Pick).unwrap();
    assert_eq!(names(&omitted[0].fields), vec!["age"]);
    assert_eq!(names(&picked[0].fields), vec!["id", "name"]);
}

#[test]
fn directive_with_bare_target_parses() {
    // (NewHoge) with no comma at all: no exclusions.
    let tokens = vec![Token::LParen, ident("NewHoge"), Token::RParen];
    let record = hoge(vec![annotation("omit", tokens, 1, 20)]);
    let decls = transform(&record, ProjectionMode::Omit).unwrap();
    assert_eq!(decls[0].name, "NewHoge");
    assert_eq!(names(&decls[0].fields), vec!["id", "age"]);
}

#[test]
fn projection_preserves_declaration_order() {
    // References out of declaration order: the output follows the record's
    // field order, never the reference order.
    let record = InputRecord {
        name: "Wide".to_string(),
        shape: RecordShape::NamedFields,
        fields: vec![
            field("a", "a: u8"),
            field("b", "b: u8"),
            field("c", "c: u8"),
        ],
        annotations: vec![annotation(
            "pick",
            vec![
                Token::LParen,
                ident("P"),
                Token::Comma,
                ident("c"),
                Token::Comma,
                ident("a"),
                Token::RParen,
            ],
            1,
            20,
        )],
    };
    let decls = transform(&record, ProjectionMode::Pick).unwrap();
    assert_eq!(names(&decls[0].fields), vec!["a", "c"]);
}
