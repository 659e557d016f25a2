//! The transformation pipeline: collect the record's directives for one
//! mode, parse each, check the record's shape, project and synthesize —
//! a pure function from one input record to its output declarations or a
//! single error.
//!
//! Error policy: grammar errors are accumulated across all of the record's
//! directives (in source order) and reported together; they take precedence
//! over the structural check, which is attributed to the declaration's
//! name.  No output is emitted on error.

use vstd::prelude::*;
use vstd::string::StringExecFns;

use crate::grammar::parse_directive_tokens;
use crate::model::DirectiveView;
use crate::model::FieldView;
use crate::model::GrammarError;
use crate::model::InputRecord;
use crate::model::ProjectedRecord;
use crate::model::ProjectedRecordView;
use crate::model::ProjectionDirective;
use crate::model::ProjectionMode;
use crate::model::RawAnnotation;
use crate::model::RawAnnotationView;
use crate::model::RecordShape;
use crate::model::TransformError;
use crate::parser::parse_directive;
use crate::project::project;
use crate::project::spec_project;
use crate::synth::spec_synthesize;
use crate::synth::synthesize;

verus! {

/// The annotation keyword each pipeline selects on.
pub open spec fn mode_keyword(mode: ProjectionMode) -> Seq<char> {
    match mode {
        ProjectionMode::Omit => "omit"@,
        ProjectionMode::Pick => "pick"@,
    }
}

/// The record's annotations whose directive name equals `kw`, in source
/// order.  A pure filter; no parsing.
pub open spec fn spec_collect(anns: Seq<RawAnnotationView>, kw: Seq<char>) -> Seq<
    RawAnnotationView,
>
    decreases anns.len(),
{
    if anns.len() == 0 {
        seq![]
    } else {
        let rest = spec_collect(anns.drop_last(), kw);
        if anns.last().directive_name == kw {
            rest.push(anns.last())
        } else {
            rest
        }
    }
}

/// The grammar errors of a directive sequence, in source order: one per
/// directive whose argument tokens the grammar rejects, attributed to that
/// directive's span.
pub open spec fn spec_grammar_errors(raws: Seq<RawAnnotationView>) -> Seq<GrammarError>
    decreases raws.len(),
{
    if raws.len() == 0 {
        seq![]
    } else {
        let rest = spec_grammar_errors(raws.drop_last());
        if parse_directive_tokens(raws.last().argument_tokens) is None {
            rest.push(GrammarError { span: raws.last().source_span })
        } else {
            rest
        }
    }
}

/// The parses of a directive sequence, in source order.  Meaningful only
/// when no directive has a grammar error.
pub open spec fn spec_directives(raws: Seq<RawAnnotationView>) -> Seq<DirectiveView>
    decreases raws.len(),
{
    if raws.len() == 0 {
        seq![]
    } else {
        spec_directives(raws.drop_last()).push(
            parse_directive_tokens(raws.last().argument_tokens)->Some_0,
        )
    }
}

/// The output declarations for a sequence of parsed directives: each is
/// synthesized from its own projection of the *same* original field
/// sequence, independently of the others.
pub open spec fn spec_outputs(
    ds: Seq<DirectiveView>,
    fields: Seq<FieldView>,
    mode: ProjectionMode,
) -> Seq<ProjectedRecordView> {
    ds.map_values(|d: DirectiveView| spec_synthesize(d, spec_project(fields, d.field_refs, mode)))
}

fn keyword_string(mode: ProjectionMode) -> (r: String)
    ensures
        r@ == mode_keyword(mode),
{
    match mode {
        ProjectionMode::Omit => String::from_str("omit"),
        ProjectionMode::Pick => String::from_str("pick"),
    }
}

/// Collects the record-level annotations matching the mode's directive
/// keyword, preserving source order.  Zero matches is not an error: a
/// record with no directives yields no output declarations.
pub fn collect_directives(annotations: &Vec<RawAnnotation>, mode: ProjectionMode) -> (out: Vec<
    RawAnnotation,
>)
    ensures
        out.deep_view() == spec_collect(annotations.deep_view(), mode_keyword(mode)),
{
    let ghost av = annotations.deep_view();
    let kw = keyword_string(mode);
    let mut out: Vec<RawAnnotation> = Vec::new();
    proof {
        assert(out.deep_view() =~= spec_collect(av.take(0), mode_keyword(mode)));
    }
    let mut i: usize = 0;
    while i < annotations.len()
        invariant
            i <= annotations.len(),
            av == annotations.deep_view(),
            kw@ == mode_keyword(mode),
            out.deep_view() == spec_collect(av.take(i as int), mode_keyword(mode)),
        decreases annotations.len() - i,
    {
        let ghost out0 = out.deep_view();
        if annotations[i].directive_name == kw {
            let c = annotations[i].clone();
            let ghost c0 = c.deep_view();
            out.push(c);
            proof {
                assert(c0 == av[i as int]);
                assert(out.deep_view() =~= out0.push(c0));
            }
        }
        proof {
            assert(av.take(i + 1).drop_last() =~= av.take(i as int));
            assert(av.take(i + 1).last() == av[i as int]);
        }
        i += 1;
    }
    proof {
        assert(av.take(annotations.len() as int) =~= av);
    }
    out
}

/// Runs one whole transformation: collects this mode's directives from the
/// record, parses them all (accumulating grammar errors in source order),
/// rejects a record that is not a plain named-field record, and otherwise
/// synthesizes one output declaration per directive, each projected from
/// the original field sequence.
pub fn transform(record: &InputRecord, mode: ProjectionMode) -> (r: Result<
    Vec<ProjectedRecord>,
    TransformError,
>)
    ensures
        ({
            let raws = spec_collect(record.deep_view().annotations, mode_keyword(mode));
            let errs = spec_grammar_errors(raws);
            if errs.len() > 0 {
                r matches Err(TransformError::Grammar { errors }) && errors@ == errs
            } else if !(record.shape is NamedFields) {
                r matches Err(TransformError::StructuralError { record_name }) && record_name@
                    == record.name@
            } else {
                r matches Ok(decls) && decls.deep_view() == spec_outputs(
                    spec_directives(raws),
                    record.deep_view().fields,
                    mode,
                )
            }
        }),
{
    let raws = collect_directives(&record.annotations, mode);
    let ghost rv = raws.deep_view();
    let mut errors: Vec<GrammarError> = Vec::new();
    let mut directives: Vec<ProjectionDirective> = Vec::new();
    proof {
        assert(errors@ =~= spec_grammar_errors(rv.take(0)));
        assert(directives.deep_view() =~= spec_directives(rv.take(0)));
    }
    let mut i: usize = 0;
    while i < raws.len()
        invariant
            i <= raws.len(),
            rv == raws.deep_view(),
            errors@ == spec_grammar_errors(rv.take(i as int)),
            errors.len() == 0 ==> directives.deep_view() == spec_directives(rv.take(i as int)),
        decreases raws.len() - i,
    {
        let raw = &raws[i];
        let ghost errors0 = errors@;
        let ghost directives0 = directives.deep_view();
        match parse_directive(&raw.argument_tokens, raw.source_span) {
            Ok(d) => {
                let ghost d0 = d.deep_view();
                directives.push(d);
                proof {
                    assert(directives.deep_view() =~= directives0.push(d0));
                }
            },
            Err(e) => {
                errors.push(e);
            },
        }
        proof {
            assert(rv.take(i + 1).drop_last() =~= rv.take(i as int));
            assert(rv.take(i + 1).last() == rv[i as int]);
            assert(raw.deep_view() == rv[i as int]);
        }
        i += 1;
    }
    proof {
        assert(rv.take(raws.len() as int) =~= rv);
    }
    if errors.len() > 0 {
        return Err(TransformError::Grammar { errors });
    }
    match record.shape {
        RecordShape::NamedFields => {},
        _ => {
            return Err(TransformError::StructuralError { record_name: record.name.clone() });
        },
    }
    let ghost dv = directives.deep_view();
    let ghost fv = record.fields.deep_view();
    let mut decls: Vec<ProjectedRecord> = Vec::new();
    proof {
        assert(decls.deep_view() =~= spec_outputs(dv.take(0), fv, mode));
    }
    let mut i: usize = 0;
    while i < directives.len()
        invariant
            i <= directives.len(),
            dv == directives.deep_view(),
            fv == record.fields.deep_view(),
            decls.deep_view() == spec_outputs(dv.take(i as int), fv, mode),
        decreases directives.len() - i,
    {
        let d = &directives[i];
        let projected = project(&record.fields, d, mode);
        let out = synthesize(d, projected);
        let ghost decls0 = decls.deep_view();
        let ghost out0 = out.deep_view();
        decls.push(out);
        proof {
            assert(d.deep_view() == dv[i as int]);
            assert(decls.deep_view() =~= decls0.push(out0));
            assert(spec_outputs(dv.take(i + 1), fv, mode) =~= spec_outputs(
                dv.take(i as int),
                fv,
                mode,
            ).push(spec_synthesize(dv[i as int], spec_project(fv, dv[i as int].field_refs, mode))));
        }
        i += 1;
    }
    proof {
        assert(dv.take(directives.len() as int) =~= dv);
    }
    Ok(decls)
}

} // verus!
