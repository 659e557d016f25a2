//! The declaration synthesizer: builds one output declaration per parsed
//! directive, and renders declarations to output text.  Field syntax is
//! copied into the text verbatim; capability paths are listed in directive
//! order inside a single attachment annotation, present exactly when the
//! directive carried a `derive(...)` sub-form.

use vstd::prelude::*;
use vstd::string::StringExecFns;

use crate::model::CapabilityPath;
use crate::model::DirectiveView;
use crate::model::Field;
use crate::model::FieldView;
use crate::model::ProjectedRecord;
use crate::model::ProjectedRecordView;
use crate::model::ProjectionDirective;

verus! {

/// The synthesized declaration for one directive and its projected fields:
/// the target name becomes the new record's name, the fields are the
/// projection, and the capability list is passed through unchanged.
pub open spec fn spec_synthesize(d: DirectiveView, fields: Seq<FieldView>) -> ProjectedRecordView {
    ProjectedRecordView { name: d.target_name, fields: fields, capability_list: d.capability_list }
}

fn clone_capability_list(caps: &Option<Vec<CapabilityPath>>) -> (r: Option<Vec<CapabilityPath>>)
    ensures
        r.deep_view() == caps.deep_view(),
{
    match caps {
        None => None,
        Some(v) => {
            let mut out: Vec<CapabilityPath> = Vec::new();
            proof {
                assert(out.deep_view() =~= v.deep_view().take(0));
            }
            let mut i: usize = 0;
            while i < v.len()
                invariant
                    i <= v.len(),
                    out.deep_view() == v.deep_view().take(i as int),
                decreases v.len() - i,
            {
                let ghost out0 = out.deep_view();
                let c = v[i].clone();
                let ghost c0 = c.deep_view();
                out.push(c);
                proof {
                    assert(c0 == v.deep_view()[i as int]);
                    assert(out.deep_view() =~= out0.push(c0));
                    assert(out0.push(c0) =~= v.deep_view().take(i + 1));
                }
                i += 1;
            }
            proof {
                assert(v.deep_view().take(v.len() as int) =~= v.deep_view());
            }
            Some(out)
        },
    }
}

/// Builds the output declaration for one directive: name from the
/// directive's target, body from the projected fields, capability list
/// copied verbatim (present exactly when the directive carried one).
pub fn synthesize(directive: &ProjectionDirective, projected_fields: Vec<Field>) -> (out:
    ProjectedRecord)
    ensures
        out.deep_view() == spec_synthesize(directive.deep_view(), projected_fields.deep_view()),
{
    ProjectedRecord {
        name: directive.target_name.clone(),
        fields: projected_fields,
        capability_list: clone_capability_list(&directive.capability_list),
    }
}

/// The text of one capability path: its segments joined by the module
/// separator.
pub open spec fn spec_render_path(p: Seq<Seq<char>>) -> Seq<char>
    decreases p.len(),
{
    if p.len() == 0 {
        seq![]
    } else if p.len() == 1 {
        p[0]
    } else {
        spec_render_path(p.drop_last()) + "::"@ + p.last()
    }
}

/// The text of a capability list: the paths joined by `", "`.
pub open spec fn spec_render_cap_list(ps: Seq<Seq<Seq<char>>>) -> Seq<char>
    decreases ps.len(),
{
    if ps.len() == 0 {
        seq![]
    } else if ps.len() == 1 {
        spec_render_path(ps[0])
    } else {
        spec_render_cap_list(ps.drop_last()) + ", "@ + spec_render_path(ps.last())
    }
}

/// The text of a declaration body: each field's original syntax, verbatim,
/// followed by `", "`.
pub open spec fn spec_render_fields(fs: Seq<FieldView>) -> Seq<char>
    decreases fs.len(),
{
    if fs.len() == 0 {
        seq![]
    } else {
        spec_render_fields(fs.drop_last()) + fs.last().raw_syntax + ", "@
    }
}

/// The text of one output declaration: the capability-attachment annotation
/// (exactly when a capability list is present, empty or not), then the
/// record declaration with the projected fields in order.
pub open spec fn spec_render_declaration(d: ProjectedRecordView) -> Seq<char> {
    let attr = match d.capability_list {
        Some(ps) => "#[derive("@ + spec_render_cap_list(ps) + ")] "@,
        None => seq![],
    };
    attr + "struct "@ + d.name + " { "@ + spec_render_fields(d.fields) + "}"@
}

/// The text of a whole output unit: the declarations in directive source
/// order, one line each.
pub open spec fn spec_render_output(ds: Seq<ProjectedRecordView>) -> Seq<char>
    decreases ds.len(),
{
    if ds.len() == 0 {
        seq![]
    } else {
        spec_render_output(ds.drop_last()) + spec_render_declaration(ds.last()) + "\n"@
    }
}

fn render_path_into(out: &mut String, p: &CapabilityPath)
    ensures
        final(out)@ == old(out)@ + spec_render_path(p.deep_view()),
{
    let ghost pv = p.deep_view();
    let ghost base = out@;
    let mut i: usize = 0;
    while i < p.segments.len()
        invariant
            i <= p.segments.len(),
            pv == p.deep_view(),
            out@ == base + spec_render_path(pv.take(i as int)),
        decreases p.segments.len() - i,
    {
        if i > 0 {
            out.append("::");
        }
        out.append(p.segments[i].as_str());
        proof {
            assert(pv.take(i + 1).drop_last() =~= pv.take(i as int));
            assert(pv.take(i + 1).last() == pv[i as int]);
            if i == 0 {
                assert(pv.take(1)[0] == pv[0]);
                assert(spec_render_path(pv.take(1)) == pv[0]);
            }
        }
        i += 1;
    }
    proof {
        assert(pv.take(p.segments.len() as int) =~= pv);
    }
}

fn render_cap_list_into(out: &mut String, ps: &Vec<CapabilityPath>)
    ensures
        final(out)@ == old(out)@ + spec_render_cap_list(ps.deep_view()),
{
    let ghost pv = ps.deep_view();
    let ghost base = out@;
    let mut i: usize = 0;
    while i < ps.len()
        invariant
            i <= ps.len(),
            pv == ps.deep_view(),
            out@ == base + spec_render_cap_list(pv.take(i as int)),
        decreases ps.len() - i,
    {
        if i > 0 {
            out.append(", ");
        }
        render_path_into(out, &ps[i]);
        proof {
            assert(pv.take(i + 1).drop_last() =~= pv.take(i as int));
            assert(pv.take(i + 1).last() == pv[i as int]);
            if i == 0 {
                assert(pv.take(1)[0] == pv[0]);
                assert(spec_render_cap_list(pv.take(1)) == spec_render_path(pv[0]));
            }
        }
        i += 1;
    }
    proof {
        assert(pv.take(ps.len() as int) =~= pv);
    }
}

fn render_fields_into(out: &mut String, fs: &Vec<Field>)
    ensures
        final(out)@ == old(out)@ + spec_render_fields(fs.deep_view()),
{
    let ghost fv = fs.deep_view();
    let ghost base = out@;
    let mut i: usize = 0;
    while i < fs.len()
        invariant
            i <= fs.len(),
            fv == fs.deep_view(),
            out@ == base + spec_render_fields(fv.take(i as int)),
        decreases fs.len() - i,
    {
        out.append(fs[i].raw_syntax.as_str());
        out.append(", ");
        proof {
            assert(fv.take(i + 1).drop_last() =~= fv.take(i as int));
            assert(fv.take(i + 1).last() == fv[i as int]);
        }
        i += 1;
    }
    proof {
        assert(fv.take(fs.len() as int) =~= fv);
    }
}

/// Renders one output declaration to text.
pub fn render_declaration(d: &ProjectedRecord) -> (r: String)
    ensures
        r@ == spec_render_declaration(d.deep_view()),
{
    let mut out = String::new();
    match &d.capability_list {
        Some(ps) => {
            out.append("#[derive(");
            render_cap_list_into(&mut out, ps);
            out.append(")] ");
        },
        None => {},
    }
    out.append("struct ");
    out.append(d.name.as_str());
    out.append(" { ");
    render_fields_into(&mut out, &d.fields);
    out.append("}");
    out
}

/// Renders a whole output unit: the declarations in order, one line each.
pub fn render_output(ds: &Vec<ProjectedRecord>) -> (r: String)
    ensures
        r@ == spec_render_output(ds.deep_view()),
{
    let ghost dv = ds.deep_view();
    let mut out = String::new();
    let mut i: usize = 0;
    while i < ds.len()
        invariant
            i <= ds.len(),
            dv == ds.deep_view(),
            out@ == spec_render_output(dv.take(i as int)),
        decreases ds.len() - i,
    {
        let decl = render_declaration(&ds[i]);
        out.append(decl.as_str());
        out.append("\n");
        proof {
            assert(dv.take(i + 1).drop_last() =~= dv.take(i as int));
            assert(dv.take(i + 1).last() == dv[i as int]);
        }
        i += 1;
    }
    proof {
        assert(dv.take(ds.len() as int) =~= dv);
    }
    out
}

} // verus!
