//! The field projector: computes the retained field subset for one parsed
//! directive, preserving the original record's field order, and the two
//! laws that pin its behaviour down — order preservation and the
//! omit/pick duality over name sets.

use vstd::prelude::*;

use crate::model::Field;
use crate::model::FieldView;
use crate::model::ProjectionDirective;
use crate::model::ProjectionMode;

verus! {

/// Whether a field named `name` is retained under `mode`, given the
/// directive's referenced names `refs`: `Omit` keeps the names not
/// referenced, `Pick` keeps exactly the referenced ones.  A referenced
/// name that matches no field is deliberately inert (never an error).
pub open spec fn retained(name: Seq<char>, refs: Seq<Seq<char>>, mode: ProjectionMode) -> bool {
    match mode {
        ProjectionMode::Omit => !refs.contains(name),
        ProjectionMode::Pick => refs.contains(name),
    }
}

/// The projected field sequence: the fields whose names are retained under
/// `mode`, in their original order.
pub open spec fn spec_project(
    fields: Seq<FieldView>,
    refs: Seq<Seq<char>>,
    mode: ProjectionMode,
) -> Seq<FieldView>
    decreases fields.len(),
{
    if fields.len() == 0 {
        seq![]
    } else {
        let rest = spec_project(fields.drop_last(), refs, mode);
        if retained(fields.last().name, refs, mode) {
            rest.push(fields.last())
        } else {
            rest
        }
    }
}

fn name_in_refs(refs: &Vec<String>, name: &String) -> (b: bool)
    ensures
        b == refs.deep_view().contains(name@),
{
    let mut i: usize = 0;
    while i < refs.len()
        invariant
            i <= refs.len(),
            forall|k: int| 0 <= k < i ==> refs.deep_view()[k] != name@,
        decreases refs.len() - i,
    {
        if refs[i] == *name {
            assert(refs.deep_view()[i as int] == name@);
            return true;
        }
        i += 1;
    }
    false
}

/// Projects the record's fields under one directive: retains field `f` iff
/// `f.name` is (`Pick`) or is not (`Omit`) among the directive's referenced
/// names, preserving the relative order of `fields` — never the order of
/// the references.
pub fn project(fields: &Vec<Field>, directive: &ProjectionDirective, mode: ProjectionMode) -> (out:
    Vec<Field>)
    ensures
        out.deep_view() == spec_project(
            fields.deep_view(),
            directive.field_refs.deep_view(),
            mode,
        ),
{
    let ghost fv = fields.deep_view();
    let ghost rv = directive.field_refs.deep_view();
    let mut out: Vec<Field> = Vec::new();
    proof {
        assert(out.deep_view() =~= spec_project(fv.take(0), rv, mode));
    }
    let mut i: usize = 0;
    while i < fields.len()
        invariant
            i <= fields.len(),
            fv == fields.deep_view(),
            rv == directive.field_refs.deep_view(),
            out.deep_view() == spec_project(fv.take(i as int), rv, mode),
        decreases fields.len() - i,
    {
        let f = &fields[i];
        let hit = name_in_refs(&directive.field_refs, &f.name);
        let keep = match mode {
            ProjectionMode::Omit => !hit,
            ProjectionMode::Pick => hit,
        };
        let ghost out0 = out.deep_view();
        if keep {
            out.push(f.clone());
        }
        proof {
            assert(fv.take(i + 1).drop_last() =~= fv.take(i as int));
            assert(fv.take(i + 1).last() == fv[i as int]);
            assert(f.deep_view() == fv[i as int]);
            if keep {
                assert(out.deep_view() =~= out0.push(fv[i as int]));
            }
        }
        i += 1;
    }
    proof {
        assert(fv.take(fields.len() as int) =~= fv);
    }
    out
}

/// `a` is a subsequence of `b`: the elements of `a` occur in `b` in the
/// same relative order.
pub open spec fn is_subsequence_of<A>(a: Seq<A>, b: Seq<A>) -> bool
    decreases a.len() + b.len(),
{
    if a.len() == 0 {
        true
    } else if b.len() == 0 {
        false
    } else if a.last() == b.last() {
        is_subsequence_of(a.drop_last(), b.drop_last())
    } else {
        is_subsequence_of(a, b.drop_last())
    }
}

proof fn lemma_subsequence_shrink_left<A>(a: Seq<A>, b: Seq<A>)
    requires
        a.len() > 0,
        is_subsequence_of(a, b),
    ensures
        is_subsequence_of(a.drop_last(), b),
    decreases b.len(),
{
    if a.last() == b.last() {
        if a.drop_last().len() > 0 {
            if a.drop_last().last() == b.last() {
                lemma_subsequence_shrink_left(a.drop_last(), b.drop_last());
            }
        }
    } else {
        lemma_subsequence_shrink_left(a, b.drop_last());
        if a.drop_last().len() > 0 {
            if a.drop_last().last() == b.last() {
                lemma_subsequence_shrink_left(a.drop_last(), b.drop_last());
            }
        }
    }
}

proof fn lemma_subsequence_extend_right<A>(a: Seq<A>, b: Seq<A>, x: A)
    requires
        is_subsequence_of(a, b),
    ensures
        is_subsequence_of(a, b.push(x)),
{
    if a.len() > 0 {
        assert(b.push(x).last() == x);
        assert(b.push(x).drop_last() =~= b);
        if a.last() == x {
            lemma_subsequence_shrink_left(a, b);
        }
    }
}

/// Idempotent field order: for any input fields and any directive, the
/// projection is a subsequence of the input field sequence — relative
/// order is preserved, never rearranged to match the reference order.
pub proof fn lemma_projection_preserves_order(
    fields: Seq<FieldView>,
    refs: Seq<Seq<char>>,
    mode: ProjectionMode,
)
    ensures
        is_subsequence_of(spec_project(fields, refs, mode), fields),
    decreases fields.len(),
{
    if fields.len() > 0 {
        lemma_projection_preserves_order(fields.drop_last(), refs, mode);
        let rest = spec_project(fields.drop_last(), refs, mode);
        if retained(fields.last().name, refs, mode) {
            assert(rest.push(fields.last()).last() == fields.last());
            assert(rest.push(fields.last()).drop_last() =~= rest);
        } else {
            lemma_subsequence_extend_right(rest, fields.drop_last(), fields.last());
            assert(fields.drop_last().push(fields.last()) =~= fields);
        }
    }
}

/// The names of a field sequence, in order.
pub open spec fn field_names(fields: Seq<FieldView>) -> Seq<Seq<char>> {
    fields.map_values(|f: FieldView| f.name)
}

proof fn lemma_contains_drop_last<A>(s: Seq<A>, n: A)
    requires
        s.len() > 0,
    ensures
        s.contains(n) <==> (s.drop_last().contains(n) || s.last() == n),
{
    if s.contains(n) {
        let i = choose|i: int| 0 <= i < s.len() && s[i] == n;
        if i < s.len() - 1 {
            assert(s.drop_last()[i] == n);
            assert(s.drop_last().contains(n));
        }
    }
    if s.drop_last().contains(n) {
        let i = choose|i: int| 0 <= i < s.drop_last().len() && s.drop_last()[i] == n;
        assert(s[i] == n);
    }
    if s.last() == n {
        assert(s[s.len() - 1] == n);
    }
}

proof fn lemma_project_membership(
    fields: Seq<FieldView>,
    refs: Seq<Seq<char>>,
    mode: ProjectionMode,
    n: Seq<char>,
)
    ensures
        field_names(spec_project(fields, refs, mode)).contains(n) <==> (field_names(
            fields,
        ).contains(n) && retained(n, refs, mode)),
    decreases fields.len(),
{
    if fields.len() == 0 {
        assert(!field_names(spec_project(fields, refs, mode)).contains(n));
        assert(!field_names(fields).contains(n));
    } else {
        lemma_project_membership(fields.drop_last(), refs, mode, n);
        let rest = spec_project(fields.drop_last(), refs, mode);
        let last = fields.last();
        assert(field_names(fields).drop_last() =~= field_names(fields.drop_last()));
        assert(field_names(fields).last() == last.name);
        lemma_contains_drop_last(field_names(fields), n);
        if retained(last.name, refs, mode) {
            assert(spec_project(fields, refs, mode) == rest.push(last));
            assert(field_names(rest.push(last)).drop_last() =~= field_names(rest));
            assert(field_names(rest.push(last)).last() == last.name);
            lemma_contains_drop_last(field_names(rest.push(last)), n);
        } else {
            assert(spec_project(fields, refs, mode) == rest);
        }
    }
}

/// Omit/pick duality, omit half: the projected record's name set is exactly
/// the input's name set minus the referenced names.
pub proof fn lemma_omit_projects_complement(fields: Seq<FieldView>, refs: Seq<Seq<char>>)
    ensures
        field_names(spec_project(fields, refs, ProjectionMode::Omit)).to_set() == field_names(
            fields,
        ).to_set().difference(refs.to_set()),
{
    let lhs = field_names(spec_project(fields, refs, ProjectionMode::Omit)).to_set();
    let rhs = field_names(fields).to_set().difference(refs.to_set());
    assert forall|n: Seq<char>| lhs.contains(n) <==> rhs.contains(n) by {
        lemma_project_membership(fields, refs, ProjectionMode::Omit, n);
    }
    assert(lhs =~= rhs);
}

/// Omit/pick duality, pick half: the projected record's name set is exactly
/// the input's name set intersected with the referenced names.
pub proof fn lemma_pick_projects_intersection(fields: Seq<FieldView>, refs: Seq<Seq<char>>)
    ensures
        field_names(spec_project(fields, refs, ProjectionMode::Pick)).to_set() == field_names(
            fields,
        ).to_set().intersect(refs.to_set()),
{
    let lhs = field_names(spec_project(fields, refs, ProjectionMode::Pick)).to_set();
    let rhs = field_names(fields).to_set().intersect(refs.to_set());
    assert forall|n: Seq<char>| lhs.contains(n) <==> rhs.contains(n) by {
        lemma_project_membership(fields, refs, ProjectionMode::Pick, n);
    }
    assert(lhs =~= rhs);
}

} // verus!
