//! What a call of a routine is bound to.

use vstd::prelude::*;

use crate::binding::{bound_form, table_scope};
use crate::bound::BoundExprView;
use crate::catalog::{CatalogView, RoutineArgumentView, RoutineDefinitionView, RoutineKind};
use crate::laws_bind::{all_told, lemma_told_form, told};
use crate::laws_ddl::schema_in;
use crate::routines::{
    best_candidates, call_of, callable, candidate_of, candidates_of, inputs_of, lemma_best_candidates, routine_select_of, CandidateView,
};
use crate::syntax::{ParsedExprView, ParsedIdentifierView, ParsedObjectNameView};

verus! {

/// Whether a candidate for a call is a routine of its name and kind that takes its
/// arguments, with the arguments that were written.
pub open spec fn suits(
    l: Seq<RoutineDefinitionView>,
    name: Seq<char>,
    kind: RoutineKind,
    arguments: Seq<ParsedExprView>,
    c: CandidateView,
) -> bool {
    &&& l.contains(c.routine)
    &&& c.routine.name == name
    &&& c.routine.kind == kind
    &&& inputs_of(c.routine).len() == arguments.len()
    &&& all_told(arguments, table_scope(None), c.arguments)
}

proof fn lemma_candidate(
    arguments: Seq<ParsedExprView>,
    expected: Seq<RoutineArgumentView>,
    catalog: CatalogView,
    i: int,
    done: Seq<BoundExprView>,
    score: usize,
)
    requires
        0 <= i <= arguments.len(),
        arguments.len() == expected.len(),
        all_told(arguments.take(i), table_scope(None), done),
    ensures
        candidate_of(arguments, expected, catalog, i, done, score) matches Ok(Some((r, _))) ==> all_told(arguments, table_scope(None), r),
    decreases arguments.len() - i,
{
    if i >= arguments.len() {
        assert(arguments.take(i) =~= arguments);
    } else {
        let t = Some(expected[i].data_type);
        lemma_told_form(arguments[i], table_scope(None), t);
        if let (Ok(declared), Ok(b)) = (
            crate::routines::cast_type(arguments[i], catalog),
            bound_form(arguments[i], table_scope(None), t),
        ) {
            let next = done.push(b);
            let prefix = arguments.take(i + 1);
            assert forall|k: int| 0 <= k < prefix.len() implies told(#[trigger] prefix[k], table_scope(None), next[k]) by {
                if k < i {
                    assert(prefix[k] == arguments.take(i)[k]);
                    assert(next[k] == done[k]);
                }
            }
            lemma_candidate(
                arguments,
                expected,
                catalog,
                i + 1,
                next,
                if declared is Some && declared == expected[i].declared_type && score < usize::MAX {
                    (score + 1) as usize
                } else {
                    score
                },
            );
        }
    }
}

proof fn lemma_candidates(
    l: Seq<RoutineDefinitionView>,
    name: Seq<char>,
    kind: RoutineKind,
    arguments: Seq<ParsedExprView>,
    catalog: CatalogView,
    i: int,
    done: Seq<CandidateView>,
)
    requires
        0 <= i <= l.len(),
        forall|k: int| 0 <= k < done.len() ==> suits(l, name, kind, arguments, #[trigger] done[k]),
    ensures
        candidates_of(l, name, kind, arguments, catalog, i, done) matches Ok(r) ==> forall|k: int|
            0 <= k < r.len() ==> suits(l, name, kind, arguments, #[trigger] r[k]),
    decreases l.len() - i,
{
    if i < l.len() {
        if !callable(l[i], name, kind, arguments.len()) {
            lemma_candidates(l, name, kind, arguments, catalog, i + 1, done);
        } else {
            assert(arguments.take(0) =~= Seq::empty());
            lemma_candidate(arguments, inputs_of(l[i]), catalog, 0, Seq::empty(), 0);
            match candidate_of(arguments, inputs_of(l[i]), catalog, 0, Seq::empty(), 0) {
                Ok(None) => lemma_candidates(l, name, kind, arguments, catalog, i + 1, done),
                Ok(Some((bound, score))) => {
                    let c = CandidateView { routine: l[i], arguments: bound, score };
                    assert(suits(l, name, kind, arguments, c));
                    lemma_candidates(l, name, kind, arguments, catalog, i + 1, done.push(c));
                },
                Err(_) => {},
            }
        }
    }
}

proof fn lemma_best_suits(
    l: Seq<RoutineDefinitionView>,
    name: Seq<char>,
    kind: RoutineKind,
    arguments: Seq<ParsedExprView>,
    candidates: Seq<CandidateView>,
)
    requires
        forall|k: int| 0 <= k < candidates.len() ==> suits(l, name, kind, arguments, #[trigger] candidates[k]),
    ensures
        best_candidates(candidates).len() > 0 ==> suits(l, name, kind, arguments, best_candidates(candidates)[0]),
{
    let best = best_candidates(candidates);
    if best.len() > 0 {
        lemma_best_candidates(candidates, best[0]);
        assert(best.contains(best[0]));
        let k = choose|k: int| 0 <= k < candidates.len() && candidates[k] == best[0];
        assert(suits(l, name, kind, arguments, candidates[k]));
    }
}

/// A CALL is bound to a procedure of its schema and name that takes as many arguments, with
/// the arguments that were written, in their order.
pub proof fn lemma_call_told(name: ParsedObjectNameView, arguments: Seq<ParsedExprView>, catalog: CatalogView)
    ensures
        call_of(name, arguments, catalog) matches Ok(b) ==> b is Call && (catalog.schema(schema_in(name)) matches Some(s) && exists|
            c: CandidateView,
        |
            #[trigger] suits(s.routines, name.parts.last().name, RoutineKind::Procedure, arguments, c) && c.routine.id == b->Call_routine_id
                && c.arguments == b->Call_arguments),
{
    reveal(call_of);
    if let Some(s) = catalog.schema(schema_in(name)) {
        let n = name.parts.last().name;
        lemma_candidates(s.routines, n, RoutineKind::Procedure, arguments, catalog, 0, Seq::empty());
        if let Ok(l) = candidates_of(s.routines, n, RoutineKind::Procedure, arguments, catalog, 0, Seq::empty()) {
            lemma_best_suits(s.routines, n, RoutineKind::Procedure, arguments, l);
        }
    }
}

/// A SELECT of a routine is bound to a function of its schema and name that takes as many
/// arguments, with the arguments that were written, and its one column goes by its alias or
/// else by the name of the function.
pub proof fn lemma_routine_select_told(
    name: ParsedObjectNameView,
    arguments: Seq<ParsedExprView>,
    alias: Option<ParsedIdentifierView>,
    catalog: CatalogView,
)
    ensures
        routine_select_of(name, arguments, alias, catalog) matches Ok(b) ==> b is RoutineSelect && b->RoutineSelect_schema.fields.len() == 1
            && b->RoutineSelect_schema.fields[0].name == (match alias {
            Some(a) => a.name,
            None => name.parts.last().name,
        }) && (catalog.schema(schema_in(name)) matches Some(s) && exists|c: CandidateView|
            #[trigger] suits(s.routines, name.parts.last().name, RoutineKind::Function, arguments, c) && c.routine.id
                == b->RoutineSelect_routine_id && c.arguments == b->RoutineSelect_arguments && c.routine.returns_set
                == b->RoutineSelect_returns_set),
{
    reveal(routine_select_of);
    if let Some(s) = catalog.schema(schema_in(name)) {
        let n = name.parts.last().name;
        lemma_candidates(s.routines, n, RoutineKind::Function, arguments, catalog, 0, Seq::empty());
        if let Ok(l) = candidates_of(s.routines, n, RoutineKind::Function, arguments, catalog, 0, Seq::empty()) {
            lemma_best_suits(s.routines, n, RoutineKind::Function, arguments, l);
        }
    }
}

} // verus!
