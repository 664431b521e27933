//! Functions and procedures.

use vstd::prelude::*;

use crate::binding::{bind_expr, bound_form, table_scope};
use crate::bound::{BoundExpr, BoundExprView, BoundStatement, BoundStatementView};
use crate::catalog::{
    Catalog, CatalogView, DropBehavior, RoutineArgument, RoutineArgumentView, RoutineDefinition, RoutineDefinitionView, RoutineKind,
};
use crate::ddl::{declared_type, named_type, resolve_declared_data_type, resolve_user_defined_type, resolve_written_type, written_type};
use crate::indexes::{bound_result, make_bound_statement};
use crate::names::{no_schema, no_such_schema, split_name, split_table_name};
use crate::scope::Checked;
use crate::syntax::{
    ParsedExpr, ParsedExprKind, ParsedExprKindView, ParsedExprView, ParsedIdentifier, ParsedIdentifierView, ParsedObjectName,
    ParsedObjectNameView, ParsedRoutineArgument, ParsedRoutineArgumentView, ParsedStatement, ParsedStatementView,
};
use crate::text::{decimal, decimal_text, text, text2, text5};
use crate::types::{
    error, error_at, internal_error, DATATYPE_MISMATCH, DbError, DbErrorView, Field, FieldView, Identifier, Result, RoutineId, ScalarType,
    ScalarTypeView, Schema, SchemaView, TypeId,
};

verus! {

/// The arguments that a caller supplies, from a position on.
pub open spec fn input_arguments(l: Seq<RoutineArgumentView>, i: int, done: Seq<RoutineArgumentView>) -> Seq<RoutineArgumentView>
    decreases l.len() - i,
{
    if i < 0 || i >= l.len() {
        done
    } else if l[i].mode.takes_input() {
        input_arguments(l, i + 1, done.push(l[i]))
    } else {
        input_arguments(l, i + 1, done)
    }
}

/// The arguments that a routine returns, from a position on.
pub open spec fn output_arguments(l: Seq<RoutineArgumentView>, i: int, done: Seq<RoutineArgumentView>) -> Seq<RoutineArgumentView>
    decreases l.len() - i,
{
    if i < 0 || i >= l.len() {
        done
    } else if l[i].mode.gives_output() {
        output_arguments(l, i + 1, done.push(l[i]))
    } else {
        output_arguments(l, i + 1, done)
    }
}

/// The arguments that a caller of a routine supplies.
pub open spec fn inputs_of(r: RoutineDefinitionView) -> Seq<RoutineArgumentView> {
    input_arguments(r.arguments, 0, Seq::empty())
}

/// The arguments that a routine returns.
pub open spec fn outputs_of(r: RoutineDefinitionView) -> Seq<RoutineArgumentView> {
    output_arguments(r.arguments, 0, Seq::empty())
}

/// Copies the arguments that a caller of a routine supplies.
pub fn find_inputs(routine: &RoutineDefinition) -> (r: Vec<RoutineArgument>)
    ensures
        RoutineArgument::views(r@) == inputs_of(routine@),
{
    let l = &routine.arguments;
    let ghost v = RoutineArgument::views(l@);
    let mut out: Vec<RoutineArgument> = Vec::new();
    assert(RoutineArgument::views(out@) =~= Seq::empty());
    for i in 0..l.len()
        invariant
            v == RoutineArgument::views(l@),
            input_arguments(v, 0, Seq::empty()) == input_arguments(v, i as int, RoutineArgument::views(out@)),
    {
        assert(v[i as int] == l@[i as int]@);
        if l[i].mode.accepts_input() {
            let x = l[i].clone();
            let ghost before = RoutineArgument::views(out@);
            out.push(x);
            assert(RoutineArgument::views(out@) =~= before.push(x@));
        }
    }
    out
}

/// Copies the arguments that a routine returns.
pub fn find_outputs(routine: &RoutineDefinition) -> (r: Vec<RoutineArgument>)
    ensures
        RoutineArgument::views(r@) == outputs_of(routine@),
{
    let l = &routine.arguments;
    let ghost v = RoutineArgument::views(l@);
    let mut out: Vec<RoutineArgument> = Vec::new();
    assert(RoutineArgument::views(out@) =~= Seq::empty());
    for i in 0..l.len()
        invariant
            v == RoutineArgument::views(l@),
            output_arguments(v, 0, Seq::empty()) == output_arguments(v, i as int, RoutineArgument::views(out@)),
    {
        assert(v[i as int] == l@[i as int]@);
        if l[i].mode.produces_output() {
            let x = l[i].clone();
            let ghost before = RoutineArgument::views(out@);
            out.push(x);
            assert(RoutineArgument::views(out@) =~= before.push(x@));
        }
    }
    out
}

/// The output columns of a called procedure.
pub open spec fn output_fields(l: Seq<RoutineArgumentView>) -> Seq<FieldView> {
    Seq::new(
        l.len(),
        |i: int|
            FieldView {
                name: match l[i].name {
                    Some(n) => n,
                    None => "column"@ + decimal((i + 1) as nat),
                },
                data_type: l[i].data_type,
                nullable: true,
            },
    )
}

/// Makes the output schema of a called procedure.
pub fn routine_output_schema(routine: &RoutineDefinition) -> (r: Schema)
    ensures
        r@ == (SchemaView { fields: output_fields(outputs_of(routine@)) }),
{
    let l = find_outputs(routine);
    let ghost v = RoutineArgument::views(l@);
    let mut fields: Vec<Field> = Vec::new();
    for i in 0..l.len()
        invariant
            v == RoutineArgument::views(l@),
            fields.len() == i,
            forall|k: int| 0 <= k < i ==> fields@[k]@ == #[trigger] output_fields(v)[k],
    {
        assert(v[i as int] == l@[i as int]@);
        let name: String = match &l[i].name {
            Some(n) => text(n.as_str()),
            None => text2("column", decimal_text(i as u64 + 1).as_str()),
        };
        fields.push(Field { name, data_type: l[i].data_type.clone(), nullable: true });
    }
    assert(Field::views(fields@) =~= output_fields(v));
    Schema::new(fields)
}

/// The user-defined type that an argument is cast to.
pub open spec fn cast_type(e: ParsedExprView, catalog: CatalogView) -> Checked<Option<TypeId>> {
    match e.kind {
        ParsedExprKindView::Cast { declared_type, .. } => match declared_type {
            None => Ok(None),
            Some(name) => match named_type(name, catalog) {
                Err(x) => Err(x),
                Ok(t) => Ok(Some(t.id)),
            },
        },
        _ => Ok(None),
    }
}

fn find_cast_type(e: &ParsedExpr, catalog: &Catalog) -> (r: Result<Option<TypeId>>)
    ensures
        (match r {
            Ok(t) => Ok(t),
            Err(e) => Err(e@),
        }) == cast_type(e@, catalog@),
{
    proof {
        e.unfold();
    }
    match &e.kind {
        ParsedExprKind::Cast { declared_type: Some(name), .. } => {
            let t = resolve_user_defined_type(name, catalog)?;
            Ok(Some(t.id))
        },
        _ => Ok(None),
    }
}

/// The bound arguments of a call, from a position on, and how many of them are cast
/// to exactly the declared type. Arguments that do not suit give nothing.
pub open spec fn candidate_of(
    arguments: Seq<ParsedExprView>,
    expected: Seq<RoutineArgumentView>,
    catalog: CatalogView,
    i: int,
    done: Seq<BoundExprView>,
    score: usize,
) -> Checked<Option<(Seq<BoundExprView>, usize)>>
    decreases arguments.len() - i,
{
    if i < 0 || i >= arguments.len() || i >= expected.len() {
        Ok(Some((done, score)))
    } else {
        match cast_type(arguments[i], catalog) {
            Err(x) => Err(x),
            Ok(declared) => match bound_form(arguments[i], table_scope(None), Some(expected[i].data_type)) {
                Err(_) => Ok(None),
                Ok(b) => candidate_of(
                    arguments,
                    expected,
                    catalog,
                    i + 1,
                    done.push(b),
                    if declared is Some && declared == expected[i].declared_type && score < usize::MAX {
                        (score + 1) as usize
                    } else {
                        score
                    },
                ),
            },
        }
    }
}

/// Binds the arguments of a call to the arguments of a routine.
pub fn bind_routine_candidate(arguments: &Vec<ParsedExpr>, expected: &Vec<RoutineArgument>, catalog: &Catalog) -> (r: Result<
    Option<(Vec<BoundExpr>, usize)>,
>)
    ensures
        (match r {
            Ok(Some(p)) => Ok(Some((BoundExpr::views(p.0@), p.1))),
            Ok(None) => Ok(None),
            Err(e) => Err(e@),
        }) == candidate_of(
            ParsedExpr::views(arguments@),
            RoutineArgument::views(expected@),
            catalog@,
            0,
            Seq::empty(),
            0,
        ),
{
    let ghost a = ParsedExpr::views(arguments@);
    let ghost x = RoutineArgument::views(expected@);
    let ghost whole = candidate_of(a, x, catalog@, 0, Seq::empty(), 0);
    let mut out: Vec<BoundExpr> = Vec::new();
    let mut score: usize = 0;
    assert(BoundExpr::views(out@) =~= Seq::empty());
    let pairs: usize = if arguments.len() < expected.len() {
        arguments.len()
    } else {
        expected.len()
    };
    for i in 0..pairs
        invariant
            pairs <= arguments.len(),
            pairs <= expected.len(),
            a == ParsedExpr::views(arguments@),
            x == RoutineArgument::views(expected@),
            whole == candidate_of(a, x, catalog@, 0, Seq::empty(), 0),
            whole == candidate_of(a, x, catalog@, i as int, BoundExpr::views(out@), score),
    {
        assert(a[i as int] == arguments@[i as int]@);
        assert(x[i as int] == expected@[i as int]@);
        let declared = find_cast_type(&arguments[i], catalog)?;
        let ghost old_score = score;
        if declared.is_some() && declared == expected[i].declared_type && score < usize::MAX {
            score += 1;
        }
        match bind_expr(&arguments[i], None, Some(&expected[i].data_type)) {
            Err(_) => {
                return Ok(None);
            },
            Ok(b) => {
                let ghost before = BoundExpr::views(out@);
                out.push(b);
                assert(BoundExpr::views(out@) =~= before.push(b@));
            },
        }
    }
    Ok(Some((out, score)))
}

/// A routine that a call can mean.
pub struct Candidate {
    pub routine: RoutineDefinition,
    pub arguments: Vec<BoundExpr>,
    pub score: usize,
}

/// Mathematical contents of a [`Candidate`].
pub struct CandidateView {
    pub routine: RoutineDefinitionView,
    pub arguments: Seq<BoundExprView>,
    pub score: usize,
}

impl Candidate {
    /// The value as mathematical data.
    pub open spec fn view(&self) -> CandidateView {
        CandidateView { routine: self.routine@, arguments: BoundExpr::views(self.arguments@), score: self.score }
    }

    /// The contents of each value of a sequence.
    pub open spec fn views(l: Seq<Candidate>) -> Seq<CandidateView> {
        Seq::new(l.len(), |i: int| l[i]@)
    }
}

/// Whether a call with a number of arguments can mean a routine.
pub open spec fn callable(r: RoutineDefinitionView, name: Seq<char>, kind: RoutineKind, count: nat) -> bool {
    r.name == name && r.kind == kind && inputs_of(r).len() == count && (kind == RoutineKind::Procedure || r.return_type is Some
        || outputs_of(
        r,
    ).len() > 0)
}

fn is_callable(r: &RoutineDefinition, name: &Identifier, kind: RoutineKind, count: usize) -> (b: bool)
    ensures
        b == callable(r@, name@, kind, count as nat),
{
    let inputs = find_inputs(r);
    assert(RoutineArgument::views(inputs@).len() == inputs@.len());
    let outputs = find_outputs(r);
    assert(RoutineArgument::views(outputs@).len() == outputs@.len());
    r.name.same(name) && r.kind == kind && inputs.len() == count && (kind == RoutineKind::Procedure || r.return_type.is_some()
        || outputs.len()
        > 0)
}

/// The routines that a call can mean, from a position on.
pub open spec fn candidates_of(
    l: Seq<RoutineDefinitionView>,
    name: Seq<char>,
    kind: RoutineKind,
    arguments: Seq<ParsedExprView>,
    catalog: CatalogView,
    i: int,
    done: Seq<CandidateView>,
) -> Checked<Seq<CandidateView>>
    decreases l.len() - i,
{
    if i < 0 || i >= l.len() {
        Ok(done)
    } else if !callable(l[i], name, kind, arguments.len()) {
        candidates_of(l, name, kind, arguments, catalog, i + 1, done)
    } else {
        match candidate_of(arguments, inputs_of(l[i]), catalog, 0, Seq::empty(), 0) {
            Err(x) => Err(x),
            Ok(None) => candidates_of(l, name, kind, arguments, catalog, i + 1, done),
            Ok(Some((bound, score))) => candidates_of(
                l,
                name,
                kind,
                arguments,
                catalog,
                i + 1,
                done.push(CandidateView { routine: l[i], arguments: bound, score }),
            ),
        }
    }
}

fn find_candidates(
    l: &Vec<RoutineDefinition>,
    name: &Identifier,
    kind: RoutineKind,
    arguments: &Vec<ParsedExpr>,
    catalog: &Catalog,
) -> (r: Result<
    Vec<Candidate>,
>)
    ensures
        (match r {
            Ok(c) => Ok(Candidate::views(c@)),
            Err(e) => Err(e@),
        }) == candidates_of(
            RoutineDefinition::views(l@),
            name@,
            kind,
            ParsedExpr::views(arguments@),
            catalog@,
            0,
            Seq::empty(),
        ),
{
    let ghost v = RoutineDefinition::views(l@);
    let ghost a = ParsedExpr::views(arguments@);
    let ghost whole = candidates_of(v, name@, kind, a, catalog@, 0, Seq::empty());
    let mut out: Vec<Candidate> = Vec::new();
    assert(Candidate::views(out@) =~= Seq::empty());
    for i in 0..l.len()
        invariant
            v == RoutineDefinition::views(l@),
            a == ParsedExpr::views(arguments@),
            whole == candidates_of(v, name@, kind, a, catalog@, 0, Seq::empty()),
            whole == candidates_of(v, name@, kind, a, catalog@, i as int, Candidate::views(out@)),
    {
        assert(v[i as int] == l@[i as int]@);
        if is_callable(&l[i], name, kind, arguments.len()) {
            let inputs = find_inputs(&l[i]);
            assert(RoutineArgument::views(inputs@).len() == inputs@.len());
            if let Some((bound, score)) = bind_routine_candidate(arguments, &inputs, catalog)? {
                let x = Candidate { routine: l[i].clone(), arguments: bound, score };
                let ghost before = Candidate::views(out@);
                out.push(x);
                assert(Candidate::views(out@) =~= before.push(x@));
            }
        }
    }
    Ok(out)
}

/// The best score of candidates from a position on, and of one found before.
pub open spec fn best_score(l: Seq<CandidateView>, i: int, best: usize) -> usize
    decreases l.len() - i,
{
    if i < 0 || i >= l.len() {
        best
    } else if l[i].score > best {
        best_score(l, i + 1, l[i].score)
    } else {
        best_score(l, i + 1, best)
    }
}

/// The candidates of a score, from a position on.
pub open spec fn scored(l: Seq<CandidateView>, score: usize, i: int, done: Seq<CandidateView>) -> Seq<CandidateView>
    decreases l.len() - i,
{
    if i < 0 || i >= l.len() {
        done
    } else if l[i].score == score {
        scored(l, score, i + 1, done.push(l[i]))
    } else {
        scored(l, score, i + 1, done)
    }
}

/// The candidates with the best score.
pub open spec fn best_candidates(l: Seq<CandidateView>) -> Seq<CandidateView> {
    scored(l, best_score(l, 0, 0), 0, Seq::empty())
}

/// Keeps the candidates with the best score.
pub fn retain_best_routine_matches(l: Vec<Candidate>) -> (r: Vec<Candidate>)
    ensures
        Candidate::views(r@) == best_candidates(Candidate::views(l@)),
{
    let ghost v = Candidate::views(l@);
    let mut best: usize = 0;
    for i in 0..l.len()
        invariant
            v == Candidate::views(l@),
            best_score(v, 0, 0) == best_score(v, i as int, best),
    {
        assert(v[i as int] == l@[i as int]@);
        if l[i].score > best {
            best = l[i].score;
        }
    }
    let mut out: Vec<Candidate> = Vec::new();
    assert(Candidate::views(out@) =~= Seq::empty());
    for i in 0..l.len()
        invariant
            v == Candidate::views(l@),
            scored(v, best, 0, Seq::empty()) == scored(v, best, i as int, Candidate::views(out@)),
    {
        assert(v[i as int] == l@[i as int]@);
        if l[i].score == best {
            let x = Candidate {
                routine: l[i].routine.clone(),
                arguments: BoundExpr::clone_all(&l[i].arguments),
                score: l[i].score,
            };
            let ghost before = Candidate::views(out@);
            out.push(x);
            assert(Candidate::views(out@) =~= before.push(x@));
        }
    }
    out
}

/// The arguments of a new routine.
pub open spec fn routine_argument(a: ParsedRoutineArgumentView, catalog: CatalogView) -> Checked<RoutineArgumentView> {
    match written_type(a.data_type, a.declared_type, catalog) {
        Err(x) => Err(x),
        Ok((data_type, declared_type)) => Ok(RoutineArgumentView { name: a.name, data_type, declared_type, mode: a.mode }),
    }
}

fn bind_routine_argument(a: &ParsedRoutineArgument, catalog: &Catalog) -> (r: Result<RoutineArgument>)
    ensures
        (match r {
            Ok(x) => Ok(x@),
            Err(x) => Err(x@),
        }) == routine_argument(a@, catalog@),
{
    let (data_type, declared_type) = resolve_written_type(&a.data_type, &a.declared_type, catalog)?;
    Ok(RoutineArgument { name: a.name.clone(), data_type, declared_type, mode: a.mode })
}

/// The arguments of a new routine, from a position on.
pub open spec fn routine_arguments(
    l: Seq<ParsedRoutineArgumentView>,
    catalog: CatalogView,
    i: int,
    done: Seq<RoutineArgumentView>,
) -> Checked<Seq<RoutineArgumentView>>
    decreases l.len() - i,
{
    if i < 0 || i >= l.len() {
        Ok(done)
    } else {
        match routine_argument(l[i], catalog) {
            Err(x) => Err(x),
            Ok(b) => routine_arguments(l, catalog, i + 1, done.push(b)),
        }
    }
}

fn bind_routine_arguments(l: &Vec<ParsedRoutineArgument>, catalog: &Catalog) -> (r: Result<Vec<RoutineArgument>>)
    ensures
        (match r {
            Ok(l) => Ok(RoutineArgument::views(l@)),
            Err(e) => Err(e@),
        }) == routine_arguments(ParsedRoutineArgument::views(l@), catalog@, 0, Seq::empty()),
{
    let ghost v = ParsedRoutineArgument::views(l@);
    let mut out: Vec<RoutineArgument> = Vec::new();
    assert(RoutineArgument::views(out@) =~= Seq::empty());
    for i in 0..l.len()
        invariant
            v == ParsedRoutineArgument::views(l@),
            routine_arguments(v, catalog@, 0, Seq::empty()) == routine_arguments(v, catalog@, i as int, RoutineArgument::views(out@)),
    {
        assert(v[i as int] == l@[i as int]@);
        let x = bind_routine_argument(&l[i], catalog)?;
        let ghost before = RoutineArgument::views(out@);
        out.push(x);
        assert(RoutineArgument::views(out@) =~= before.push(x@));
    }
    Ok(out)
}

/// The return type of a new routine.
pub open spec fn return_type_of(t: Option<ScalarTypeView>, name: Option<ParsedObjectNameView>, catalog: CatalogView) -> Checked<
    (Option<ScalarTypeView>, Option<TypeId>),
> {
    match (t, name) {
        (Some(t), Some(name)) => match declared_type(t, name, catalog) {
            Err(x) => Err(x),
            Ok((t, id)) => Ok((Some(t), Some(id))),
        },
        (t, None) => Ok((t, None)),
        (None, Some(_)) => Err(internal_error("routine return type name exists without a parsed data type"@)),
    }
}

fn bind_return_type(
    t: &Option<ScalarType>,
    name: &Option<ParsedObjectName>,
    catalog: &Catalog,
) -> (r: Result<(Option<ScalarType>, Option<TypeId>)>)
    ensures
        (match r {
            Ok(p) => Ok((ScalarType::opt(p.0), p.1)),
            Err(e) => Err(e@),
        }) == return_type_of(
            ScalarType::opt(*t),
            (match *name {
                Some(n) => Some(n@),
                None => None,
            }),
            catalog@,
        ),
{
    match (t, name) {
        (Some(t), Some(name)) => {
            let (t, id) = resolve_declared_data_type(catalog, t, name)?;
            Ok((Some(t), Some(id)))
        },
        (Some(t), None) => Ok((Some(t.clone()), None)),
        (None, None) => Ok((None, None)),
        (None, Some(_)) => Err(DbError::internal("routine return type name exists without a parsed data type")),
    }
}

/// The bound form of CREATE FUNCTION and CREATE PROCEDURE.
#[verifier::opaque]
pub open spec fn create_routine_of(s: ParsedStatementView, catalog: CatalogView) -> Checked<BoundStatementView> {
    match s {
        ParsedStatementView::CreateRoutine {
            name,
            kind,
            arguments,
            return_type,
            return_declared_type,
            returns_set,
            language,
            body,
            replace,
        } => match split_name(name) {
            Err(x) => Err(x),
            Ok(n) => if catalog.schema(n.schema) is None {
                Err(no_schema(n.schema, n.position))
            } else {
                match routine_arguments(arguments, catalog, 0, Seq::empty()) {
                    Err(x) => Err(x),
                    Ok(arguments) => match return_type_of(return_type, return_declared_type, catalog) {
                        Err(x) => Err(x),
                        Ok((return_type, return_declared_type)) => Ok(
                            BoundStatementView::CreateRoutine {
                                schema: n.schema,
                                name: n.name,
                                kind,
                                arguments,
                                return_type,
                                return_declared_type,
                                returns_set,
                                language,
                                body,
                                replace,
                            },
                        ),
                    },
                }
            },
        },
        _ => Err(internal_error("non-routine statement reached the routine binder"@)),
    }
}

fn bind_create_routine(s: &ParsedStatement, catalog: &Catalog) -> (r: Result<BoundStatement>)
    ensures
        bound_result(r) == create_routine_of(s@, catalog@),
{
    reveal(create_routine_of);
    proof {
        s.unfold();
    }
    match s {
        ParsedStatement::CreateRoutine {
            name,
            kind,
            arguments,
            return_type,
            return_declared_type,
            returns_set,
            language,
            body,
            replace,
        } => {
            let (schema, name, position) = split_table_name(name)?;
            if catalog.schema(&schema).is_none() {
                return Err(no_such_schema(&schema, position));
            }
            let arguments = bind_routine_arguments(arguments, catalog)?;
            let (return_type, return_declared_type) = bind_return_type(return_type, return_declared_type, catalog)?;
            Ok(
                make_bound_statement(
                    BoundStatement::CreateRoutine {
                        schema,
                        name,
                        kind: *kind,
                        arguments,
                        return_type,
                        return_declared_type,
                        returns_set: *returns_set,
                        language: language.clone(),
                        body: body.clone(),
                        replace: *replace,
                    },
                ),
            )
        },
        _ => Err(DbError::internal("non-routine statement reached the routine binder")),
    }
}

/// Whether written argument types are those of a routine, from a position on.
pub open spec fn types_match(
    inputs: Seq<RoutineArgumentView>,
    l: Seq<ParsedRoutineArgumentView>,
    catalog: CatalogView,
    i: int,
    ok: bool,
) -> Checked<
    bool,
>
    decreases l.len() - i,
{
    if i < 0 || i >= l.len() || i >= inputs.len() {
        Ok(ok)
    } else {
        match l[i].declared_type {
            Some(name) => match named_type(name, catalog) {
                Err(x) => Err(x),
                Ok(t) => types_match(inputs, l, catalog, i + 1, ok && inputs[i].declared_type == Some(t.id)),
            },
            None => types_match(
                inputs,
                l,
                catalog,
                i + 1,
                ok && inputs[i].declared_type is None && inputs[i].data_type == l[i].data_type,
            ),
        }
    }
}

fn check_types_match(inputs: &Vec<RoutineArgument>, l: &Vec<ParsedRoutineArgument>, catalog: &Catalog) -> (r: Result<bool>)
    requires
        inputs.len() == l.len(),
    ensures
        (match r {
            Ok(b) => Ok(b),
            Err(e) => Err(e@),
        }) == types_match(RoutineArgument::views(inputs@), ParsedRoutineArgument::views(l@), catalog@, 0, true),
{
    let ghost a = RoutineArgument::views(inputs@);
    let ghost v = ParsedRoutineArgument::views(l@);
    let mut ok: bool = true;
    for i in 0..l.len()
        invariant
            inputs.len() == l.len(),
            a == RoutineArgument::views(inputs@),
            v == ParsedRoutineArgument::views(l@),
            types_match(a, v, catalog@, 0, true) == types_match(a, v, catalog@, i as int, ok),
    {
        assert(a[i as int] == inputs@[i as int]@);
        assert(v[i as int] == l@[i as int]@);
        let fits = match &l[i].declared_type {
            Some(name) => {
                let t = resolve_user_defined_type(name, catalog)?;
                inputs[i].declared_type == Some(t.id)
            },
            None => inputs[i].declared_type.is_none() && inputs[i].data_type.same(&l[i].data_type),
        };
        ok = ok && fits;
    }
    Ok(ok)
}

/// Whether a routine has written argument types.
pub open spec fn signature_matches(
    r: RoutineDefinitionView,
    types: Option<Seq<ParsedRoutineArgumentView>>,
    catalog: CatalogView,
) -> Checked<bool> {
    match types {
        None => Ok(true),
        Some(l) => if inputs_of(r).len() == l.len() {
            types_match(inputs_of(r), l, catalog, 0, true)
        } else {
            Ok(false)
        },
    }
}

/// The routines that DROP can mean, from a position on.
pub open spec fn dropped_routines(
    l: Seq<RoutineDefinitionView>,
    name: Seq<char>,
    kind: RoutineKind,
    types: Option<Seq<ParsedRoutineArgumentView>>,
    catalog: CatalogView,
    i: int,
    done: Seq<RoutineId>,
) -> Checked<Seq<RoutineId>>
    decreases l.len() - i,
{
    if i < 0 || i >= l.len() {
        Ok(done)
    } else if l[i].name != name || l[i].kind != kind {
        dropped_routines(l, name, kind, types, catalog, i + 1, done)
    } else {
        match signature_matches(l[i], types, catalog) {
            Err(x) => Err(x),
            Ok(fits) => dropped_routines(
                l,
                name,
                kind,
                types,
                catalog,
                i + 1,
                if fits {
                    done.push(l[i].id)
                } else {
                    done
                },
            ),
        }
    }
}

/// The contents of written argument types.
pub open spec fn types_view(t: Option<Vec<ParsedRoutineArgument>>) -> Option<Seq<ParsedRoutineArgumentView>> {
    match t {
        Some(l) => Some(ParsedRoutineArgument::views(l@)),
        None => None,
    }
}

fn find_dropped_routines(
    l: &Vec<RoutineDefinition>,
    name: &Identifier,
    kind: RoutineKind,
    types: &Option<Vec<ParsedRoutineArgument>>,
    catalog: &Catalog,
) -> (r: Result<Vec<RoutineId>>)
    ensures
        (match r {
            Ok(x) => Ok(x@),
            Err(x) => Err(x@),
        }) == dropped_routines(RoutineDefinition::views(l@), name@, kind, types_view(*types), catalog@, 0, Seq::empty()),
{
    let ghost v = RoutineDefinition::views(l@);
    let ghost t = types_view(*types);
    let mut out: Vec<RoutineId> = Vec::new();
    assert(out@ =~= Seq::empty());
    for i in 0..l.len()
        invariant
            v == RoutineDefinition::views(l@),
            t == types_view(*types),
            dropped_routines(v, name@, kind, t, catalog@, 0, Seq::empty()) == dropped_routines(
                v,
                name@,
                kind,
                t,
                catalog@,
                i as int,
                out@,
            ),
    {
        assert(v[i as int] == l@[i as int]@);
        if l[i].name.same(name) && l[i].kind == kind {
            let fits = match types {
                None => true,
                Some(types) => {
                    let inputs = find_inputs(&l[i]);
                    assert(RoutineArgument::views(inputs@).len() == inputs@.len());
                    if inputs.len() == types.len() {
                        check_types_match(&inputs, types, catalog)?
                    } else {
                        false
                    }
                },
            };
            if fits {
                out.push(l[i].id);
            }
        }
    }
    Ok(out)
}

/// The routines of a schema.
pub open spec fn routines_in(catalog: CatalogView, schema: Seq<char>) -> Seq<RoutineDefinitionView> {
    match catalog.schema(schema) {
        Some(s) => s.routines,
        None => Seq::empty(),
    }
}

/// How a routine kind is called.
pub open spec fn routine_label(kind: RoutineKind) -> Seq<char> {
    match kind {
        RoutineKind::Function => "function"@,
        RoutineKind::Procedure => "procedure"@,
    }
}

/// The bound form of DROP FUNCTION and DROP PROCEDURE.
#[verifier::opaque]
pub open spec fn drop_routine_of(
    name: ParsedObjectNameView,
    kind: RoutineKind,
    types: Option<Seq<ParsedRoutineArgumentView>>,
    if_exists: bool,
    behavior: DropBehavior,
    catalog: CatalogView,
) -> Checked<BoundStatementView> {
    match split_name(name) {
        Err(x) => Err(x),
        Ok(n) => match dropped_routines(routines_in(catalog, n.schema), n.name, kind, types, catalog, 0, Seq::empty()) {
            Err(x) => Err(x),
            Ok(found) => if found.len() == 1 {
                Ok(BoundStatementView::DropRoutine { routine_id: found[0], behavior })
            } else if found.len() == 0 && if_exists {
                Ok(
                    BoundStatementView::NoOp {
                        tag: match kind {
                            RoutineKind::Function => "DROP FUNCTION"@,
                            RoutineKind::Procedure => "DROP PROCEDURE"@,
                        },
                    },
                )
            } else if found.len() == 0 {
                Err(error_at("42883"@, routine_label(kind) + " "@ + n.schema + "."@ + n.name + " does not exist"@, n.position))
            } else {
                Err(
                    DbErrorView {
                        hint: Some("specify the routine argument types"@),
                        ..error_at("42725"@, routine_label(kind) + " "@ + n.schema + "."@ + n.name + " is ambiguous"@, n.position)
                    },
                )
            },
        },
    }
}

fn bind_drop_routine(
    name: &ParsedObjectName,
    kind: RoutineKind,
    types: &Option<Vec<ParsedRoutineArgument>>,
    if_exists: bool,
    behavior: DropBehavior,
    catalog: &Catalog,
) -> (r: Result<BoundStatement>)
    ensures
        bound_result(r) == drop_routine_of(name@, kind, types_view(*types), if_exists, behavior, catalog@),
{
    reveal(drop_routine_of);
    let (schema, name, position) = split_table_name(name)?;
    let found: Vec<RoutineId> = match catalog.schema(&schema) {
        Some(s) => find_dropped_routines(&s.routines, &name, kind, types, catalog)?,
        None => Vec::new(),
    };
    assert(catalog@.schema(schema@) is None ==> found@ =~= Seq::empty());
    if found.len() == 1 {
        return Ok(make_bound_statement(BoundStatement::DropRoutine { routine_id: found[0], behavior }));
    }
    let label = match kind {
        RoutineKind::Function => "function",
        RoutineKind::Procedure => "procedure",
    };
    if found.len() == 0 {
        if if_exists {
            let tag = match kind {
                RoutineKind::Function => "DROP FUNCTION",
                RoutineKind::Procedure => "DROP PROCEDURE",
            };
            return Ok(make_bound_statement(BoundStatement::NoOp { tag: text(tag) }));
        }
        let start = text5(label, " ", schema.as_str(), ".", name.as_str());
        return Err(DbError::at("42883", text2(start.as_str(), " does not exist"), position));
    }
    let start = text5(label, " ", schema.as_str(), ".", name.as_str());
    Err(
        DbError::at("42725", text2(start.as_str(), " is ambiguous"), position).with_hint("specify the routine argument types"),
    )
}

/// The bound form of CALL.
#[verifier::opaque]
pub open spec fn call_of(name: ParsedObjectNameView, arguments: Seq<ParsedExprView>, catalog: CatalogView) -> Checked<BoundStatementView> {
    match split_name(name) {
        Err(x) => Err(x),
        Ok(n) => match catalog.schema(n.schema) {
            None => Err(no_schema(n.schema, n.position)),
            Some(s) => match candidates_of(s.routines, n.name, RoutineKind::Procedure, arguments, catalog, 0, Seq::empty()) {
                Err(x) => Err(x),
                Ok(l) => {
                    let best = best_candidates(l);
                    if best.len() == 1 {
                        Ok(
                            BoundStatementView::Call {
                                routine_id: best[0].routine.id,
                                arguments: best[0].arguments,
                                schema: SchemaView { fields: output_fields(outputs_of(best[0].routine)) },
                            },
                        )
                    } else if best.len() == 0 {
                        Err(
                            error_at(
                                "42883"@,
                                "procedure "@ + n.schema + "."@ + n.name + " with matching arguments does not exist"@,
                                n.position,
                            ),
                        )
                    } else {
                        Err(error_at("42725"@, "procedure call "@ + n.schema + "."@ + n.name + " is ambiguous"@, n.position))
                    }
                },
            },
        },
    }
}

fn bind_call(name: &ParsedObjectName, arguments: &Vec<ParsedExpr>, catalog: &Catalog) -> (r: Result<BoundStatement>)
    ensures
        bound_result(r) == call_of(name@, ParsedExpr::views(arguments@), catalog@),
{
    reveal(call_of);
    let (schema, name, position) = split_table_name(name)?;
    let s = match catalog.schema(&schema) {
        Some(s) => s,
        None => {
            return Err(no_such_schema(&schema, position));
        },
    };
    let found = find_candidates(&s.routines, &name, RoutineKind::Procedure, arguments, catalog)?;
    let best = retain_best_routine_matches(found);
    assert(Candidate::views(best@).len() == best@.len());
    if best.len() == 1 {
        assert(Candidate::views(best@)[0] == best@[0]@);
        return Ok(
            make_bound_statement(
                BoundStatement::Call {
                    routine_id: best[0].routine.id,
                    arguments: BoundExpr::clone_all(&best[0].arguments),
                    schema: routine_output_schema(&best[0].routine),
                },
            ),
        );
    }
    if best.len() == 0 {
        let m = text5("procedure ", schema.as_str(), ".", name.as_str(), " with matching arguments does not exist");
        return Err(DbError::at("42883", m, position));
    }
    Err(DbError::at("42725", text5("procedure call ", schema.as_str(), ".", name.as_str(), " is ambiguous"), position))
}

/// The type that a function returns.
pub open spec fn result_type(r: RoutineDefinitionView) -> Checked<ScalarTypeView> {
    if outputs_of(r).len() > 1 {
        Err(error(DATATYPE_MISMATCH@, "a function with multiple OUT parameters cannot be used as a scalar expression"@))
    } else {
        match r.return_type {
            Some(t) => Ok(t),
            None => if outputs_of(r).len() == 1 {
                Ok(outputs_of(r)[0].data_type)
            } else {
                Err(internal_error("selected function lost its output type"@))
            },
        }
    }
}

fn find_result_type(routine: &RoutineDefinition) -> (r: Result<ScalarType>)
    ensures
        (match r {
            Ok(t) => Ok(t@),
            Err(e) => Err(e@),
        }) == result_type(routine@),
{
    let outputs = find_outputs(routine);
    assert(RoutineArgument::views(outputs@).len() == outputs@.len());
    if outputs.len() > 1 {
        return Err(
            DbError::new(DATATYPE_MISMATCH, text("a function with multiple OUT parameters cannot be used as a scalar expression")),
        );
    }
    match &routine.return_type {
        Some(t) => Ok(t.clone()),
        None => {
            if outputs.len() == 1 {
                assert(RoutineArgument::views(outputs@)[0] == outputs@[0]@);
                Ok(outputs[0].data_type.clone())
            } else {
                Err(DbError::internal("selected function lost its output type"))
            }
        },
    }
}

/// The bound form of a SELECT of a function.
#[verifier::opaque]
pub open spec fn routine_select_of(
    name: ParsedObjectNameView,
    arguments: Seq<ParsedExprView>,
    alias: Option<ParsedIdentifierView>,
    catalog: CatalogView,
) -> Checked<BoundStatementView> {
    match split_name(name) {
        Err(x) => Err(x),
        Ok(n) => match catalog.schema(n.schema) {
            None => Err(no_schema(n.schema, n.position)),
            Some(s) => match candidates_of(s.routines, n.name, RoutineKind::Function, arguments, catalog, 0, Seq::empty()) {
                Err(x) => Err(x),
                Ok(l) => {
                    let best = best_candidates(l);
                    if best.len() == 1 {
                        match result_type(best[0].routine) {
                            Err(x) => Err(x),
                            Ok(data_type) => Ok(
                                BoundStatementView::RoutineSelect {
                                    routine_id: best[0].routine.id,
                                    arguments: best[0].arguments,
                                    schema: SchemaView {
                                        fields: seq![
                                            FieldView {
                                                name: match alias {
                                                    Some(a) => a.name,
                                                    None => n.name,
                                                },
                                                data_type,
                                                nullable: true,
                                            },
                                        ],
                                    },
                                    returns_set: best[0].routine.returns_set,
                                },
                            ),
                        }
                    } else if best.len() == 0 {
                        Err(
                            error_at(
                                "42883"@,
                                "function "@ + n.schema + "."@ + n.name + " with matching arguments does not exist"@,
                                n.position,
                            ),
                        )
                    } else {
                        Err(error_at("42725"@, "function call "@ + n.schema + "."@ + n.name + " is ambiguous"@, n.position))
                    }
                },
            },
        },
    }
}

/// Makes the schema of one output column.
pub fn single_field_schema(name: &str, data_type: ScalarType, nullable: bool) -> (r: Schema)
    ensures
        r@ == (SchemaView { fields: seq![FieldView { name: name@, data_type: data_type@, nullable }] }),
{
    let mut fields: Vec<Field> = Vec::new();
    fields.push(Field::new(name, data_type, nullable));
    assert(Field::views(fields@) =~= seq![FieldView { name: name@, data_type: data_type@, nullable }]);
    Schema::new(fields)
}

fn bind_routine_select(
    name: &ParsedObjectName,
    arguments: &Vec<ParsedExpr>,
    alias: &Option<ParsedIdentifier>,
    catalog: &Catalog,
) -> (r: Result<
    BoundStatement,
>)
    ensures
        bound_result(r) == routine_select_of(
            name@,
            ParsedExpr::views(arguments@),
            (match *alias {
                Some(a) => Some(a@),
                None => None,
            }),
            catalog@,
        ),
{
    reveal(routine_select_of);
    let (schema, name, position) = split_table_name(name)?;
    let s = match catalog.schema(&schema) {
        Some(s) => s,
        None => {
            return Err(no_such_schema(&schema, position));
        },
    };
    let found = find_candidates(&s.routines, &name, RoutineKind::Function, arguments, catalog)?;
    let best = retain_best_routine_matches(found);
    assert(Candidate::views(best@).len() == best@.len());
    if best.len() == 1 {
        assert(Candidate::views(best@)[0] == best@[0]@);
        let data_type = find_result_type(&best[0].routine)?;
        let label: &str = match alias {
            Some(a) => a.name.as_str(),
            None => name.as_str(),
        };
        return Ok(
            make_bound_statement(
                BoundStatement::RoutineSelect {
                    routine_id: best[0].routine.id,
                    arguments: BoundExpr::clone_all(&best[0].arguments),
                    schema: single_field_schema(label, data_type, true),
                    returns_set: best[0].routine.returns_set,
                },
            ),
        );
    }
    if best.len() == 0 {
        let m = text5("function ", schema.as_str(), ".", name.as_str(), " with matching arguments does not exist");
        return Err(DbError::at("42883", m, position));
    }
    Err(DbError::at("42725", text5("function call ", schema.as_str(), ".", name.as_str(), " is ambiguous"), position))
}

/// The bound form of a statement on a routine.
#[verifier::opaque]
pub open spec fn routine_statement(s: ParsedStatementView, catalog: CatalogView) -> Checked<BoundStatementView> {
    match s {
        ParsedStatementView::CreateRoutine { .. } => create_routine_of(s, catalog),
        ParsedStatementView::DropRoutine { name, kind, argument_types, if_exists, behavior } => drop_routine_of(
            name,
            kind,
            argument_types,
            if_exists,
            behavior,
            catalog,
        ),
        ParsedStatementView::Call { name, arguments } => call_of(name, arguments, catalog),
        ParsedStatementView::RoutineSelect { name, arguments, alias } => routine_select_of(name, arguments, alias, catalog),
        _ => Err(internal_error("non-routine statement reached the routine binder"@)),
    }
}

/// Binds a statement on a routine.
pub fn bind_routine_statement(statement: &ParsedStatement, catalog: &Catalog) -> (r: Result<BoundStatement>)
    ensures
        bound_result(r) == routine_statement(statement@, catalog@),
{
    reveal(routine_statement);
    proof {
        statement.unfold();
    }
    match statement {
        ParsedStatement::CreateRoutine { .. } => bind_create_routine(statement, catalog),
        ParsedStatement::DropRoutine { name, kind, argument_types, if_exists, behavior } => bind_drop_routine(
            name,
            *kind,
            argument_types,
            *if_exists,
            *behavior,
            catalog,
        ),
        ParsedStatement::Call { name, arguments } => bind_call(name, arguments, catalog),
        ParsedStatement::RoutineSelect { name, arguments, alias } => bind_routine_select(name, arguments, alias, catalog),
        _ => Err(DbError::internal("non-routine statement reached the routine binder")),
    }
}

proof fn lemma_best_score(l: Seq<CandidateView>, i: int, best: usize)
    requires
        0 <= i,
    ensures
        best_score(l, i, best) >= best,
        forall|k: int| i <= k < l.len() ==> (#[trigger] l[k]).score <= best_score(l, i, best),
    decreases l.len() - i,
{
    if i < l.len() {
        lemma_best_score(
            l,
            i + 1,
            if l[i].score > best {
                l[i].score
            } else {
                best
            },
        );
    }
}

/// Whether a candidate of a score stands in a list, from a position on.
pub open spec fn stands(l: Seq<CandidateView>, i: int, c: CandidateView, score: usize) -> bool {
    c.score == score && exists|k: int| i <= k < l.len() && #[trigger] l[k] == c
}

proof fn lemma_scored(l: Seq<CandidateView>, score: usize, i: int, done: Seq<CandidateView>, c: CandidateView)
    requires
        0 <= i,
    ensures
        scored(l, score, i, done).contains(c) <==> done.contains(c) || stands(l, i, c, score),
    decreases l.len() - i,
{
    if i < l.len() {
        assert(stands(l, i, c, score) <==> stands(l, i + 1, c, score) || (l[i] == c && c.score == score)) by {
            if stands(l, i, c, score) && l[i] != c {
                let k = choose|k: int| i <= k < l.len() && #[trigger] l[k] == c;
                assert(i + 1 <= k);
            }
        }
        if l[i].score == score {
            let next = done.push(l[i]);
            lemma_scored(l, score, i + 1, next, c);
            if done.contains(c) {
                let k = choose|k: int| 0 <= k < done.len() && done[k] == c;
                assert(next[k] == c);
            }
            assert(next[done.len() as int] == l[i]);
            assert(next.contains(c) <==> done.contains(c) || c == l[i]);
        } else {
            lemma_scored(l, score, i + 1, done, c);
        }
    }
}

/// The best candidates are those of the candidates that none beats.
pub proof fn lemma_best_candidates(l: Seq<CandidateView>, c: CandidateView)
    ensures
        best_candidates(l).contains(c) ==> l.contains(c) && (forall|k: int| 0 <= k < l.len() ==> (#[trigger] l[k]).score <= c.score),
        l.contains(c) && (forall|k: int| 0 <= k < l.len() ==> (#[trigger] l[k]).score <= c.score) ==> best_candidates(l).contains(c),
{
    lemma_best_score(l, 0, 0);
    lemma_scored(l, best_score(l, 0, 0), 0, Seq::empty(), c);
    if l.contains(c) && (forall|k: int| 0 <= k < l.len() ==> (#[trigger] l[k]).score <= c.score) {
        lemma_score_found(l, 0, 0);
        let k = choose|k: int| 0 <= k < l.len() && l[k] == c;
        assert(l[k].score <= best_score(l, 0, 0));
        assert(c.score == best_score(l, 0, 0));
    }
}

proof fn lemma_score_found(l: Seq<CandidateView>, i: int, best: usize)
    requires
        0 <= i,
    ensures
        best_score(l, i, best) == best || exists|k: int| i <= k < l.len() && (#[trigger] l[k]).score == best_score(l, i, best),
    decreases l.len() - i,
{
    if i < l.len() {
        lemma_score_found(
            l,
            i + 1,
            if l[i].score > best {
                l[i].score
            } else {
                best
            },
        );
    }
}

} // verus!
