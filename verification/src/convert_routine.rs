//! Takes over statements about routines and triggers from a syntax tree.

use sqlparser::ast::{
    ArgMode, CreateFunction, CreateFunctionBody, CreateTrigger, DataType, DropBehavior as SqlDropBehavior, DropTrigger, Expr, FunctionDesc,
    FunctionReturnType, FunctionSecurity, Ident, OperateFunctionArg, ReferentialAction as SqlReferentialAction,
    TriggerEvent as SqlTriggerEvent, TriggerExecBodyType, TriggerObject, TriggerObjectKind, TriggerPeriod, Value as SqlValue,
};
use vstd::prelude::*;

use crate::catalog::{DropBehavior, RoutineArgumentMode, RoutineKind, TriggerEvent, TriggerLevel, TriggerTiming};
use crate::convert_ddl::{behavior_of, convert_drop_behavior};
use crate::rewrite::make_statement;
use crate::scope::Checked;
use crate::source::{convert_ident, convert_object_name, ident_of, object_name_of};
use crate::sql_types::{column_type_of, convert_column_data_type, is_plain_name, plain_name};
use crate::syntax::{
    ParsedObjectName, ParsedObjectNameView, ParsedRoutineArgument, ParsedRoutineArgumentView, ParsedStatement, ParsedStatementView,
};
use crate::text::{lower, same_ignoring_case, text};
use crate::types::{error, unsupported, unsupported_error, DbError, Identifier, Result, SYNTAX_ERROR, ScalarType, ScalarTypeView};

verus! {

/// What a function returns.
pub struct Returns {
    pub data_type: Option<ScalarType>,
    pub declared_type: Option<ParsedObjectName>,
    pub many: bool,
}

/// Mathematical contents of [`Returns`].
pub struct ReturnsView {
    pub data_type: Option<ScalarTypeView>,
    pub declared_type: Option<ParsedObjectNameView>,
    pub many: bool,
}

impl Returns {
    /// The value as mathematical data.
    pub open spec fn view(&self) -> ReturnsView {
        ReturnsView {
            data_type: ScalarType::opt(self.data_type),
            declared_type: match self.declared_type {
                Some(n) => Some(n@),
                None => None,
            },
            many: self.many,
        }
    }
}

/// How an argument is passed.
pub open spec fn mode_of(m: Option<ArgMode>) -> RoutineArgumentMode {
    match m {
        None | Some(ArgMode::In) => RoutineArgumentMode::In,
        Some(ArgMode::Out) => RoutineArgumentMode::Out,
        Some(ArgMode::InOut) => RoutineArgumentMode::InOut,
        Some(ArgMode::Variadic) => RoutineArgumentMode::Variadic,
    }
}

/// Takes over how an argument is passed.
pub fn convert_routine_argument_mode(m: &Option<ArgMode>) -> (r: RoutineArgumentMode)
    ensures
        r == mode_of(*m),
{
    match m {
        None | Some(ArgMode::In) => RoutineArgumentMode::In,
        Some(ArgMode::Out) => RoutineArgumentMode::Out,
        Some(ArgMode::InOut) => RoutineArgumentMode::InOut,
        Some(ArgMode::Variadic) => RoutineArgumentMode::Variadic,
    }
}

/// The name of an argument.
pub open spec fn argument_name(n: Option<Ident>, sql: Seq<char>) -> Option<Seq<char>> {
    match n {
        Some(n) => Some(ident_of(n, sql).name),
        None => None,
    }
}

fn convert_argument_name(n: &Option<Ident>, sql: &str) -> (r: Option<Identifier>)
    ensures
        (match r {
            Some(n) => Some(n@),
            None => None,
        }) == argument_name(*n, sql@),
{
    match n {
        Some(n) => Some(convert_ident(n, sql).name),
        None => None,
    }
}

fn no_arguments() -> (r: Vec<ParsedRoutineArgument>)
    ensures
        ParsedRoutineArgument::views(r@) == Seq::<ParsedRoutineArgumentView>::empty(),
{
    let l: Vec<ParsedRoutineArgument> = Vec::new();
    assert(ParsedRoutineArgument::views(l@) =~= Seq::empty());
    l
}

/// Whether a type is that of trigger functions.
pub open spec fn trigger_type(t: DataType) -> bool {
    match t {
        DataType::Trigger => true,
        DataType::Custom(name, modifiers) => modifiers@.len() == 0 && plain_name(name) == Some(lower("trigger"@)),
        _ => false,
    }
}

/// Decides whether a type is that of trigger functions.
pub fn is_trigger_type(t: &DataType) -> (r: bool)
    ensures
        r == trigger_type(*t),
{
    match t {
        DataType::Trigger => true,
        DataType::Custom(name, modifiers) => modifiers.len() == 0 && is_plain_name(name, "trigger"),
        _ => false,
    }
}

/// Whether a routine runs with the rights of its owner.
pub open spec fn definer(s: Option<FunctionSecurity>) -> bool {
    match s {
        Some(FunctionSecurity::Definer) => true,
        _ => false,
    }
}

fn is_definer(s: &Option<FunctionSecurity>) -> (r: bool)
    ensures
        r == definer(*s),
{
    match s {
        Some(FunctionSecurity::Definer) => true,
        _ => false,
    }
}

/// Whether a language is the one that routines are written in, which is the default.
pub open spec fn procedural(l: Option<Ident>) -> bool {
    match l {
        Some(l) => lower(l.value@) == lower("plpgsql"@),
        None => true,
    }
}

fn is_procedural(l: &Option<Ident>) -> (r: bool)
    ensures
        r == procedural(*l),
{
    match l {
        Some(l) => same_ignoring_case(l.value.as_str(), "plpgsql"),
        None => true,
    }
}

/// Whether an argument gives a value back, from a position on.
pub open spec fn any_output(l: Seq<ParsedRoutineArgumentView>, i: int) -> bool
    decreases l.len() - i,
{
    0 <= i < l.len() && (l[i].mode.gives_output() || any_output(l, i + 1))
}

/// Decides whether an argument gives a value back.
pub fn has_output(l: &Vec<ParsedRoutineArgument>) -> (r: bool)
    ensures
        r == any_output(ParsedRoutineArgument::views(l@), 0),
{
    let ghost v = ParsedRoutineArgument::views(l@);
    for i in 0..l.len()
        invariant
            v == ParsedRoutineArgument::views(l@),
            any_output(v, 0) == any_output(v, i as int),
    {
        assert(v[i as int] == l@[i as int]@);
        if l[i].mode.produces_output() {
            return true;
        }
    }
    false
}

/// The arguments that take a value, from one of them on.
pub open spec fn inputs_of(
    l: Seq<ParsedRoutineArgumentView>,
    i: int,
    done: Seq<ParsedRoutineArgumentView>,
) -> Seq<ParsedRoutineArgumentView>
    decreases l.len() - i,
{
    if i < 0 || i >= l.len() {
        done
    } else if l[i].mode.takes_input() {
        inputs_of(l, i + 1, done.push(l[i]))
    } else {
        inputs_of(l, i + 1, done)
    }
}

fn keep_inputs(l: &Vec<ParsedRoutineArgument>) -> (r: Vec<ParsedRoutineArgument>)
    ensures
        ParsedRoutineArgument::views(r@) == inputs_of(ParsedRoutineArgument::views(l@), 0, Seq::empty()),
{
    let ghost v = ParsedRoutineArgument::views(l@);
    let mut out = no_arguments();
    for i in 0..l.len()
        invariant
            v == ParsedRoutineArgument::views(l@),
            inputs_of(v, 0, Seq::empty()) == inputs_of(v, i as int, ParsedRoutineArgument::views(out@)),
    {
        assert(v[i as int] == l@[i as int]@);
        if l[i].mode.accepts_input() {
            let ghost before = ParsedRoutineArgument::views(out@);
            let x = l[i].clone();
            out.push(x);
            assert(ParsedRoutineArgument::views(out@) =~= before.push(x@));
        }
    }
    out
}

/// The contents of a signature that may be absent.
pub open spec fn signature_view(l: Option<Vec<ParsedRoutineArgument>>) -> Option<Seq<ParsedRoutineArgumentView>> {
    match l {
        Some(l) => Some(ParsedRoutineArgument::views(l@)),
        None => None,
    }
}

fn make_drop_routine(
    name: ParsedObjectName,
    kind: RoutineKind,
    argument_types: Option<Vec<ParsedRoutineArgument>>,
    if_exists: bool,
    behavior: DropBehavior,
) -> (r: ParsedStatement)
    ensures
        r@ == (ParsedStatementView::DropRoutine { name: name@, kind, argument_types: signature_view(argument_types), if_exists, behavior }),
{
    make_statement(ParsedStatement::DropRoutine { name, kind, argument_types, if_exists, behavior })
}

/// How often a trigger fires.
pub open spec fn level_of(o: Option<TriggerObjectKind>) -> TriggerLevel {
    match o {
        Some(TriggerObjectKind::ForEach(TriggerObject::Row)) | Some(TriggerObjectKind::For(TriggerObject::Row)) => TriggerLevel::Row,
        _ => TriggerLevel::Statement,
    }
}

fn convert_level(o: &Option<TriggerObjectKind>) -> (r: TriggerLevel)
    ensures
        r == level_of(*o),
{
    match o {
        Some(TriggerObjectKind::ForEach(TriggerObject::Row)) | Some(TriggerObjectKind::For(TriggerObject::Row)) => TriggerLevel::Row,
        _ => TriggerLevel::Statement,
    }
}

fn is_function_body(t: &TriggerExecBodyType) -> (r: bool)
    ensures
        r == (*t is Function),
{
    match t {
        TriggerExecBodyType::Function => true,
        _ => false,
    }
}

/// Whether a routine is named with arguments.
pub open spec fn has_arguments(d: FunctionDesc) -> bool {
    match d.args {
        Some(l) => l@.len() > 0,
        None => false,
    }
}

fn takes_arguments(d: &FunctionDesc) -> (r: bool)
    ensures
        r == has_arguments(*d),
{
    match &d.args {
        Some(l) => l.len() > 0,
        None => false,
    }
}

/// An argument of a routine.
#[verifier::opaque]
pub open spec fn argument_of(a: OperateFunctionArg, sql: Seq<char>) -> Checked<ParsedRoutineArgumentView> {
    if a.default_expr is Some {
        Err(unsupported_error("defaulted routine arguments are not supported yet"@, None))
    } else {
        match column_type_of(a.data_type, sql) {
            Err(x) => Err(x),
            Ok((data_type, declared_type)) => Ok(
                ParsedRoutineArgumentView { name: argument_name(a.name, sql), data_type, declared_type, mode: mode_of(a.mode) },
            ),
        }
    }
}

/// Takes over an argument of a routine.
pub fn convert_routine_argument(a: &OperateFunctionArg, sql: &str) -> (r: Result<ParsedRoutineArgument>)
    ensures
        (match r {
            Ok(x) => Ok(x@),
            Err(x) => Err(x@),
        }) == argument_of(*a, sql@),
{
    reveal(argument_of);
    if a.default_expr.is_some() {
        return Err(unsupported("defaulted routine arguments are not supported yet"));
    }
    let (data_type, declared_type) = convert_column_data_type(&a.data_type, sql)?;
    Ok(
        ParsedRoutineArgument {
            name: convert_argument_name(&a.name, sql),
            data_type,
            declared_type,
            mode: convert_routine_argument_mode(&a.mode),
        },
    )
}

/// The arguments of a routine, from one of them on.
pub open spec fn arguments_of(
    l: Seq<OperateFunctionArg>,
    sql: Seq<char>,
    i: int,
    done: Seq<ParsedRoutineArgumentView>,
) -> Checked<Seq<ParsedRoutineArgumentView>>
    decreases l.len() - i,
{
    if i < 0 || i >= l.len() {
        Ok(done)
    } else {
        match argument_of(l[i], sql) {
            Err(x) => Err(x),
            Ok(b) => arguments_of(l, sql, i + 1, done.push(b)),
        }
    }
}

/// Takes over the arguments of a routine.
pub fn convert_routine_arguments(l: &Vec<OperateFunctionArg>, sql: &str) -> (r: Result<Vec<ParsedRoutineArgument>>)
    ensures
        (match r {
            Ok(x) => Ok(ParsedRoutineArgument::views(x@)),
            Err(x) => Err(x@),
        }) == arguments_of(l@, sql@, 0, Seq::empty()),
{
    let mut out: Vec<ParsedRoutineArgument> = Vec::new();
    assert(ParsedRoutineArgument::views(out@) =~= Seq::empty());
    for i in 0..l.len()
        invariant
            arguments_of(l@, sql@, 0, Seq::empty()) == arguments_of(l@, sql@, i as int, ParsedRoutineArgument::views(out@)),
    {
        let ghost before = ParsedRoutineArgument::views(out@);
        let x = convert_routine_argument(&l[i], sql)?;
        out.push(x);
        assert(ParsedRoutineArgument::views(out@) =~= before.push(x@));
    }
    Ok(out)
}

/// An argument in the signature of a routine.
#[verifier::opaque]
pub open spec fn signature_argument_of(a: OperateFunctionArg, sql: Seq<char>) -> Checked<ParsedRoutineArgumentView> {
    if a.default_expr is Some {
        Err(unsupported_error("DROP routine signatures cannot contain defaults"@, None))
    } else {
        match column_type_of(a.data_type, sql) {
            Err(x) => Err(x),
            Ok((data_type, declared_type)) => Ok(ParsedRoutineArgumentView { name: None, data_type, declared_type, mode: mode_of(a.mode) }),
        }
    }
}

/// Takes over an argument in the signature of a routine.
fn convert_signature_argument(a: &OperateFunctionArg, sql: &str) -> (r: Result<ParsedRoutineArgument>)
    ensures
        (match r {
            Ok(x) => Ok(x@),
            Err(x) => Err(x@),
        }) == signature_argument_of(*a, sql@),
{
    reveal(signature_argument_of);
    if a.default_expr.is_some() {
        return Err(unsupported("DROP routine signatures cannot contain defaults"));
    }
    let (data_type, declared_type) = convert_column_data_type(&a.data_type, sql)?;
    Ok(ParsedRoutineArgument { name: None, data_type, declared_type, mode: convert_routine_argument_mode(&a.mode) })
}

/// The signature of a routine, from one of them on.
pub open spec fn signature_of(
    l: Seq<OperateFunctionArg>,
    sql: Seq<char>,
    i: int,
    done: Seq<ParsedRoutineArgumentView>,
) -> Checked<Seq<ParsedRoutineArgumentView>>
    decreases l.len() - i,
{
    if i < 0 || i >= l.len() {
        Ok(done)
    } else {
        match signature_argument_of(l[i], sql) {
            Err(x) => Err(x),
            Ok(b) => signature_of(l, sql, i + 1, done.push(b)),
        }
    }
}

/// Takes over the signature of a routine.
fn convert_signature(l: &Vec<OperateFunctionArg>, sql: &str) -> (r: Result<Vec<ParsedRoutineArgument>>)
    ensures
        (match r {
            Ok(x) => Ok(ParsedRoutineArgument::views(x@)),
            Err(x) => Err(x@),
        }) == signature_of(l@, sql@, 0, Seq::empty()),
{
    let mut out: Vec<ParsedRoutineArgument> = Vec::new();
    assert(ParsedRoutineArgument::views(out@) =~= Seq::empty());
    for i in 0..l.len()
        invariant
            signature_of(l@, sql@, 0, Seq::empty()) == signature_of(l@, sql@, i as int, ParsedRoutineArgument::views(out@)),
    {
        let ghost before = ParsedRoutineArgument::views(out@);
        let x = convert_signature_argument(&l[i], sql)?;
        out.push(x);
        assert(ParsedRoutineArgument::views(out@) =~= before.push(x@));
    }
    Ok(out)
}

/// The text of a routine.
#[verifier::opaque]
pub open spec fn body_of(e: Expr) -> Checked<Seq<char>> {
    match e {
        Expr::Value(v) => match v.value {
            SqlValue::DollarQuotedString(s) => Ok(s.value@),
            SqlValue::SingleQuotedString(s) => Ok(s@),
            _ => Err(unsupported_error("routine body must be a dollar-quoted or single-quoted string"@, None)),
        },
        _ => Err(unsupported_error("routine body must be a quoted string"@, None)),
    }
}

/// Takes over the text of a routine.
pub fn routine_body_string(e: &Expr) -> (r: Result<String>)
    ensures
        (match r {
            Ok(x) => Ok(x@),
            Err(x) => Err(x@),
        }) == body_of(*e),
{
    reveal(body_of);
    match e {
        Expr::Value(v) => {
            match &v.value {
                SqlValue::DollarQuotedString(s) => {
                    Ok(s.value.clone())
                },
                SqlValue::SingleQuotedString(s) => {
                    Ok(s.clone())
                },
                _ => {
                    Err(unsupported("routine body must be a dollar-quoted or single-quoted string"))
                },
            }
        },
        _ => {
            Err(unsupported("routine body must be a quoted string"))
        },
    }
}

/// The text of a function.
#[verifier::opaque]
pub open spec fn function_body_of(b: Option<CreateFunctionBody>) -> Checked<Seq<char>> {
    match b {
        Some(CreateFunctionBody::AsBeforeOptions { body, link_symbol: None }) => body_of(body),
        Some(CreateFunctionBody::AsAfterOptions(body)) => body_of(body),
        _ => Err(unsupported_error("CREATE FUNCTION requires one quoted PL/pgSQL body after AS"@, None)),
    }
}

/// Takes over the text of a function.
fn convert_function_body(b: &Option<CreateFunctionBody>) -> (r: Result<String>)
    ensures
        (match r {
            Ok(x) => Ok(x@),
            Err(x) => Err(x@),
        }) == function_body_of(*b),
{
    reveal(function_body_of);
    match b {
        Some(CreateFunctionBody::AsBeforeOptions { body, link_symbol: None }) => {
            routine_body_string(body)
        },
        Some(CreateFunctionBody::AsAfterOptions(body)) => {
            routine_body_string(body)
        },
        _ => {
            Err(unsupported("CREATE FUNCTION requires one quoted PL/pgSQL body after AS"))
        },
    }
}

/// What a function returns.
#[verifier::opaque]
pub open spec fn returns_of(t: Option<FunctionReturnType>, outputs: bool, sql: Seq<char>) -> Checked<ReturnsView> {
    match t {
        Some(FunctionReturnType::DataType(t)) => if trigger_type(t) {
            Ok(ReturnsView { data_type: None, declared_type: None, many: false })
        } else {
            match column_type_of(t, sql) {
                Err(x) => Err(x),
                Ok((data_type, declared_type)) => Ok(ReturnsView { data_type: Some(data_type), declared_type, many: false }),
            }
        },
        Some(FunctionReturnType::SetOf(t)) => match column_type_of(t, sql) {
            Err(x) => Err(x),
            Ok((data_type, declared_type)) => Ok(ReturnsView { data_type: Some(data_type), declared_type, many: true }),
        },
        None => if outputs {
            Ok(ReturnsView { data_type: None, declared_type: None, many: false })
        } else {
            Err(unsupported_error("CREATE FUNCTION requires a return type or OUT parameter"@, None))
        },
    }
}

/// Takes over what a function returns.
fn convert_returns(t: &Option<FunctionReturnType>, outputs: bool, sql: &str) -> (r: Result<Returns>)
    ensures
        (match r {
            Ok(x) => Ok(x@),
            Err(x) => Err(x@),
        }) == returns_of(*t, outputs, sql@),
{
    reveal(returns_of);
    match t {
        Some(FunctionReturnType::DataType(t)) => {
            if is_trigger_type(t) {
                Ok(Returns { data_type: None, declared_type: None, many: false })
            } else {
                let (data_type, declared_type) = convert_column_data_type(t, sql)?;
                Ok(Returns { data_type: Some(data_type), declared_type, many: false })
            }
        },
        Some(FunctionReturnType::SetOf(t)) => {
            let (data_type, declared_type) = convert_column_data_type(t, sql)?;
            Ok(Returns { data_type: Some(data_type), declared_type, many: true })
        },
        None => {
            if outputs {
                Ok(Returns { data_type: None, declared_type: None, many: false })
            } else {
                Err(unsupported("CREATE FUNCTION requires a return type or OUT parameter"))
            }
        },
    }
}

/// Whether a CREATE FUNCTION has options that are not supported.
#[verifier::opaque]
pub open spec fn unusual_function(s: CreateFunction) -> bool {
    s.or_alter || s.temporary || s.if_not_exists || s.behavior is Some || s.called_on_null is Some || s.parallel is Some
        || s.set_params@.len() > 0 || s.using is Some || s.determinism_specifier is Some || s.options is Some || s.remote_connection is Some
}

/// Decides whether a CREATE FUNCTION has options that are not supported.
fn is_unusual_function(s: &CreateFunction) -> (r: bool)
    ensures
        r == unusual_function(*s),
{
    reveal(unusual_function);
    s.or_alter || s.temporary || s.if_not_exists || s.behavior.is_some() || s.called_on_null.is_some() || s.parallel.is_some()
        || s.set_params.len() > 0 || s.using.is_some() || s.determinism_specifier.is_some() || s.options.is_some()
        || s.remote_connection.is_some()
}

/// Arguments that may be absent.
#[verifier::opaque]
pub open spec fn some_arguments_of(l: Option<Vec<OperateFunctionArg>>, sql: Seq<char>) -> Checked<Seq<ParsedRoutineArgumentView>> {
    match l {
        None => {
            let none = Seq::<ParsedRoutineArgumentView>::empty();
            Ok(none)
        },
        Some(l) => arguments_of(l@, sql, 0, Seq::empty()),
    }
}

/// Takes over arguments that may be absent.
fn convert_some_arguments(l: &Option<Vec<OperateFunctionArg>>, sql: &str) -> (r: Result<Vec<ParsedRoutineArgument>>)
    ensures
        (match r {
            Ok(x) => Ok(ParsedRoutineArgument::views(x@)),
            Err(x) => Err(x@),
        }) == some_arguments_of(*l, sql@),
{
    reveal(some_arguments_of);
    match l {
        None => {
            let none = no_arguments();
            Ok(none)
        },
        Some(l) => {
            convert_routine_arguments(l, sql)
        },
    }
}

/// A CREATE FUNCTION.
#[verifier::opaque]
pub open spec fn create_function_of(s: CreateFunction, sql: Seq<char>) -> Checked<ParsedStatementView> {
    if unusual_function(s) {
        Err(unsupported_error("this CREATE FUNCTION option is not supported"@, None))
    } else if definer(s.security) {
        Err(unsupported_error("SECURITY DEFINER routines are not supported"@, None))
    } else if !procedural(s.language) {
        Err(unsupported_error("only LANGUAGE plpgsql routines are supported"@, None))
    } else {
        match some_arguments_of(s.args, sql) {
            Err(x) => Err(x),
            Ok(arguments) => match returns_of(s.return_type, any_output(arguments, 0), sql) {
                Err(x) => Err(x),
                Ok(result) => match function_body_of(s.function_body) {
                    Err(x) => Err(x),
                    Ok(body) => match object_name_of(s.name, sql) {
                        Err(x) => Err(x),
                        Ok(name) => Ok(
                            ParsedStatementView::CreateRoutine {
                                name,
                                kind: RoutineKind::Function,
                                arguments,
                                return_type: result.data_type,
                                return_declared_type: result.declared_type,
                                returns_set: result.many,
                                language: "plpgsql"@,
                                body,
                                replace: s.or_replace,
                            },
                        ),
                    },
                },
            },
        }
    }
}

/// Takes over a CREATE FUNCTION.
pub fn convert_create_function(s: &CreateFunction, sql: &str) -> (r: Result<ParsedStatement>)
    ensures
        (match r {
            Ok(x) => Ok(x@),
            Err(x) => Err(x@),
        }) == create_function_of(*s, sql@),
{
    reveal(create_function_of);
    if is_unusual_function(s) {
        return Err(unsupported("this CREATE FUNCTION option is not supported"));
    }
    if is_definer(&s.security) {
        return Err(unsupported("SECURITY DEFINER routines are not supported"));
    }
    if !is_procedural(&s.language) {
        return Err(unsupported("only LANGUAGE plpgsql routines are supported"));
    }
    let arguments = convert_some_arguments(&s.args, sql)?;
    let result = convert_returns(&s.return_type, has_output(&arguments), sql)?;
    let body = convert_function_body(&s.function_body)?;
    let name = convert_object_name(&s.name, sql)?;
    Ok(
        make_statement(
            ParsedStatement::CreateRoutine {
                name,
                kind: RoutineKind::Function,
                arguments,
                return_type: result.data_type,
                return_declared_type: result.declared_type,
                returns_set: result.many,
                language: text("plpgsql"),
                body,
                replace: s.or_replace,
            },
        ),
    )
}

/// A DROP FUNCTION or DROP PROCEDURE.
#[verifier::opaque]
pub open spec fn drop_routine_of(
    l: Seq<FunctionDesc>,
    kind: RoutineKind,
    if_exists: bool,
    behavior: Option<SqlDropBehavior>,
    sql: Seq<char>,
) -> Checked<ParsedStatementView> {
    if l.len() != 1 {
        Err(unsupported_error("dropping multiple routines in one statement is not supported"@, None))
    } else {
        match l[0].args {
            None => match object_name_of(l[0].name, sql) {
                Err(x) => Err(x),
                Ok(name) => Ok(
                    ParsedStatementView::DropRoutine { name, kind, argument_types: None, if_exists, behavior: behavior_of(behavior) },
                ),
            },
            Some(args) => match signature_of(args@, sql, 0, Seq::empty()) {
                Err(x) => Err(x),
                Ok(arguments) => match object_name_of(l[0].name, sql) {
                    Err(x) => Err(x),
                    Ok(name) => Ok(
                        ParsedStatementView::DropRoutine {
                            name,
                            kind,
                            argument_types: Some(inputs_of(arguments, 0, Seq::empty())),
                            if_exists,
                            behavior: behavior_of(behavior),
                        },
                    ),
                },
            },
        }
    }
}

/// Takes over a DROP FUNCTION or DROP PROCEDURE.
pub fn convert_drop_routine(
    l: &Vec<FunctionDesc>,
    kind: RoutineKind,
    if_exists: bool,
    behavior: &Option<SqlDropBehavior>,
    sql: &str,
) -> (r: Result<ParsedStatement>)
    ensures
        (match r {
            Ok(x) => Ok(x@),
            Err(x) => Err(x@),
        }) == drop_routine_of(l@, kind, if_exists, *behavior, sql@),
{
    reveal(drop_routine_of);
    if l.len() != 1 {
        return Err(unsupported("dropping multiple routines in one statement is not supported"));
    }
    match &l[0].args {
        None => {
            let name = convert_object_name(&l[0].name, sql)?;
            Ok(make_drop_routine(name, kind, None, if_exists, convert_drop_behavior(behavior)))
        },
        Some(args) => {
            let arguments = convert_signature(args, sql)?;
            let name = convert_object_name(&l[0].name, sql)?;
            Ok(make_drop_routine(name, kind, Some(keep_inputs(&arguments)), if_exists, convert_drop_behavior(behavior)))
        },
    }
}

/// Whether a CREATE TRIGGER has options that are not supported.
#[verifier::opaque]
pub open spec fn unusual_trigger(s: CreateTrigger) -> bool {
    s.or_alter || s.temporary || s.or_replace || s.is_constraint || s.referenced_table_name is Some || s.referencing@.len() > 0
        || s.condition is Some || s.statements_as || s.statements is Some || s.characteristics is Some || !s.period_before_table
}

/// Decides whether a CREATE TRIGGER has options that are not supported.
fn is_unusual_trigger(s: &CreateTrigger) -> (r: bool)
    ensures
        r == unusual_trigger(*s),
{
    reveal(unusual_trigger);
    s.or_alter || s.temporary || s.or_replace || s.is_constraint || s.referenced_table_name.is_some() || s.referencing.len() > 0
        || s.condition.is_some() || s.statements_as || s.statements.is_some() || s.characteristics.is_some() || !s.period_before_table
}

/// When a trigger fires.
#[verifier::opaque]
pub open spec fn timing_of(p: Option<TriggerPeriod>, level: TriggerLevel) -> Checked<TriggerTiming> {
    match p {
        Some(TriggerPeriod::Before) => Ok(if level == TriggerLevel::Row { TriggerTiming::Before } else { TriggerTiming::BeforeStatement }),
        Some(TriggerPeriod::After) => Ok(if level == TriggerLevel::Row { TriggerTiming::After } else { TriggerTiming::AfterStatement }),
        Some(TriggerPeriod::InsteadOf) => if level != TriggerLevel::Row {
            Err(unsupported_error("INSTEAD OF triggers must use FOR EACH ROW"@, None))
        } else {
            Ok(TriggerTiming::InsteadOf)
        },
        _ => Err(unsupported_error("this trigger timing is not supported"@, None)),
    }
}

/// Takes over when a trigger fires.
fn convert_timing(p: &Option<TriggerPeriod>, level: TriggerLevel) -> (r: Result<TriggerTiming>)
    ensures
        (match r {
            Ok(x) => Ok(x),
            Err(x) => Err(x@),
        }) == timing_of(*p, level),
{
    reveal(timing_of);
    match p {
        Some(TriggerPeriod::Before) => {
            Ok(if level == TriggerLevel::Row { TriggerTiming::Before } else { TriggerTiming::BeforeStatement })
        },
        Some(TriggerPeriod::After) => {
            Ok(if level == TriggerLevel::Row { TriggerTiming::After } else { TriggerTiming::AfterStatement })
        },
        Some(TriggerPeriod::InsteadOf) => {
            if level != TriggerLevel::Row {
                return Err(unsupported("INSTEAD OF triggers must use FOR EACH ROW"));
            }
            Ok(TriggerTiming::InsteadOf)
        },
        _ => {
            Err(unsupported("this trigger timing is not supported"))
        },
    }
}

/// What a trigger waits for.
#[verifier::opaque]
pub open spec fn event_of(e: SqlTriggerEvent) -> Checked<TriggerEvent> {
    match e {
        SqlTriggerEvent::Insert => Ok(TriggerEvent::Insert),
        SqlTriggerEvent::Update(columns) => if columns@.len() > 0 {
            Err(unsupported_error("this trigger event is not supported"@, None))
        } else {
            Ok(TriggerEvent::Update)
        },
        SqlTriggerEvent::Delete => Ok(TriggerEvent::Delete),
        _ => Err(unsupported_error("this trigger event is not supported"@, None)),
    }
}

/// Takes over what a trigger waits for.
fn convert_event(e: &SqlTriggerEvent) -> (r: Result<TriggerEvent>)
    ensures
        (match r {
            Ok(x) => Ok(x),
            Err(x) => Err(x@),
        }) == event_of(*e),
{
    reveal(event_of);
    match e {
        SqlTriggerEvent::Insert => {
            Ok(TriggerEvent::Insert)
        },
        SqlTriggerEvent::Update(columns) => {
            if columns.len() > 0 {
                return Err(unsupported("this trigger event is not supported"));
            }
            Ok(TriggerEvent::Update)
        },
        SqlTriggerEvent::Delete => {
            Ok(TriggerEvent::Delete)
        },
        _ => {
            Err(unsupported("this trigger event is not supported"))
        },
    }
}

/// What a trigger waits for, from one of them on.
pub open spec fn events_of(l: Seq<SqlTriggerEvent>, i: int, done: Seq<TriggerEvent>) -> Checked<Seq<TriggerEvent>>
    decreases l.len() - i,
{
    if i < 0 || i >= l.len() {
        Ok(done)
    } else {
        match event_of(l[i]) {
            Err(x) => Err(x),
            Ok(b) => events_of(l, i + 1, done.push(b)),
        }
    }
}

/// Takes over what a trigger waits for.
fn convert_events(l: &Vec<SqlTriggerEvent>) -> (r: Result<Vec<TriggerEvent>>)
    ensures
        (match r {
            Ok(x) => Ok(x@),
            Err(x) => Err(x@),
        }) == events_of(l@, 0, Seq::empty()),
{
    let mut out: Vec<TriggerEvent> = Vec::new();
    assert(out@ =~= Seq::empty());
    for i in 0..l.len()
        invariant
            events_of(l@, 0, Seq::empty()) == events_of(l@, i as int, out@),
    {
        let ghost before = out@;
        let x = convert_event(&l[i])?;
        out.push(x);
        assert(out@ =~= before.push(x));
    }
    Ok(out)
}

/// A CREATE TRIGGER.
#[verifier::opaque]
pub open spec fn create_trigger_of(s: CreateTrigger, sql: Seq<char>) -> Checked<ParsedStatementView> {
    if unusual_trigger(s) {
        Err(unsupported_error("this CREATE TRIGGER option is not supported"@, None))
    } else {
        {
            let level = level_of(s.trigger_object);
            match timing_of(s.period, level) {
                Err(x) => Err(x),
                Ok(timing) => match events_of(s.events@, 0, Seq::empty()) {
                    Err(x) => Err(x),
                    Ok(events) => match s.exec_body {
                        None => Err(error(SYNTAX_ERROR@, "trigger requires EXECUTE FUNCTION"@)),
                        Some(body) => if !(body.exec_type is Function) || has_arguments(body.func_desc) {
                            Err(unsupported_error("trigger functions must be invoked without arguments"@, None))
                        } else {
                            match object_name_of(s.name, sql) {
                                Err(x) => Err(x),
                                Ok(name) => if name.parts.len() != 1 {
                                    Err(unsupported_error("trigger names cannot be schema qualified"@, None))
                                } else {
                                    match object_name_of(s.table_name, sql) {
                                        Err(x) => Err(x),
                                        Ok(table) => match object_name_of(body.func_desc.name, sql) {
                                            Err(x) => Err(x),
                                            Ok(routine) => Ok(
                                                ParsedStatementView::CreateTrigger {
                                                    name: name.parts[0],
                                                    table,
                                                    timing,
                                                    level,
                                                    events,
                                                    routine,
                                                },
                                            ),
                                        },
                                    }
                                },
                            }
                        },
                    },
                },
            }
        }
    }
}

/// Takes over a CREATE TRIGGER.
pub fn convert_create_trigger(s: &CreateTrigger, sql: &str) -> (r: Result<ParsedStatement>)
    ensures
        (match r {
            Ok(x) => Ok(x@),
            Err(x) => Err(x@),
        }) == create_trigger_of(*s, sql@),
{
    reveal(create_trigger_of);
    if is_unusual_trigger(s) {
        return Err(unsupported("this CREATE TRIGGER option is not supported"));
    }
    let level = convert_level(&s.trigger_object);
    let timing = convert_timing(&s.period, level)?;
    let events = convert_events(&s.events)?;
    match &s.exec_body {
        None => {
            Err(DbError::new(SYNTAX_ERROR, text("trigger requires EXECUTE FUNCTION")))
        },
        Some(body) => {
            if !is_function_body(&body.exec_type) || takes_arguments(&body.func_desc) {
                return Err(unsupported("trigger functions must be invoked without arguments"));
            }
            let name = convert_object_name(&s.name, sql)?;
            if name.parts.len() != 1 {
                return Err(unsupported("trigger names cannot be schema qualified"));
            }
            let table = convert_object_name(&s.table_name, sql)?;
            let routine = convert_object_name(&body.func_desc.name, sql)?;
            assert(name@.parts[0] == name.parts@[0]@);
            Ok(make_statement(ParsedStatement::CreateTrigger { name: name.parts[0].clone(), table, timing, level, events, routine }))
        },
    }
}

/// What a DROP TRIGGER does about objects that depend on it.
#[verifier::opaque]
pub open spec fn trigger_behavior(o: Option<SqlReferentialAction>) -> Checked<DropBehavior> {
    match o {
        None => Ok(DropBehavior::Restrict),
        Some(SqlReferentialAction::Restrict) => Ok(DropBehavior::Restrict),
        Some(SqlReferentialAction::Cascade) => Ok(DropBehavior::Cascade),
        _ => Err(unsupported_error("DROP TRIGGER supports only CASCADE or RESTRICT behavior"@, None)),
    }
}

/// Takes over what a DROP TRIGGER does about objects that depend on it.
fn convert_trigger_behavior(o: &Option<SqlReferentialAction>) -> (r: Result<DropBehavior>)
    ensures
        (match r {
            Ok(x) => Ok(x),
            Err(x) => Err(x@),
        }) == trigger_behavior(*o),
{
    reveal(trigger_behavior);
    match o {
        None => {
            Ok(DropBehavior::Restrict)
        },
        Some(SqlReferentialAction::Restrict) => {
            Ok(DropBehavior::Restrict)
        },
        Some(SqlReferentialAction::Cascade) => {
            Ok(DropBehavior::Cascade)
        },
        _ => {
            Err(unsupported("DROP TRIGGER supports only CASCADE or RESTRICT behavior"))
        },
    }
}

/// A DROP TRIGGER.
#[verifier::opaque]
pub open spec fn drop_trigger_of(s: DropTrigger, sql: Seq<char>) -> Checked<ParsedStatementView> {
    match object_name_of(s.trigger_name, sql) {
        Err(x) => Err(x),
        Ok(name) => if name.parts.len() != 1 {
            Err(unsupported_error("qualified trigger names are not supported"@, None))
        } else {
            match s.table_name {
                None => Err(error(SYNTAX_ERROR@, "DROP TRIGGER requires ON table"@)),
                Some(table) => match trigger_behavior(s.option) {
                    Err(x) => Err(x),
                    Ok(behavior) => match object_name_of(table, sql) {
                        Err(x) => Err(x),
                        Ok(table) => Ok(ParsedStatementView::DropTrigger { name: name.parts[0], table, if_exists: s.if_exists, behavior }),
                    },
                },
            }
        },
    }
}

/// Takes over a DROP TRIGGER.
pub fn convert_drop_trigger(s: &DropTrigger, sql: &str) -> (r: Result<ParsedStatement>)
    ensures
        (match r {
            Ok(x) => Ok(x@),
            Err(x) => Err(x@),
        }) == drop_trigger_of(*s, sql@),
{
    reveal(drop_trigger_of);
    let name = convert_object_name(&s.trigger_name, sql)?;
    if name.parts.len() != 1 {
        return Err(unsupported("qualified trigger names are not supported"));
    }
    match &s.table_name {
        None => {
            Err(DbError::new(SYNTAX_ERROR, text("DROP TRIGGER requires ON table")))
        },
        Some(table) => {
            let behavior = convert_trigger_behavior(&s.option)?;
            let table = convert_object_name(table, sql)?;
            assert(name@.parts[0] == name.parts@[0]@);
            Ok(make_statement(ParsedStatement::DropTrigger { name: name.parts[0].clone(), table, if_exists: s.if_exists, behavior }))
        },
    }
}

} // verus!
