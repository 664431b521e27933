//! Multi-dialect SQL parsing and catalog-aware binding.
//!
//! A text in one of four dialects becomes a [`ParsedStatement`], a syntax tree that this
//! library owns; every dialect is brought to the same PostgreSQL-compatible meaning.
//! [`bind`](fn@bind) then finds names in a catalog, settles the types of parameters and
//! gives a [`BoundStatement`] in which every column is a place and every expression has
//! a type.
//!
//! Each type has mathematical contents (its `view`), each step is stated as a rule over
//! those contents, and each function is proved to compute what its rule says. What holds
//! of the rules as a whole is proved beside them, in `lemma_` functions.

// Texts, types and the catalog.
pub mod text;
pub mod numbers;
pub mod scanning;
pub mod types;
pub mod catalog;
pub mod typing;

// The syntax tree and the bound tree.
pub mod settings;
pub mod syntax;
pub mod syntax_copy;
pub mod bound;
pub mod bound_copy;
pub mod predicates;
pub mod effects;
pub mod laws_effects;
pub mod dependencies;

// Outside syntax trees and what is called outside.
pub mod tree;
pub mod tree_rest;
pub mod outside;
pub mod written;
pub mod source;

// From text to syntax tree.
pub mod dialects;
pub mod sql_types;
pub mod literals;
pub mod named_windows;
pub mod convert_parts;
pub mod convert_rules;
pub mod convert;
pub mod convert_dml;
pub mod convert_ddl;
pub mod convert_routine;
pub mod convert_statement;
pub mod laws_parse;
pub mod laws_parse_change;
pub mod laws_parse_call;
pub mod laws_parse_ddl;
pub mod laws_parse_success;
pub mod laws_parse_forms;
pub mod laws_parse_rows;
pub mod merge_tokens;
pub mod flush;
pub mod tokens;
pub mod token_statements;
pub mod transaction_tokens;
pub mod domain_tokens;
pub mod text_statements;
pub mod expression_parser;
pub mod parser;

// Types of parameters, named types and session values.
pub mod type_rules;
pub mod resolve;
pub mod resolved;
pub mod laws_typing;
pub mod solver_rules;
pub mod laws_growth;
pub mod laws_solver;
pub mod laws_parameters;
pub mod laws_clause_parameters;
pub mod solver;

// From syntax tree to bound tree.
pub mod scope;
pub mod expr;
pub mod binding;
pub mod soundness;
pub mod laws_expr;
pub mod laws_types;
pub mod names;
pub mod grouping;
pub mod ordering;
pub mod windows;
pub mod subquery;
pub mod lowering;
pub mod inputs;
pub mod select_list;
pub mod references;
pub mod rewrite;
pub mod transient;
pub mod dml;
pub mod indexes;
pub mod ddl;
pub mod routines;
pub mod plain;
pub mod queries;
pub mod query_rules;
pub mod statement;
pub mod laws_steps;
pub mod stored;
pub mod bind;
pub mod laws_bind;
pub mod laws_parts;
pub mod laws_sorting;
pub mod laws_change;
pub mod laws_with;
pub mod laws_ddl;
pub mod laws_call;
pub mod laws_values;
pub mod laws_pages;
pub mod laws_success;
pub mod laws_owed;
pub mod laws_errors;
pub mod laws_columns;

pub use crate::bind::{bind, bind_with_session};
pub use crate::bound::{
    BoundAlterDomainOperation, BoundAlterTableOperation, BoundApply, BoundApplyKind, BoundConflictAction, BoundCte, BoundExpr,
    BoundExprKind, BoundJoin, BoundJoinSource, BoundMerge, BoundMergeAction, BoundMergeClause, BoundMergeClauseKind, BoundOnConflict,
    BoundOrder, BoundProjection, BoundReindexTarget, BoundReturning, BoundSequenceOperation, BoundStatement, BoundTable, BoundWindow,
    BoundWindowFrame, BoundWindowFrameBound,
};
pub use crate::effects::classify_statement_effect;
pub use crate::parser::{parse, parse_with_dialect};
pub use crate::stored::{
    bind_catalog_expression, bind_catalog_expression_with_catalog, bind_catalog_expression_with_parameter_types,
    bind_catalog_expression_with_parameter_types_and_catalog,
};
pub use crate::settings::SessionSettings;
pub use crate::syntax::{
    AggregateFunction, BinaryOperator, DdlObjectKind, IsolationLevel, JoinKind, ParsedAlterDomainOperation, ParsedAlterSequence,
    ParsedAlterTableOperation, ParsedColumn, ParsedConflictAction, ParsedConflictTarget, ParsedCreateIndex, ParsedCte, ParsedDefault,
    ParsedExpr, ParsedExprKind, ParsedIdentifier, ParsedIndexOption, ParsedIndexOptionValue, ParsedJoin, ParsedJoinSource, ParsedMerge,
    ParsedMergeAction, ParsedMergeClause, ParsedMergeClauseKind, ParsedObjectName, ParsedOnConflict, ParsedOrder, ParsedProjection,
    ParsedReindexTarget, ParsedRoutineArgument, ParsedSequenceOperation, ParsedStatement, ParsedTable, ParsedTableConstraint,
    ParsedWindowCall, ParsedWindowFrame, ParsedWindowFrameBound, ParsedWindowSpec, QuerySetOperator, ScalarFunction, SessionBindValues,
    SqlDialect, StatementEffect, SubqueryQuantifier, TransactionAccessMode, TransactionChain, TransactionCharacteristics, UnaryOperator,
    WindowFrameUnits, WindowFunction,
};
pub use crate::typing::compare_scalar_types;
