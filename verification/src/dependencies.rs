//! The catalog objects that a bound query depends on.

use vstd::prelude::*;

use crate::bound::{
    BoundApply, BoundApplyView, BoundCte, BoundCteView, BoundJoin, BoundJoinSource, BoundJoinSourceView, BoundJoinView, BoundStatement,
    BoundStatementView,
};
use crate::catalog::CatalogObjectRef;

verus! {

/// The place of an object's kind in the order of references.
pub open spec fn kind_rank(r: CatalogObjectRef) -> int {
    match r {
        CatalogObjectRef::Schema(_) => 0,
        CatalogObjectRef::Table(_) => 1,
        CatalogObjectRef::Index(_) => 2,
        CatalogObjectRef::Sequence(_) => 3,
        CatalogObjectRef::View(_) => 4,
        CatalogObjectRef::Type(_) => 5,
        CatalogObjectRef::Routine(_) => 6,
    }
}

/// The number of an object within its kind.
pub open spec fn object_number(r: CatalogObjectRef) -> int {
    match r {
        CatalogObjectRef::Schema(i) => i.0 as int,
        CatalogObjectRef::Table(i) => i.0 as int,
        CatalogObjectRef::Index(i) => i.0 as int,
        CatalogObjectRef::Sequence(i) => i.0 as int,
        CatalogObjectRef::View(i) => i.0 as int,
        CatalogObjectRef::Type(i) => i.0 as int,
        CatalogObjectRef::Routine(i) => i.0 as int,
    }
}

/// Whether a reference stands before another.
pub open spec fn precedes(a: CatalogObjectRef, b: CatalogObjectRef) -> bool {
    kind_rank(a) < kind_rank(b) || (kind_rank(a) == kind_rank(b) && object_number(a) < object_number(b))
}

fn rank(r: CatalogObjectRef) -> (n: (u8, u64))
    ensures
        n.0 == kind_rank(r),
        n.1 == object_number(r),
{
    match r {
        CatalogObjectRef::Schema(i) => (0, i.0),
        CatalogObjectRef::Table(i) => (1, i.0),
        CatalogObjectRef::Index(i) => (2, i.0),
        CatalogObjectRef::Sequence(i) => (3, i.0),
        CatalogObjectRef::View(i) => (4, i.0),
        CatalogObjectRef::Type(i) => (5, i.0),
        CatalogObjectRef::Routine(i) => (6, i.0),
    }
}

/// Whether references stand in order, each once.
pub open spec fn ordered(l: Seq<CatalogObjectRef>) -> bool {
    forall|i: int, j: int| 0 <= i < j < l.len() ==> precedes(l[i], l[j])
}

/// An ordered list with a reference added at its place, from a position on.
pub open spec fn inserted(l: Seq<CatalogObjectRef>, r: CatalogObjectRef, i: int) -> Seq<CatalogObjectRef>
    decreases l.len() - i,
{
    if i < 0 || i >= l.len() {
        l.push(r)
    } else if l[i] == r {
        l
    } else if precedes(r, l[i]) {
        l.insert(i, r)
    } else {
        inserted(l, r, i + 1)
    }
}

/// Adding a reference keeps a list ordered and adds nothing else.
pub proof fn lemma_inserted(l: Seq<CatalogObjectRef>, r: CatalogObjectRef, i: int)
    requires
        ordered(l),
        0 <= i <= l.len(),
        forall|k: int| 0 <= k < i ==> precedes(l[k], r),
    ensures
        ordered(inserted(l, r, i)),
        inserted(l, r, i).contains(r),
        forall|x: CatalogObjectRef| l.contains(x) ==> inserted(l, r, i).contains(x),
        forall|x: CatalogObjectRef| inserted(l, r, i).contains(x) ==> x == r || l.contains(x),
    decreases l.len() - i,
{
    let out = inserted(l, r, i);
    if i >= l.len() {
        assert(out == l.push(r));
        assert(out[l.len() as int] == r);
        assert forall|x: CatalogObjectRef| l.contains(x) implies out.contains(x) by {
            let k = choose|k: int| 0 <= k < l.len() && l[k] == x;
            assert(out[k] == x);
        }
        assert forall|x: CatalogObjectRef| out.contains(x) implies x == r || l.contains(x) by {
            let k = choose|k: int| 0 <= k < out.len() && out[k] == x;
            if k < l.len() {
                assert(l[k] == x);
            }
        }
    } else if l[i] == r {
    } else if precedes(r, l[i]) {
        assert(out == l.insert(i, r));
        assert(out[i] == r);
        assert forall|a: int, b: int| 0 <= a < b < out.len() implies precedes(out[a], out[b]) by {
            if a < i && b > i {
                assert(out[b] == l[b - 1]);
                assert(precedes(l[a], l[b - 1]));
            } else if a == i {
                assert(out[b] == l[b - 1]);
                if b - 1 > i {
                    assert(precedes(l[i], l[b - 1]));
                }
            } else if a > i {
                assert(out[a] == l[a - 1]);
                assert(out[b] == l[b - 1]);
            }
        }
        assert forall|x: CatalogObjectRef| l.contains(x) implies out.contains(x) by {
            let k = choose|k: int| 0 <= k < l.len() && l[k] == x;
            if k < i {
                assert(out[k] == x);
            } else {
                assert(out[k + 1] == x);
            }
        }
        assert forall|x: CatalogObjectRef| out.contains(x) implies x == r || l.contains(x) by {
            let k = choose|k: int| 0 <= k < out.len() && out[k] == x;
            if k < i {
                assert(l[k] == x);
            } else if k > i {
                assert(l[k - 1] == x);
            }
        }
    } else {
        assert(precedes(l[i], r)) by {
            lemma_total(l[i], r);
        }
        lemma_inserted(l, r, i + 1);
    }
}

proof fn lemma_total(a: CatalogObjectRef, b: CatalogObjectRef)
    ensures
        a == b || precedes(a, b) || precedes(b, a),
{
}

fn insert_reference(l: Vec<CatalogObjectRef>, r: CatalogObjectRef) -> (out: Vec<CatalogObjectRef>)
    ensures
        out@ == inserted(l@, r, 0),
{
    let mut out: Vec<CatalogObjectRef> = l;
    let new = rank(r);
    let mut i: usize = 0;
    while i < out.len()
        invariant
            i <= out.len(),
            out@ == l@,
            new.0 == kind_rank(r),
            new.1 == object_number(r),
            inserted(l@, r, 0) == inserted(l@, r, i as int),
        decreases out.len() - i,
    {
        if out[i] == r {
            return out;
        }
        let here = rank(out[i]);
        if new.0 < here.0 || (new.0 == here.0 && new.1 < here.1) {
            out.insert(i, r);
            return out;
        }
        i += 1;
    }
    out.push(r);
    out
}

/// References with those of a source of a FROM clause added.
pub open spec fn with_source(s: BoundJoinSourceView, l: Seq<CatalogObjectRef>) -> Seq<CatalogObjectRef>
    decreases s, 0int,
{
    match s {
        BoundJoinSourceView::Table(t) => inserted(l, CatalogObjectRef::Table(t.table_id), 0),
        BoundJoinSourceView::Derived { query, .. } => with_references(*query, l),
    }
}

/// References with those of joins added, from a join on.
pub open spec fn with_joins(joins: Seq<BoundJoinView>, i: int, l: Seq<CatalogObjectRef>) -> Seq<CatalogObjectRef>
    decreases joins, joins.len() - i,
{
    if i < 0 || i >= joins.len() {
        l
    } else {
        with_joins(joins, i + 1, with_source(joins[i].source, l))
    }
}

/// References with those of subqueries added, from a subquery on.
pub open spec fn with_applies(applies: Seq<BoundApplyView>, i: int, l: Seq<CatalogObjectRef>) -> Seq<CatalogObjectRef>
    decreases applies, applies.len() - i,
{
    if i < 0 || i >= applies.len() {
        l
    } else {
        with_applies(applies, i + 1, with_references(*applies[i].query, l))
    }
}

/// References with those of WITH queries added, from a query on.
pub open spec fn with_ctes(ctes: Seq<BoundCteView>, i: int, l: Seq<CatalogObjectRef>) -> Seq<CatalogObjectRef>
    decreases ctes, ctes.len() - i,
{
    if i < 0 || i >= ctes.len() {
        l
    } else {
        let seed = with_references(*ctes[i].seed, l);
        with_ctes(
            ctes,
            i + 1,
            match ctes[i].recursive {
                Some(r) => with_references(*r, seed),
                None => seed,
            },
        )
    }
}

/// References with those of a bound query added.
pub open spec fn with_references(s: BoundStatementView, l: Seq<CatalogObjectRef>) -> Seq<CatalogObjectRef>
    decreases s, 0int,
{
    match s {
        BoundStatementView::Select { table_id, .. } => inserted(l, CatalogObjectRef::Table(table_id), 0),
        BoundStatementView::AdvancedSelect { table, joins, applies, .. } => with_applies(
            applies,
            0,
            with_joins(joins, 0, inserted(l, CatalogObjectRef::Table(table.table_id), 0)),
        ),
        BoundStatementView::SetOperation { left, right, .. } => with_references(*right, with_references(*left, l)),
        BoundStatementView::With { ctes, body, .. } => with_ctes(ctes, 0, with_references(*body, l)),
        BoundStatementView::ViewSelect { view_id, .. } => inserted(l, CatalogObjectRef::View(view_id), 0),
        BoundStatementView::RoutineSelect { routine_id, .. } => inserted(l, CatalogObjectRef::Routine(routine_id), 0),
        _ => l,
    }
}

fn add_source(s: &BoundJoinSource, l: Vec<CatalogObjectRef>) -> (r: Vec<CatalogObjectRef>)
    ensures
        r@ == with_source(s@, l@),
    decreases s, 0int,
{
    proof {
        s.unfold();
    }
    match s {
        BoundJoinSource::Table(t) => insert_reference(l, CatalogObjectRef::Table(t.table_id)),
        BoundJoinSource::Derived { query, .. } => add_references(query, l),
    }
}

fn add_joins(joins: &Vec<BoundJoin>, l: Vec<CatalogObjectRef>) -> (r: Vec<CatalogObjectRef>)
    ensures
        r@ == with_joins(BoundJoin::views(joins@), 0, l@),
    decreases joins, 0int,
{
    let ghost v = BoundJoin::views(joins@);
    let mut out: Vec<CatalogObjectRef> = l;
    for i in 0..joins.len()
        invariant
            v == BoundJoin::views(joins@),
            with_joins(v, 0, l@) == with_joins(v, i as int, out@),
    {
        assert(decreases_to!(joins => joins@[i as int]));
        assert(v[i as int] == joins@[i as int]@);
        proof {
            joins@[i as int].unfold();
        }
        out = add_source(&joins[i].source, out);
    }
    out
}

fn add_applies(applies: &Vec<BoundApply>, l: Vec<CatalogObjectRef>) -> (r: Vec<CatalogObjectRef>)
    ensures
        r@ == with_applies(BoundApply::views(applies@), 0, l@),
    decreases applies, 0int,
{
    let ghost v = BoundApply::views(applies@);
    let mut out: Vec<CatalogObjectRef> = l;
    for i in 0..applies.len()
        invariant
            v == BoundApply::views(applies@),
            with_applies(v, 0, l@) == with_applies(v, i as int, out@),
    {
        assert(decreases_to!(applies => applies@[i as int]));
        assert(v[i as int] == applies@[i as int]@);
        proof {
            applies@[i as int].unfold();
        }
        out = add_references(&applies[i].query, out);
    }
    out
}

fn add_ctes(ctes: &Vec<BoundCte>, l: Vec<CatalogObjectRef>) -> (r: Vec<CatalogObjectRef>)
    ensures
        r@ == with_ctes(BoundCte::views(ctes@), 0, l@),
    decreases ctes, 0int,
{
    let ghost v = BoundCte::views(ctes@);
    let mut out: Vec<CatalogObjectRef> = l;
    for i in 0..ctes.len()
        invariant
            v == BoundCte::views(ctes@),
            with_ctes(v, 0, l@) == with_ctes(v, i as int, out@),
    {
        assert(decreases_to!(ctes => ctes@[i as int]));
        assert(v[i as int] == ctes@[i as int]@);
        proof {
            ctes@[i as int].unfold();
        }
        out = add_references(&ctes[i].seed, out);
        if let Some(r) = &ctes[i].recursive {
            out = add_references(r, out);
        }
    }
    out
}

fn add_references(s: &BoundStatement, l: Vec<CatalogObjectRef>) -> (r: Vec<CatalogObjectRef>)
    ensures
        r@ == with_references(s@, l@),
    decreases s, 0int,
{
    proof {
        s.unfold();
    }
    match s {
        BoundStatement::Select { table_id, .. } => insert_reference(l, CatalogObjectRef::Table(*table_id)),
        BoundStatement::AdvancedSelect { table, joins, applies, .. } => {
            let own = insert_reference(l, CatalogObjectRef::Table(table.table_id));
            let joined = add_joins(joins, own);
            add_applies(applies, joined)
        },
        BoundStatement::SetOperation { left, right, .. } => {
            let first = add_references(left, l);
            add_references(right, first)
        },
        BoundStatement::With { ctes, body, .. } => {
            let own = add_references(body, l);
            add_ctes(ctes, own)
        },
        BoundStatement::ViewSelect { view_id, .. } => insert_reference(l, CatalogObjectRef::View(*view_id)),
        BoundStatement::RoutineSelect { routine_id, .. } => insert_reference(l, CatalogObjectRef::Routine(*routine_id)),
        _ => l,
    }
}

/// Collects the catalog objects that a bound query depends on, in order and each
/// once.
pub fn bound_statement_references(statement: &BoundStatement) -> (r: Vec<CatalogObjectRef>)
    ensures
        r@ == with_references(statement@, Seq::empty()),
        ordered(r@),
        forall|o: CatalogObjectRef| #[trigger] r@.contains(o) <==> query_reads(statement@, o),
{
    let none: Vec<CatalogObjectRef> = Vec::new();
    assert(none@ =~= Seq::empty());
    proof {
        lemma_references_ordered(statement@, Seq::empty());
        assert forall|o: CatalogObjectRef| #[trigger] with_references(statement@, Seq::empty()).contains(o) <==> query_reads(statement@, o) by {
            lemma_references_exact(statement@, Seq::empty(), o);
        }
    }
    add_references(statement, none)
}

proof fn lemma_source_ordered(s: BoundJoinSourceView, l: Seq<CatalogObjectRef>)
    requires
        ordered(l),
    ensures
        ordered(with_source(s, l)),
    decreases s, 0int,
{
    match s {
        BoundJoinSourceView::Table(t) => {
            lemma_inserted(l, CatalogObjectRef::Table(t.table_id), 0);
        },
        BoundJoinSourceView::Derived { query, .. } => {
            lemma_references_ordered(*query, l);
        },
    }
}

proof fn lemma_joins_ordered(joins: Seq<BoundJoinView>, i: int, l: Seq<CatalogObjectRef>)
    requires
        ordered(l),
    ensures
        ordered(with_joins(joins, i, l)),
    decreases joins, joins.len() - i,
{
    if 0 <= i < joins.len() {
        lemma_source_ordered(joins[i].source, l);
        lemma_joins_ordered(joins, i + 1, with_source(joins[i].source, l));
    }
}

proof fn lemma_applies_ordered(applies: Seq<BoundApplyView>, i: int, l: Seq<CatalogObjectRef>)
    requires
        ordered(l),
    ensures
        ordered(with_applies(applies, i, l)),
    decreases applies, applies.len() - i,
{
    if 0 <= i < applies.len() {
        lemma_references_ordered(*applies[i].query, l);
        lemma_applies_ordered(applies, i + 1, with_references(*applies[i].query, l));
    }
}

proof fn lemma_ctes_ordered(ctes: Seq<BoundCteView>, i: int, l: Seq<CatalogObjectRef>)
    requires
        ordered(l),
    ensures
        ordered(with_ctes(ctes, i, l)),
    decreases ctes, ctes.len() - i,
{
    if 0 <= i < ctes.len() {
        let seed = with_references(*ctes[i].seed, l);
        lemma_references_ordered(*ctes[i].seed, l);
        match ctes[i].recursive {
            Some(r) => {
                lemma_references_ordered(*r, seed);
                lemma_ctes_ordered(ctes, i + 1, with_references(*r, seed));
            },
            None => {
                lemma_ctes_ordered(ctes, i + 1, seed);
            },
        }
    }
}

/// The references of a query keep a list ordered, each once.
pub proof fn lemma_references_ordered(s: BoundStatementView, l: Seq<CatalogObjectRef>)
    requires
        ordered(l),
    ensures
        ordered(with_references(s, l)),
    decreases s, 0int,
{
    match s {
        BoundStatementView::Select { table_id, .. } => {
            lemma_inserted(l, CatalogObjectRef::Table(table_id), 0);
        },
        BoundStatementView::AdvancedSelect { table, joins, applies, .. } => {
            let own = inserted(l, CatalogObjectRef::Table(table.table_id), 0);
            lemma_inserted(l, CatalogObjectRef::Table(table.table_id), 0);
            lemma_joins_ordered(joins, 0, own);
            lemma_applies_ordered(applies, 0, with_joins(joins, 0, own));
        },
        BoundStatementView::SetOperation { left, right, .. } => {
            lemma_references_ordered(*left, l);
            lemma_references_ordered(*right, with_references(*left, l));
        },
        BoundStatementView::With { ctes, body, .. } => {
            lemma_references_ordered(*body, l);
            lemma_ctes_ordered(ctes, 0, with_references(*body, l));
        },
        BoundStatementView::ViewSelect { view_id, .. } => {
            lemma_inserted(l, CatalogObjectRef::View(view_id), 0);
        },
        BoundStatementView::RoutineSelect { routine_id, .. } => {
            lemma_inserted(l, CatalogObjectRef::Routine(routine_id), 0);
        },
        _ => {},
    }
}

/// Whether a source of a FROM clause reads an object.
pub open spec fn source_reads(s: BoundJoinSourceView, r: CatalogObjectRef) -> bool
    decreases s, 0int,
{
    match s {
        BoundJoinSourceView::Table(t) => r == CatalogObjectRef::Table(t.table_id),
        BoundJoinSourceView::Derived { query, .. } => query_reads(*query, r),
    }
}

/// Whether joins read an object, from a join on.
pub open spec fn joins_read(joins: Seq<BoundJoinView>, i: int, r: CatalogObjectRef) -> bool
    decreases joins, joins.len() - i,
{
    0 <= i < joins.len() && (source_reads(joins[i].source, r) || joins_read(joins, i + 1, r))
}

/// Whether subqueries read an object, from a subquery on.
pub open spec fn applies_read(applies: Seq<BoundApplyView>, i: int, r: CatalogObjectRef) -> bool
    decreases applies, applies.len() - i,
{
    0 <= i < applies.len() && (query_reads(*applies[i].query, r) || applies_read(applies, i + 1, r))
}

/// Whether WITH queries read an object, from a query on.
pub open spec fn ctes_read(ctes: Seq<BoundCteView>, i: int, r: CatalogObjectRef) -> bool
    decreases ctes, ctes.len() - i,
{
    0 <= i < ctes.len() && (query_reads(*ctes[i].seed, r) || (match ctes[i].recursive {
        Some(q) => query_reads(*q, r),
        None => false,
    }) || ctes_read(ctes, i + 1, r))
}

/// Whether a bound query, or a query in it, reads an object: a table, or the view or
/// routine that stands for a query of its own.
pub open spec fn query_reads(s: BoundStatementView, r: CatalogObjectRef) -> bool
    decreases s, 0int,
{
    match s {
        BoundStatementView::Select { table_id, .. } => r == CatalogObjectRef::Table(table_id),
        BoundStatementView::AdvancedSelect { table, joins, applies, .. } => {
            ||| r == CatalogObjectRef::Table(table.table_id)
            ||| joins_read(joins, 0, r)
            ||| applies_read(applies, 0, r)
        },
        BoundStatementView::SetOperation { left, right, .. } => query_reads(*left, r) || query_reads(*right, r),
        BoundStatementView::With { ctes, body, .. } => query_reads(*body, r) || ctes_read(ctes, 0, r),
        BoundStatementView::ViewSelect { view_id, .. } => r == CatalogObjectRef::View(view_id),
        BoundStatementView::RoutineSelect { routine_id, .. } => r == CatalogObjectRef::Routine(routine_id),
        _ => false,
    }
}

proof fn lemma_source_exact(s: BoundJoinSourceView, l: Seq<CatalogObjectRef>, r: CatalogObjectRef)
    requires
        ordered(l),
    ensures
        with_source(s, l).contains(r) <==> l.contains(r) || source_reads(s, r),
    decreases s, 0int,
{
    match s {
        BoundJoinSourceView::Table(t) => lemma_inserted(l, CatalogObjectRef::Table(t.table_id), 0),
        BoundJoinSourceView::Derived { query, .. } => lemma_references_exact(*query, l, r),
    }
}

proof fn lemma_joins_exact(joins: Seq<BoundJoinView>, i: int, l: Seq<CatalogObjectRef>, r: CatalogObjectRef)
    requires
        ordered(l),
    ensures
        with_joins(joins, i, l).contains(r) <==> l.contains(r) || joins_read(joins, i, r),
    decreases joins, joins.len() - i,
{
    if 0 <= i < joins.len() {
        lemma_source_ordered(joins[i].source, l);
        lemma_source_exact(joins[i].source, l, r);
        lemma_joins_exact(joins, i + 1, with_source(joins[i].source, l), r);
    }
}

proof fn lemma_applies_exact(applies: Seq<BoundApplyView>, i: int, l: Seq<CatalogObjectRef>, r: CatalogObjectRef)
    requires
        ordered(l),
    ensures
        with_applies(applies, i, l).contains(r) <==> l.contains(r) || applies_read(applies, i, r),
    decreases applies, applies.len() - i,
{
    if 0 <= i < applies.len() {
        lemma_references_ordered(*applies[i].query, l);
        lemma_references_exact(*applies[i].query, l, r);
        lemma_applies_exact(applies, i + 1, with_references(*applies[i].query, l), r);
    }
}

proof fn lemma_ctes_exact(ctes: Seq<BoundCteView>, i: int, l: Seq<CatalogObjectRef>, r: CatalogObjectRef)
    requires
        ordered(l),
    ensures
        with_ctes(ctes, i, l).contains(r) <==> l.contains(r) || ctes_read(ctes, i, r),
    decreases ctes, ctes.len() - i,
{
    if 0 <= i < ctes.len() {
        let seed = with_references(*ctes[i].seed, l);
        lemma_references_ordered(*ctes[i].seed, l);
        lemma_references_exact(*ctes[i].seed, l, r);
        match ctes[i].recursive {
            Some(q) => {
                lemma_references_ordered(*q, seed);
                lemma_references_exact(*q, seed, r);
                lemma_ctes_exact(ctes, i + 1, with_references(*q, seed), r);
            },
            None => {
                lemma_ctes_exact(ctes, i + 1, seed, r);
            },
        }
    }
}

/// The references of a query add to an ordered list just the objects that the query, or a
/// query in it, reads.
pub proof fn lemma_references_exact(s: BoundStatementView, l: Seq<CatalogObjectRef>, r: CatalogObjectRef)
    requires
        ordered(l),
    ensures
        with_references(s, l).contains(r) <==> l.contains(r) || query_reads(s, r),
    decreases s, 0int,
{
    match s {
        BoundStatementView::Select { table_id, .. } => lemma_inserted(l, CatalogObjectRef::Table(table_id), 0),
        BoundStatementView::AdvancedSelect { table, joins, applies, .. } => {
            let own = inserted(l, CatalogObjectRef::Table(table.table_id), 0);
            lemma_inserted(l, CatalogObjectRef::Table(table.table_id), 0);
            lemma_joins_ordered(joins, 0, own);
            lemma_joins_exact(joins, 0, own, r);
            lemma_applies_exact(applies, 0, with_joins(joins, 0, own), r);
        },
        BoundStatementView::SetOperation { left, right, .. } => {
            lemma_references_ordered(*left, l);
            lemma_references_exact(*left, l, r);
            lemma_references_exact(*right, with_references(*left, l), r);
        },
        BoundStatementView::With { ctes, body, .. } => {
            lemma_references_ordered(*body, l);
            lemma_references_exact(*body, l, r);
            lemma_ctes_exact(ctes, 0, with_references(*body, l), r);
        },
        BoundStatementView::ViewSelect { view_id, .. } => lemma_inserted(l, CatalogObjectRef::View(view_id), 0),
        BoundStatementView::RoutineSelect { routine_id, .. } => lemma_inserted(l, CatalogObjectRef::Routine(routine_id), 0),
        _ => {},
    }
}

} // verus!
