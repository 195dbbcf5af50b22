//! Select and join statement nodes.
//!
//! A [`Select`] carries a source, a projection list of pre-serialized
//! fragments, and optional offset and limit clauses; it serializes as
//! `SELECT <projections> FROM <source>` followed by the clauses that are
//! present.  A [`Join`] serializes its left side, an optional `NATURAL`
//! marker, the join-kind keyword, the right side, and an `ON`/`USING`
//! clause depending on the join condition.

use vstd::prelude::*;
use vstd::string::StringSliceAdditionalSpecFns;

use crate::CAP_LIMIT;
use crate::const_string::{is_ascii_bytes, lemma_ascii_str_bytes};
use crate::expression::{lemma_ascii_concat, Sql, SqlExpression};
use crate::fmt::{dec_digits, lemma_dec_digits_ascii};
use crate::schema::Table;

verus! {

/// A select statement over all columns of `table`: the projection list
/// holds one pre-serialized fragment per column, in column order.
pub fn from(table: Table) -> (r: Select<Table>)
    requires
        forall|i: int|
            0 <= i < table.all_columns@.len() ==> (#[trigger] table.all_columns@[i]).wf_expr()
                && table.all_columns@[i].sql_text().len() <= CAP_LIMIT,
    ensures
        r.from == table,
        r.limit is None,
        r.offset is None,
        r.projections@.len() == table.all_columns@.len(),
        forall|i: int|
            0 <= i < r.projections@.len() ==> (#[trigger] r.projections@[i]).wf()
                && r.projections@[i]@.text == table.all_columns@[i].sql_text()
                && r.projections@[i]@.bindings == 0,
{
    let mut projections: Vec<Sql> = Vec::new();
    let count = table.all_columns.len();
    let mut idx: usize = 0;
    while idx < count
        invariant
            idx <= count,
            count == table.all_columns@.len(),
            forall|i: int|
                0 <= i < table.all_columns@.len() ==> (#[trigger] table.all_columns@[i]).wf_expr()
                    && table.all_columns@[i].sql_text().len() <= CAP_LIMIT,
            projections@.len() == idx,
            forall|i: int|
                0 <= i < idx ==> (#[trigger] projections@[i]).wf() && projections@[i]@.text
                    == table.all_columns@[i].sql_text() && projections@[i]@.bindings == 0,
        decreases count - idx,
    {
        let column = &table.all_columns[idx];
        projections.push(column.to_sql());
        idx = idx + 1;
    }
    Select { from: table, projections, limit: None, offset: None }
}

/// A select statement: a projection list over a source, with optional
/// offset and limit.
pub struct Select<Source> {
    pub from: Source,
    pub projections: Vec<Sql>,
    pub limit: Option<u64>,
    pub offset: Option<u64>,
}

/// The text of an optional numeric clause: the keyword prefix followed by
/// the decimal value when present, nothing when absent.
pub open spec fn opt_clause(prefix: Seq<u8>, v: Option<u64>) -> Seq<u8> {
    match v {
        Some(n) => prefix + dec_digits(n as nat),
        None => seq![],
    }
}

proof fn lemma_opt_clause_ascii(prefix: Seq<u8>, v: Option<u64>)
    requires
        is_ascii_bytes(prefix),
    ensures
        is_ascii_bytes(opt_clause(prefix, v)),
{
    match v {
        Some(n) => {
            lemma_dec_digits_ascii(n as nat);
            lemma_ascii_concat(prefix, dec_digits(n as nat));
        },
        None => {},
    }
}

impl<Source: SqlExpression> SqlExpression for Select<Source> {
    open spec fn wf_expr(&self) -> bool {
        &&& self.from.wf_expr()
        &&& self.projections.wf_expr()
    }

    open spec fn sql_text(&self) -> Seq<u8> {
        "SELECT ".spec_bytes() + self.projections.sql_text() + " FROM ".spec_bytes()
            + self.from.sql_text() + opt_clause(" OFFSET ".spec_bytes(), self.offset) + opt_clause(
            " LIMIT ".spec_bytes(),
            self.limit,
        )
    }

    open spec fn sql_bindings(&self) -> nat {
        self.projections.sql_bindings() + self.from.sql_bindings()
    }

    proof fn lemma_sql_text_ascii(&self) {
        reveal_strlit("SELECT ");
        reveal_strlit(" FROM ");
        reveal_strlit(" OFFSET ");
        reveal_strlit(" LIMIT ");
        assert("SELECT ".is_ascii());
        assert(" FROM ".is_ascii());
        assert(" OFFSET ".is_ascii());
        assert(" LIMIT ".is_ascii());
        lemma_ascii_str_bytes("SELECT ");
        lemma_ascii_str_bytes(" FROM ");
        lemma_ascii_str_bytes(" OFFSET ");
        lemma_ascii_str_bytes(" LIMIT ");
        self.projections.lemma_sql_text_ascii();
        self.from.lemma_sql_text_ascii();
        lemma_opt_clause_ascii(" OFFSET ".spec_bytes(), self.offset);
        lemma_opt_clause_ascii(" LIMIT ".spec_bytes(), self.limit);
        let a = "SELECT ".spec_bytes() + self.projections.sql_text();
        lemma_ascii_concat("SELECT ".spec_bytes(), self.projections.sql_text());
        let b = a + " FROM ".spec_bytes();
        lemma_ascii_concat(a, " FROM ".spec_bytes());
        let c = b + self.from.sql_text();
        lemma_ascii_concat(b, self.from.sql_text());
        let d = c + opt_clause(" OFFSET ".spec_bytes(), self.offset);
        lemma_ascii_concat(c, opt_clause(" OFFSET ".spec_bytes(), self.offset));
        lemma_ascii_concat(d, opt_clause(" LIMIT ".spec_bytes(), self.limit));
    }

    fn write_sql_expression(&self, sql: &mut Sql) {
        proof {
            reveal_strlit("SELECT ");
            reveal_strlit(" FROM ");
            reveal_strlit(" OFFSET ");
            reveal_strlit(" LIMIT ");
            assert("SELECT ".is_ascii());
            assert(" FROM ".is_ascii());
            assert(" OFFSET ".is_ascii());
            assert(" LIMIT ".is_ascii());
            lemma_ascii_str_bytes("SELECT ");
            lemma_ascii_str_bytes(" FROM ");
            lemma_ascii_str_bytes(" OFFSET ");
            lemma_ascii_str_bytes(" LIMIT ");
        }
        sql.push_str("SELECT ");
        self.projections.write_sql_expression(sql);
        sql.push_str(" FROM ");
        self.from.write_sql_expression(sql);
        if let Some(offset) = self.offset {
            sql.push_str(" OFFSET ");
            sql.push_u64(offset);
        }
        if let Some(limit) = self.limit {
            sql.push_str(" LIMIT ");
            sql.push_u64(limit);
        }
        proof {
            assert(sql@.text =~= old(sql)@.text + self.sql_text());
        }
    }
}

impl<Source> Select<Source> {
    /// Replaces the projection list, keeping source, offset and limit.
    pub fn select<P: AsProjection>(self, projection: P) -> (r: Select<Source>)
        requires
            projection.proj_wf(),
            projection.proj_bindings().len() == projection.proj_texts().len(),
            forall|i: int|
                0 <= i < projection.proj_texts().len()
                    ==> (#[trigger] projection.proj_texts()[i]).len() <= CAP_LIMIT,
            forall|i: int|
                0 <= i < projection.proj_bindings().len()
                    ==> (#[trigger] projection.proj_bindings()[i]) <= 255,
        ensures
            r.from == self.from,
            r.limit == self.limit,
            r.offset == self.offset,
            r.projections@.len() == projection.proj_texts().len(),
            forall|i: int|
                0 <= i < r.projections@.len() ==> (#[trigger] r.projections@[i]).wf()
                    && r.projections@[i]@.text == projection.proj_texts()[i]
                    && r.projections@[i]@.bindings == projection.proj_bindings()[i],
    {
        Select {
            from: self.from,
            projections: projection.as_projection(),
            limit: self.limit,
            offset: self.offset,
        }
    }

    /// Pairs this select with the right-hand side of an inner join, to be
    /// completed with a join condition.
    pub fn inner_join<Rhs>(self, rhs: Rhs) -> (r: IncompleteSelectJoin<Source, Rhs>)
        ensures
            r.select == self,
            r.right == rhs,
            r.style is Inner,
    {
        IncompleteSelectJoin { select: self, right: rhs, style: JoinStyle::Inner }
    }

    /// Pairs this select with the right-hand side of a left outer join.
    pub fn left_join<Rhs>(self, rhs: Rhs) -> (r: IncompleteSelectJoin<Source, Rhs>)
        ensures
            r.select == self,
            r.right == rhs,
            r.style is Left,
    {
        IncompleteSelectJoin { select: self, right: rhs, style: JoinStyle::Left }
    }

    /// Pairs this select with the right-hand side of a cross join.
    pub fn cross_join<Rhs>(self, rhs: Rhs) -> (r: IncompleteSelectJoin<Source, Rhs>)
        ensures
            r.select == self,
            r.right == rhs,
            r.style is Cross,
    {
        IncompleteSelectJoin { select: self, right: rhs, style: JoinStyle::Cross }
    }

    /// Sets the limit clause.
    pub fn limit(self, limit: u64) -> (r: Select<Source>)
        ensures
            r.from == self.from,
            r.projections == self.projections,
            r.offset == self.offset,
            r.limit == Some(limit),
    {
        Select { limit: Some(limit), ..self }
    }

    /// Sets the offset clause.
    pub fn offset(self, offset: u64) -> (r: Select<Source>)
        ensures
            r.from == self.from,
            r.projections == self.projections,
            r.limit == self.limit,
            r.offset == Some(offset),
    {
        Select { offset: Some(offset), ..self }
    }
}

/// The capability to serve as a projection list: a batch of
/// pre-serialized fragments, one per projected expression.
pub trait AsProjection {
    /// When every projected expression is well formed.
    spec fn proj_wf(&self) -> bool;

    /// The text of each projected expression, in order.
    spec fn proj_texts(&self) -> Seq<Seq<u8>>;

    /// The bindings each projected expression carries, in order.
    spec fn proj_bindings(&self) -> Seq<nat>;

    /// Serializes each projected expression into a fragment of its own.
    fn as_projection(&self) -> (r: Vec<Sql>)
        requires
            self.proj_wf(),
            self.proj_bindings().len() == self.proj_texts().len(),
            forall|i: int|
                0 <= i < self.proj_texts().len() ==> (#[trigger] self.proj_texts()[i]).len()
                    <= CAP_LIMIT,
            forall|i: int|
                0 <= i < self.proj_bindings().len() ==> (#[trigger] self.proj_bindings()[i])
                    <= 255,
        ensures
            r@.len() == self.proj_texts().len(),
            forall|i: int|
                0 <= i < r@.len() ==> (#[trigger] r@[i]).wf() && r@[i]@.text
                    == self.proj_texts()[i] && r@[i]@.bindings == self.proj_bindings()[i],
    ;
}

/// The kind of a join.
pub enum JoinStyle {
    Inner,
    Left,
    Cross,
}

/// The keyword a join kind serializes as.
pub open spec fn join_keyword(style: JoinStyle) -> Seq<u8> {
    match style {
        JoinStyle::Inner => " INNER JOIN ".spec_bytes(),
        JoinStyle::Left => " LEFT OUTER JOIN ".spec_bytes(),
        JoinStyle::Cross => " CROSS JOIN ".spec_bytes(),
    }
}

/// The join condition: an explicit predicate, a column list, or none for
/// a natural join.
pub enum JoinOn<On> {
    Explicit(On),
    Using(On),
    Natural,
}

/// A join of two sources under a condition.
pub struct Join<Lhs, Rhs, On> {
    pub left: Lhs,
    pub right: Rhs,
    pub style: JoinStyle,
    pub on: JoinOn<On>,
}

/// The `NATURAL` marker, present exactly for natural joins.
pub open spec fn natural_marker<On>(on: JoinOn<On>) -> Seq<u8> {
    if on is Natural {
        " NATURAL".spec_bytes()
    } else {
        seq![]
    }
}

/// The trailing join condition clause.
pub open spec fn on_clause<On: SqlExpression>(on: JoinOn<On>) -> Seq<u8> {
    match on {
        JoinOn::Explicit(o) => " ON ".spec_bytes() + o.sql_text(),
        JoinOn::Using(o) => " USING ".spec_bytes() + o.sql_text(),
        JoinOn::Natural => seq![],
    }
}

/// The bindings the join condition carries.
pub open spec fn on_bindings<On: SqlExpression>(on: JoinOn<On>) -> nat {
    match on {
        JoinOn::Explicit(o) => o.sql_bindings(),
        JoinOn::Using(o) => o.sql_bindings(),
        JoinOn::Natural => 0,
    }
}

impl<Lhs: SqlExpression, Rhs: SqlExpression, On: SqlExpression> SqlExpression for Join<
    Lhs,
    Rhs,
    On,
> {
    open spec fn wf_expr(&self) -> bool {
        &&& self.left.wf_expr()
        &&& self.right.wf_expr()
        &&& match self.on {
            JoinOn::Explicit(o) => o.wf_expr(),
            JoinOn::Using(o) => o.wf_expr(),
            JoinOn::Natural => true,
        }
    }

    open spec fn sql_text(&self) -> Seq<u8> {
        self.left.sql_text() + natural_marker(self.on) + join_keyword(self.style)
            + self.right.sql_text() + on_clause(self.on)
    }

    open spec fn sql_bindings(&self) -> nat {
        self.left.sql_bindings() + self.right.sql_bindings() + on_bindings(self.on)
    }

    proof fn lemma_sql_text_ascii(&self) {
        reveal_strlit(" NATURAL");
        reveal_strlit(" INNER JOIN ");
        reveal_strlit(" LEFT OUTER JOIN ");
        reveal_strlit(" CROSS JOIN ");
        reveal_strlit(" ON ");
        reveal_strlit(" USING ");
        assert(" NATURAL".is_ascii());
        assert(" INNER JOIN ".is_ascii());
        assert(" LEFT OUTER JOIN ".is_ascii());
        assert(" CROSS JOIN ".is_ascii());
        assert(" ON ".is_ascii());
        assert(" USING ".is_ascii());
        lemma_ascii_str_bytes(" NATURAL");
        lemma_ascii_str_bytes(" INNER JOIN ");
        lemma_ascii_str_bytes(" LEFT OUTER JOIN ");
        lemma_ascii_str_bytes(" CROSS JOIN ");
        lemma_ascii_str_bytes(" ON ");
        lemma_ascii_str_bytes(" USING ");
        self.left.lemma_sql_text_ascii();
        self.right.lemma_sql_text_ascii();
        match self.on {
            JoinOn::Explicit(o) => {
                o.lemma_sql_text_ascii();
                lemma_ascii_concat(" ON ".spec_bytes(), o.sql_text());
            },
            JoinOn::Using(o) => {
                o.lemma_sql_text_ascii();
                lemma_ascii_concat(" USING ".spec_bytes(), o.sql_text());
            },
            JoinOn::Natural => {},
        }
        let a = self.left.sql_text() + natural_marker(self.on);
        lemma_ascii_concat(self.left.sql_text(), natural_marker(self.on));
        let b = a + join_keyword(self.style);
        lemma_ascii_concat(a, join_keyword(self.style));
        let c = b + self.right.sql_text();
        lemma_ascii_concat(b, self.right.sql_text());
        lemma_ascii_concat(c, on_clause(self.on));
    }

    fn write_sql_expression(&self, sql: &mut Sql) {
        proof {
            reveal_strlit(" NATURAL");
            reveal_strlit(" INNER JOIN ");
            reveal_strlit(" LEFT OUTER JOIN ");
            reveal_strlit(" CROSS JOIN ");
            reveal_strlit(" ON ");
            reveal_strlit(" USING ");
            assert(" NATURAL".is_ascii());
            assert(" INNER JOIN ".is_ascii());
            assert(" LEFT OUTER JOIN ".is_ascii());
            assert(" CROSS JOIN ".is_ascii());
            assert(" ON ".is_ascii());
            assert(" USING ".is_ascii());
            lemma_ascii_str_bytes(" NATURAL");
            lemma_ascii_str_bytes(" INNER JOIN ");
            lemma_ascii_str_bytes(" LEFT OUTER JOIN ");
            lemma_ascii_str_bytes(" CROSS JOIN ");
            lemma_ascii_str_bytes(" ON ");
            lemma_ascii_str_bytes(" USING ");
        }
        self.left.write_sql_expression(sql);
        if matches!(self.on, JoinOn::Natural) {
            sql.push_str(" NATURAL");
        }
        match self.style {
            JoinStyle::Inner => sql.push_str(" INNER JOIN "),
            JoinStyle::Left => sql.push_str(" LEFT OUTER JOIN "),
            JoinStyle::Cross => sql.push_str(" CROSS JOIN "),
        }
        self.right.write_sql_expression(sql);
        match &self.on {
            JoinOn::Explicit(on) => {
                sql.push_str(" ON ");
                on.write_sql_expression(sql);
            },
            JoinOn::Using(columns) => {
                sql.push_str(" USING ");
                columns.write_sql_expression(sql);
            },
            JoinOn::Natural => {},
        }
        proof {
            assert(sql@.text =~= old(sql)@.text + self.sql_text());
        }
    }
}

/// A select paired with the right-hand side and kind of a join, waiting
/// for its join condition.
pub struct IncompleteSelectJoin<Lhs, Rhs> {
    pub select: Select<Lhs>,
    pub right: Rhs,
    pub style: JoinStyle,
}

impl<Lhs, Rhs> IncompleteSelectJoin<Lhs, Rhs> {
    /// Completes the join with an explicit predicate.
    pub fn on<On>(self, on: On) -> (r: Select<Join<Lhs, Rhs, On>>)
        ensures
            r.from.left == self.select.from,
            r.from.right == self.right,
            r.from.style == self.style,
            r.from.on == (JoinOn::Explicit(on)),
            r.projections == self.select.projections,
            r.limit == self.select.limit,
            r.offset == self.select.offset,
    {
        self.construct(JoinOn::Explicit(on))
    }

    /// Completes the join with a column list.
    pub fn using<On>(self, columns: On) -> (r: Select<Join<Lhs, Rhs, On>>)
        ensures
            r.from.left == self.select.from,
            r.from.right == self.right,
            r.from.style == self.style,
            r.from.on == (JoinOn::Using(columns)),
            r.projections == self.select.projections,
            r.limit == self.select.limit,
            r.offset == self.select.offset,
    {
        self.construct(JoinOn::Using(columns))
    }

    /// Completes the join as a natural join.
    pub fn natural(self) -> (r: Select<Join<Lhs, Rhs, ()>>)
        ensures
            r.from.left == self.select.from,
            r.from.right == self.right,
            r.from.style == self.style,
            r.from.on == (JoinOn::<()>::Natural),
            r.projections == self.select.projections,
            r.limit == self.select.limit,
            r.offset == self.select.offset,
    {
        self.construct(JoinOn::Natural)
    }

    /// Assembles the completed join into a select over it.
    fn construct<On>(self, join_on: JoinOn<On>) -> (r: Select<Join<Lhs, Rhs, On>>)
        ensures
            r.from.left == self.select.from,
            r.from.right == self.right,
            r.from.style == self.style,
            r.from.on == join_on,
            r.projections == self.select.projections,
            r.limit == self.select.limit,
            r.offset == self.select.offset,
    {
        Select {
            from: Join {
                left: self.select.from,
                right: self.right,
                style: self.style,
                on: join_on,
            },
            projections: self.select.projections,
            offset: self.select.offset,
            limit: self.select.limit,
        }
    }
}


impl<T1: SqlExpression> AsProjection for (T1,) {
    open spec fn proj_wf(&self) -> bool {
        self.0.wf_expr()
    }

    open spec fn proj_texts(&self) -> Seq<Seq<u8>> {
        seq![self.0.sql_text()]
    }

    open spec fn proj_bindings(&self) -> Seq<nat> {
        seq![self.0.sql_bindings()]
    }

    fn as_projection(&self) -> (r: Vec<Sql>) {
        let mut r: Vec<Sql> = Vec::new();
        proof {
            assert(self.proj_texts()[0] == self.0.sql_text());
            assert(self.proj_bindings()[0] == self.0.sql_bindings());
        }
        r.push(self.0.to_sql());
        r
    }
}

impl<T1: SqlExpression, T2: SqlExpression> AsProjection for (T1, T2) {
    open spec fn proj_wf(&self) -> bool {
        self.0.wf_expr() && self.1.wf_expr()
    }

    open spec fn proj_texts(&self) -> Seq<Seq<u8>> {
        seq![self.0.sql_text(), self.1.sql_text()]
    }

    open spec fn proj_bindings(&self) -> Seq<nat> {
        seq![self.0.sql_bindings(), self.1.sql_bindings()]
    }

    fn as_projection(&self) -> (r: Vec<Sql>) {
        let mut r: Vec<Sql> = Vec::new();
        proof {
            assert(self.proj_texts()[0] == self.0.sql_text());
            assert(self.proj_bindings()[0] == self.0.sql_bindings());
        }
        r.push(self.0.to_sql());
        proof {
            assert(self.proj_texts()[1] == self.1.sql_text());
            assert(self.proj_bindings()[1] == self.1.sql_bindings());
        }
        r.push(self.1.to_sql());
        r
    }
}

impl<T1: SqlExpression, T2: SqlExpression, T3: SqlExpression> AsProjection for (T1, T2, T3) {
    open spec fn proj_wf(&self) -> bool {
        self.0.wf_expr() && self.1.wf_expr() && self.2.wf_expr()
    }

    open spec fn proj_texts(&self) -> Seq<Seq<u8>> {
        seq![self.0.sql_text(), self.1.sql_text(), self.2.sql_text()]
    }

    open spec fn proj_bindings(&self) -> Seq<nat> {
        seq![self.0.sql_bindings(), self.1.sql_bindings(), self.2.sql_bindings()]
    }

    fn as_projection(&self) -> (r: Vec<Sql>) {
        let mut r: Vec<Sql> = Vec::new();
        proof {
            assert(self.proj_texts()[0] == self.0.sql_text());
            assert(self.proj_bindings()[0] == self.0.sql_bindings());
        }
        r.push(self.0.to_sql());
        proof {
            assert(self.proj_texts()[1] == self.1.sql_text());
            assert(self.proj_bindings()[1] == self.1.sql_bindings());
        }
        r.push(self.1.to_sql());
        proof {
            assert(self.proj_texts()[2] == self.2.sql_text());
            assert(self.proj_bindings()[2] == self.2.sql_bindings());
        }
        r.push(self.2.to_sql());
        r
    }
}

impl<T1: SqlExpression, T2: SqlExpression, T3: SqlExpression, T4: SqlExpression> AsProjection for (T1, T2, T3, T4) {
    open spec fn proj_wf(&self) -> bool {
        self.0.wf_expr() && self.1.wf_expr() && self.2.wf_expr() && self.3.wf_expr()
    }

    open spec fn proj_texts(&self) -> Seq<Seq<u8>> {
        seq![self.0.sql_text(), self.1.sql_text(), self.2.sql_text(), self.3.sql_text()]
    }

    open spec fn proj_bindings(&self) -> Seq<nat> {
        seq![self.0.sql_bindings(), self.1.sql_bindings(), self.2.sql_bindings(), self.3.sql_bindings()]
    }

    fn as_projection(&self) -> (r: Vec<Sql>) {
        let mut r: Vec<Sql> = Vec::new();
        proof {
            assert(self.proj_texts()[0] == self.0.sql_text());
            assert(self.proj_bindings()[0] == self.0.sql_bindings());
        }
        r.push(self.0.to_sql());
        proof {
            assert(self.proj_texts()[1] == self.1.sql_text());
            assert(self.proj_bindings()[1] == self.1.sql_bindings());
        }
        r.push(self.1.to_sql());
        proof {
            assert(self.proj_texts()[2] == self.2.sql_text());
            assert(self.proj_bindings()[2] == self.2.sql_bindings());
        }
        r.push(self.2.to_sql());
        proof {
            assert(self.proj_texts()[3] == self.3.sql_text());
            assert(self.proj_bindings()[3] == self.3.sql_bindings());
        }
        r.push(self.3.to_sql());
        r
    }
}

impl<T1: SqlExpression, T2: SqlExpression, T3: SqlExpression, T4: SqlExpression, T5: SqlExpression> AsProjection for (T1, T2, T3, T4, T5) {
    open spec fn proj_wf(&self) -> bool {
        self.0.wf_expr() && self.1.wf_expr() && self.2.wf_expr() && self.3.wf_expr() && self.4.wf_expr()
    }

    open spec fn proj_texts(&self) -> Seq<Seq<u8>> {
        seq![self.0.sql_text(), self.1.sql_text(), self.2.sql_text(), self.3.sql_text(), self.4.sql_text()]
    }

    open spec fn proj_bindings(&self) -> Seq<nat> {
        seq![self.0.sql_bindings(), self.1.sql_bindings(), self.2.sql_bindings(), self.3.sql_bindings(), self.4.sql_bindings()]
    }

    fn as_projection(&self) -> (r: Vec<Sql>) {
        let mut r: Vec<Sql> = Vec::new();
        proof {
            assert(self.proj_texts()[0] == self.0.sql_text());
            assert(self.proj_bindings()[0] == self.0.sql_bindings());
        }
        r.push(self.0.to_sql());
        proof {
            assert(self.proj_texts()[1] == self.1.sql_text());
            assert(self.proj_bindings()[1] == self.1.sql_bindings());
        }
        r.push(self.1.to_sql());
        proof {
            assert(self.proj_texts()[2] == self.2.sql_text());
            assert(self.proj_bindings()[2] == self.2.sql_bindings());
        }
        r.push(self.2.to_sql());
        proof {
            assert(self.proj_texts()[3] == self.3.sql_text());
            assert(self.proj_bindings()[3] == self.3.sql_bindings());
        }
        r.push(self.3.to_sql());
        proof {
            assert(self.proj_texts()[4] == self.4.sql_text());
            assert(self.proj_bindings()[4] == self.4.sql_bindings());
        }
        r.push(self.4.to_sql());
        r
    }
}

impl<T1: SqlExpression, T2: SqlExpression, T3: SqlExpression, T4: SqlExpression, T5: SqlExpression, T6: SqlExpression> AsProjection for (T1, T2, T3, T4, T5, T6) {
    open spec fn proj_wf(&self) -> bool {
        self.0.wf_expr() && self.1.wf_expr() && self.2.wf_expr() && self.3.wf_expr() && self.4.wf_expr() && self.5.wf_expr()
    }

    open spec fn proj_texts(&self) -> Seq<Seq<u8>> {
        seq![self.0.sql_text(), self.1.sql_text(), self.2.sql_text(), self.3.sql_text(), self.4.sql_text(), self.5.sql_text()]
    }

    open spec fn proj_bindings(&self) -> Seq<nat> {
        seq![self.0.sql_bindings(), self.1.sql_bindings(), self.2.sql_bindings(), self.3.sql_bindings(), self.4.sql_bindings(), self.5.sql_bindings()]
    }

    fn as_projection(&self) -> (r: Vec<Sql>) {
        let mut r: Vec<Sql> = Vec::new();
        proof {
            assert(self.proj_texts()[0] == self.0.sql_text());
            assert(self.proj_bindings()[0] == self.0.sql_bindings());
        }
        r.push(self.0.to_sql());
        proof {
            assert(self.proj_texts()[1] == self.1.sql_text());
            assert(self.proj_bindings()[1] == self.1.sql_bindings());
        }
        r.push(self.1.to_sql());
        proof {
            assert(self.proj_texts()[2] == self.2.sql_text());
            assert(self.proj_bindings()[2] == self.2.sql_bindings());
        }
        r.push(self.2.to_sql());
        proof {
            assert(self.proj_texts()[3] == self.3.sql_text());
            assert(self.proj_bindings()[3] == self.3.sql_bindings());
        }
        r.push(self.3.to_sql());
        proof {
            assert(self.proj_texts()[4] == self.4.sql_text());
            assert(self.proj_bindings()[4] == self.4.sql_bindings());
        }
        r.push(self.4.to_sql());
        proof {
            assert(self.proj_texts()[5] == self.5.sql_text());
            assert(self.proj_bindings()[5] == self.5.sql_bindings());
        }
        r.push(self.5.to_sql());
        r
    }
}

impl<T1: SqlExpression, T2: SqlExpression, T3: SqlExpression, T4: SqlExpression, T5: SqlExpression, T6: SqlExpression, T7: SqlExpression> AsProjection for (T1, T2, T3, T4, T5, T6, T7) {
    open spec fn proj_wf(&self) -> bool {
        self.0.wf_expr() && self.1.wf_expr() && self.2.wf_expr() && self.3.wf_expr() && self.4.wf_expr() && self.5.wf_expr() && self.6.wf_expr()
    }

    open spec fn proj_texts(&self) -> Seq<Seq<u8>> {
        seq![self.0.sql_text(), self.1.sql_text(), self.2.sql_text(), self.3.sql_text(), self.4.sql_text(), self.5.sql_text(), self.6.sql_text()]
    }

    open spec fn proj_bindings(&self) -> Seq<nat> {
        seq![self.0.sql_bindings(), self.1.sql_bindings(), self.2.sql_bindings(), self.3.sql_bindings(), self.4.sql_bindings(), self.5.sql_bindings(), self.6.sql_bindings()]
    }

    fn as_projection(&self) -> (r: Vec<Sql>) {
        let mut r: Vec<Sql> = Vec::new();
        proof {
            assert(self.proj_texts()[0] == self.0.sql_text());
            assert(self.proj_bindings()[0] == self.0.sql_bindings());
        }
        r.push(self.0.to_sql());
        proof {
            assert(self.proj_texts()[1] == self.1.sql_text());
            assert(self.proj_bindings()[1] == self.1.sql_bindings());
        }
        r.push(self.1.to_sql());
        proof {
            assert(self.proj_texts()[2] == self.2.sql_text());
            assert(self.proj_bindings()[2] == self.2.sql_bindings());
        }
        r.push(self.2.to_sql());
        proof {
            assert(self.proj_texts()[3] == self.3.sql_text());
            assert(self.proj_bindings()[3] == self.3.sql_bindings());
        }
        r.push(self.3.to_sql());
        proof {
            assert(self.proj_texts()[4] == self.4.sql_text());
            assert(self.proj_bindings()[4] == self.4.sql_bindings());
        }
        r.push(self.4.to_sql());
        proof {
            assert(self.proj_texts()[5] == self.5.sql_text());
            assert(self.proj_bindings()[5] == self.5.sql_bindings());
        }
        r.push(self.5.to_sql());
        proof {
            assert(self.proj_texts()[6] == self.6.sql_text());
            assert(self.proj_bindings()[6] == self.6.sql_bindings());
        }
        r.push(self.6.to_sql());
        r
    }
}

impl<T1: SqlExpression, T2: SqlExpression, T3: SqlExpression, T4: SqlExpression, T5: SqlExpression, T6: SqlExpression, T7: SqlExpression, T8: SqlExpression> AsProjection for (T1, T2, T3, T4, T5, T6, T7, T8) {
    open spec fn proj_wf(&self) -> bool {
        self.0.wf_expr() && self.1.wf_expr() && self.2.wf_expr() && self.3.wf_expr() && self.4.wf_expr() && self.5.wf_expr() && self.6.wf_expr() && self.7.wf_expr()
    }

    open spec fn proj_texts(&self) -> Seq<Seq<u8>> {
        seq![self.0.sql_text(), self.1.sql_text(), self.2.sql_text(), self.3.sql_text(), self.4.sql_text(), self.5.sql_text(), self.6.sql_text(), self.7.sql_text()]
    }

    open spec fn proj_bindings(&self) -> Seq<nat> {
        seq![self.0.sql_bindings(), self.1.sql_bindings(), self.2.sql_bindings(), self.3.sql_bindings(), self.4.sql_bindings(), self.5.sql_bindings(), self.6.sql_bindings(), self.7.sql_bindings()]
    }

    fn as_projection(&self) -> (r: Vec<Sql>) {
        let mut r: Vec<Sql> = Vec::new();
        proof {
            assert(self.proj_texts()[0] == self.0.sql_text());
            assert(self.proj_bindings()[0] == self.0.sql_bindings());
        }
        r.push(self.0.to_sql());
        proof {
            assert(self.proj_texts()[1] == self.1.sql_text());
            assert(self.proj_bindings()[1] == self.1.sql_bindings());
        }
        r.push(self.1.to_sql());
        proof {
            assert(self.proj_texts()[2] == self.2.sql_text());
            assert(self.proj_bindings()[2] == self.2.sql_bindings());
        }
        r.push(self.2.to_sql());
        proof {
            assert(self.proj_texts()[3] == self.3.sql_text());
            assert(self.proj_bindings()[3] == self.3.sql_bindings());
        }
        r.push(self.3.to_sql());
        proof {
            assert(self.proj_texts()[4] == self.4.sql_text());
            assert(self.proj_bindings()[4] == self.4.sql_bindings());
        }
        r.push(self.4.to_sql());
        proof {
            assert(self.proj_texts()[5] == self.5.sql_text());
            assert(self.proj_bindings()[5] == self.5.sql_bindings());
        }
        r.push(self.5.to_sql());
        proof {
            assert(self.proj_texts()[6] == self.6.sql_text());
            assert(self.proj_bindings()[6] == self.6.sql_bindings());
        }
        r.push(self.6.to_sql());
        proof {
            assert(self.proj_texts()[7] == self.7.sql_text());
            assert(self.proj_bindings()[7] == self.7.sql_bindings());
        }
        r.push(self.7.to_sql());
        r
    }
}

impl<T1: SqlExpression, T2: SqlExpression, T3: SqlExpression, T4: SqlExpression, T5: SqlExpression, T6: SqlExpression, T7: SqlExpression, T8: SqlExpression, T9: SqlExpression> AsProjection for (T1, T2, T3, T4, T5, T6, T7, T8, T9) {
    open spec fn proj_wf(&self) -> bool {
        self.0.wf_expr() && self.1.wf_expr() && self.2.wf_expr() && self.3.wf_expr() && self.4.wf_expr() && self.5.wf_expr() && self.6.wf_expr() && self.7.wf_expr() && self.8.wf_expr()
    }

    open spec fn proj_texts(&self) -> Seq<Seq<u8>> {
        seq![self.0.sql_text(), self.1.sql_text(), self.2.sql_text(), self.3.sql_text(), self.4.sql_text(), self.5.sql_text(), self.6.sql_text(), self.7.sql_text(), self.8.sql_text()]
    }

    open spec fn proj_bindings(&self) -> Seq<nat> {
        seq![self.0.sql_bindings(), self.1.sql_bindings(), self.2.sql_bindings(), self.3.sql_bindings(), self.4.sql_bindings(), self.5.sql_bindings(), self.6.sql_bindings(), self.7.sql_bindings(), self.8.sql_bindings()]
    }

    fn as_projection(&self) -> (r: Vec<Sql>) {
        let mut r: Vec<Sql> = Vec::new();
        proof {
            assert(self.proj_texts()[0] == self.0.sql_text());
            assert(self.proj_bindings()[0] == self.0.sql_bindings());
        }
        r.push(self.0.to_sql());
        proof {
            assert(self.proj_texts()[1] == self.1.sql_text());
            assert(self.proj_bindings()[1] == self.1.sql_bindings());
        }
        r.push(self.1.to_sql());
        proof {
            assert(self.proj_texts()[2] == self.2.sql_text());
            assert(self.proj_bindings()[2] == self.2.sql_bindings());
        }
        r.push(self.2.to_sql());
        proof {
            assert(self.proj_texts()[3] == self.3.sql_text());
            assert(self.proj_bindings()[3] == self.3.sql_bindings());
        }
        r.push(self.3.to_sql());
        proof {
            assert(self.proj_texts()[4] == self.4.sql_text());
            assert(self.proj_bindings()[4] == self.4.sql_bindings());
        }
        r.push(self.4.to_sql());
        proof {
            assert(self.proj_texts()[5] == self.5.sql_text());
            assert(self.proj_bindings()[5] == self.5.sql_bindings());
        }
        r.push(self.5.to_sql());
        proof {
            assert(self.proj_texts()[6] == self.6.sql_text());
            assert(self.proj_bindings()[6] == self.6.sql_bindings());
        }
        r.push(self.6.to_sql());
        proof {
            assert(self.proj_texts()[7] == self.7.sql_text());
            assert(self.proj_bindings()[7] == self.7.sql_bindings());
        }
        r.push(self.7.to_sql());
        proof {
            assert(self.proj_texts()[8] == self.8.sql_text());
            assert(self.proj_bindings()[8] == self.8.sql_bindings());
        }
        r.push(self.8.to_sql());
        r
    }
}

impl<T1: SqlExpression, T2: SqlExpression, T3: SqlExpression, T4: SqlExpression, T5: SqlExpression, T6: SqlExpression, T7: SqlExpression, T8: SqlExpression, T9: SqlExpression, T10: SqlExpression> AsProjection for (T1, T2, T3, T4, T5, T6, T7, T8, T9, T10) {
    open spec fn proj_wf(&self) -> bool {
        self.0.wf_expr() && self.1.wf_expr() && self.2.wf_expr() && self.3.wf_expr() && self.4.wf_expr() && self.5.wf_expr() && self.6.wf_expr() && self.7.wf_expr() && self.8.wf_expr() && self.9.wf_expr()
    }

    open spec fn proj_texts(&self) -> Seq<Seq<u8>> {
        seq![self.0.sql_text(), self.1.sql_text(), self.2.sql_text(), self.3.sql_text(), self.4.sql_text(), self.5.sql_text(), self.6.sql_text(), self.7.sql_text(), self.8.sql_text(), self.9.sql_text()]
    }

    open spec fn proj_bindings(&self) -> Seq<nat> {
        seq![self.0.sql_bindings(), self.1.sql_bindings(), self.2.sql_bindings(), self.3.sql_bindings(), self.4.sql_bindings(), self.5.sql_bindings(), self.6.sql_bindings(), self.7.sql_bindings(), self.8.sql_bindings(), self.9.sql_bindings()]
    }

    fn as_projection(&self) -> (r: Vec<Sql>) {
        let mut r: Vec<Sql> = Vec::new();
        proof {
            assert(self.proj_texts()[0] == self.0.sql_text());
            assert(self.proj_bindings()[0] == self.0.sql_bindings());
        }
        r.push(self.0.to_sql());
        proof {
            assert(self.proj_texts()[1] == self.1.sql_text());
            assert(self.proj_bindings()[1] == self.1.sql_bindings());
        }
        r.push(self.1.to_sql());
        proof {
            assert(self.proj_texts()[2] == self.2.sql_text());
            assert(self.proj_bindings()[2] == self.2.sql_bindings());
        }
        r.push(self.2.to_sql());
        proof {
            assert(self.proj_texts()[3] == self.3.sql_text());
            assert(self.proj_bindings()[3] == self.3.sql_bindings());
        }
        r.push(self.3.to_sql());
        proof {
            assert(self.proj_texts()[4] == self.4.sql_text());
            assert(self.proj_bindings()[4] == self.4.sql_bindings());
        }
        r.push(self.4.to_sql());
        proof {
            assert(self.proj_texts()[5] == self.5.sql_text());
            assert(self.proj_bindings()[5] == self.5.sql_bindings());
        }
        r.push(self.5.to_sql());
        proof {
            assert(self.proj_texts()[6] == self.6.sql_text());
            assert(self.proj_bindings()[6] == self.6.sql_bindings());
        }
        r.push(self.6.to_sql());
        proof {
            assert(self.proj_texts()[7] == self.7.sql_text());
            assert(self.proj_bindings()[7] == self.7.sql_bindings());
        }
        r.push(self.7.to_sql());
        proof {
            assert(self.proj_texts()[8] == self.8.sql_text());
            assert(self.proj_bindings()[8] == self.8.sql_bindings());
        }
        r.push(self.8.to_sql());
        proof {
            assert(self.proj_texts()[9] == self.9.sql_text());
            assert(self.proj_bindings()[9] == self.9.sql_bindings());
        }
        r.push(self.9.to_sql());
        r
    }
}

impl<T1: SqlExpression, T2: SqlExpression, T3: SqlExpression, T4: SqlExpression, T5: SqlExpression, T6: SqlExpression, T7: SqlExpression, T8: SqlExpression, T9: SqlExpression, T10: SqlExpression, T11: SqlExpression> AsProjection for (T1, T2, T3, T4, T5, T6, T7, T8, T9, T10, T11) {
    open spec fn proj_wf(&self) -> bool {
        self.0.wf_expr() && self.1.wf_expr() && self.2.wf_expr() && self.3.wf_expr() && self.4.wf_expr() && self.5.wf_expr() && self.6.wf_expr() && self.7.wf_expr() && self.8.wf_expr() && self.9.wf_expr() && self.10.wf_expr()
    }

    open spec fn proj_texts(&self) -> Seq<Seq<u8>> {
        seq![self.0.sql_text(), self.1.sql_text(), self.2.sql_text(), self.3.sql_text(), self.4.sql_text(), self.5.sql_text(), self.6.sql_text(), self.7.sql_text(), self.8.sql_text(), self.9.sql_text(), self.10.sql_text()]
    }

    open spec fn proj_bindings(&self) -> Seq<nat> {
        seq![self.0.sql_bindings(), self.1.sql_bindings(), self.2.sql_bindings(), self.3.sql_bindings(), self.4.sql_bindings(), self.5.sql_bindings(), self.6.sql_bindings(), self.7.sql_bindings(), self.8.sql_bindings(), self.9.sql_bindings(), self.10.sql_bindings()]
    }

    fn as_projection(&self) -> (r: Vec<Sql>) {
        let mut r: Vec<Sql> = Vec::new();
        proof {
            assert(self.proj_texts()[0] == self.0.sql_text());
            assert(self.proj_bindings()[0] == self.0.sql_bindings());
        }
        r.push(self.0.to_sql());
        proof {
            assert(self.proj_texts()[1] == self.1.sql_text());
            assert(self.proj_bindings()[1] == self.1.sql_bindings());
        }
        r.push(self.1.to_sql());
        proof {
            assert(self.proj_texts()[2] == self.2.sql_text());
            assert(self.proj_bindings()[2] == self.2.sql_bindings());
        }
        r.push(self.2.to_sql());
        proof {
            assert(self.proj_texts()[3] == self.3.sql_text());
            assert(self.proj_bindings()[3] == self.3.sql_bindings());
        }
        r.push(self.3.to_sql());
        proof {
            assert(self.proj_texts()[4] == self.4.sql_text());
            assert(self.proj_bindings()[4] == self.4.sql_bindings());
        }
        r.push(self.4.to_sql());
        proof {
            assert(self.proj_texts()[5] == self.5.sql_text());
            assert(self.proj_bindings()[5] == self.5.sql_bindings());
        }
        r.push(self.5.to_sql());
        proof {
            assert(self.proj_texts()[6] == self.6.sql_text());
            assert(self.proj_bindings()[6] == self.6.sql_bindings());
        }
        r.push(self.6.to_sql());
        proof {
            assert(self.proj_texts()[7] == self.7.sql_text());
            assert(self.proj_bindings()[7] == self.7.sql_bindings());
        }
        r.push(self.7.to_sql());
        proof {
            assert(self.proj_texts()[8] == self.8.sql_text());
            assert(self.proj_bindings()[8] == self.8.sql_bindings());
        }
        r.push(self.8.to_sql());
        proof {
            assert(self.proj_texts()[9] == self.9.sql_text());
            assert(self.proj_bindings()[9] == self.9.sql_bindings());
        }
        r.push(self.9.to_sql());
        proof {
            assert(self.proj_texts()[10] == self.10.sql_text());
            assert(self.proj_bindings()[10] == self.10.sql_bindings());
        }
        r.push(self.10.to_sql());
        r
    }
}

impl<T1: SqlExpression, T2: SqlExpression, T3: SqlExpression, T4: SqlExpression, T5: SqlExpression, T6: SqlExpression, T7: SqlExpression, T8: SqlExpression, T9: SqlExpression, T10: SqlExpression, T11: SqlExpression, T12: SqlExpression> AsProjection for (T1, T2, T3, T4, T5, T6, T7, T8, T9, T10, T11, T12) {
    open spec fn proj_wf(&self) -> bool {
        self.0.wf_expr() && self.1.wf_expr() && self.2.wf_expr() && self.3.wf_expr() && self.4.wf_expr() && self.5.wf_expr() && self.6.wf_expr() && self.7.wf_expr() && self.8.wf_expr() && self.9.wf_expr() && self.10.wf_expr() && self.11.wf_expr()
    }

    open spec fn proj_texts(&self) -> Seq<Seq<u8>> {
        seq![self.0.sql_text(), self.1.sql_text(), self.2.sql_text(), self.3.sql_text(), self.4.sql_text(), self.5.sql_text(), self.6.sql_text(), self.7.sql_text(), self.8.sql_text(), self.9.sql_text(), self.10.sql_text(), self.11.sql_text()]
    }

    open spec fn proj_bindings(&self) -> Seq<nat> {
        seq![self.0.sql_bindings(), self.1.sql_bindings(), self.2.sql_bindings(), self.3.sql_bindings(), self.4.sql_bindings(), self.5.sql_bindings(), self.6.sql_bindings(), self.7.sql_bindings(), self.8.sql_bindings(), self.9.sql_bindings(), self.10.sql_bindings(), self.11.sql_bindings()]
    }

    fn as_projection(&self) -> (r: Vec<Sql>) {
        let mut r: Vec<Sql> = Vec::new();
        proof {
            assert(self.proj_texts()[0] == self.0.sql_text());
            assert(self.proj_bindings()[0] == self.0.sql_bindings());
        }
        r.push(self.0.to_sql());
        proof {
            assert(self.proj_texts()[1] == self.1.sql_text());
            assert(self.proj_bindings()[1] == self.1.sql_bindings());
        }
        r.push(self.1.to_sql());
        proof {
            assert(self.proj_texts()[2] == self.2.sql_text());
            assert(self.proj_bindings()[2] == self.2.sql_bindings());
        }
        r.push(self.2.to_sql());
        proof {
            assert(self.proj_texts()[3] == self.3.sql_text());
            assert(self.proj_bindings()[3] == self.3.sql_bindings());
        }
        r.push(self.3.to_sql());
        proof {
            assert(self.proj_texts()[4] == self.4.sql_text());
            assert(self.proj_bindings()[4] == self.4.sql_bindings());
        }
        r.push(self.4.to_sql());
        proof {
            assert(self.proj_texts()[5] == self.5.sql_text());
            assert(self.proj_bindings()[5] == self.5.sql_bindings());
        }
        r.push(self.5.to_sql());
        proof {
            assert(self.proj_texts()[6] == self.6.sql_text());
            assert(self.proj_bindings()[6] == self.6.sql_bindings());
        }
        r.push(self.6.to_sql());
        proof {
            assert(self.proj_texts()[7] == self.7.sql_text());
            assert(self.proj_bindings()[7] == self.7.sql_bindings());
        }
        r.push(self.7.to_sql());
        proof {
            assert(self.proj_texts()[8] == self.8.sql_text());
            assert(self.proj_bindings()[8] == self.8.sql_bindings());
        }
        r.push(self.8.to_sql());
        proof {
            assert(self.proj_texts()[9] == self.9.sql_text());
            assert(self.proj_bindings()[9] == self.9.sql_bindings());
        }
        r.push(self.9.to_sql());
        proof {
            assert(self.proj_texts()[10] == self.10.sql_text());
            assert(self.proj_bindings()[10] == self.10.sql_bindings());
        }
        r.push(self.10.to_sql());
        proof {
            assert(self.proj_texts()[11] == self.11.sql_text());
            assert(self.proj_bindings()[11] == self.11.sql_bindings());
        }
        r.push(self.11.to_sql());
        r
    }
}

} // verus!
