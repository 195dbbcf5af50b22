//! The SQL accumulator and the expression protocol.
//!
//! [`Sql`] wraps the byte buffer together with a counter of parameter
//! placeholders pushed so far; it is the shared mutable sink that all
//! serialization writes target.  The [`SqlExpression`] trait is the
//! capability "append my SQL text into an accumulator": every node type
//! declares its text and its binding contribution as specification
//! functions and proves that its writer appends exactly that text and
//! adds exactly that many bindings to the counter.  Sequences of nodes
//! serialize with a single comma between consecutive elements and none
//! after the last.

use vstd::prelude::*;
use vstd::string::StringSliceAdditionalSpecFns;

use crate::CAP_LIMIT;
use crate::const_string::{ascii_chars, is_ascii_bytes, ConstString};
use crate::fmt::{dec_digits, fmt_u64};

verus! {

/// The ASCII code of a space.
pub const SPACE: u8 = 32;

/// The ASCII code of a comma.
pub const COMMA: u8 = 44;

/// The ASCII code of a dot.
pub const DOT: u8 = 46;

/// The mathematical model of an accumulator: the statement text built so
/// far, and how many parameter placeholders it contains.
pub ghost struct SqlModel {
    pub text: Seq<u8>,
    pub bindings: nat,
}

/// The SQL accumulator: an in-progress statement text plus a count of the
/// parameter placeholders pushed so far.  The counter is not validated
/// against any external parameter list.
pub struct Sql {
    query: ConstString,
    bindings: u8,
}

impl View for Sql {
    type V = SqlModel;

    closed spec fn view(&self) -> SqlModel {
        SqlModel { text: self.query@, bindings: self.bindings as nat }
    }
}

impl Sql {
    /// The internal buffer is well formed; in particular the text is
    /// ASCII and bounded by the capacity limit.
    pub closed spec fn wf(&self) -> bool {
        self.query.wf()
    }

    /// Bounds that every well-formed accumulator obeys.
    pub proof fn lemma_text_bounds(&self)
        requires
            self.wf(),
        ensures
            self@.text.len() <= CAP_LIMIT,
            is_ascii_bytes(self@.text),
            self@.bindings <= 255,
    {
        self.query.lemma_wf_len();
    }

    /// Appends the text of `part`, which must be ASCII.
    pub fn push_str(&mut self, part: &str)
        requires
            old(self).wf(),
            part.is_ascii(),
            old(self)@.text.len() + part@.len() <= CAP_LIMIT,
        ensures
            final(self).wf(),
            final(self)@.text == old(self)@.text + part.spec_bytes(),
            final(self)@.text.len() == old(self)@.text.len() + part@.len(),
            final(self)@.bindings == old(self)@.bindings,
    {
        self.query.push_str(part);
    }

    /// Appends one ASCII byte.
    pub fn push(&mut self, ch: u8)
        requires
            old(self).wf(),
            ch < 0x80,
            old(self)@.text.len() + 1 <= CAP_LIMIT,
        ensures
            final(self).wf(),
            final(self)@.text == old(self)@.text.push(ch),
            final(self)@.bindings == old(self)@.bindings,
    {
        self.query.push_ascii(ch);
    }

    /// Appends the decimal rendering of `num`.
    pub fn push_u64(&mut self, num: u64)
        requires
            old(self).wf(),
            old(self)@.text.len() + dec_digits(num as nat).len() <= CAP_LIMIT,
        ensures
            final(self).wf(),
            final(self)@.text == old(self)@.text + dec_digits(num as nat),
            final(self)@.bindings == old(self)@.bindings,
    {
        fmt_u64(&mut self.query, num);
    }

    /// Appends one space.
    pub fn spacing(&mut self)
        requires
            old(self).wf(),
            old(self)@.text.len() + 1 <= CAP_LIMIT,
        ensures
            final(self).wf(),
            final(self)@.text == old(self)@.text.push(SPACE),
            final(self)@.bindings == old(self)@.bindings,
    {
        self.push(SPACE);
    }

    /// Appends one comma.
    pub fn comma(&mut self)
        requires
            old(self).wf(),
            old(self)@.text.len() + 1 <= CAP_LIMIT,
        ensures
            final(self).wf(),
            final(self)@.text == old(self)@.text.push(COMMA),
            final(self)@.bindings == old(self)@.bindings,
    {
        self.push(COMMA);
    }

    /// Appends one dot.
    pub fn dot(&mut self)
        requires
            old(self).wf(),
            old(self)@.text.len() + 1 <= CAP_LIMIT,
        ensures
            final(self).wf(),
            final(self)@.text == old(self)@.text.push(DOT),
            final(self)@.bindings == old(self)@.bindings,
    {
        self.push(DOT);
    }

    /// Appends the literal text of one parameter placeholder and counts
    /// it.  The text is whatever the caller passes; the accumulator only
    /// counts placeholders, it does not generate placeholder syntax.
    pub fn push_binding(&mut self, binding: &str)
        requires
            old(self).wf(),
            binding.is_ascii(),
            old(self)@.text.len() + binding@.len() <= CAP_LIMIT,
            old(self)@.bindings + 1 <= 255,
        ensures
            final(self).wf(),
            final(self)@.text == old(self)@.text + binding.spec_bytes(),
            final(self)@.bindings == old(self)@.bindings + 1,
    {
        self.push_str(binding);
        self.bindings = self.bindings + 1;
    }

    /// Appends another accumulator's text verbatim and takes over its
    /// binding count.
    pub fn push_sql(&mut self, other: &Sql)
        requires
            old(self).wf(),
            other.wf(),
            old(self)@.text.len() + other@.text.len() <= CAP_LIMIT,
            old(self)@.bindings + other@.bindings <= 255,
        ensures
            final(self).wf(),
            final(self)@.text == old(self)@.text + other@.text,
            final(self)@.bindings == old(self)@.bindings + other@.bindings,
    {
        proof {
            other.query.lemma_wf_len();
        }
        self.query.push_bytes(other.query.as_bytes());
        self.bindings = self.bindings + other.bindings;
    }

    /// The number of parameter placeholders pushed so far.
    pub fn bindings(&self) -> (r: u8)
        ensures
            r == self@.bindings,
    {
        self.bindings
    }

    /// Finalizes the accumulator: freezes the internal buffer and returns
    /// the statement text, consuming the accumulator.
    pub fn into_str(self) -> (r: String)
        requires
            self.wf(),
        ensures
            r@ == ascii_chars(self@.text),
            r@.len() == self@.text.len(),
    {
        self.query.leak()
    }

    /// `count` independently initialized empty accumulators, for callers
    /// that build several statement fragments before concatenating them.
    pub fn default_array(count: usize) -> (r: Vec<Sql>)
        ensures
            r@.len() == count,
            forall|i: int| 0 <= i < count ==> (#[trigger] r@[i]).wf(),
            forall|i: int| 0 <= i < count ==> (#[trigger] r@[i])@.text =~= Seq::<u8>::empty(),
            forall|i: int| 0 <= i < count ==> (#[trigger] r@[i])@.bindings == 0,
    {
        let mut r: Vec<Sql> = Vec::new();
        let mut i: usize = 0;
        while i < count
            invariant
                i <= count,
                r@.len() == i,
                forall|j: int| 0 <= j < i ==> (#[trigger] r@[j]).wf(),
                forall|j: int| 0 <= j < i ==> (#[trigger] r@[j])@.text =~= Seq::<u8>::empty(),
                forall|j: int| 0 <= j < i ==> (#[trigger] r@[j])@.bindings == 0,
            decreases count - i,
        {
            r.push(Sql::default());
            i = i + 1;
        }
        r
    }
}

impl Default for Sql {
    /// An empty accumulator with no bindings.
    fn default() -> (r: Sql)
        ensures
            r.wf(),
            r@.text =~= Seq::<u8>::empty(),
            r@.bindings == 0,
    {
        Sql { query: ConstString::default(), bindings: 0 }
    }
}

/// The text of a sequence of fragments joined with a single comma between
/// consecutive fragments and none after the last.
pub open spec fn comma_join(texts: Seq<Seq<u8>>) -> Seq<u8>
    decreases texts.len(),
{
    if texts.len() == 0 {
        seq![]
    } else if texts.len() == 1 {
        texts[0]
    } else {
        texts[0] + seq![COMMA] + comma_join(texts.drop_first())
    }
}

/// Concatenation in the ASCII range stays in the ASCII range.
pub proof fn lemma_ascii_concat(a: Seq<u8>, b: Seq<u8>)
    requires
        is_ascii_bytes(a),
        is_ascii_bytes(b),
    ensures
        is_ascii_bytes(a + b),
{
    assert forall|i: int| 0 <= i < (a + b).len() implies (a + b)[i] < 0x80 by {
        if i < a.len() {
            assert((a + b)[i] == a[i]);
        } else {
            assert((a + b)[i] == b[i - a.len()]);
        }
    }
}

/// Appending one fragment to a joined sequence appends a comma separator
/// exactly when the sequence was not empty.
pub proof fn lemma_comma_join_push(texts: Seq<Seq<u8>>, t: Seq<u8>)
    ensures
        comma_join(texts.push(t)) == if texts.len() == 0 {
            t
        } else {
            comma_join(texts) + seq![COMMA] + t
        },
    decreases texts.len(),
{
    if texts.len() == 0 {
        assert(texts.push(t)[0] == t);
    } else if texts.len() == 1 {
        assert(texts.push(t).drop_first() =~= seq![t]);
        assert(comma_join(seq![t]) == t);
        assert(texts.push(t)[0] == texts[0]);
    } else {
        assert(texts.push(t).drop_first() =~= texts.drop_first().push(t));
        lemma_comma_join_push(texts.drop_first(), t);
        assert(texts.push(t)[0] == texts[0]);
        assert(comma_join(texts.push(t)) =~= comma_join(texts) + seq![COMMA] + t);
    }
}

/// The joined text of a prefix never outgrows the joined text of the
/// whole sequence.
pub proof fn lemma_comma_join_take_len(texts: Seq<Seq<u8>>, i: int)
    requires
        0 <= i <= texts.len(),
    ensures
        comma_join(texts.take(i)).len() <= comma_join(texts).len(),
    decreases texts.len() - i,
{
    if i < texts.len() {
        lemma_comma_join_push(texts.take(i), texts[i]);
        assert(texts.take(i).push(texts[i]) =~= texts.take(i + 1));
        lemma_comma_join_take_len(texts, i + 1);
    } else {
        assert(texts.take(i) =~= texts);
    }
}

/// A joined sequence of ASCII fragments is ASCII.
pub proof fn lemma_comma_join_ascii(texts: Seq<Seq<u8>>)
    requires
        forall|i: int| 0 <= i < texts.len() ==> is_ascii_bytes(#[trigger] texts[i]),
    ensures
        is_ascii_bytes(comma_join(texts)),
    decreases texts.len(),
{
    if texts.len() <= 1 {
    } else {
        lemma_comma_join_ascii(texts.drop_first());
        lemma_ascii_concat(texts[0], seq![COMMA]);
        lemma_ascii_concat(texts[0] + seq![COMMA], comma_join(texts.drop_first()));
    }
}

/// The total of a sequence of binding counts.
pub open spec fn sum_counts(counts: Seq<nat>) -> nat
    decreases counts.len(),
{
    if counts.len() == 0 {
        0
    } else {
        counts[0] + sum_counts(counts.drop_first())
    }
}

/// Appending one count adds it to the total.
pub proof fn lemma_sum_counts_push(counts: Seq<nat>, c: nat)
    ensures
        sum_counts(counts.push(c)) == sum_counts(counts) + c,
    decreases counts.len(),
{
    if counts.len() == 0 {
        assert(counts.push(c)[0] == c);
        assert(counts.push(c).drop_first() =~= Seq::<nat>::empty());
        assert(sum_counts(counts) == 0);
        assert(sum_counts(counts.push(c)) == c + sum_counts(counts.push(c).drop_first()));
    } else {
        assert(counts.push(c).drop_first() =~= counts.drop_first().push(c));
        lemma_sum_counts_push(counts.drop_first(), c);
        assert(counts.push(c)[0] == counts[0]);
    }
}

/// The total of a prefix never outgrows the total of the whole sequence.
pub proof fn lemma_sum_counts_take_bound(counts: Seq<nat>, i: int)
    requires
        0 <= i <= counts.len(),
    ensures
        sum_counts(counts.take(i)) <= sum_counts(counts),
    decreases counts.len() - i,
{
    if i < counts.len() {
        lemma_sum_counts_push(counts.take(i), counts[i]);
        assert(counts.take(i).push(counts[i]) =~= counts.take(i + 1));
        lemma_sum_counts_take_bound(counts, i + 1);
    } else {
        assert(counts.take(i) =~= counts);
    }
}

/// Law: a two-fragment list joins with exactly one comma between the
/// fragments and none after the last.
pub proof fn lemma_comma_join_pair(a: Seq<u8>, b: Seq<u8>)
    ensures
        comma_join(seq![a, b]) == a + seq![COMMA] + b,
{
    assert(seq![a, b].len() == 2);
    assert(seq![a, b][0] == a);
    assert(seq![a, b].drop_first() =~= seq![b]);
    assert(seq![b].len() == 1);
    assert(seq![b][0] == b);
    assert(comma_join(seq![b]) == b);
}

/// The capability to serialize oneself into an accumulator.
///
/// An implementor declares its SQL text over its mathematical model in
/// [`SqlExpression::sql_text`], and the number of parameter placeholders
/// it carries in [`SqlExpression::sql_bindings`], and proves that
/// [`SqlExpression::write_sql_expression`] appends exactly that text and
/// adds exactly that many bindings to the accumulator's counter.  The
/// text must stay in the ASCII range whenever the node is well formed,
/// which [`SqlExpression::lemma_sql_text_ascii`] obliges every
/// implementor to show.
pub trait SqlExpression {
    /// When the node is well formed enough to serialize.
    spec fn wf_expr(&self) -> bool;

    /// The exact SQL text this node appends.
    spec fn sql_text(&self) -> Seq<u8>;

    /// The number of parameter placeholders this node appends.
    spec fn sql_bindings(&self) -> nat;

    /// The declared text of a well-formed node is ASCII.
    proof fn lemma_sql_text_ascii(&self)
        requires
            self.wf_expr(),
        ensures
            is_ascii_bytes(self.sql_text()),
    ;

    /// Appends this node's SQL text, and its bindings, into the
    /// caller-supplied accumulator.
    fn write_sql_expression(&self, sql: &mut Sql)
        requires
            old(sql).wf(),
            self.wf_expr(),
            old(sql)@.text.len() + self.sql_text().len() <= CAP_LIMIT,
            old(sql)@.bindings + self.sql_bindings() <= 255,
        ensures
            final(sql).wf(),
            final(sql)@.text == old(sql)@.text + self.sql_text(),
            final(sql)@.bindings == old(sql)@.bindings + self.sql_bindings(),
    ;

    /// Serializes this node into a fresh accumulator and returns it, for
    /// the caller to inspect the bindings or finalize to text.
    fn to_sql(&self) -> (r: Sql)
        requires
            self.wf_expr(),
            self.sql_text().len() <= CAP_LIMIT,
            self.sql_bindings() <= 255,
        ensures
            r.wf(),
            r@.text == self.sql_text(),
            r@.bindings == self.sql_bindings(),
    {
        let mut sql = Sql::default();
        self.write_sql_expression(&mut sql);
        proof {
            assert(sql@.text =~= self.sql_text());
        }
        sql
    }
}

impl SqlExpression for Sql {
    /// A serialized accumulator contributes its text and its binding
    /// count, as `push_sql` transfers them.
    open spec fn wf_expr(&self) -> bool {
        self.wf()
    }

    open spec fn sql_text(&self) -> Seq<u8> {
        self@.text
    }

    open spec fn sql_bindings(&self) -> nat {
        self@.bindings
    }

    proof fn lemma_sql_text_ascii(&self) {
        self.lemma_text_bounds();
    }

    fn write_sql_expression(&self, sql: &mut Sql) {
        sql.push_sql(self);
    }
}

impl SqlExpression for () {
    /// The unit value is the empty expression: a natural join completed
    /// without a condition carries it where a condition node would stand.
    open spec fn wf_expr(&self) -> bool {
        true
    }

    open spec fn sql_text(&self) -> Seq<u8> {
        seq![]
    }

    open spec fn sql_bindings(&self) -> nat {
        0
    }

    proof fn lemma_sql_text_ascii(&self) {
    }

    fn write_sql_expression(&self, sql: &mut Sql) {
        proof {
            assert(sql@.text =~= old(sql)@.text + self.sql_text());
        }
    }
}

/// Appends the elements of `elems` in order, with one comma between
/// consecutive elements and none after the last, adding each element's
/// bindings: the serialization that every sequence form of the protocol
/// shares.
pub fn write_slice_expression<S: SqlExpression>(elems: &[S], sql: &mut Sql)
    requires
        old(sql).wf(),
        forall|i: int| 0 <= i < elems@.len() ==> (#[trigger] elems@[i]).wf_expr(),
        old(sql)@.text.len() + comma_join(elems@.map_values(|s: S| s.sql_text())).len()
            <= CAP_LIMIT,
        old(sql)@.bindings + sum_counts(elems@.map_values(|s: S| s.sql_bindings())) <= 255,
    ensures
        final(sql).wf(),
        final(sql)@.text == old(sql)@.text + comma_join(elems@.map_values(|s: S| s.sql_text())),
        final(sql)@.bindings == old(sql)@.bindings + sum_counts(
            elems@.map_values(|s: S| s.sql_bindings()),
        ),
{
    let ghost texts = elems@.map_values(|s: S| s.sql_text());
    let ghost counts = elems@.map_values(|s: S| s.sql_bindings());
    let ghost base = old(sql)@.text;
    let ghost bindings = old(sql)@.bindings;
    let count = elems.len();
    let mut i: usize = 0;
    while i < count
        invariant
            i <= count,
            count == elems@.len(),
            texts == elems@.map_values(|s: S| s.sql_text()),
            counts == elems@.map_values(|s: S| s.sql_bindings()),
            forall|j: int| 0 <= j < elems@.len() ==> (#[trigger] elems@[j]).wf_expr(),
            sql.wf(),
            sql@.text == base + comma_join(texts.take(i as int)),
            sql@.bindings == bindings + sum_counts(counts.take(i as int)),
            base.len() + comma_join(texts).len() <= CAP_LIMIT,
            bindings + sum_counts(counts) <= 255,
        decreases count - i,
    {
        proof {
            lemma_comma_join_push(texts.take(i as int), texts[i as int]);
            assert(texts.take(i as int).push(texts[i as int]) =~= texts.take(i as int + 1));
            lemma_comma_join_take_len(texts, i as int + 1);
            lemma_sum_counts_push(counts.take(i as int), counts[i as int]);
            assert(counts.take(i as int).push(counts[i as int]) =~= counts.take(i as int + 1));
            lemma_sum_counts_take_bound(counts, i as int + 1);
        }
        if i > 0 {
            sql.comma();
        }
        let elem = vstd::slice::slice_index_get(elems, i);
        elem.write_sql_expression(sql);
        proof {
            assert(sql@.text =~= base + comma_join(texts.take(i as int + 1)));
        }
        i = i + 1;
    }
    proof {
        assert(texts.take(count as int) =~= texts);
        assert(counts.take(count as int) =~= counts);
    }
}

impl<S: SqlExpression> SqlExpression for Vec<S> {
    open spec fn wf_expr(&self) -> bool {
        forall|i: int| 0 <= i < self@.len() ==> (#[trigger] self@[i]).wf_expr()
    }

    /// Elements in order, one comma between consecutive elements.
    open spec fn sql_text(&self) -> Seq<u8> {
        comma_join(self@.map_values(|s: S| s.sql_text()))
    }

    open spec fn sql_bindings(&self) -> nat {
        sum_counts(self@.map_values(|s: S| s.sql_bindings()))
    }

    proof fn lemma_sql_text_ascii(&self) {
        let texts = self@.map_values(|s: S| s.sql_text());
        assert forall|i: int| 0 <= i < texts.len() implies is_ascii_bytes(#[trigger] texts[i]) by {
            self@[i].lemma_sql_text_ascii();
        }
        lemma_comma_join_ascii(texts);
    }

    fn write_sql_expression(&self, sql: &mut Sql) {
        write_slice_expression(self.as_slice(), sql);
    }
}

impl<S: SqlExpression, const N: usize> SqlExpression for [S; N] {
    open spec fn wf_expr(&self) -> bool {
        forall|i: int| 0 <= i < self@.len() ==> (#[trigger] self@[i]).wf_expr()
    }

    /// Elements in order, one comma between consecutive elements.
    open spec fn sql_text(&self) -> Seq<u8> {
        comma_join(self@.map_values(|s: S| s.sql_text()))
    }

    open spec fn sql_bindings(&self) -> nat {
        sum_counts(self@.map_values(|s: S| s.sql_bindings()))
    }

    proof fn lemma_sql_text_ascii(&self) {
        let texts = self@.map_values(|s: S| s.sql_text());
        assert forall|i: int| 0 <= i < texts.len() implies is_ascii_bytes(#[trigger] texts[i]) by {
            self@[i].lemma_sql_text_ascii();
        }
        lemma_comma_join_ascii(texts);
    }

    fn write_sql_expression(&self, sql: &mut Sql) {
        write_slice_expression(vstd::array::array_as_slice(self), sql);
    }
}


impl<T1: SqlExpression> SqlExpression for (T1,) {
    open spec fn wf_expr(&self) -> bool {
        self.0.wf_expr()
    }

    open spec fn sql_text(&self) -> Seq<u8> {
        self.0.sql_text()
    }

    open spec fn sql_bindings(&self) -> nat {
        self.0.sql_bindings()
    }

    proof fn lemma_sql_text_ascii(&self) {
        self.0.lemma_sql_text_ascii();
    }

    fn write_sql_expression(&self, sql: &mut Sql) {
        self.0.write_sql_expression(sql);
        proof {
            assert(sql@.text =~= old(sql)@.text + (self.0.sql_text()));
        }
    }
}

impl<T1: SqlExpression, T2: SqlExpression> SqlExpression for (T1, T2) {
    open spec fn wf_expr(&self) -> bool {
        self.0.wf_expr() && self.1.wf_expr()
    }

    open spec fn sql_text(&self) -> Seq<u8> {
        self.0.sql_text() + seq![COMMA] + self.1.sql_text()
    }

    open spec fn sql_bindings(&self) -> nat {
        self.0.sql_bindings() + self.1.sql_bindings()
    }

    proof fn lemma_sql_text_ascii(&self) {
        self.0.lemma_sql_text_ascii();
        self.1.lemma_sql_text_ascii();
        lemma_ascii_concat(self.0.sql_text(), seq![COMMA]);
        lemma_ascii_concat(self.0.sql_text() + seq![COMMA], self.1.sql_text());
    }

    #[verifier::rlimit(100)]
    fn write_sql_expression(&self, sql: &mut Sql) {
        self.0.write_sql_expression(sql);
        proof {
            assert(sql@.text =~= old(sql)@.text + (self.0.sql_text()));
        }
        sql.comma();
        proof {
            assert(sql@.text =~= old(sql)@.text + (self.0.sql_text() + seq![COMMA]));
        }
        self.1.write_sql_expression(sql);
        proof {
            assert(sql@.text =~= old(sql)@.text + (self.0.sql_text() + seq![COMMA] + self.1.sql_text()));
        }
    }
}

impl<T1: SqlExpression, T2: SqlExpression, T3: SqlExpression> SqlExpression for (T1, T2, T3) {
    open spec fn wf_expr(&self) -> bool {
        self.0.wf_expr() && self.1.wf_expr() && self.2.wf_expr()
    }

    open spec fn sql_text(&self) -> Seq<u8> {
        self.0.sql_text() + seq![COMMA] + self.1.sql_text() + seq![COMMA] + self.2.sql_text()
    }

    open spec fn sql_bindings(&self) -> nat {
        self.0.sql_bindings() + self.1.sql_bindings() + self.2.sql_bindings()
    }

    proof fn lemma_sql_text_ascii(&self) {
        self.0.lemma_sql_text_ascii();
        self.1.lemma_sql_text_ascii();
        self.2.lemma_sql_text_ascii();
        lemma_ascii_concat(self.0.sql_text(), seq![COMMA]);
        lemma_ascii_concat(self.0.sql_text() + seq![COMMA], self.1.sql_text());
        lemma_ascii_concat(self.0.sql_text() + seq![COMMA] + self.1.sql_text(), seq![COMMA]);
        lemma_ascii_concat(self.0.sql_text() + seq![COMMA] + self.1.sql_text() + seq![COMMA], self.2.sql_text());
    }

    #[verifier::rlimit(100)]
    fn write_sql_expression(&self, sql: &mut Sql) {
        self.0.write_sql_expression(sql);
        proof {
            assert(sql@.text =~= old(sql)@.text + (self.0.sql_text()));
        }
        sql.comma();
        proof {
            assert(sql@.text =~= old(sql)@.text + (self.0.sql_text() + seq![COMMA]));
        }
        self.1.write_sql_expression(sql);
        proof {
            assert(sql@.text =~= old(sql)@.text + (self.0.sql_text() + seq![COMMA] + self.1.sql_text()));
        }
        sql.comma();
        proof {
            assert(sql@.text =~= old(sql)@.text + (self.0.sql_text() + seq![COMMA] + self.1.sql_text() + seq![COMMA]));
        }
        self.2.write_sql_expression(sql);
        proof {
            assert(sql@.text =~= old(sql)@.text + (self.0.sql_text() + seq![COMMA] + self.1.sql_text() + seq![COMMA] + self.2.sql_text()));
        }
    }
}

impl<T1: SqlExpression, T2: SqlExpression, T3: SqlExpression, T4: SqlExpression> SqlExpression for (T1, T2, T3, T4) {
    open spec fn wf_expr(&self) -> bool {
        self.0.wf_expr() && self.1.wf_expr() && self.2.wf_expr() && self.3.wf_expr()
    }

    open spec fn sql_text(&self) -> Seq<u8> {
        self.0.sql_text() + seq![COMMA] + self.1.sql_text() + seq![COMMA] + self.2.sql_text() + seq![COMMA] + self.3.sql_text()
    }

    open spec fn sql_bindings(&self) -> nat {
        self.0.sql_bindings() + self.1.sql_bindings() + self.2.sql_bindings() + self.3.sql_bindings()
    }

    proof fn lemma_sql_text_ascii(&self) {
        self.0.lemma_sql_text_ascii();
        self.1.lemma_sql_text_ascii();
        self.2.lemma_sql_text_ascii();
        self.3.lemma_sql_text_ascii();
        lemma_ascii_concat(self.0.sql_text(), seq![COMMA]);
        lemma_ascii_concat(self.0.sql_text() + seq![COMMA], self.1.sql_text());
        lemma_ascii_concat(self.0.sql_text() + seq![COMMA] + self.1.sql_text(), seq![COMMA]);
        lemma_ascii_concat(self.0.sql_text() + seq![COMMA] + self.1.sql_text() + seq![COMMA], self.2.sql_text());
        lemma_ascii_concat(self.0.sql_text() + seq![COMMA] + self.1.sql_text() + seq![COMMA] + self.2.sql_text(), seq![COMMA]);
        lemma_ascii_concat(self.0.sql_text() + seq![COMMA] + self.1.sql_text() + seq![COMMA] + self.2.sql_text() + seq![COMMA], self.3.sql_text());
    }

    #[verifier::rlimit(100)]
    fn write_sql_expression(&self, sql: &mut Sql) {
        self.0.write_sql_expression(sql);
        proof {
            assert(sql@.text =~= old(sql)@.text + (self.0.sql_text()));
        }
        sql.comma();
        proof {
            assert(sql@.text =~= old(sql)@.text + (self.0.sql_text() + seq![COMMA]));
        }
        self.1.write_sql_expression(sql);
        proof {
            assert(sql@.text =~= old(sql)@.text + (self.0.sql_text() + seq![COMMA] + self.1.sql_text()));
        }
        sql.comma();
        proof {
            assert(sql@.text =~= old(sql)@.text + (self.0.sql_text() + seq![COMMA] + self.1.sql_text() + seq![COMMA]));
        }
        self.2.write_sql_expression(sql);
        proof {
            assert(sql@.text =~= old(sql)@.text + (self.0.sql_text() + seq![COMMA] + self.1.sql_text() + seq![COMMA] + self.2.sql_text()));
        }
        sql.comma();
        proof {
            assert(sql@.text =~= old(sql)@.text + (self.0.sql_text() + seq![COMMA] + self.1.sql_text() + seq![COMMA] + self.2.sql_text() + seq![COMMA]));
        }
        self.3.write_sql_expression(sql);
        proof {
            assert(sql@.text =~= old(sql)@.text + (self.0.sql_text() + seq![COMMA] + self.1.sql_text() + seq![COMMA] + self.2.sql_text() + seq![COMMA] + self.3.sql_text()));
        }
    }
}

impl<T1: SqlExpression, T2: SqlExpression, T3: SqlExpression, T4: SqlExpression, T5: SqlExpression> SqlExpression for (T1, T2, T3, T4, T5) {
    open spec fn wf_expr(&self) -> bool {
        self.0.wf_expr() && self.1.wf_expr() && self.2.wf_expr() && self.3.wf_expr() && self.4.wf_expr()
    }

    open spec fn sql_text(&self) -> Seq<u8> {
        self.0.sql_text() + seq![COMMA] + self.1.sql_text() + seq![COMMA] + self.2.sql_text() + seq![COMMA] + self.3.sql_text() + seq![COMMA] + self.4.sql_text()
    }

    open spec fn sql_bindings(&self) -> nat {
        self.0.sql_bindings() + self.1.sql_bindings() + self.2.sql_bindings() + self.3.sql_bindings() + self.4.sql_bindings()
    }

    proof fn lemma_sql_text_ascii(&self) {
        self.0.lemma_sql_text_ascii();
        self.1.lemma_sql_text_ascii();
        self.2.lemma_sql_text_ascii();
        self.3.lemma_sql_text_ascii();
        self.4.lemma_sql_text_ascii();
        lemma_ascii_concat(self.0.sql_text(), seq![COMMA]);
        lemma_ascii_concat(self.0.sql_text() + seq![COMMA], self.1.sql_text());
        lemma_ascii_concat(self.0.sql_text() + seq![COMMA] + self.1.sql_text(), seq![COMMA]);
        lemma_ascii_concat(self.0.sql_text() + seq![COMMA] + self.1.sql_text() + seq![COMMA], self.2.sql_text());
        lemma_ascii_concat(self.0.sql_text() + seq![COMMA] + self.1.sql_text() + seq![COMMA] + self.2.sql_text(), seq![COMMA]);
        lemma_ascii_concat(self.0.sql_text() + seq![COMMA] + self.1.sql_text() + seq![COMMA] + self.2.sql_text() + seq![COMMA], self.3.sql_text());
        lemma_ascii_concat(self.0.sql_text() + seq![COMMA] + self.1.sql_text() + seq![COMMA] + self.2.sql_text() + seq![COMMA] + self.3.sql_text(), seq![COMMA]);
        lemma_ascii_concat(self.0.sql_text() + seq![COMMA] + self.1.sql_text() + seq![COMMA] + self.2.sql_text() + seq![COMMA] + self.3.sql_text() + seq![COMMA], self.4.sql_text());
    }

    #[verifier::rlimit(100)]
    fn write_sql_expression(&self, sql: &mut Sql) {
        self.0.write_sql_expression(sql);
        proof {
            assert(sql@.text =~= old(sql)@.text + (self.0.sql_text()));
        }
        sql.comma();
        proof {
            assert(sql@.text =~= old(sql)@.text + (self.0.sql_text() + seq![COMMA]));
        }
        self.1.write_sql_expression(sql);
        proof {
            assert(sql@.text =~= old(sql)@.text + (self.0.sql_text() + seq![COMMA] + self.1.sql_text()));
        }
        sql.comma();
        proof {
            assert(sql@.text =~= old(sql)@.text + (self.0.sql_text() + seq![COMMA] + self.1.sql_text() + seq![COMMA]));
        }
        self.2.write_sql_expression(sql);
        proof {
            assert(sql@.text =~= old(sql)@.text + (self.0.sql_text() + seq![COMMA] + self.1.sql_text() + seq![COMMA] + self.2.sql_text()));
        }
        sql.comma();
        proof {
            assert(sql@.text =~= old(sql)@.text + (self.0.sql_text() + seq![COMMA] + self.1.sql_text() + seq![COMMA] + self.2.sql_text() + seq![COMMA]));
        }
        self.3.write_sql_expression(sql);
        proof {
            assert(sql@.text =~= old(sql)@.text + (self.0.sql_text() + seq![COMMA] + self.1.sql_text() + seq![COMMA] + self.2.sql_text() + seq![COMMA] + self.3.sql_text()));
        }
        sql.comma();
        proof {
            assert(sql@.text =~= old(sql)@.text + (self.0.sql_text() + seq![COMMA] + self.1.sql_text() + seq![COMMA] + self.2.sql_text() + seq![COMMA] + self.3.sql_text() + seq![COMMA]));
        }
        self.4.write_sql_expression(sql);
        proof {
            assert(sql@.text =~= old(sql)@.text + (self.0.sql_text() + seq![COMMA] + self.1.sql_text() + seq![COMMA] + self.2.sql_text() + seq![COMMA] + self.3.sql_text() + seq![COMMA] + self.4.sql_text()));
        }
    }
}

impl<T1: SqlExpression, T2: SqlExpression, T3: SqlExpression, T4: SqlExpression, T5: SqlExpression, T6: SqlExpression> SqlExpression for (T1, T2, T3, T4, T5, T6) {
    open spec fn wf_expr(&self) -> bool {
        self.0.wf_expr() && self.1.wf_expr() && self.2.wf_expr() && self.3.wf_expr() && self.4.wf_expr() && self.5.wf_expr()
    }

    open spec fn sql_text(&self) -> Seq<u8> {
        self.0.sql_text() + seq![COMMA] + self.1.sql_text() + seq![COMMA] + self.2.sql_text() + seq![COMMA] + self.3.sql_text() + seq![COMMA] + self.4.sql_text() + seq![COMMA] + self.5.sql_text()
    }

    open spec fn sql_bindings(&self) -> nat {
        self.0.sql_bindings() + self.1.sql_bindings() + self.2.sql_bindings() + self.3.sql_bindings() + self.4.sql_bindings() + self.5.sql_bindings()
    }

    proof fn lemma_sql_text_ascii(&self) {
        self.0.lemma_sql_text_ascii();
        self.1.lemma_sql_text_ascii();
        self.2.lemma_sql_text_ascii();
        self.3.lemma_sql_text_ascii();
        self.4.lemma_sql_text_ascii();
        self.5.lemma_sql_text_ascii();
        lemma_ascii_concat(self.0.sql_text(), seq![COMMA]);
        lemma_ascii_concat(self.0.sql_text() + seq![COMMA], self.1.sql_text());
        lemma_ascii_concat(self.0.sql_text() + seq![COMMA] + self.1.sql_text(), seq![COMMA]);
        lemma_ascii_concat(self.0.sql_text() + seq![COMMA] + self.1.sql_text() + seq![COMMA], self.2.sql_text());
        lemma_ascii_concat(self.0.sql_text() + seq![COMMA] + self.1.sql_text() + seq![COMMA] + self.2.sql_text(), seq![COMMA]);
        lemma_ascii_concat(self.0.sql_text() + seq![COMMA] + self.1.sql_text() + seq![COMMA] + self.2.sql_text() + seq![COMMA], self.3.sql_text());
        lemma_ascii_concat(self.0.sql_text() + seq![COMMA] + self.1.sql_text() + seq![COMMA] + self.2.sql_text() + seq![COMMA] + self.3.sql_text(), seq![COMMA]);
        lemma_ascii_concat(self.0.sql_text() + seq![COMMA] + self.1.sql_text() + seq![COMMA] + self.2.sql_text() + seq![COMMA] + self.3.sql_text() + seq![COMMA], self.4.sql_text());
        lemma_ascii_concat(self.0.sql_text() + seq![COMMA] + self.1.sql_text() + seq![COMMA] + self.2.sql_text() + seq![COMMA] + self.3.sql_text() + seq![COMMA] + self.4.sql_text(), seq![COMMA]);
        lemma_ascii_concat(self.0.sql_text() + seq![COMMA] + self.1.sql_text() + seq![COMMA] + self.2.sql_text() + seq![COMMA] + self.3.sql_text() + seq![COMMA] + self.4.sql_text() + seq![COMMA], self.5.sql_text());
    }

    #[verifier::rlimit(100)]
    fn write_sql_expression(&self, sql: &mut Sql) {
        self.0.write_sql_expression(sql);
        proof {
            assert(sql@.text =~= old(sql)@.text + (self.0.sql_text()));
        }
        sql.comma();
        proof {
            assert(sql@.text =~= old(sql)@.text + (self.0.sql_text() + seq![COMMA]));
        }
        self.1.write_sql_expression(sql);
        proof {
            assert(sql@.text =~= old(sql)@.text + (self.0.sql_text() + seq![COMMA] + self.1.sql_text()));
        }
        sql.comma();
        proof {
            assert(sql@.text =~= old(sql)@.text + (self.0.sql_text() + seq![COMMA] + self.1.sql_text() + seq![COMMA]));
        }
        self.2.write_sql_expression(sql);
        proof {
            assert(sql@.text =~= old(sql)@.text + (self.0.sql_text() + seq![COMMA] + self.1.sql_text() + seq![COMMA] + self.2.sql_text()));
        }
        sql.comma();
        proof {
            assert(sql@.text =~= old(sql)@.text + (self.0.sql_text() + seq![COMMA] + self.1.sql_text() + seq![COMMA] + self.2.sql_text() + seq![COMMA]));
        }
        self.3.write_sql_expression(sql);
        proof {
            assert(sql@.text =~= old(sql)@.text + (self.0.sql_text() + seq![COMMA] + self.1.sql_text() + seq![COMMA] + self.2.sql_text() + seq![COMMA] + self.3.sql_text()));
        }
        sql.comma();
        proof {
            assert(sql@.text =~= old(sql)@.text + (self.0.sql_text() + seq![COMMA] + self.1.sql_text() + seq![COMMA] + self.2.sql_text() + seq![COMMA] + self.3.sql_text() + seq![COMMA]));
        }
        self.4.write_sql_expression(sql);
        proof {
            assert(sql@.text =~= old(sql)@.text + (self.0.sql_text() + seq![COMMA] + self.1.sql_text() + seq![COMMA] + self.2.sql_text() + seq![COMMA] + self.3.sql_text() + seq![COMMA] + self.4.sql_text()));
        }
        sql.comma();
        proof {
            assert(sql@.text =~= old(sql)@.text + (self.0.sql_text() + seq![COMMA] + self.1.sql_text() + seq![COMMA] + self.2.sql_text() + seq![COMMA] + self.3.sql_text() + seq![COMMA] + self.4.sql_text() + seq![COMMA]));
        }
        self.5.write_sql_expression(sql);
        proof {
            assert(sql@.text =~= old(sql)@.text + (self.0.sql_text() + seq![COMMA] + self.1.sql_text() + seq![COMMA] + self.2.sql_text() + seq![COMMA] + self.3.sql_text() + seq![COMMA] + self.4.sql_text() + seq![COMMA] + self.5.sql_text()));
        }
    }
}

impl<T1: SqlExpression, T2: SqlExpression, T3: SqlExpression, T4: SqlExpression, T5: SqlExpression, T6: SqlExpression, T7: SqlExpression> SqlExpression for (T1, T2, T3, T4, T5, T6, T7) {
    open spec fn wf_expr(&self) -> bool {
        self.0.wf_expr() && self.1.wf_expr() && self.2.wf_expr() && self.3.wf_expr() && self.4.wf_expr() && self.5.wf_expr() && self.6.wf_expr()
    }

    open spec fn sql_text(&self) -> Seq<u8> {
        self.0.sql_text() + seq![COMMA] + self.1.sql_text() + seq![COMMA] + self.2.sql_text() + seq![COMMA] + self.3.sql_text() + seq![COMMA] + self.4.sql_text() + seq![COMMA] + self.5.sql_text() + seq![COMMA] + self.6.sql_text()
    }

    open spec fn sql_bindings(&self) -> nat {
        self.0.sql_bindings() + self.1.sql_bindings() + self.2.sql_bindings() + self.3.sql_bindings() + self.4.sql_bindings() + self.5.sql_bindings() + self.6.sql_bindings()
    }

    proof fn lemma_sql_text_ascii(&self) {
        self.0.lemma_sql_text_ascii();
        self.1.lemma_sql_text_ascii();
        self.2.lemma_sql_text_ascii();
        self.3.lemma_sql_text_ascii();
        self.4.lemma_sql_text_ascii();
        self.5.lemma_sql_text_ascii();
        self.6.lemma_sql_text_ascii();
        lemma_ascii_concat(self.0.sql_text(), seq![COMMA]);
        lemma_ascii_concat(self.0.sql_text() + seq![COMMA], self.1.sql_text());
        lemma_ascii_concat(self.0.sql_text() + seq![COMMA] + self.1.sql_text(), seq![COMMA]);
        lemma_ascii_concat(self.0.sql_text() + seq![COMMA] + self.1.sql_text() + seq![COMMA], self.2.sql_text());
        lemma_ascii_concat(self.0.sql_text() + seq![COMMA] + self.1.sql_text() + seq![COMMA] + self.2.sql_text(), seq![COMMA]);
        lemma_ascii_concat(self.0.sql_text() + seq![COMMA] + self.1.sql_text() + seq![COMMA] + self.2.sql_text() + seq![COMMA], self.3.sql_text());
        lemma_ascii_concat(self.0.sql_text() + seq![COMMA] + self.1.sql_text() + seq![COMMA] + self.2.sql_text() + seq![COMMA] + self.3.sql_text(), seq![COMMA]);
        lemma_ascii_concat(self.0.sql_text() + seq![COMMA] + self.1.sql_text() + seq![COMMA] + self.2.sql_text() + seq![COMMA] + self.3.sql_text() + seq![COMMA], self.4.sql_text());
        lemma_ascii_concat(self.0.sql_text() + seq![COMMA] + self.1.sql_text() + seq![COMMA] + self.2.sql_text() + seq![COMMA] + self.3.sql_text() + seq![COMMA] + self.4.sql_text(), seq![COMMA]);
        lemma_ascii_concat(self.0.sql_text() + seq![COMMA] + self.1.sql_text() + seq![COMMA] + self.2.sql_text() + seq![COMMA] + self.3.sql_text() + seq![COMMA] + self.4.sql_text() + seq![COMMA], self.5.sql_text());
        lemma_ascii_concat(self.0.sql_text() + seq![COMMA] + self.1.sql_text() + seq![COMMA] + self.2.sql_text() + seq![COMMA] + self.3.sql_text() + seq![COMMA] + self.4.sql_text() + seq![COMMA] + self.5.sql_text(), seq![COMMA]);
        lemma_ascii_concat(self.0.sql_text() + seq![COMMA] + self.1.sql_text() + seq![COMMA] + self.2.sql_text() + seq![COMMA] + self.3.sql_text() + seq![COMMA] + self.4.sql_text() + seq![COMMA] + self.5.sql_text() + seq![COMMA], self.6.sql_text());
    }

    #[verifier::rlimit(100)]
    fn write_sql_expression(&self, sql: &mut Sql) {
        self.0.write_sql_expression(sql);
        proof {
            assert(sql@.text =~= old(sql)@.text + (self.0.sql_text()));
        }
        sql.comma();
        proof {
            assert(sql@.text =~= old(sql)@.text + (self.0.sql_text() + seq![COMMA]));
        }
        self.1.write_sql_expression(sql);
        proof {
            assert(sql@.text =~= old(sql)@.text + (self.0.sql_text() + seq![COMMA] + self.1.sql_text()));
        }
        sql.comma();
        proof {
            assert(sql@.text =~= old(sql)@.text + (self.0.sql_text() + seq![COMMA] + self.1.sql_text() + seq![COMMA]));
        }
        self.2.write_sql_expression(sql);
        proof {
            assert(sql@.text =~= old(sql)@.text + (self.0.sql_text() + seq![COMMA] + self.1.sql_text() + seq![COMMA] + self.2.sql_text()));
        }
        sql.comma();
        proof {
            assert(sql@.text =~= old(sql)@.text + (self.0.sql_text() + seq![COMMA] + self.1.sql_text() + seq![COMMA] + self.2.sql_text() + seq![COMMA]));
        }
        self.3.write_sql_expression(sql);
        proof {
            assert(sql@.text =~= old(sql)@.text + (self.0.sql_text() + seq![COMMA] + self.1.sql_text() + seq![COMMA] + self.2.sql_text() + seq![COMMA] + self.3.sql_text()));
        }
        sql.comma();
        proof {
            assert(sql@.text =~= old(sql)@.text + (self.0.sql_text() + seq![COMMA] + self.1.sql_text() + seq![COMMA] + self.2.sql_text() + seq![COMMA] + self.3.sql_text() + seq![COMMA]));
        }
        self.4.write_sql_expression(sql);
        proof {
            assert(sql@.text =~= old(sql)@.text + (self.0.sql_text() + seq![COMMA] + self.1.sql_text() + seq![COMMA] + self.2.sql_text() + seq![COMMA] + self.3.sql_text() + seq![COMMA] + self.4.sql_text()));
        }
        sql.comma();
        proof {
            assert(sql@.text =~= old(sql)@.text + (self.0.sql_text() + seq![COMMA] + self.1.sql_text() + seq![COMMA] + self.2.sql_text() + seq![COMMA] + self.3.sql_text() + seq![COMMA] + self.4.sql_text() + seq![COMMA]));
        }
        self.5.write_sql_expression(sql);
        proof {
            assert(sql@.text =~= old(sql)@.text + (self.0.sql_text() + seq![COMMA] + self.1.sql_text() + seq![COMMA] + self.2.sql_text() + seq![COMMA] + self.3.sql_text() + seq![COMMA] + self.4.sql_text() + seq![COMMA] + self.5.sql_text()));
        }
        sql.comma();
        proof {
            assert(sql@.text =~= old(sql)@.text + (self.0.sql_text() + seq![COMMA] + self.1.sql_text() + seq![COMMA] + self.2.sql_text() + seq![COMMA] + self.3.sql_text() + seq![COMMA] + self.4.sql_text() + seq![COMMA] + self.5.sql_text() + seq![COMMA]));
        }
        self.6.write_sql_expression(sql);
        proof {
            assert(sql@.text =~= old(sql)@.text + (self.0.sql_text() + seq![COMMA] + self.1.sql_text() + seq![COMMA] + self.2.sql_text() + seq![COMMA] + self.3.sql_text() + seq![COMMA] + self.4.sql_text() + seq![COMMA] + self.5.sql_text() + seq![COMMA] + self.6.sql_text()));
        }
    }
}

impl<T1: SqlExpression, T2: SqlExpression, T3: SqlExpression, T4: SqlExpression, T5: SqlExpression, T6: SqlExpression, T7: SqlExpression, T8: SqlExpression> SqlExpression for (T1, T2, T3, T4, T5, T6, T7, T8) {
    open spec fn wf_expr(&self) -> bool {
        self.0.wf_expr() && self.1.wf_expr() && self.2.wf_expr() && self.3.wf_expr() && self.4.wf_expr() && self.5.wf_expr() && self.6.wf_expr() && self.7.wf_expr()
    }

    open spec fn sql_text(&self) -> Seq<u8> {
        self.0.sql_text() + seq![COMMA] + self.1.sql_text() + seq![COMMA] + self.2.sql_text() + seq![COMMA] + self.3.sql_text() + seq![COMMA] + self.4.sql_text() + seq![COMMA] + self.5.sql_text() + seq![COMMA] + self.6.sql_text() + seq![COMMA] + self.7.sql_text()
    }

    open spec fn sql_bindings(&self) -> nat {
        self.0.sql_bindings() + self.1.sql_bindings() + self.2.sql_bindings() + self.3.sql_bindings() + self.4.sql_bindings() + self.5.sql_bindings() + self.6.sql_bindings() + self.7.sql_bindings()
    }

    proof fn lemma_sql_text_ascii(&self) {
        self.0.lemma_sql_text_ascii();
        self.1.lemma_sql_text_ascii();
        self.2.lemma_sql_text_ascii();
        self.3.lemma_sql_text_ascii();
        self.4.lemma_sql_text_ascii();
        self.5.lemma_sql_text_ascii();
        self.6.lemma_sql_text_ascii();
        self.7.lemma_sql_text_ascii();
        lemma_ascii_concat(self.0.sql_text(), seq![COMMA]);
        lemma_ascii_concat(self.0.sql_text() + seq![COMMA], self.1.sql_text());
        lemma_ascii_concat(self.0.sql_text() + seq![COMMA] + self.1.sql_text(), seq![COMMA]);
        lemma_ascii_concat(self.0.sql_text() + seq![COMMA] + self.1.sql_text() + seq![COMMA], self.2.sql_text());
        lemma_ascii_concat(self.0.sql_text() + seq![COMMA] + self.1.sql_text() + seq![COMMA] + self.2.sql_text(), seq![COMMA]);
        lemma_ascii_concat(self.0.sql_text() + seq![COMMA] + self.1.sql_text() + seq![COMMA] + self.2.sql_text() + seq![COMMA], self.3.sql_text());
        lemma_ascii_concat(self.0.sql_text() + seq![COMMA] + self.1.sql_text() + seq![COMMA] + self.2.sql_text() + seq![COMMA] + self.3.sql_text(), seq![COMMA]);
        lemma_ascii_concat(self.0.sql_text() + seq![COMMA] + self.1.sql_text() + seq![COMMA] + self.2.sql_text() + seq![COMMA] + self.3.sql_text() + seq![COMMA], self.4.sql_text());
        lemma_ascii_concat(self.0.sql_text() + seq![COMMA] + self.1.sql_text() + seq![COMMA] + self.2.sql_text() + seq![COMMA] + self.3.sql_text() + seq![COMMA] + self.4.sql_text(), seq![COMMA]);
        lemma_ascii_concat(self.0.sql_text() + seq![COMMA] + self.1.sql_text() + seq![COMMA] + self.2.sql_text() + seq![COMMA] + self.3.sql_text() + seq![COMMA] + self.4.sql_text() + seq![COMMA], self.5.sql_text());
        lemma_ascii_concat(self.0.sql_text() + seq![COMMA] + self.1.sql_text() + seq![COMMA] + self.2.sql_text() + seq![COMMA] + self.3.sql_text() + seq![COMMA] + self.4.sql_text() + seq![COMMA] + self.5.sql_text(), seq![COMMA]);
        lemma_ascii_concat(self.0.sql_text() + seq![COMMA] + self.1.sql_text() + seq![COMMA] + self.2.sql_text() + seq![COMMA] + self.3.sql_text() + seq![COMMA] + self.4.sql_text() + seq![COMMA] + self.5.sql_text() + seq![COMMA], self.6.sql_text());
        lemma_ascii_concat(self.0.sql_text() + seq![COMMA] + self.1.sql_text() + seq![COMMA] + self.2.sql_text() + seq![COMMA] + self.3.sql_text() + seq![COMMA] + self.4.sql_text() + seq![COMMA] + self.5.sql_text() + seq![COMMA] + self.6.sql_text(), seq![COMMA]);
        lemma_ascii_concat(self.0.sql_text() + seq![COMMA] + self.1.sql_text() + seq![COMMA] + self.2.sql_text() + seq![COMMA] + self.3.sql_text() + seq![COMMA] + self.4.sql_text() + seq![COMMA] + self.5.sql_text() + seq![COMMA] + self.6.sql_text() + seq![COMMA], self.7.sql_text());
    }

    #[verifier::rlimit(100)]
    fn write_sql_expression(&self, sql: &mut Sql) {
        self.0.write_sql_expression(sql);
        proof {
            assert(sql@.text =~= old(sql)@.text + (self.0.sql_text()));
        }
        sql.comma();
        proof {
            assert(sql@.text =~= old(sql)@.text + (self.0.sql_text() + seq![COMMA]));
        }
        self.1.write_sql_expression(sql);
        proof {
            assert(sql@.text =~= old(sql)@.text + (self.0.sql_text() + seq![COMMA] + self.1.sql_text()));
        }
        sql.comma();
        proof {
            assert(sql@.text =~= old(sql)@.text + (self.0.sql_text() + seq![COMMA] + self.1.sql_text() + seq![COMMA]));
        }
        self.2.write_sql_expression(sql);
        proof {
            assert(sql@.text =~= old(sql)@.text + (self.0.sql_text() + seq![COMMA] + self.1.sql_text() + seq![COMMA] + self.2.sql_text()));
        }
        sql.comma();
        proof {
            assert(sql@.text =~= old(sql)@.text + (self.0.sql_text() + seq![COMMA] + self.1.sql_text() + seq![COMMA] + self.2.sql_text() + seq![COMMA]));
        }
        self.3.write_sql_expression(sql);
        proof {
            assert(sql@.text =~= old(sql)@.text + (self.0.sql_text() + seq![COMMA] + self.1.sql_text() + seq![COMMA] + self.2.sql_text() + seq![COMMA] + self.3.sql_text()));
        }
        sql.comma();
        proof {
            assert(sql@.text =~= old(sql)@.text + (self.0.sql_text() + seq![COMMA] + self.1.sql_text() + seq![COMMA] + self.2.sql_text() + seq![COMMA] + self.3.sql_text() + seq![COMMA]));
        }
        self.4.write_sql_expression(sql);
        proof {
            assert(sql@.text =~= old(sql)@.text + (self.0.sql_text() + seq![COMMA] + self.1.sql_text() + seq![COMMA] + self.2.sql_text() + seq![COMMA] + self.3.sql_text() + seq![COMMA] + self.4.sql_text()));
        }
        sql.comma();
        proof {
            assert(sql@.text =~= old(sql)@.text + (self.0.sql_text() + seq![COMMA] + self.1.sql_text() + seq![COMMA] + self.2.sql_text() + seq![COMMA] + self.3.sql_text() + seq![COMMA] + self.4.sql_text() + seq![COMMA]));
        }
        self.5.write_sql_expression(sql);
        proof {
            assert(sql@.text =~= old(sql)@.text + (self.0.sql_text() + seq![COMMA] + self.1.sql_text() + seq![COMMA] + self.2.sql_text() + seq![COMMA] + self.3.sql_text() + seq![COMMA] + self.4.sql_text() + seq![COMMA] + self.5.sql_text()));
        }
        sql.comma();
        proof {
            assert(sql@.text =~= old(sql)@.text + (self.0.sql_text() + seq![COMMA] + self.1.sql_text() + seq![COMMA] + self.2.sql_text() + seq![COMMA] + self.3.sql_text() + seq![COMMA] + self.4.sql_text() + seq![COMMA] + self.5.sql_text() + seq![COMMA]));
        }
        self.6.write_sql_expression(sql);
        proof {
            assert(sql@.text =~= old(sql)@.text + (self.0.sql_text() + seq![COMMA] + self.1.sql_text() + seq![COMMA] + self.2.sql_text() + seq![COMMA] + self.3.sql_text() + seq![COMMA] + self.4.sql_text() + seq![COMMA] + self.5.sql_text() + seq![COMMA] + self.6.sql_text()));
        }
        sql.comma();
        proof {
            assert(sql@.text =~= old(sql)@.text + (self.0.sql_text() + seq![COMMA] + self.1.sql_text() + seq![COMMA] + self.2.sql_text() + seq![COMMA] + self.3.sql_text() + seq![COMMA] + self.4.sql_text() + seq![COMMA] + self.5.sql_text() + seq![COMMA] + self.6.sql_text() + seq![COMMA]));
        }
        self.7.write_sql_expression(sql);
        proof {
            assert(sql@.text =~= old(sql)@.text + (self.0.sql_text() + seq![COMMA] + self.1.sql_text() + seq![COMMA] + self.2.sql_text() + seq![COMMA] + self.3.sql_text() + seq![COMMA] + self.4.sql_text() + seq![COMMA] + self.5.sql_text() + seq![COMMA] + self.6.sql_text() + seq![COMMA] + self.7.sql_text()));
        }
    }
}

impl<T1: SqlExpression, T2: SqlExpression, T3: SqlExpression, T4: SqlExpression, T5: SqlExpression, T6: SqlExpression, T7: SqlExpression, T8: SqlExpression, T9: SqlExpression> SqlExpression for (T1, T2, T3, T4, T5, T6, T7, T8, T9) {
    open spec fn wf_expr(&self) -> bool {
        self.0.wf_expr() && self.1.wf_expr() && self.2.wf_expr() && self.3.wf_expr() && self.4.wf_expr() && self.5.wf_expr() && self.6.wf_expr() && self.7.wf_expr() && self.8.wf_expr()
    }

    open spec fn sql_text(&self) -> Seq<u8> {
        self.0.sql_text() + seq![COMMA] + self.1.sql_text() + seq![COMMA] + self.2.sql_text() + seq![COMMA] + self.3.sql_text() + seq![COMMA] + self.4.sql_text() + seq![COMMA] + self.5.sql_text() + seq![COMMA] + self.6.sql_text() + seq![COMMA] + self.7.sql_text() + seq![COMMA] + self.8.sql_text()
    }

    open spec fn sql_bindings(&self) -> nat {
        self.0.sql_bindings() + self.1.sql_bindings() + self.2.sql_bindings() + self.3.sql_bindings() + self.4.sql_bindings() + self.5.sql_bindings() + self.6.sql_bindings() + self.7.sql_bindings() + self.8.sql_bindings()
    }

    proof fn lemma_sql_text_ascii(&self) {
        self.0.lemma_sql_text_ascii();
        self.1.lemma_sql_text_ascii();
        self.2.lemma_sql_text_ascii();
        self.3.lemma_sql_text_ascii();
        self.4.lemma_sql_text_ascii();
        self.5.lemma_sql_text_ascii();
        self.6.lemma_sql_text_ascii();
        self.7.lemma_sql_text_ascii();
        self.8.lemma_sql_text_ascii();
        lemma_ascii_concat(self.0.sql_text(), seq![COMMA]);
        lemma_ascii_concat(self.0.sql_text() + seq![COMMA], self.1.sql_text());
        lemma_ascii_concat(self.0.sql_text() + seq![COMMA] + self.1.sql_text(), seq![COMMA]);
        lemma_ascii_concat(self.0.sql_text() + seq![COMMA] + self.1.sql_text() + seq![COMMA], self.2.sql_text());
        lemma_ascii_concat(self.0.sql_text() + seq![COMMA] + self.1.sql_text() + seq![COMMA] + self.2.sql_text(), seq![COMMA]);
        lemma_ascii_concat(self.0.sql_text() + seq![COMMA] + self.1.sql_text() + seq![COMMA] + self.2.sql_text() + seq![COMMA], self.3.sql_text());
        lemma_ascii_concat(self.0.sql_text() + seq![COMMA] + self.1.sql_text() + seq![COMMA] + self.2.sql_text() + seq![COMMA] + self.3.sql_text(), seq![COMMA]);
        lemma_ascii_concat(self.0.sql_text() + seq![COMMA] + self.1.sql_text() + seq![COMMA] + self.2.sql_text() + seq![COMMA] + self.3.sql_text() + seq![COMMA], self.4.sql_text());
        lemma_ascii_concat(self.0.sql_text() + seq![COMMA] + self.1.sql_text() + seq![COMMA] + self.2.sql_text() + seq![COMMA] + self.3.sql_text() + seq![COMMA] + self.4.sql_text(), seq![COMMA]);
        lemma_ascii_concat(self.0.sql_text() + seq![COMMA] + self.1.sql_text() + seq![COMMA] + self.2.sql_text() + seq![COMMA] + self.3.sql_text() + seq![COMMA] + self.4.sql_text() + seq![COMMA], self.5.sql_text());
        lemma_ascii_concat(self.0.sql_text() + seq![COMMA] + self.1.sql_text() + seq![COMMA] + self.2.sql_text() + seq![COMMA] + self.3.sql_text() + seq![COMMA] + self.4.sql_text() + seq![COMMA] + self.5.sql_text(), seq![COMMA]);
        lemma_ascii_concat(self.0.sql_text() + seq![COMMA] + self.1.sql_text() + seq![COMMA] + self.2.sql_text() + seq![COMMA] + self.3.sql_text() + seq![COMMA] + self.4.sql_text() + seq![COMMA] + self.5.sql_text() + seq![COMMA], self.6.sql_text());
        lemma_ascii_concat(self.0.sql_text() + seq![COMMA] + self.1.sql_text() + seq![COMMA] + self.2.sql_text() + seq![COMMA] + self.3.sql_text() + seq![COMMA] + self.4.sql_text() + seq![COMMA] + self.5.sql_text() + seq![COMMA] + self.6.sql_text(), seq![COMMA]);
        lemma_ascii_concat(self.0.sql_text() + seq![COMMA] + self.1.sql_text() + seq![COMMA] + self.2.sql_text() + seq![COMMA] + self.3.sql_text() + seq![COMMA] + self.4.sql_text() + seq![COMMA] + self.5.sql_text() + seq![COMMA] + self.6.sql_text() + seq![COMMA], self.7.sql_text());
        lemma_ascii_concat(self.0.sql_text() + seq![COMMA] + self.1.sql_text() + seq![COMMA] + self.2.sql_text() + seq![COMMA] + self.3.sql_text() + seq![COMMA] + self.4.sql_text() + seq![COMMA] + self.5.sql_text() + seq![COMMA] + self.6.sql_text() + seq![COMMA] + self.7.sql_text(), seq![COMMA]);
        lemma_ascii_concat(self.0.sql_text() + seq![COMMA] + self.1.sql_text() + seq![COMMA] + self.2.sql_text() + seq![COMMA] + self.3.sql_text() + seq![COMMA] + self.4.sql_text() + seq![COMMA] + self.5.sql_text() + seq![COMMA] + self.6.sql_text() + seq![COMMA] + self.7.sql_text() + seq![COMMA], self.8.sql_text());
    }

    #[verifier::rlimit(100)]
    fn write_sql_expression(&self, sql: &mut Sql) {
        self.0.write_sql_expression(sql);
        proof {
            assert(sql@.text =~= old(sql)@.text + (self.0.sql_text()));
        }
        sql.comma();
        proof {
            assert(sql@.text =~= old(sql)@.text + (self.0.sql_text() + seq![COMMA]));
        }
        self.1.write_sql_expression(sql);
        proof {
            assert(sql@.text =~= old(sql)@.text + (self.0.sql_text() + seq![COMMA] + self.1.sql_text()));
        }
        sql.comma();
        proof {
            assert(sql@.text =~= old(sql)@.text + (self.0.sql_text() + seq![COMMA] + self.1.sql_text() + seq![COMMA]));
        }
        self.2.write_sql_expression(sql);
        proof {
            assert(sql@.text =~= old(sql)@.text + (self.0.sql_text() + seq![COMMA] + self.1.sql_text() + seq![COMMA] + self.2.sql_text()));
        }
        sql.comma();
        proof {
            assert(sql@.text =~= old(sql)@.text + (self.0.sql_text() + seq![COMMA] + self.1.sql_text() + seq![COMMA] + self.2.sql_text() + seq![COMMA]));
        }
        self.3.write_sql_expression(sql);
        proof {
            assert(sql@.text =~= old(sql)@.text + (self.0.sql_text() + seq![COMMA] + self.1.sql_text() + seq![COMMA] + self.2.sql_text() + seq![COMMA] + self.3.sql_text()));
        }
        sql.comma();
        proof {
            assert(sql@.text =~= old(sql)@.text + (self.0.sql_text() + seq![COMMA] + self.1.sql_text() + seq![COMMA] + self.2.sql_text() + seq![COMMA] + self.3.sql_text() + seq![COMMA]));
        }
        self.4.write_sql_expression(sql);
        proof {
            assert(sql@.text =~= old(sql)@.text + (self.0.sql_text() + seq![COMMA] + self.1.sql_text() + seq![COMMA] + self.2.sql_text() + seq![COMMA] + self.3.sql_text() + seq![COMMA] + self.4.sql_text()));
        }
        sql.comma();
        proof {
            assert(sql@.text =~= old(sql)@.text + (self.0.sql_text() + seq![COMMA] + self.1.sql_text() + seq![COMMA] + self.2.sql_text() + seq![COMMA] + self.3.sql_text() + seq![COMMA] + self.4.sql_text() + seq![COMMA]));
        }
        self.5.write_sql_expression(sql);
        proof {
            assert(sql@.text =~= old(sql)@.text + (self.0.sql_text() + seq![COMMA] + self.1.sql_text() + seq![COMMA] + self.2.sql_text() + seq![COMMA] + self.3.sql_text() + seq![COMMA] + self.4.sql_text() + seq![COMMA] + self.5.sql_text()));
        }
        sql.comma();
        proof {
            assert(sql@.text =~= old(sql)@.text + (self.0.sql_text() + seq![COMMA] + self.1.sql_text() + seq![COMMA] + self.2.sql_text() + seq![COMMA] + self.3.sql_text() + seq![COMMA] + self.4.sql_text() + seq![COMMA] + self.5.sql_text() + seq![COMMA]));
        }
        self.6.write_sql_expression(sql);
        proof {
            assert(sql@.text =~= old(sql)@.text + (self.0.sql_text() + seq![COMMA] + self.1.sql_text() + seq![COMMA] + self.2.sql_text() + seq![COMMA] + self.3.sql_text() + seq![COMMA] + self.4.sql_text() + seq![COMMA] + self.5.sql_text() + seq![COMMA] + self.6.sql_text()));
        }
        sql.comma();
        proof {
            assert(sql@.text =~= old(sql)@.text + (self.0.sql_text() + seq![COMMA] + self.1.sql_text() + seq![COMMA] + self.2.sql_text() + seq![COMMA] + self.3.sql_text() + seq![COMMA] + self.4.sql_text() + seq![COMMA] + self.5.sql_text() + seq![COMMA] + self.6.sql_text() + seq![COMMA]));
        }
        self.7.write_sql_expression(sql);
        proof {
            assert(sql@.text =~= old(sql)@.text + (self.0.sql_text() + seq![COMMA] + self.1.sql_text() + seq![COMMA] + self.2.sql_text() + seq![COMMA] + self.3.sql_text() + seq![COMMA] + self.4.sql_text() + seq![COMMA] + self.5.sql_text() + seq![COMMA] + self.6.sql_text() + seq![COMMA] + self.7.sql_text()));
        }
        sql.comma();
        proof {
            assert(sql@.text =~= old(sql)@.text + (self.0.sql_text() + seq![COMMA] + self.1.sql_text() + seq![COMMA] + self.2.sql_text() + seq![COMMA] + self.3.sql_text() + seq![COMMA] + self.4.sql_text() + seq![COMMA] + self.5.sql_text() + seq![COMMA] + self.6.sql_text() + seq![COMMA] + self.7.sql_text() + seq![COMMA]));
        }
        self.8.write_sql_expression(sql);
        proof {
            assert(sql@.text =~= old(sql)@.text + (self.0.sql_text() + seq![COMMA] + self.1.sql_text() + seq![COMMA] + self.2.sql_text() + seq![COMMA] + self.3.sql_text() + seq![COMMA] + self.4.sql_text() + seq![COMMA] + self.5.sql_text() + seq![COMMA] + self.6.sql_text() + seq![COMMA] + self.7.sql_text() + seq![COMMA] + self.8.sql_text()));
        }
    }
}

impl<T1: SqlExpression, T2: SqlExpression, T3: SqlExpression, T4: SqlExpression, T5: SqlExpression, T6: SqlExpression, T7: SqlExpression, T8: SqlExpression, T9: SqlExpression, T10: SqlExpression> SqlExpression for (T1, T2, T3, T4, T5, T6, T7, T8, T9, T10) {
    open spec fn wf_expr(&self) -> bool {
        self.0.wf_expr() && self.1.wf_expr() && self.2.wf_expr() && self.3.wf_expr() && self.4.wf_expr() && self.5.wf_expr() && self.6.wf_expr() && self.7.wf_expr() && self.8.wf_expr() && self.9.wf_expr()
    }

    open spec fn sql_text(&self) -> Seq<u8> {
        self.0.sql_text() + seq![COMMA] + self.1.sql_text() + seq![COMMA] + self.2.sql_text() + seq![COMMA] + self.3.sql_text() + seq![COMMA] + self.4.sql_text() + seq![COMMA] + self.5.sql_text() + seq![COMMA] + self.6.sql_text() + seq![COMMA] + self.7.sql_text() + seq![COMMA] + self.8.sql_text() + seq![COMMA] + self.9.sql_text()
    }

    open spec fn sql_bindings(&self) -> nat {
        self.0.sql_bindings() + self.1.sql_bindings() + self.2.sql_bindings() + self.3.sql_bindings() + self.4.sql_bindings() + self.5.sql_bindings() + self.6.sql_bindings() + self.7.sql_bindings() + self.8.sql_bindings() + self.9.sql_bindings()
    }

    proof fn lemma_sql_text_ascii(&self) {
        self.0.lemma_sql_text_ascii();
        self.1.lemma_sql_text_ascii();
        self.2.lemma_sql_text_ascii();
        self.3.lemma_sql_text_ascii();
        self.4.lemma_sql_text_ascii();
        self.5.lemma_sql_text_ascii();
        self.6.lemma_sql_text_ascii();
        self.7.lemma_sql_text_ascii();
        self.8.lemma_sql_text_ascii();
        self.9.lemma_sql_text_ascii();
        lemma_ascii_concat(self.0.sql_text(), seq![COMMA]);
        lemma_ascii_concat(self.0.sql_text() + seq![COMMA], self.1.sql_text());
        lemma_ascii_concat(self.0.sql_text() + seq![COMMA] + self.1.sql_text(), seq![COMMA]);
        lemma_ascii_concat(self.0.sql_text() + seq![COMMA] + self.1.sql_text() + seq![COMMA], self.2.sql_text());
        lemma_ascii_concat(self.0.sql_text() + seq![COMMA] + self.1.sql_text() + seq![COMMA] + self.2.sql_text(), seq![COMMA]);
        lemma_ascii_concat(self.0.sql_text() + seq![COMMA] + self.1.sql_text() + seq![COMMA] + self.2.sql_text() + seq![COMMA], self.3.sql_text());
        lemma_ascii_concat(self.0.sql_text() + seq![COMMA] + self.1.sql_text() + seq![COMMA] + self.2.sql_text() + seq![COMMA] + self.3.sql_text(), seq![COMMA]);
        lemma_ascii_concat(self.0.sql_text() + seq![COMMA] + self.1.sql_text() + seq![COMMA] + self.2.sql_text() + seq![COMMA] + self.3.sql_text() + seq![COMMA], self.4.sql_text());
        lemma_ascii_concat(self.0.sql_text() + seq![COMMA] + self.1.sql_text() + seq![COMMA] + self.2.sql_text() + seq![COMMA] + self.3.sql_text() + seq![COMMA] + self.4.sql_text(), seq![COMMA]);
        lemma_ascii_concat(self.0.sql_text() + seq![COMMA] + self.1.sql_text() + seq![COMMA] + self.2.sql_text() + seq![COMMA] + self.3.sql_text() + seq![COMMA] + self.4.sql_text() + seq![COMMA], self.5.sql_text());
        lemma_ascii_concat(self.0.sql_text() + seq![COMMA] + self.1.sql_text() + seq![COMMA] + self.2.sql_text() + seq![COMMA] + self.3.sql_text() + seq![COMMA] + self.4.sql_text() + seq![COMMA] + self.5.sql_text(), seq![COMMA]);
        lemma_ascii_concat(self.0.sql_text() + seq![COMMA] + self.1.sql_text() + seq![COMMA] + self.2.sql_text() + seq![COMMA] + self.3.sql_text() + seq![COMMA] + self.4.sql_text() + seq![COMMA] + self.5.sql_text() + seq![COMMA], self.6.sql_text());
        lemma_ascii_concat(self.0.sql_text() + seq![COMMA] + self.1.sql_text() + seq![COMMA] + self.2.sql_text() + seq![COMMA] + self.3.sql_text() + seq![COMMA] + self.4.sql_text() + seq![COMMA] + self.5.sql_text() + seq![COMMA] + self.6.sql_text(), seq![COMMA]);
        lemma_ascii_concat(self.0.sql_text() + seq![COMMA] + self.1.sql_text() + seq![COMMA] + self.2.sql_text() + seq![COMMA] + self.3.sql_text() + seq![COMMA] + self.4.sql_text() + seq![COMMA] + self.5.sql_text() + seq![COMMA] + self.6.sql_text() + seq![COMMA], self.7.sql_text());
        lemma_ascii_concat(self.0.sql_text() + seq![COMMA] + self.1.sql_text() + seq![COMMA] + self.2.sql_text() + seq![COMMA] + self.3.sql_text() + seq![COMMA] + self.4.sql_text() + seq![COMMA] + self.5.sql_text() + seq![COMMA] + self.6.sql_text() + seq![COMMA] + self.7.sql_text(), seq![COMMA]);
        lemma_ascii_concat(self.0.sql_text() + seq![COMMA] + self.1.sql_text() + seq![COMMA] + self.2.sql_text() + seq![COMMA] + self.3.sql_text() + seq![COMMA] + self.4.sql_text() + seq![COMMA] + self.5.sql_text() + seq![COMMA] + self.6.sql_text() + seq![COMMA] + self.7.sql_text() + seq![COMMA], self.8.sql_text());
        lemma_ascii_concat(self.0.sql_text() + seq![COMMA] + self.1.sql_text() + seq![COMMA] + self.2.sql_text() + seq![COMMA] + self.3.sql_text() + seq![COMMA] + self.4.sql_text() + seq![COMMA] + self.5.sql_text() + seq![COMMA] + self.6.sql_text() + seq![COMMA] + self.7.sql_text() + seq![COMMA] + self.8.sql_text(), seq![COMMA]);
        lemma_ascii_concat(self.0.sql_text() + seq![COMMA] + self.1.sql_text() + seq![COMMA] + self.2.sql_text() + seq![COMMA] + self.3.sql_text() + seq![COMMA] + self.4.sql_text() + seq![COMMA] + self.5.sql_text() + seq![COMMA] + self.6.sql_text() + seq![COMMA] + self.7.sql_text() + seq![COMMA] + self.8.sql_text() + seq![COMMA], self.9.sql_text());
    }

    #[verifier::rlimit(100)]
    fn write_sql_expression(&self, sql: &mut Sql) {
        self.0.write_sql_expression(sql);
        proof {
            assert(sql@.text =~= old(sql)@.text + (self.0.sql_text()));
        }
        sql.comma();
        proof {
            assert(sql@.text =~= old(sql)@.text + (self.0.sql_text() + seq![COMMA]));
        }
        self.1.write_sql_expression(sql);
        proof {
            assert(sql@.text =~= old(sql)@.text + (self.0.sql_text() + seq![COMMA] + self.1.sql_text()));
        }
        sql.comma();
        proof {
            assert(sql@.text =~= old(sql)@.text + (self.0.sql_text() + seq![COMMA] + self.1.sql_text() + seq![COMMA]));
        }
        self.2.write_sql_expression(sql);
        proof {
            assert(sql@.text =~= old(sql)@.text + (self.0.sql_text() + seq![COMMA] + self.1.sql_text() + seq![COMMA] + self.2.sql_text()));
        }
        sql.comma();
        proof {
            assert(sql@.text =~= old(sql)@.text + (self.0.sql_text() + seq![COMMA] + self.1.sql_text() + seq![COMMA] + self.2.sql_text() + seq![COMMA]));
        }
        self.3.write_sql_expression(sql);
        proof {
            assert(sql@.text =~= old(sql)@.text + (self.0.sql_text() + seq![COMMA] + self.1.sql_text() + seq![COMMA] + self.2.sql_text() + seq![COMMA] + self.3.sql_text()));
        }
        sql.comma();
        proof {
            assert(sql@.text =~= old(sql)@.text + (self.0.sql_text() + seq![COMMA] + self.1.sql_text() + seq![COMMA] + self.2.sql_text() + seq![COMMA] + self.3.sql_text() + seq![COMMA]));
        }
        self.4.write_sql_expression(sql);
        proof {
            assert(sql@.text =~= old(sql)@.text + (self.0.sql_text() + seq![COMMA] + self.1.sql_text() + seq![COMMA] + self.2.sql_text() + seq![COMMA] + self.3.sql_text() + seq![COMMA] + self.4.sql_text()));
        }
        sql.comma();
        proof {
            assert(sql@.text =~= old(sql)@.text + (self.0.sql_text() + seq![COMMA] + self.1.sql_text() + seq![COMMA] + self.2.sql_text() + seq![COMMA] + self.3.sql_text() + seq![COMMA] + self.4.sql_text() + seq![COMMA]));
        }
        self.5.write_sql_expression(sql);
        proof {
            assert(sql@.text =~= old(sql)@.text + (self.0.sql_text() + seq![COMMA] + self.1.sql_text() + seq![COMMA] + self.2.sql_text() + seq![COMMA] + self.3.sql_text() + seq![COMMA] + self.4.sql_text() + seq![COMMA] + self.5.sql_text()));
        }
        sql.comma();
        proof {
            assert(sql@.text =~= old(sql)@.text + (self.0.sql_text() + seq![COMMA] + self.1.sql_text() + seq![COMMA] + self.2.sql_text() + seq![COMMA] + self.3.sql_text() + seq![COMMA] + self.4.sql_text() + seq![COMMA] + self.5.sql_text() + seq![COMMA]));
        }
        self.6.write_sql_expression(sql);
        proof {
            assert(sql@.text =~= old(sql)@.text + (self.0.sql_text() + seq![COMMA] + self.1.sql_text() + seq![COMMA] + self.2.sql_text() + seq![COMMA] + self.3.sql_text() + seq![COMMA] + self.4.sql_text() + seq![COMMA] + self.5.sql_text() + seq![COMMA] + self.6.sql_text()));
        }
        sql.comma();
        proof {
            assert(sql@.text =~= old(sql)@.text + (self.0.sql_text() + seq![COMMA] + self.1.sql_text() + seq![COMMA] + self.2.sql_text() + seq![COMMA] + self.3.sql_text() + seq![COMMA] + self.4.sql_text() + seq![COMMA] + self.5.sql_text() + seq![COMMA] + self.6.sql_text() + seq![COMMA]));
        }
        self.7.write_sql_expression(sql);
        proof {
            assert(sql@.text =~= old(sql)@.text + (self.0.sql_text() + seq![COMMA] + self.1.sql_text() + seq![COMMA] + self.2.sql_text() + seq![COMMA] + self.3.sql_text() + seq![COMMA] + self.4.sql_text() + seq![COMMA] + self.5.sql_text() + seq![COMMA] + self.6.sql_text() + seq![COMMA] + self.7.sql_text()));
        }
        sql.comma();
        proof {
            assert(sql@.text =~= old(sql)@.text + (self.0.sql_text() + seq![COMMA] + self.1.sql_text() + seq![COMMA] + self.2.sql_text() + seq![COMMA] + self.3.sql_text() + seq![COMMA] + self.4.sql_text() + seq![COMMA] + self.5.sql_text() + seq![COMMA] + self.6.sql_text() + seq![COMMA] + self.7.sql_text() + seq![COMMA]));
        }
        self.8.write_sql_expression(sql);
        proof {
            assert(sql@.text =~= old(sql)@.text + (self.0.sql_text() + seq![COMMA] + self.1.sql_text() + seq![COMMA] + self.2.sql_text() + seq![COMMA] + self.3.sql_text() + seq![COMMA] + self.4.sql_text() + seq![COMMA] + self.5.sql_text() + seq![COMMA] + self.6.sql_text() + seq![COMMA] + self.7.sql_text() + seq![COMMA] + self.8.sql_text()));
        }
        sql.comma();
        proof {
            assert(sql@.text =~= old(sql)@.text + (self.0.sql_text() + seq![COMMA] + self.1.sql_text() + seq![COMMA] + self.2.sql_text() + seq![COMMA] + self.3.sql_text() + seq![COMMA] + self.4.sql_text() + seq![COMMA] + self.5.sql_text() + seq![COMMA] + self.6.sql_text() + seq![COMMA] + self.7.sql_text() + seq![COMMA] + self.8.sql_text() + seq![COMMA]));
        }
        self.9.write_sql_expression(sql);
        proof {
            assert(sql@.text =~= old(sql)@.text + (self.0.sql_text() + seq![COMMA] + self.1.sql_text() + seq![COMMA] + self.2.sql_text() + seq![COMMA] + self.3.sql_text() + seq![COMMA] + self.4.sql_text() + seq![COMMA] + self.5.sql_text() + seq![COMMA] + self.6.sql_text() + seq![COMMA] + self.7.sql_text() + seq![COMMA] + self.8.sql_text() + seq![COMMA] + self.9.sql_text()));
        }
    }
}

impl<T1: SqlExpression, T2: SqlExpression, T3: SqlExpression, T4: SqlExpression, T5: SqlExpression, T6: SqlExpression, T7: SqlExpression, T8: SqlExpression, T9: SqlExpression, T10: SqlExpression, T11: SqlExpression> SqlExpression for (T1, T2, T3, T4, T5, T6, T7, T8, T9, T10, T11) {
    open spec fn wf_expr(&self) -> bool {
        self.0.wf_expr() && self.1.wf_expr() && self.2.wf_expr() && self.3.wf_expr() && self.4.wf_expr() && self.5.wf_expr() && self.6.wf_expr() && self.7.wf_expr() && self.8.wf_expr() && self.9.wf_expr() && self.10.wf_expr()
    }

    open spec fn sql_text(&self) -> Seq<u8> {
        self.0.sql_text() + seq![COMMA] + self.1.sql_text() + seq![COMMA] + self.2.sql_text() + seq![COMMA] + self.3.sql_text() + seq![COMMA] + self.4.sql_text() + seq![COMMA] + self.5.sql_text() + seq![COMMA] + self.6.sql_text() + seq![COMMA] + self.7.sql_text() + seq![COMMA] + self.8.sql_text() + seq![COMMA] + self.9.sql_text() + seq![COMMA] + self.10.sql_text()
    }

    open spec fn sql_bindings(&self) -> nat {
        self.0.sql_bindings() + self.1.sql_bindings() + self.2.sql_bindings() + self.3.sql_bindings() + self.4.sql_bindings() + self.5.sql_bindings() + self.6.sql_bindings() + self.7.sql_bindings() + self.8.sql_bindings() + self.9.sql_bindings() + self.10.sql_bindings()
    }

    proof fn lemma_sql_text_ascii(&self) {
        self.0.lemma_sql_text_ascii();
        self.1.lemma_sql_text_ascii();
        self.2.lemma_sql_text_ascii();
        self.3.lemma_sql_text_ascii();
        self.4.lemma_sql_text_ascii();
        self.5.lemma_sql_text_ascii();
        self.6.lemma_sql_text_ascii();
        self.7.lemma_sql_text_ascii();
        self.8.lemma_sql_text_ascii();
        self.9.lemma_sql_text_ascii();
        self.10.lemma_sql_text_ascii();
        lemma_ascii_concat(self.0.sql_text(), seq![COMMA]);
        lemma_ascii_concat(self.0.sql_text() + seq![COMMA], self.1.sql_text());
        lemma_ascii_concat(self.0.sql_text() + seq![COMMA] + self.1.sql_text(), seq![COMMA]);
        lemma_ascii_concat(self.0.sql_text() + seq![COMMA] + self.1.sql_text() + seq![COMMA], self.2.sql_text());
        lemma_ascii_concat(self.0.sql_text() + seq![COMMA] + self.1.sql_text() + seq![COMMA] + self.2.sql_text(), seq![COMMA]);
        lemma_ascii_concat(self.0.sql_text() + seq![COMMA] + self.1.sql_text() + seq![COMMA] + self.2.sql_text() + seq![COMMA], self.3.sql_text());
        lemma_ascii_concat(self.0.sql_text() + seq![COMMA] + self.1.sql_text() + seq![COMMA] + self.2.sql_text() + seq![COMMA] + self.3.sql_text(), seq![COMMA]);
        lemma_ascii_concat(self.0.sql_text() + seq![COMMA] + self.1.sql_text() + seq![COMMA] + self.2.sql_text() + seq![COMMA] + self.3.sql_text() + seq![COMMA], self.4.sql_text());
        lemma_ascii_concat(self.0.sql_text() + seq![COMMA] + self.1.sql_text() + seq![COMMA] + self.2.sql_text() + seq![COMMA] + self.3.sql_text() + seq![COMMA] + self.4.sql_text(), seq![COMMA]);
        lemma_ascii_concat(self.0.sql_text() + seq![COMMA] + self.1.sql_text() + seq![COMMA] + self.2.sql_text() + seq![COMMA] + self.3.sql_text() + seq![COMMA] + self.4.sql_text() + seq![COMMA], self.5.sql_text());
        lemma_ascii_concat(self.0.sql_text() + seq![COMMA] + self.1.sql_text() + seq![COMMA] + self.2.sql_text() + seq![COMMA] + self.3.sql_text() + seq![COMMA] + self.4.sql_text() + seq![COMMA] + self.5.sql_text(), seq![COMMA]);
        lemma_ascii_concat(self.0.sql_text() + seq![COMMA] + self.1.sql_text() + seq![COMMA] + self.2.sql_text() + seq![COMMA] + self.3.sql_text() + seq![COMMA] + self.4.sql_text() + seq![COMMA] + self.5.sql_text() + seq![COMMA], self.6.sql_text());
        lemma_ascii_concat(self.0.sql_text() + seq![COMMA] + self.1.sql_text() + seq![COMMA] + self.2.sql_text() + seq![COMMA] + self.3.sql_text() + seq![COMMA] + self.4.sql_text() + seq![COMMA] + self.5.sql_text() + seq![COMMA] + self.6.sql_text(), seq![COMMA]);
        lemma_ascii_concat(self.0.sql_text() + seq![COMMA] + self.1.sql_text() + seq![COMMA] + self.2.sql_text() + seq![COMMA] + self.3.sql_text() + seq![COMMA] + self.4.sql_text() + seq![COMMA] + self.5.sql_text() + seq![COMMA] + self.6.sql_text() + seq![COMMA], self.7.sql_text());
        lemma_ascii_concat(self.0.sql_text() + seq![COMMA] + self.1.sql_text() + seq![COMMA] + self.2.sql_text() + seq![COMMA] + self.3.sql_text() + seq![COMMA] + self.4.sql_text() + seq![COMMA] + self.5.sql_text() + seq![COMMA] + self.6.sql_text() + seq![COMMA] + self.7.sql_text(), seq![COMMA]);
        lemma_ascii_concat(self.0.sql_text() + seq![COMMA] + self.1.sql_text() + seq![COMMA] + self.2.sql_text() + seq![COMMA] + self.3.sql_text() + seq![COMMA] + self.4.sql_text() + seq![COMMA] + self.5.sql_text() + seq![COMMA] + self.6.sql_text() + seq![COMMA] + self.7.sql_text() + seq![COMMA], self.8.sql_text());
        lemma_ascii_concat(self.0.sql_text() + seq![COMMA] + self.1.sql_text() + seq![COMMA] + self.2.sql_text() + seq![COMMA] + self.3.sql_text() + seq![COMMA] + self.4.sql_text() + seq![COMMA] + self.5.sql_text() + seq![COMMA] + self.6.sql_text() + seq![COMMA] + self.7.sql_text() + seq![COMMA] + self.8.sql_text(), seq![COMMA]);
        lemma_ascii_concat(self.0.sql_text() + seq![COMMA] + self.1.sql_text() + seq![COMMA] + self.2.sql_text() + seq![COMMA] + self.3.sql_text() + seq![COMMA] + self.4.sql_text() + seq![COMMA] + self.5.sql_text() + seq![COMMA] + self.6.sql_text() + seq![COMMA] + self.7.sql_text() + seq![COMMA] + self.8.sql_text() + seq![COMMA], self.9.sql_text());
        lemma_ascii_concat(self.0.sql_text() + seq![COMMA] + self.1.sql_text() + seq![COMMA] + self.2.sql_text() + seq![COMMA] + self.3.sql_text() + seq![COMMA] + self.4.sql_text() + seq![COMMA] + self.5.sql_text() + seq![COMMA] + self.6.sql_text() + seq![COMMA] + self.7.sql_text() + seq![COMMA] + self.8.sql_text() + seq![COMMA] + self.9.sql_text(), seq![COMMA]);
        lemma_ascii_concat(self.0.sql_text() + seq![COMMA] + self.1.sql_text() + seq![COMMA] + self.2.sql_text() + seq![COMMA] + self.3.sql_text() + seq![COMMA] + self.4.sql_text() + seq![COMMA] + self.5.sql_text() + seq![COMMA] + self.6.sql_text() + seq![COMMA] + self.7.sql_text() + seq![COMMA] + self.8.sql_text() + seq![COMMA] + self.9.sql_text() + seq![COMMA], self.10.sql_text());
    }

    #[verifier::rlimit(100)]
    fn write_sql_expression(&self, sql: &mut Sql) {
        self.0.write_sql_expression(sql);
        proof {
            assert(sql@.text =~= old(sql)@.text + (self.0.sql_text()));
        }
        sql.comma();
        proof {
            assert(sql@.text =~= old(sql)@.text + (self.0.sql_text() + seq![COMMA]));
        }
        self.1.write_sql_expression(sql);
        proof {
            assert(sql@.text =~= old(sql)@.text + (self.0.sql_text() + seq![COMMA] + self.1.sql_text()));
        }
        sql.comma();
        proof {
            assert(sql@.text =~= old(sql)@.text + (self.0.sql_text() + seq![COMMA] + self.1.sql_text() + seq![COMMA]));
        }
        self.2.write_sql_expression(sql);
        proof {
            assert(sql@.text =~= old(sql)@.text + (self.0.sql_text() + seq![COMMA] + self.1.sql_text() + seq![COMMA] + self.2.sql_text()));
        }
        sql.comma();
        proof {
            assert(sql@.text =~= old(sql)@.text + (self.0.sql_text() + seq![COMMA] + self.1.sql_text() + seq![COMMA] + self.2.sql_text() + seq![COMMA]));
        }
        self.3.write_sql_expression(sql);
        proof {
            assert(sql@.text =~= old(sql)@.text + (self.0.sql_text() + seq![COMMA] + self.1.sql_text() + seq![COMMA] + self.2.sql_text() + seq![COMMA] + self.3.sql_text()));
        }
        sql.comma();
        proof {
            assert(sql@.text =~= old(sql)@.text + (self.0.sql_text() + seq![COMMA] + self.1.sql_text() + seq![COMMA] + self.2.sql_text() + seq![COMMA] + self.3.sql_text() + seq![COMMA]));
        }
        self.4.write_sql_expression(sql);
        proof {
            assert(sql@.text =~= old(sql)@.text + (self.0.sql_text() + seq![COMMA] + self.1.sql_text() + seq![COMMA] + self.2.sql_text() + seq![COMMA] + self.3.sql_text() + seq![COMMA] + self.4.sql_text()));
        }
        sql.comma();
        proof {
            assert(sql@.text =~= old(sql)@.text + (self.0.sql_text() + seq![COMMA] + self.1.sql_text() + seq![COMMA] + self.2.sql_text() + seq![COMMA] + self.3.sql_text() + seq![COMMA] + self.4.sql_text() + seq![COMMA]));
        }
        self.5.write_sql_expression(sql);
        proof {
            assert(sql@.text =~= old(sql)@.text + (self.0.sql_text() + seq![COMMA] + self.1.sql_text() + seq![COMMA] + self.2.sql_text() + seq![COMMA] + self.3.sql_text() + seq![COMMA] + self.4.sql_text() + seq![COMMA] + self.5.sql_text()));
        }
        sql.comma();
        proof {
            assert(sql@.text =~= old(sql)@.text + (self.0.sql_text() + seq![COMMA] + self.1.sql_text() + seq![COMMA] + self.2.sql_text() + seq![COMMA] + self.3.sql_text() + seq![COMMA] + self.4.sql_text() + seq![COMMA] + self.5.sql_text() + seq![COMMA]));
        }
        self.6.write_sql_expression(sql);
        proof {
            assert(sql@.text =~= old(sql)@.text + (self.0.sql_text() + seq![COMMA] + self.1.sql_text() + seq![COMMA] + self.2.sql_text() + seq![COMMA] + self.3.sql_text() + seq![COMMA] + self.4.sql_text() + seq![COMMA] + self.5.sql_text() + seq![COMMA] + self.6.sql_text()));
        }
        sql.comma();
        proof {
            assert(sql@.text =~= old(sql)@.text + (self.0.sql_text() + seq![COMMA] + self.1.sql_text() + seq![COMMA] + self.2.sql_text() + seq![COMMA] + self.3.sql_text() + seq![COMMA] + self.4.sql_text() + seq![COMMA] + self.5.sql_text() + seq![COMMA] + self.6.sql_text() + seq![COMMA]));
        }
        self.7.write_sql_expression(sql);
        proof {
            assert(sql@.text =~= old(sql)@.text + (self.0.sql_text() + seq![COMMA] + self.1.sql_text() + seq![COMMA] + self.2.sql_text() + seq![COMMA] + self.3.sql_text() + seq![COMMA] + self.4.sql_text() + seq![COMMA] + self.5.sql_text() + seq![COMMA] + self.6.sql_text() + seq![COMMA] + self.7.sql_text()));
        }
        sql.comma();
        proof {
            assert(sql@.text =~= old(sql)@.text + (self.0.sql_text() + seq![COMMA] + self.1.sql_text() + seq![COMMA] + self.2.sql_text() + seq![COMMA] + self.3.sql_text() + seq![COMMA] + self.4.sql_text() + seq![COMMA] + self.5.sql_text() + seq![COMMA] + self.6.sql_text() + seq![COMMA] + self.7.sql_text() + seq![COMMA]));
        }
        self.8.write_sql_expression(sql);
        proof {
            assert(sql@.text =~= old(sql)@.text + (self.0.sql_text() + seq![COMMA] + self.1.sql_text() + seq![COMMA] + self.2.sql_text() + seq![COMMA] + self.3.sql_text() + seq![COMMA] + self.4.sql_text() + seq![COMMA] + self.5.sql_text() + seq![COMMA] + self.6.sql_text() + seq![COMMA] + self.7.sql_text() + seq![COMMA] + self.8.sql_text()));
        }
        sql.comma();
        proof {
            assert(sql@.text =~= old(sql)@.text + (self.0.sql_text() + seq![COMMA] + self.1.sql_text() + seq![COMMA] + self.2.sql_text() + seq![COMMA] + self.3.sql_text() + seq![COMMA] + self.4.sql_text() + seq![COMMA] + self.5.sql_text() + seq![COMMA] + self.6.sql_text() + seq![COMMA] + self.7.sql_text() + seq![COMMA] + self.8.sql_text() + seq![COMMA]));
        }
        self.9.write_sql_expression(sql);
        proof {
            assert(sql@.text =~= old(sql)@.text + (self.0.sql_text() + seq![COMMA] + self.1.sql_text() + seq![COMMA] + self.2.sql_text() + seq![COMMA] + self.3.sql_text() + seq![COMMA] + self.4.sql_text() + seq![COMMA] + self.5.sql_text() + seq![COMMA] + self.6.sql_text() + seq![COMMA] + self.7.sql_text() + seq![COMMA] + self.8.sql_text() + seq![COMMA] + self.9.sql_text()));
        }
        sql.comma();
        proof {
            assert(sql@.text =~= old(sql)@.text + (self.0.sql_text() + seq![COMMA] + self.1.sql_text() + seq![COMMA] + self.2.sql_text() + seq![COMMA] + self.3.sql_text() + seq![COMMA] + self.4.sql_text() + seq![COMMA] + self.5.sql_text() + seq![COMMA] + self.6.sql_text() + seq![COMMA] + self.7.sql_text() + seq![COMMA] + self.8.sql_text() + seq![COMMA] + self.9.sql_text() + seq![COMMA]));
        }
        self.10.write_sql_expression(sql);
        proof {
            assert(sql@.text =~= old(sql)@.text + (self.0.sql_text() + seq![COMMA] + self.1.sql_text() + seq![COMMA] + self.2.sql_text() + seq![COMMA] + self.3.sql_text() + seq![COMMA] + self.4.sql_text() + seq![COMMA] + self.5.sql_text() + seq![COMMA] + self.6.sql_text() + seq![COMMA] + self.7.sql_text() + seq![COMMA] + self.8.sql_text() + seq![COMMA] + self.9.sql_text() + seq![COMMA] + self.10.sql_text()));
        }
    }
}

impl<T1: SqlExpression, T2: SqlExpression, T3: SqlExpression, T4: SqlExpression, T5: SqlExpression, T6: SqlExpression, T7: SqlExpression, T8: SqlExpression, T9: SqlExpression, T10: SqlExpression, T11: SqlExpression, T12: SqlExpression> SqlExpression for (T1, T2, T3, T4, T5, T6, T7, T8, T9, T10, T11, T12) {
    open spec fn wf_expr(&self) -> bool {
        self.0.wf_expr() && self.1.wf_expr() && self.2.wf_expr() && self.3.wf_expr() && self.4.wf_expr() && self.5.wf_expr() && self.6.wf_expr() && self.7.wf_expr() && self.8.wf_expr() && self.9.wf_expr() && self.10.wf_expr() && self.11.wf_expr()
    }

    open spec fn sql_text(&self) -> Seq<u8> {
        self.0.sql_text() + seq![COMMA] + self.1.sql_text() + seq![COMMA] + self.2.sql_text() + seq![COMMA] + self.3.sql_text() + seq![COMMA] + self.4.sql_text() + seq![COMMA] + self.5.sql_text() + seq![COMMA] + self.6.sql_text() + seq![COMMA] + self.7.sql_text() + seq![COMMA] + self.8.sql_text() + seq![COMMA] + self.9.sql_text() + seq![COMMA] + self.10.sql_text() + seq![COMMA] + self.11.sql_text()
    }

    open spec fn sql_bindings(&self) -> nat {
        self.0.sql_bindings() + self.1.sql_bindings() + self.2.sql_bindings() + self.3.sql_bindings() + self.4.sql_bindings() + self.5.sql_bindings() + self.6.sql_bindings() + self.7.sql_bindings() + self.8.sql_bindings() + self.9.sql_bindings() + self.10.sql_bindings() + self.11.sql_bindings()
    }

    proof fn lemma_sql_text_ascii(&self) {
        self.0.lemma_sql_text_ascii();
        self.1.lemma_sql_text_ascii();
        self.2.lemma_sql_text_ascii();
        self.3.lemma_sql_text_ascii();
        self.4.lemma_sql_text_ascii();
        self.5.lemma_sql_text_ascii();
        self.6.lemma_sql_text_ascii();
        self.7.lemma_sql_text_ascii();
        self.8.lemma_sql_text_ascii();
        self.9.lemma_sql_text_ascii();
        self.10.lemma_sql_text_ascii();
        self.11.lemma_sql_text_ascii();
        lemma_ascii_concat(self.0.sql_text(), seq![COMMA]);
        lemma_ascii_concat(self.0.sql_text() + seq![COMMA], self.1.sql_text());
        lemma_ascii_concat(self.0.sql_text() + seq![COMMA] + self.1.sql_text(), seq![COMMA]);
        lemma_ascii_concat(self.0.sql_text() + seq![COMMA] + self.1.sql_text() + seq![COMMA], self.2.sql_text());
        lemma_ascii_concat(self.0.sql_text() + seq![COMMA] + self.1.sql_text() + seq![COMMA] + self.2.sql_text(), seq![COMMA]);
        lemma_ascii_concat(self.0.sql_text() + seq![COMMA] + self.1.sql_text() + seq![COMMA] + self.2.sql_text() + seq![COMMA], self.3.sql_text());
        lemma_ascii_concat(self.0.sql_text() + seq![COMMA] + self.1.sql_text() + seq![COMMA] + self.2.sql_text() + seq![COMMA] + self.3.sql_text(), seq![COMMA]);
        lemma_ascii_concat(self.0.sql_text() + seq![COMMA] + self.1.sql_text() + seq![COMMA] + self.2.sql_text() + seq![COMMA] + self.3.sql_text() + seq![COMMA], self.4.sql_text());
        lemma_ascii_concat(self.0.sql_text() + seq![COMMA] + self.1.sql_text() + seq![COMMA] + self.2.sql_text() + seq![COMMA] + self.3.sql_text() + seq![COMMA] + self.4.sql_text(), seq![COMMA]);
        lemma_ascii_concat(self.0.sql_text() + seq![COMMA] + self.1.sql_text() + seq![COMMA] + self.2.sql_text() + seq![COMMA] + self.3.sql_text() + seq![COMMA] + self.4.sql_text() + seq![COMMA], self.5.sql_text());
        lemma_ascii_concat(self.0.sql_text() + seq![COMMA] + self.1.sql_text() + seq![COMMA] + self.2.sql_text() + seq![COMMA] + self.3.sql_text() + seq![COMMA] + self.4.sql_text() + seq![COMMA] + self.5.sql_text(), seq![COMMA]);
        lemma_ascii_concat(self.0.sql_text() + seq![COMMA] + self.1.sql_text() + seq![COMMA] + self.2.sql_text() + seq![COMMA] + self.3.sql_text() + seq![COMMA] + self.4.sql_text() + seq![COMMA] + self.5.sql_text() + seq![COMMA], self.6.sql_text());
        lemma_ascii_concat(self.0.sql_text() + seq![COMMA] + self.1.sql_text() + seq![COMMA] + self.2.sql_text() + seq![COMMA] + self.3.sql_text() + seq![COMMA] + self.4.sql_text() + seq![COMMA] + self.5.sql_text() + seq![COMMA] + self.6.sql_text(), seq![COMMA]);
        lemma_ascii_concat(self.0.sql_text() + seq![COMMA] + self.1.sql_text() + seq![COMMA] + self.2.sql_text() + seq![COMMA] + self.3.sql_text() + seq![COMMA] + self.4.sql_text() + seq![COMMA] + self.5.sql_text() + seq![COMMA] + self.6.sql_text() + seq![COMMA], self.7.sql_text());
        lemma_ascii_concat(self.0.sql_text() + seq![COMMA] + self.1.sql_text() + seq![COMMA] + self.2.sql_text() + seq![COMMA] + self.3.sql_text() + seq![COMMA] + self.4.sql_text() + seq![COMMA] + self.5.sql_text() + seq![COMMA] + self.6.sql_text() + seq![COMMA] + self.7.sql_text(), seq![COMMA]);
        lemma_ascii_concat(self.0.sql_text() + seq![COMMA] + self.1.sql_text() + seq![COMMA] + self.2.sql_text() + seq![COMMA] + self.3.sql_text() + seq![COMMA] + self.4.sql_text() + seq![COMMA] + self.5.sql_text() + seq![COMMA] + self.6.sql_text() + seq![COMMA] + self.7.sql_text() + seq![COMMA], self.8.sql_text());
        lemma_ascii_concat(self.0.sql_text() + seq![COMMA] + self.1.sql_text() + seq![COMMA] + self.2.sql_text() + seq![COMMA] + self.3.sql_text() + seq![COMMA] + self.4.sql_text() + seq![COMMA] + self.5.sql_text() + seq![COMMA] + self.6.sql_text() + seq![COMMA] + self.7.sql_text() + seq![COMMA] + self.8.sql_text(), seq![COMMA]);
        lemma_ascii_concat(self.0.sql_text() + seq![COMMA] + self.1.sql_text() + seq![COMMA] + self.2.sql_text() + seq![COMMA] + self.3.sql_text() + seq![COMMA] + self.4.sql_text() + seq![COMMA] + self.5.sql_text() + seq![COMMA] + self.6.sql_text() + seq![COMMA] + self.7.sql_text() + seq![COMMA] + self.8.sql_text() + seq![COMMA], self.9.sql_text());
        lemma_ascii_concat(self.0.sql_text() + seq![COMMA] + self.1.sql_text() + seq![COMMA] + self.2.sql_text() + seq![COMMA] + self.3.sql_text() + seq![COMMA] + self.4.sql_text() + seq![COMMA] + self.5.sql_text() + seq![COMMA] + self.6.sql_text() + seq![COMMA] + self.7.sql_text() + seq![COMMA] + self.8.sql_text() + seq![COMMA] + self.9.sql_text(), seq![COMMA]);
        lemma_ascii_concat(self.0.sql_text() + seq![COMMA] + self.1.sql_text() + seq![COMMA] + self.2.sql_text() + seq![COMMA] + self.3.sql_text() + seq![COMMA] + self.4.sql_text() + seq![COMMA] + self.5.sql_text() + seq![COMMA] + self.6.sql_text() + seq![COMMA] + self.7.sql_text() + seq![COMMA] + self.8.sql_text() + seq![COMMA] + self.9.sql_text() + seq![COMMA], self.10.sql_text());
        lemma_ascii_concat(self.0.sql_text() + seq![COMMA] + self.1.sql_text() + seq![COMMA] + self.2.sql_text() + seq![COMMA] + self.3.sql_text() + seq![COMMA] + self.4.sql_text() + seq![COMMA] + self.5.sql_text() + seq![COMMA] + self.6.sql_text() + seq![COMMA] + self.7.sql_text() + seq![COMMA] + self.8.sql_text() + seq![COMMA] + self.9.sql_text() + seq![COMMA] + self.10.sql_text(), seq![COMMA]);
        lemma_ascii_concat(self.0.sql_text() + seq![COMMA] + self.1.sql_text() + seq![COMMA] + self.2.sql_text() + seq![COMMA] + self.3.sql_text() + seq![COMMA] + self.4.sql_text() + seq![COMMA] + self.5.sql_text() + seq![COMMA] + self.6.sql_text() + seq![COMMA] + self.7.sql_text() + seq![COMMA] + self.8.sql_text() + seq![COMMA] + self.9.sql_text() + seq![COMMA] + self.10.sql_text() + seq![COMMA], self.11.sql_text());
    }

    #[verifier::rlimit(100)]
    fn write_sql_expression(&self, sql: &mut Sql) {
        self.0.write_sql_expression(sql);
        proof {
            assert(sql@.text =~= old(sql)@.text + (self.0.sql_text()));
        }
        sql.comma();
        proof {
            assert(sql@.text =~= old(sql)@.text + (self.0.sql_text() + seq![COMMA]));
        }
        self.1.write_sql_expression(sql);
        proof {
            assert(sql@.text =~= old(sql)@.text + (self.0.sql_text() + seq![COMMA] + self.1.sql_text()));
        }
        sql.comma();
        proof {
            assert(sql@.text =~= old(sql)@.text + (self.0.sql_text() + seq![COMMA] + self.1.sql_text() + seq![COMMA]));
        }
        self.2.write_sql_expression(sql);
        proof {
            assert(sql@.text =~= old(sql)@.text + (self.0.sql_text() + seq![COMMA] + self.1.sql_text() + seq![COMMA] + self.2.sql_text()));
        }
        sql.comma();
        proof {
            assert(sql@.text =~= old(sql)@.text + (self.0.sql_text() + seq![COMMA] + self.1.sql_text() + seq![COMMA] + self.2.sql_text() + seq![COMMA]));
        }
        self.3.write_sql_expression(sql);
        proof {
            assert(sql@.text =~= old(sql)@.text + (self.0.sql_text() + seq![COMMA] + self.1.sql_text() + seq![COMMA] + self.2.sql_text() + seq![COMMA] + self.3.sql_text()));
        }
        sql.comma();
        proof {
            assert(sql@.text =~= old(sql)@.text + (self.0.sql_text() + seq![COMMA] + self.1.sql_text() + seq![COMMA] + self.2.sql_text() + seq![COMMA] + self.3.sql_text() + seq![COMMA]));
        }
        self.4.write_sql_expression(sql);
        proof {
            assert(sql@.text =~= old(sql)@.text + (self.0.sql_text() + seq![COMMA] + self.1.sql_text() + seq![COMMA] + self.2.sql_text() + seq![COMMA] + self.3.sql_text() + seq![COMMA] + self.4.sql_text()));
        }
        sql.comma();
        proof {
            assert(sql@.text =~= old(sql)@.text + (self.0.sql_text() + seq![COMMA] + self.1.sql_text() + seq![COMMA] + self.2.sql_text() + seq![COMMA] + self.3.sql_text() + seq![COMMA] + self.4.sql_text() + seq![COMMA]));
        }
        self.5.write_sql_expression(sql);
        proof {
            assert(sql@.text =~= old(sql)@.text + (self.0.sql_text() + seq![COMMA] + self.1.sql_text() + seq![COMMA] + self.2.sql_text() + seq![COMMA] + self.3.sql_text() + seq![COMMA] + self.4.sql_text() + seq![COMMA] + self.5.sql_text()));
        }
        sql.comma();
        proof {
            assert(sql@.text =~= old(sql)@.text + (self.0.sql_text() + seq![COMMA] + self.1.sql_text() + seq![COMMA] + self.2.sql_text() + seq![COMMA] + self.3.sql_text() + seq![COMMA] + self.4.sql_text() + seq![COMMA] + self.5.sql_text() + seq![COMMA]));
        }
        self.6.write_sql_expression(sql);
        proof {
            assert(sql@.text =~= old(sql)@.text + (self.0.sql_text() + seq![COMMA] + self.1.sql_text() + seq![COMMA] + self.2.sql_text() + seq![COMMA] + self.3.sql_text() + seq![COMMA] + self.4.sql_text() + seq![COMMA] + self.5.sql_text() + seq![COMMA] + self.6.sql_text()));
        }
        sql.comma();
        proof {
            assert(sql@.text =~= old(sql)@.text + (self.0.sql_text() + seq![COMMA] + self.1.sql_text() + seq![COMMA] + self.2.sql_text() + seq![COMMA] + self.3.sql_text() + seq![COMMA] + self.4.sql_text() + seq![COMMA] + self.5.sql_text() + seq![COMMA] + self.6.sql_text() + seq![COMMA]));
        }
        self.7.write_sql_expression(sql);
        proof {
            assert(sql@.text =~= old(sql)@.text + (self.0.sql_text() + seq![COMMA] + self.1.sql_text() + seq![COMMA] + self.2.sql_text() + seq![COMMA] + self.3.sql_text() + seq![COMMA] + self.4.sql_text() + seq![COMMA] + self.5.sql_text() + seq![COMMA] + self.6.sql_text() + seq![COMMA] + self.7.sql_text()));
        }
        sql.comma();
        proof {
            assert(sql@.text =~= old(sql)@.text + (self.0.sql_text() + seq![COMMA] + self.1.sql_text() + seq![COMMA] + self.2.sql_text() + seq![COMMA] + self.3.sql_text() + seq![COMMA] + self.4.sql_text() + seq![COMMA] + self.5.sql_text() + seq![COMMA] + self.6.sql_text() + seq![COMMA] + self.7.sql_text() + seq![COMMA]));
        }
        self.8.write_sql_expression(sql);
        proof {
            assert(sql@.text =~= old(sql)@.text + (self.0.sql_text() + seq![COMMA] + self.1.sql_text() + seq![COMMA] + self.2.sql_text() + seq![COMMA] + self.3.sql_text() + seq![COMMA] + self.4.sql_text() + seq![COMMA] + self.5.sql_text() + seq![COMMA] + self.6.sql_text() + seq![COMMA] + self.7.sql_text() + seq![COMMA] + self.8.sql_text()));
        }
        sql.comma();
        proof {
            assert(sql@.text =~= old(sql)@.text + (self.0.sql_text() + seq![COMMA] + self.1.sql_text() + seq![COMMA] + self.2.sql_text() + seq![COMMA] + self.3.sql_text() + seq![COMMA] + self.4.sql_text() + seq![COMMA] + self.5.sql_text() + seq![COMMA] + self.6.sql_text() + seq![COMMA] + self.7.sql_text() + seq![COMMA] + self.8.sql_text() + seq![COMMA]));
        }
        self.9.write_sql_expression(sql);
        proof {
            assert(sql@.text =~= old(sql)@.text + (self.0.sql_text() + seq![COMMA] + self.1.sql_text() + seq![COMMA] + self.2.sql_text() + seq![COMMA] + self.3.sql_text() + seq![COMMA] + self.4.sql_text() + seq![COMMA] + self.5.sql_text() + seq![COMMA] + self.6.sql_text() + seq![COMMA] + self.7.sql_text() + seq![COMMA] + self.8.sql_text() + seq![COMMA] + self.9.sql_text()));
        }
        sql.comma();
        proof {
            assert(sql@.text =~= old(sql)@.text + (self.0.sql_text() + seq![COMMA] + self.1.sql_text() + seq![COMMA] + self.2.sql_text() + seq![COMMA] + self.3.sql_text() + seq![COMMA] + self.4.sql_text() + seq![COMMA] + self.5.sql_text() + seq![COMMA] + self.6.sql_text() + seq![COMMA] + self.7.sql_text() + seq![COMMA] + self.8.sql_text() + seq![COMMA] + self.9.sql_text() + seq![COMMA]));
        }
        self.10.write_sql_expression(sql);
        proof {
            assert(sql@.text =~= old(sql)@.text + (self.0.sql_text() + seq![COMMA] + self.1.sql_text() + seq![COMMA] + self.2.sql_text() + seq![COMMA] + self.3.sql_text() + seq![COMMA] + self.4.sql_text() + seq![COMMA] + self.5.sql_text() + seq![COMMA] + self.6.sql_text() + seq![COMMA] + self.7.sql_text() + seq![COMMA] + self.8.sql_text() + seq![COMMA] + self.9.sql_text() + seq![COMMA] + self.10.sql_text()));
        }
        sql.comma();
        proof {
            assert(sql@.text =~= old(sql)@.text + (self.0.sql_text() + seq![COMMA] + self.1.sql_text() + seq![COMMA] + self.2.sql_text() + seq![COMMA] + self.3.sql_text() + seq![COMMA] + self.4.sql_text() + seq![COMMA] + self.5.sql_text() + seq![COMMA] + self.6.sql_text() + seq![COMMA] + self.7.sql_text() + seq![COMMA] + self.8.sql_text() + seq![COMMA] + self.9.sql_text() + seq![COMMA] + self.10.sql_text() + seq![COMMA]));
        }
        self.11.write_sql_expression(sql);
        proof {
            assert(sql@.text =~= old(sql)@.text + (self.0.sql_text() + seq![COMMA] + self.1.sql_text() + seq![COMMA] + self.2.sql_text() + seq![COMMA] + self.3.sql_text() + seq![COMMA] + self.4.sql_text() + seq![COMMA] + self.5.sql_text() + seq![COMMA] + self.6.sql_text() + seq![COMMA] + self.7.sql_text() + seq![COMMA] + self.8.sql_text() + seq![COMMA] + self.9.sql_text() + seq![COMMA] + self.10.sql_text() + seq![COMMA] + self.11.sql_text()));
        }
    }
}

} // verus!
