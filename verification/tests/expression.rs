use const_sql::expression::{Sql, SqlExpression};
use const_sql::schema::{Column, Ident};

#[test]
fn test_concat() {
    let mut sql = Sql::default();
    sql.push_str("select");
    sql.spacing();
    sql.push_str("bla");
    let text = sql.into_str();
    assert_eq!(text, "select bla");
}

#[test]
fn identical_push_sequences_give_identical_results() {
    let build = || {
        let mut sql = Sql::default();
        sql.push_str("SELECT x FROM t WHERE y = ");
        sql.push_binding("$1");
        sql.spacing();
        sql.push_u64(42);
        (sql.bindings(), sql.into_str())
    };
    assert_eq!(build(), build());
}

#[test]
fn binding_counter_counts_placeholder_pushes() {
    let mut sql = Sql::default();
    assert_eq!(sql.bindings(), 0);
    sql.push_binding("?");
    sql.push_binding("?");
    sql.push_binding("?");
    assert_eq!(sql.bindings(), 3);
    assert_eq!(sql.into_str(), "???");
}

#[test]
fn push_sql_appends_text_and_adds_bindings() {
    let mut clause = Sql::default();
    clause.push_str("x = ");
    clause.push_binding("$1");
    let mut sql = Sql::default();
    sql.push_str("WHERE ");
    sql.push_sql(&clause);
    assert_eq!(sql.bindings(), 1);
    assert_eq!(sql.into_str(), "WHERE x = $1");
}

#[test]
fn punctuation_helpers_append_single_bytes() {
    let mut sql = Sql::default();
    sql.push_str("a");
    sql.comma();
    sql.push_str("b");
    sql.dot();
    sql.push(b'c');
    sql.spacing();
    assert_eq!(sql.into_str(), "a,b.c ");
}

#[test]
fn push_u64_renders_digits_most_significant_first() {
    let mut sql = Sql::default();
    sql.push_u64(1234567890);
    assert_eq!(sql.into_str(), "1234567890");
}

#[test]
fn push_u64_of_zero_appends_nothing() {
    let mut sql = Sql::default();
    sql.push_str("LIMIT ");
    sql.push_u64(0);
    assert_eq!(sql.into_str(), "LIMIT ");
}

#[test]
fn push_u64_handles_the_largest_value() {
    let mut sql = Sql::default();
    sql.push_u64(u64::MAX);
    assert_eq!(sql.into_str(), "18446744073709551615");
}

#[test]
fn default_array_gives_independent_empty_accumulators() {
    let mut batch = Sql::default_array(3);
    assert_eq!(batch.len(), 3);
    batch[0].push_str("first");
    assert_eq!(batch.remove(0).into_str(), "first");
    assert_eq!(batch.remove(0).into_str(), "");
    assert_eq!(batch.remove(0).bindings(), 0);
}

#[test]
fn two_element_sequence_joins_with_exactly_one_comma() {
    let table = Ident { name: "t", schema: "s" };
    let col_a = Column { name: "a", table };
    let col_b = Column { name: "b", table };
    let sql = vec![col_a, col_b].to_sql();
    assert_eq!(sql.into_str(), "t.a,t.b");
}

#[test]
fn singleton_sequence_has_no_comma() {
    let table = Ident { name: "t", schema: "s" };
    let sql = vec![Column { name: "a", table }].to_sql();
    assert_eq!(sql.into_str(), "t.a");
}

#[test]
fn tuples_join_elements_with_commas() {
    let table = Ident { name: "t", schema: "s" };
    let a = Column { name: "a", table };
    let b = Column { name: "b", table };
    let c = Column { name: "c", table };
    assert_eq!((a,).to_sql().into_str(), "t.a");
    assert_eq!((a, b).to_sql().into_str(), "t.a,t.b");
    assert_eq!((a, b, c).to_sql().into_str(), "t.a,t.b,t.c");
}

#[test]
fn fixed_size_arrays_join_like_sequences() {
    let table = Ident { name: "t", schema: "s" };
    let array = [Column { name: "a", table }, Column { name: "b", table }];
    assert_eq!(array.to_sql().into_str(), "t.a,t.b");
}

#[test]
fn accumulator_serializes_with_its_text_and_its_bindings() {
    let mut inner = Sql::default();
    inner.push_str("x > ");
    inner.push_binding("$2");
    let mut outer = Sql::default();
    outer.push_str("ON ");
    inner.write_sql_expression(&mut outer);
    assert_eq!(outer.bindings(), 1);
    assert_eq!(outer.into_str(), "ON x > $2");
}

#[test]
fn sequences_add_the_bindings_of_their_elements() {
    let mut first = Sql::default();
    first.push_binding("$1");
    let mut second = Sql::default();
    second.push_binding("$2");
    let list = vec![first, second];
    let sql = list.to_sql();
    assert_eq!(sql.bindings(), 2);
    assert_eq!(sql.into_str(), "$1,$2");
}
