use const_sql::expression::{Sql, SqlExpression};
use const_sql::query::select::from;
use const_sql::schema::{table_columns, Column, Ident, Table};

fn users_table() -> Table {
    let ident = Ident { name: "users", schema: "public" };
    Table {
        ident,
        all_columns: vec![
            Column { name: "id", table: ident },
            Column { name: "name", table: ident },
        ],
    }
}

#[test]
fn schema_nodes_serialize_as_dotted_names() {
    let ident = Ident { name: "users", schema: "public" };
    assert_eq!(ident.to_sql().into_str(), "public.users");
    let column = Column { name: "id", table: ident };
    assert_eq!(column.to_sql().into_str(), "users.id");
    assert_eq!(users_table().to_sql().into_str(), "public.users");
}

#[test]
fn table_columns_returns_the_column_list() {
    let columns = table_columns(users_table());
    assert_eq!(columns.len(), 2);
    assert_eq!(columns[0].name, "id");
    assert_eq!(columns[1].name, "name");
}

#[test]
fn select_without_clauses_has_no_offset_or_limit() {
    let statement = from(users_table());
    assert_eq!(
        statement.to_sql().into_str(),
        "SELECT users.id,users.name FROM public.users"
    );
}

#[test]
fn limit_appends_a_forward_decimal_clause() {
    let statement = from(users_table()).limit(10);
    assert_eq!(
        statement.to_sql().into_str(),
        "SELECT users.id,users.name FROM public.users LIMIT 10"
    );
}

#[test]
fn offset_comes_before_limit() {
    let statement = from(users_table()).offset(20).limit(10);
    assert_eq!(
        statement.to_sql().into_str(),
        "SELECT users.id,users.name FROM public.users OFFSET 20 LIMIT 10"
    );
}

#[test]
fn select_replaces_the_projection_list() {
    let ident = Ident { name: "users", schema: "public" };
    let id = Column { name: "id", table: ident };
    let name = Column { name: "name", table: ident };
    let statement = from(users_table()).select((name, id));
    assert_eq!(
        statement.to_sql().into_str(),
        "SELECT users.name,users.id FROM public.users"
    );
}

fn one_column_table(name: &'static str) -> Table {
    let ident = Ident { name, schema: "s" };
    Table { ident, all_columns: vec![Column { name: "x", table: ident }] }
}

#[test]
fn inner_join_with_explicit_predicate() {
    let mut predicate = Sql::default();
    predicate.push_str("a.x = b.x");
    let statement = from(one_column_table("a")).inner_join(one_column_table("b")).on(predicate);
    assert_eq!(
        statement.to_sql().into_str(),
        "SELECT a.x FROM s.a INNER JOIN s.b ON a.x = b.x"
    );
}

#[test]
fn left_join_uses_the_outer_keyword() {
    let mut predicate = Sql::default();
    predicate.push_str("a.x = b.x");
    let statement = from(one_column_table("a")).left_join(one_column_table("b")).on(predicate);
    assert_eq!(
        statement.to_sql().into_str(),
        "SELECT a.x FROM s.a LEFT OUTER JOIN s.b ON a.x = b.x"
    );
}

#[test]
fn using_join_lists_its_columns() {
    let b = one_column_table("b");
    let shared = Column { name: "x", table: b.ident };
    let statement = from(one_column_table("a")).cross_join(b).using((shared,));
    assert_eq!(
        statement.to_sql().into_str(),
        "SELECT a.x FROM s.a CROSS JOIN s.b USING b.x"
    );
}

#[test]
fn natural_join_writes_the_marker_and_no_condition() {
    let statement = from(one_column_table("a")).inner_join(one_column_table("b")).natural();
    assert_eq!(
        statement.to_sql().into_str(),
        "SELECT a.x FROM s.a NATURAL INNER JOIN s.b"
    );
}

#[test]
fn join_predicate_bindings_reach_the_statement_count() {
    let mut predicate = Sql::default();
    predicate.push_str("a.x = ");
    predicate.push_binding("$1");
    let statement = from(one_column_table("a")).inner_join(one_column_table("b")).on(predicate);
    let sql = statement.to_sql();
    assert_eq!(sql.bindings(), 1);
    assert_eq!(sql.into_str(), "SELECT a.x FROM s.a INNER JOIN s.b ON a.x = $1");
}

#[test]
fn projection_bindings_reach_the_statement_count() {
    let mut fragment = Sql::default();
    fragment.push_binding("$1");
    let statement = from(one_column_table("a")).select((fragment,));
    let sql = statement.to_sql();
    assert_eq!(sql.bindings(), 1);
    assert_eq!(sql.into_str(), "SELECT $1 FROM s.a");
}

#[test]
fn join_of_selects_nests_statements() {
    let inner = from(one_column_table("b")).limit(1);
    let mut predicate = Sql::default();
    predicate.push_str("a.x = b.x");
    let statement = from(one_column_table("a")).inner_join(inner).on(predicate);
    assert_eq!(
        statement.to_sql().into_str(),
        "SELECT a.x FROM s.a INNER JOIN SELECT b.x FROM s.b LIMIT 1 ON a.x = b.x"
    );
}
