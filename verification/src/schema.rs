//! Schema leaf nodes of the expression protocol: identifiers, columns and
//! tables.  Each serializes as dotted ASCII text.

use vstd::prelude::*;
use vstd::string::StringSliceAdditionalSpecFns;

use crate::const_string::lemma_ascii_str_bytes;
use crate::expression::{lemma_ascii_concat, Sql, SqlExpression, DOT};

verus! {

/// A schema-qualified identifier, serialized as `schema.name`.
#[derive(Clone, Copy, Debug)]
pub struct Ident {
    pub name: &'static str,
    pub schema: &'static str,
}

impl SqlExpression for Ident {
    open spec fn wf_expr(&self) -> bool {
        self.schema.is_ascii() && self.name.is_ascii()
    }

    open spec fn sql_text(&self) -> Seq<u8> {
        self.schema.spec_bytes() + seq![DOT] + self.name.spec_bytes()
    }

    open spec fn sql_bindings(&self) -> nat {
        0
    }

    proof fn lemma_sql_text_ascii(&self) {
        lemma_ascii_str_bytes(self.schema);
        lemma_ascii_str_bytes(self.name);
        lemma_ascii_concat(self.schema.spec_bytes(), seq![DOT]);
        lemma_ascii_concat(self.schema.spec_bytes() + seq![DOT], self.name.spec_bytes());
    }

    fn write_sql_expression(&self, sql: &mut Sql) {
        proof {
            lemma_ascii_str_bytes(self.schema);
            lemma_ascii_str_bytes(self.name);
        }
        sql.push_str(self.schema);
        sql.dot();
        sql.push_str(self.name);
        proof {
            assert(sql@.text =~= old(sql)@.text + self.sql_text());
        }
    }
}

/// A column of a table, serialized as `table_name.column_name`.
#[derive(Clone, Copy, Debug)]
pub struct Column {
    pub name: &'static str,
    pub table: Ident,
}

impl SqlExpression for Column {
    open spec fn wf_expr(&self) -> bool {
        self.table.name.is_ascii() && self.name.is_ascii()
    }

    open spec fn sql_text(&self) -> Seq<u8> {
        self.table.name.spec_bytes() + seq![DOT] + self.name.spec_bytes()
    }

    open spec fn sql_bindings(&self) -> nat {
        0
    }

    proof fn lemma_sql_text_ascii(&self) {
        lemma_ascii_str_bytes(self.table.name);
        lemma_ascii_str_bytes(self.name);
        lemma_ascii_concat(self.table.name.spec_bytes(), seq![DOT]);
        lemma_ascii_concat(self.table.name.spec_bytes() + seq![DOT], self.name.spec_bytes());
    }

    fn write_sql_expression(&self, sql: &mut Sql) {
        proof {
            lemma_ascii_str_bytes(self.table.name);
            lemma_ascii_str_bytes(self.name);
        }
        sql.push_str(self.table.name);
        sql.dot();
        sql.push_str(self.name);
        proof {
            assert(sql@.text =~= old(sql)@.text + self.sql_text());
        }
    }
}

/// A table together with its column list; it serializes as its identifier.
#[derive(Clone, Debug)]
pub struct Table {
    pub ident: Ident,
    pub all_columns: Vec<Column>,
}

/// The column list of a table.
pub fn table_columns(table: Table) -> (r: Vec<Column>)
    ensures
        r == table.all_columns,
{
    table.all_columns
}

impl SqlExpression for Table {
    open spec fn wf_expr(&self) -> bool {
        self.ident.wf_expr()
    }

    open spec fn sql_text(&self) -> Seq<u8> {
        self.ident.sql_text()
    }

    open spec fn sql_bindings(&self) -> nat {
        self.ident.sql_bindings()
    }

    proof fn lemma_sql_text_ascii(&self) {
        self.ident.lemma_sql_text_ascii();
    }

    fn write_sql_expression(&self, sql: &mut Sql) {
        self.ident.write_sql_expression(sql);
    }
}

} // verus!
