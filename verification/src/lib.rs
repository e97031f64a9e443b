//! Ledger entries, their validation, and cash-flow reports over a window of days.
//!
//! Amounts are exact decimals with two places, held as a count of hundredths
//! (`centavos`) in an `i64`. The library never talks to the database itself:
//! it says which statement to run and what the driver's answer means.

use err::{ErpError, Result};
use postgres::error::Error as PostgresError;
use statement::{Param, Statement};
use uuid::Uuid;
use vstd::prelude::*;

pub mod database;
pub mod decimal;
pub mod err;
pub mod register;
pub mod reports;
pub mod routes;
pub mod statement;

pub use register::NewEntry;
pub use reports::Report;

verus! {

/// Declares `uuid::Uuid` so that an entry can carry its identifier.
/// Nothing is claimed of what it holds.
#[verifier::external_type_specification]
#[verifier::external_body]
pub struct ExUuid(Uuid);

/// The kind of a ledger line.
#[derive(Debug, Clone, Copy, PartialEq, Eq, Structural)]
pub enum Classificacao {
    Receita,
    Custo,
    Despesa,
}

/// A persisted ledger line.
///
/// `valor` is the amount in hundredths. A line that went through validation
/// names its origin or its destination, never both.
#[derive(Debug, Clone, Copy, PartialEq, Eq)]
pub struct Entry {
    pub id: Uuid,
    pub valor: i64,
    pub dia: i32,
    pub class: Classificacao,
    pub origem: Option<i32>,
    pub destino: Option<i32>,
}

impl Entry {
    /// Builds an entry from its fields.
    pub fn new(
        id: Uuid,
        valor: i64,
        dia: i32,
        class: Classificacao,
        origem: Option<i32>,
        destino: Option<i32>,
    ) -> (e: Self)
        ensures
            e == (Entry { id, valor, dia, class, origem, destino }),
    {
        Entry { id, valor, dia, class, origem, destino }
    }

    /// The statement that fetches every entry.
    pub fn select_all() -> (st: Statement)
        ensures
            st.sql@ == select_sql(),
            st.params@ == Seq::<Param>::empty(),
    {
        Statement {
            sql: "SELECT id, valor, dia, class, origem, destino FROM erp".to_owned(),
            params: Vec::new(),
        }
    }

    /// The statement that fetches the entries whose column `param` equals the
    /// given value: the integer where there is one, else the amount.
    ///
    /// `param` goes into the statement as it is. The caller keeps it to the
    /// names of the table's columns.
    pub fn select_by(param: &str, value_int: Option<i32>, value_decimal: Option<i64>) -> (st:
        Statement)
        requires
            value_int is Some || value_decimal is Some,
        ensures
            st.sql@ == select_sql() + " WHERE "@ + param@ + " = $1"@,
            st.params@ == seq![bound_value(value_int, value_decimal)],
    {
        let mut sql = "SELECT id, valor, dia, class, origem, destino FROM erp".to_owned();
        sql.append(" WHERE ");
        sql.append(param);
        sql.append(" = $1");
        let value = match value_int {
            Some(v) => Param::Inteiro(v),
            None => Param::Valor(value_decimal.unwrap()),
        };
        let mut params: Vec<Param> = Vec::new();
        params.push(value);
        Statement { sql, params }
    }

    /// What a fetch by column returns, given the driver's answer: the
    /// driver's failure, `NotFound` where no row matched, else the rows.
    pub fn get_by(fetched: std::result::Result<Vec<Entry>, PostgresError>) -> (r: Result<
        Vec<Entry>,
    >)
        ensures
            r == found(fetched),
    {
        Self::rows_or_not_found(fetched)
    }

    /// What a fetch of every entry returns, given the driver's answer: the
    /// driver's failure, `NotFound` where the table is empty, else the rows.
    pub fn get_all(fetched: std::result::Result<Vec<Entry>, PostgresError>) -> (r: Result<
        Vec<Entry>,
    >)
        ensures
            r == found(fetched),
    {
        Self::rows_or_not_found(fetched)
    }

    fn rows_or_not_found(fetched: std::result::Result<Vec<Entry>, PostgresError>) -> (r: Result<
        Vec<Entry>,
    >)
        ensures
            r == found(fetched),
    {
        match fetched {
            Err(e) => Err(ErpError::from(e)),
            Ok(rows) => {
                if rows.len() == 0 {
                    Err(ErpError::NotFound)
                } else {
                    Ok(rows)
                }
            },
        }
    }

    /// The statement that deletes the entry `id`.
    pub fn delete_by_id(id: Uuid) -> (st: Statement)
        ensures
            st.sql@ == "DELETE FROM erp WHERE id = $1"@,
            st.params@ == seq![Param::Id(id)],
    {
        let mut params: Vec<Param> = Vec::new();
        params.push(Param::Id(id));
        Statement { sql: "DELETE FROM erp WHERE id = $1".to_owned(), params }
    }

    /// What a deletion returns, given the driver's answer, which counts the
    /// rows that left: the driver's failure, `NotFound` where none left,
    /// else success.
    pub fn delete(deleted: std::result::Result<u64, PostgresError>) -> (r: Result<()>)
        ensures
            r == match deleted {
                Err(e) => Err(ErpError::Postgres(e)),
                Ok(n) => if n == 0 {
                    Err(ErpError::NotFound)
                } else {
                    Ok(())
                },
            },
    {
        match deleted {
            Err(e) => Err(ErpError::from(e)),
            Ok(n) => {
                if n == 0 {
                    Err(ErpError::NotFound)
                } else {
                    Ok(())
                }
            },
        }
    }
}

/// The text that selects every column of every entry.
pub open spec fn select_sql() -> Seq<char> {
    "SELECT id, valor, dia, class, origem, destino FROM erp"@
}

/// The value that a fetch by column compares with: the integer where there
/// is one, else the amount.
pub open spec fn bound_value(value_int: Option<i32>, value_decimal: Option<i64>) -> Param {
    match value_int {
        Some(v) => Param::Inteiro(v),
        None => Param::Valor(value_decimal.unwrap()),
    }
}

/// What a fetch returns for each answer of the driver.
pub open spec fn found(fetched: std::result::Result<Vec<Entry>, PostgresError>) -> Result<
    Vec<Entry>,
> {
    match fetched {
        Err(e) => Err(ErpError::Postgres(e)),
        Ok(rows) => if rows@.len() == 0 {
            Err(ErpError::NotFound)
        } else {
            Ok(rows)
        },
    }
}

/// A fetch never succeeds with nothing: where the driver hands back no row
/// the result is `NotFound`, and a successful result holds the driver's rows,
/// of which there is at least one.
pub proof fn lemma_found_never_empty(fetched: std::result::Result<Vec<Entry>, PostgresError>)
    ensures
        fetched matches Ok(rows) && rows@.len() == 0 ==> found(fetched) == Err::<
            Vec<Entry>,
            ErpError,
        >(ErpError::NotFound),
        found(fetched) matches Ok(rows) ==> rows@.len() > 0 && fetched == Ok::<
            Vec<Entry>,
            PostgresError,
        >(rows),
{
}

/// Two fetches that the driver answers alike return alike.
pub proof fn lemma_found_repeatable(
    first: std::result::Result<Vec<Entry>, PostgresError>,
    second: std::result::Result<Vec<Entry>, PostgresError>,
)
    requires
        first == second,
    ensures
        found(first) == found(second),
{
}

} // verus!
