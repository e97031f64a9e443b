//! The statements that the library asks its caller to run on the database.

use crate::Classificacao;
use uuid::Uuid;
use vstd::prelude::*;

verus! {

/// One value bound to a placeholder of a statement.
#[derive(Debug, Clone, Copy, PartialEq, Eq)]
pub enum Param {
    /// A day or an account number.
    Inteiro(i32),
    /// An amount, in hundredths.
    Valor(i64),
    /// The kind of a ledger line.
    Classe(Classificacao),
    /// An account column that may be empty.
    Conta(Option<i32>),
    /// The identifier of an entry.
    Id(Uuid),
}

/// A statement and the values for its placeholders `$1`, `$2`, ... in order.
#[derive(Debug, PartialEq, Eq)]
pub struct Statement {
    pub sql: String,
    pub params: Vec<Param>,
}

} // verus!
