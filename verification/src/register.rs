//! Drafts of entries: what makes one valid, and the statement that stores it.

use crate::err::{ErpError, Result};
use crate::statement::{Param, Statement};
use crate::Classificacao;
use postgres::error::Error as PostgresError;
use vstd::prelude::*;

verus! {

/// Whether an account column names an account: it is present and lies
/// between 1 and 10.
pub open spec fn conta_valida(conta: Option<i32>) -> bool {
    conta matches Some(c) && 1 <= c <= 10
}

/// The text that inserts a line with its origin.
pub open spec fn insert_origem_sql() -> Seq<char> {
    "INSERT INTO erp (valor, dia, class, origem) VALUES($1, $2, $3, $4)"@
}

/// The text that inserts a line with its destination.
pub open spec fn insert_destino_sql() -> Seq<char> {
    "INSERT INTO erp (valor, dia, class, destino) VALUES($1, $2, $3, $4)"@
}

/// A ledger line that has not been stored yet, and so has no identifier.
///
/// `valor` is the amount in hundredths.
#[derive(Debug, Clone, Copy, PartialEq, Eq)]
pub struct NewEntry {
    pub valor: i64,
    pub dia: i32,
    pub class: Classificacao,
    pub origem: Option<i32>,
    pub destino: Option<i32>,
}

impl NewEntry {
    /// Builds a draft from its fields.
    pub fn new(
        valor: i64,
        dia: i32,
        class: Classificacao,
        origem: Option<i32>,
        destino: Option<i32>,
    ) -> (e: Self)
        ensures
            e == (NewEntry { valor, dia, class, origem, destino }),
    {
        NewEntry { valor, dia, class, origem, destino }
    }

    /// A draft is valid where it names its origin or its destination, not
    /// both and not neither, that account lies between 1 and 10, and the day
    /// lies between 1 and 30.
    pub open spec fn valid(self) -> bool {
        &&& (self.origem is Some) != (self.destino is Some)
        &&& conta_valida(self.origem) || conta_valida(self.destino)
        &&& 1 <= self.dia <= 30
    }

    /// The values that go with an insertion: amount, day, kind and the
    /// account at hand.
    pub open spec fn insert_params(self, conta: Option<i32>) -> Seq<Param> {
        seq![
            Param::Valor(self.valor),
            Param::Inteiro(self.dia),
            Param::Classe(self.class),
            Param::Conta(conta),
        ]
    }

    /// The statement that stores the draft, if there is one: with the origin
    /// where the draft names one, else with the destination where it names
    /// one, else none.
    pub open spec fn insert(self) -> Option<(Seq<char>, Seq<Param>)> {
        if self.origem is Some {
            Some((insert_origem_sql(), self.insert_params(self.origem)))
        } else if self.destino is Some {
            Some((insert_destino_sql(), self.insert_params(self.destino)))
        } else {
            None
        }
    }

    /// Whether the draft is valid.
    pub fn is_valid(&self) -> (b: bool)
        ensures
            b == self.valid(),
    {
        let origem_ok = match self.origem {
            Some(c) => 1 <= c && c <= 10,
            None => false,
        };
        let destino_ok = match self.destino {
            Some(c) => 1 <= c && c <= 10,
            None => false,
        };
        self.origem.is_some() != self.destino.is_some() && (origem_ok || destino_ok) && 1
            <= self.dia && self.dia <= 30
    }

    /// The statement that stores the draft as a new line. It is for the
    /// caller to run it inside its transaction, and to commit.
    ///
    /// The draft is not checked here: a caller validates before it persists.
    /// A draft that names no account gives no statement.
    pub fn persist(&self) -> (st: Option<Statement>)
        ensures
            match self.insert() {
                Some((sql, params)) => st matches Some(s) && s.sql@ == sql && s.params@ == params,
                None => st is None,
            },
    {
        if self.origem.is_some() {
            Some(
                Statement {
                    sql: "INSERT INTO erp (valor, dia, class, origem) VALUES($1, $2, $3, $4)".to_owned(),
                    params: self.params_with(self.origem),
                },
            )
        } else if self.destino.is_some() {
            Some(
                Statement {
                    sql: "INSERT INTO erp (valor, dia, class, destino) VALUES($1, $2, $3, $4)".to_owned(),
                    params: self.params_with(self.destino),
                },
            )
        } else {
            None
        }
    }

    /// What storing a draft returns, given the driver's answer to the
    /// insertion: the driver's failure, else success.
    pub fn persisted(written: std::result::Result<u64, PostgresError>) -> (r: Result<()>)
        ensures
            r == match written {
                Err(e) => Err(ErpError::Postgres(e)),
                Ok(_) => Ok(()),
            },
    {
        match written {
            Err(e) => Err(ErpError::from(e)),
            Ok(_) => Ok(()),
        }
    }

    fn params_with(&self, conta: Option<i32>) -> (params: Vec<Param>)
        ensures
            params@ == self.insert_params(conta),
    {
        let mut params: Vec<Param> = Vec::new();
        params.push(Param::Valor(self.valor));
        params.push(Param::Inteiro(self.dia));
        params.push(Param::Classe(self.class));
        params.push(Param::Conta(conta));
        params
    }
}

/// A draft is valid exactly where it names one account, that account lies
/// between 1 and 10, and the day lies between 1 and 30. So a draft with both
/// accounts, with none, with an account out of range or with a day out of
/// range is invalid.
pub proof fn lemma_valid_exactly_one_account(e: NewEntry)
    ensures
        e.valid() <==> ({
            ||| e.origem is Some && e.destino is None && 1 <= e.origem.unwrap() <= 10
            ||| e.origem is None && e.destino is Some && 1 <= e.destino.unwrap() <= 10
        }) && 1 <= e.dia <= 30,
        e.origem is Some && e.destino is Some ==> !e.valid(),
        e.origem is None && e.destino is None ==> !e.valid(),
        e.origem is Some && !conta_valida(e.origem) ==> !e.valid(),
        e.destino is Some && !conta_valida(e.destino) ==> !e.valid(),
        !(1 <= e.dia <= 30) ==> !e.valid(),
{
}

/// A valid draft always has a statement that stores it, and the statement
/// binds the draft's amount, day and kind and the one account that it names.
pub proof fn lemma_valid_draft_is_stored(e: NewEntry)
    requires
        e.valid(),
    ensures
        e.insert() matches Some((sql, params)) && params == seq![
            Param::Valor(e.valor),
            Param::Inteiro(e.dia),
            Param::Classe(e.class),
            Param::Conta(
                if e.origem is Some {
                    e.origem
                } else {
                    e.destino
                },
            ),
        ] && sql == (if e.origem is Some {
            insert_origem_sql()
        } else {
            insert_destino_sql()
        }),
{
}

} // verus!
