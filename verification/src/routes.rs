//! What each request of the service decides, between the parsing of its
//! input and the calls to the database.

use crate::err::{ErpError, Result};
use crate::register::NewEntry;
use crate::reports::{relatorio, report_text, Report};
use crate::statement::Statement;
use crate::{found, Entry};
use postgres::error::Error as PostgresError;
use vstd::prelude::*;

verus! {

/// The text that describes the service's routes.
pub open spec fn help_text() -> Seq<char> {
    "
        USAGE:

        GET /lancamento/                Retorna todos lançamentos do último mês.
        GET /lancamento/?valor=         Retorna os lançamentos com um dado valor (float32).
        GET /lancamento/?dia=           Retorna os lançamentos em um dado dia (entre 1 e 30).
        GET /lancamento/?origem=        Retorna os lançamentos com uma dada origem (entre 1 e 10).
        GET /lancamento/?destino=       Retorna os lançamentos com um dado destino (entre 1 e 10).
        PUT /lancamento/delete?id=      Deleta um lançamento dado seu identificador UUID.
        POST /lancamento/               Insere um lançamento novo.

        O input para um novo lançamento é esperado no formato JSON, conforme o exemplo a seguir.
        {
           \"valor\": 13.37,
           \"dia\": 25,
           \"class\": \"Receita\",
           \"origem\": 2
        }
        "@
}

/// The usage text of the service.
pub fn help() -> (text: String)
    ensures
        text@ == help_text(),
{
    "
        USAGE:

        GET /lancamento/                Retorna todos lançamentos do último mês.
        GET /lancamento/?valor=         Retorna os lançamentos com um dado valor (float32).
        GET /lancamento/?dia=           Retorna os lançamentos em um dado dia (entre 1 e 30).
        GET /lancamento/?origem=        Retorna os lançamentos com uma dada origem (entre 1 e 10).
        GET /lancamento/?destino=       Retorna os lançamentos com um dado destino (entre 1 e 10).
        PUT /lancamento/delete?id=      Deleta um lançamento dado seu identificador UUID.
        POST /lancamento/               Insere um lançamento novo.

        O input para um novo lançamento é esperado no formato JSON, conforme o exemplo a seguir.
        {
           \"valor\": 13.37,
           \"dia\": 25,
           \"class\": \"Receita\",
           \"origem\": 2
        }
        ".to_owned()
}

/// Decides on a draft that came in: an invalid one is a bad request and
/// nothing is to be stored; a valid one gives the statement that stores it.
pub fn create_entry(new_entry: &NewEntry) -> (r: Result<Statement>)
    ensures
        !new_entry.valid() ==> r matches Err(ErpError::BadRequest),
        new_entry.valid() ==> (r matches Ok(st) && new_entry.insert() == Some(
            (st.sql@, st.params@),
        )),
{
    if !new_entry.is_valid() {
        return Err(ErpError::BadRequest);
    }
    match new_entry.persist() {
        Some(st) => Ok(st),
        None => Err(ErpError::BadRequest),
    }
}

/// The cash-flow report as text, for the window of `periodo` days that ends
/// on `dia`, given the driver's answer to a fetch of every entry.
pub fn get_report(
    fetched: std::result::Result<Vec<Entry>, PostgresError>,
    dia: i32,
    periodo: i32,
) -> (r: Result<String>)
    ensures
        match found(fetched) {
            Ok(entries) => r matches Ok(text) && text@ == report_text(
                relatorio(entries@, dia as int, periodo as int),
                dia as int,
                periodo as int,
            ),
            Err(e) => r matches Err(err) && err == e,
        },
{
    match Report::generate(fetched, dia, periodo) {
        Ok(report) => Ok(report.print(dia, periodo)),
        Err(e) => Err(e),
    }
}

} // verus!
