//! Cash-flow reports: totals by kind over a window of days, beside the
//! all-time balance.

use crate::decimal::{decimal_text, int_text, push_decimal, push_int};
use crate::err::{ErpError, Result};
use crate::{found, Classificacao, Entry};
use postgres::error::Error as PostgresError;
use vstd::prelude::*;

verus! {

/// Whether day `d` lies in the window of `periodo` days that ends on `dia`:
/// after `dia - periodo`, up to and including `dia`.
pub open spec fn na_janela(d: int, dia: int, periodo: int) -> bool {
    dia - periodo < d <= dia
}

/// The sum of the amounts of the entries of kind `class`.
pub open spec fn total(entries: Seq<Entry>, class: Classificacao) -> int
    decreases entries.len(),
{
    if entries.len() == 0 {
        0
    } else {
        let e = entries.last();
        total(entries.drop_last(), class) + if e.class == class {
            e.valor as int
        } else {
            0
        }
    }
}

/// The sum of the amounts of the entries of kind `class` whose day lies in
/// the window.
pub open spec fn total_janela(
    entries: Seq<Entry>,
    class: Classificacao,
    dia: int,
    periodo: int,
) -> int
    decreases entries.len(),
{
    if entries.len() == 0 {
        0
    } else {
        let e = entries.last();
        total_janela(entries.drop_last(), class, dia, periodo) + if e.class == class && na_janela(
            e.dia as int,
            dia,
            periodo,
        ) {
            e.valor as int
        } else {
            0
        }
    }
}

/// The all-time balance: what came in less what went out.
pub open spec fn saldo(entries: Seq<Entry>) -> int {
    total(entries, Classificacao::Receita) - total(entries, Classificacao::Custo) - total(
        entries,
        Classificacao::Despesa,
    )
}

/// The four figures of a report, as mathematical integers (hundredths).
pub ghost struct ReportView {
    pub saldo_atual: int,
    pub receitas: int,
    pub custos: int,
    pub despesas: int,
}

impl ReportView {
    /// Everything that left in the window.
    pub open spec fn total_saidas(self) -> int {
        self.despesas + self.custos
    }

    /// The balance before the window's flow: the current balance, less what
    /// came in, plus what went out.
    pub open spec fn saldo_inicial(self) -> int {
        self.saldo_atual - self.receitas + self.total_saidas()
    }
}

/// The report that `entries` give for the window of `periodo` days ending on `dia`.
pub open spec fn relatorio(entries: Seq<Entry>, dia: int, periodo: int) -> ReportView {
    ReportView {
        saldo_atual: saldo(entries),
        receitas: total_janela(entries, Classificacao::Receita, dia, periodo),
        custos: total_janela(entries, Classificacao::Custo, dia, periodo),
        despesas: total_janela(entries, Classificacao::Despesa, dia, periodo),
    }
}

/// The largest magnitude that one amount can have.
pub open spec fn limite() -> int {
    0x8000_0000_0000_0000
}

/// Every figure of a report, and every figure derived from it, is bounded by
/// the number of entries times the largest amount.
pub proof fn lemma_relatorio_limitado(entries: Seq<Entry>, dia: int, periodo: int)
    ensures
        ({
            let r = relatorio(entries, dia, periodo);
            let b = entries.len() * limite();
            &&& -b <= r.saldo_atual <= b
            &&& -b <= r.receitas <= b
            &&& -b <= r.custos <= b
            &&& -b <= r.despesas <= b
            &&& -b <= r.total_saidas() <= b
            &&& -b <= r.saldo_inicial() <= b
            &&& -b <= total(entries, Classificacao::Receita) <= b
            &&& -b <= total(entries, Classificacao::Custo) + total(entries, Classificacao::Despesa)
                <= b
        }),
    decreases entries.len(),
{
    if entries.len() > 0 {
        lemma_relatorio_limitado(entries.drop_last(), dia, periodo);
        assert((entries.len() - 1) * limite() + limite() == entries.len() * limite())
            by (nonlinear_arith);
    }
}

/// A cash-flow summary: the all-time balance and the window's totals by kind.
///
/// A report is only ever made by [`Report::generate`], so its figures are
/// those of some collection of entries and the derived figures fit the
/// machine's widest integer.
#[derive(Debug)]
pub struct Report {
    saldo_atual: i128,
    receitas: i128,
    custos: i128,
    despesas: i128,
}

impl View for Report {
    type V = ReportView;

    closed spec fn view(&self) -> ReportView {
        ReportView {
            saldo_atual: self.saldo_atual as int,
            receitas: self.receitas as int,
            custos: self.custos as int,
            despesas: self.despesas as int,
        }
    }
}

impl Report {
    #[verifier::type_invariant]
    spec fn cabe(self) -> bool {
        &&& i128::MIN <= self@.total_saidas() <= i128::MAX
        &&& i128::MIN <= self@.saldo_inicial() <= i128::MAX
    }

    /// The report for the window of `periodo` days that ends on `dia`, given
    /// the driver's answer to a fetch of every entry.
    ///
    /// A failed or empty fetch comes back as the fetch would report it;
    /// otherwise the report summarises the rows.
    pub fn generate(
        fetched: std::result::Result<Vec<Entry>, PostgresError>,
        dia: i32,
        periodo: i32,
    ) -> (r: Result<Self>)
        ensures
            match found(fetched) {
                Ok(entries) => r matches Ok(report) && report@ == relatorio(
                    entries@,
                    dia as int,
                    periodo as int,
                ),
                Err(e) => r matches Err(err) && err == e,
            },
    {
        match Entry::get_all(fetched) {
            Ok(entries) => Ok(Self::of_entries(&entries, dia, periodo)),
            Err(e) => Err(e),
        }
    }

    /// Summarises `entries` for the window of `periodo` days that ends on `dia`.
    ///
    /// The three totals count only the entries whose day lies in the window;
    /// the balance counts every entry.
    pub fn of_entries(entries: &Vec<Entry>, dia: i32, periodo: i32) -> (r: Self)
        ensures
            r@ == relatorio(entries@, dia as int, periodo as int),
    {
        let fim: i64 = dia as i64;
        let inicio: i64 = dia as i64 - periodo as i64;
        let mut receitas: i128 = 0;
        let mut custos: i128 = 0;
        let mut despesas: i128 = 0;
        let mut total_saidas: i128 = 0;
        let mut total_entradas: i128 = 0;
        let n: usize = entries.len();
        let mut i: usize = 0;
        while i < n
            invariant
                i <= n,
                n == entries@.len(),
                fim == dia as int,
                inicio == dia - periodo,
                receitas == total_janela(
                    entries@.take(i as int),
                    Classificacao::Receita,
                    dia as int,
                    periodo as int,
                ),
                custos == total_janela(
                    entries@.take(i as int),
                    Classificacao::Custo,
                    dia as int,
                    periodo as int,
                ),
                despesas == total_janela(
                    entries@.take(i as int),
                    Classificacao::Despesa,
                    dia as int,
                    periodo as int,
                ),
                total_entradas == total(entries@.take(i as int), Classificacao::Receita),
                total_saidas == total(entries@.take(i as int), Classificacao::Custo) + total(
                    entries@.take(i as int),
                    Classificacao::Despesa,
                ),
            decreases n - i,
        {
            let e = &entries[i];
            proof {
                let antes = entries@.take(i as int);
                let depois = entries@.take(i + 1);
                assert(depois.drop_last() == antes);
                assert(depois.last() == *e);
                lemma_relatorio_limitado(antes, dia as int, periodo as int);
                lemma_relatorio_limitado(depois, dia as int, periodo as int);
                lemma_limite_cabe(depois.len());
            }
            let dentro: bool = inicio < e.dia as i64 && e.dia as i64 <= fim;
            match e.class {
                Classificacao::Receita => {
                    total_entradas = total_entradas + e.valor as i128;
                    if dentro {
                        receitas = receitas + e.valor as i128;
                    }
                },
                Classificacao::Custo => {
                    total_saidas = total_saidas + e.valor as i128;
                    if dentro {
                        custos = custos + e.valor as i128;
                    }
                },
                Classificacao::Despesa => {
                    total_saidas = total_saidas + e.valor as i128;
                    if dentro {
                        despesas = despesas + e.valor as i128;
                    }
                },
            }
            i = i + 1;
        }
        proof {
            assert(entries@.take(n as int) == entries@);
            lemma_relatorio_limitado(entries@, dia as int, periodo as int);
            lemma_limite_cabe(entries@.len());
        }
        let saldo_atual: i128 = total_entradas - total_saidas;
        Report { saldo_atual, receitas, custos, despesas }
    }

    /// The all-time balance.
    pub fn saldo_atual(&self) -> (v: i128)
        ensures
            v == self@.saldo_atual,
    {
        self.saldo_atual
    }

    /// What came in during the window.
    pub fn receitas(&self) -> (v: i128)
        ensures
            v == self@.receitas,
    {
        self.receitas
    }

    /// The costs of the window.
    pub fn custos(&self) -> (v: i128)
        ensures
            v == self@.custos,
    {
        self.custos
    }

    /// The expenses of the window.
    pub fn despesas(&self) -> (v: i128)
        ensures
            v == self@.despesas,
    {
        self.despesas
    }

    /// Everything that left in the window: expenses and costs.
    pub fn total_saidas(&self) -> (v: i128)
        ensures
            v == self@.total_saidas(),
    {
        proof {
            use_type_invariant(self);
        }
        self.despesas + self.custos
    }

    /// The balance before the window's flow.
    pub fn saldo_inicial(&self) -> (v: i128)
        ensures
            v == self@.saldo_inicial(),
            v + self@.receitas - self@.custos - self@.despesas == self@.saldo_atual,
    {
        proof {
            use_type_invariant(self);
        }
        let total_saidas: i128 = self.despesas + self.custos;
        // The result fits, but a partial sum may not: where the two terms
        // pull the same way their difference is taken first.
        if (self.receitas >= 0) == (total_saidas >= 0) {
            self.saldo_atual + (total_saidas - self.receitas)
        } else {
            self.saldo_atual - self.receitas + total_saidas
        }
    }

    /// The report as text, for the window of `periodo` days that ends on `dia`.
    pub fn print(self, dia: i32, periodo: i32) -> (text: String)
        ensures
            text@ == report_text(self@, dia as int, periodo as int),
    {
        let total_entradas = self.receitas();
        let total_saidas = self.total_saidas();
        let saldo_inicial = self.saldo_inicial();
        let mut s = "\n            FLUXO DE CAIXA DO DIA ".to_owned();
        push_int(&mut s, dia as i128);
        s.append(" NO PERIODO DE ");
        push_int(&mut s, periodo as i128);
        s.append(" DIA(S)\n\n            SALDO INICIAL: ");
        push_decimal(&mut s, saldo_inicial);
        s.append("\n            \n            TOTAL DESPESAS: ");
        push_decimal(&mut s, self.despesas);
        s.append("\n            TOTAL CUSTOS: ");
        push_decimal(&mut s, self.custos);
        s.append("\n            TOTAL DAS SAÍDAS: ");
        push_decimal(&mut s, total_saidas);
        s.append("\n            \n            TOTAL RECEITAS: ");
        push_decimal(&mut s, self.receitas);
        s.append("\n            TOTAL DAS ENTRADAS: ");
        push_decimal(&mut s, total_entradas);
        s.append("\n\n            SALDO ATUAL: ");
        push_decimal(&mut s, self.saldo_atual);
        s.append("\n            ");
        s
    }
}

/// The text of a report: a heading with the day and the period, then the
/// opening balance, the expenses, the costs and their sum, the revenues and
/// their total, and the current balance, each amount with two decimal places.
pub open spec fn report_text(r: ReportView, dia: int, periodo: int) -> Seq<char> {
    "\n            FLUXO DE CAIXA DO DIA "@ + int_text(dia) + " NO PERIODO DE "@ + int_text(
        periodo,
    ) + " DIA(S)\n\n            SALDO INICIAL: "@ + decimal_text(r.saldo_inicial())
        + "\n            \n            TOTAL DESPESAS: "@ + decimal_text(r.despesas)
        + "\n            TOTAL CUSTOS: "@ + decimal_text(r.custos)
        + "\n            TOTAL DAS SAÍDAS: "@ + decimal_text(r.total_saidas())
        + "\n            \n            TOTAL RECEITAS: "@ + decimal_text(r.receitas)
        + "\n            TOTAL DAS ENTRADAS: "@ + decimal_text(r.receitas)
        + "\n\n            SALDO ATUAL: "@ + decimal_text(r.saldo_atual) + "\n            "@
}

/// The opening balance and the window's flow give back the current balance:
/// opening balance, plus revenues, less costs, less expenses.
pub proof fn lemma_saldo_reconstruido(r: ReportView)
    ensures
        r.saldo_inicial() + r.receitas - r.custos - r.despesas == r.saldo_atual,
{
}

/// A collection that fits in memory, times the largest amount, fits an `i128`.
proof fn lemma_limite_cabe(n: nat)
    requires
        n <= usize::MAX,
    ensures
        n * limite() <= i128::MAX,
        -(n * limite()) >= i128::MIN,
{
    assert(n * limite() <= 0xffff_ffff_ffff_ffff * limite()) by (nonlinear_arith)
        requires
            n <= 0xffff_ffff_ffff_ffff,
            limite() >= 0,
    ;
}

} // verus!
