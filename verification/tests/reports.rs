use erp::decimal::{decimal_to_string, push_decimal, push_int};
use erp::err::ErpError;
use erp::routes;
use erp::{Classificacao, Entry, Report};
use uuid::Uuid;

fn entry(valor: i64, dia: i32, class: Classificacao) -> Entry {
    Entry::new(Uuid::nil(), valor, dia, class, Some(1), None)
}

fn sample() -> Vec<Entry> {
    vec![
        entry(10000, 5, Classificacao::Receita),
        entry(4000, 10, Classificacao::Custo),
        entry(1000, 20, Classificacao::Despesa),
    ]
}

fn failure() -> postgres::Error {
    match "port=none".parse::<postgres::Config>() {
        Err(e) => e,
        Ok(_) => panic!("the settings should not parse"),
    }
}

#[test]
fn window_takes_days_five_and_ten_and_leaves_twenty() {
    let report = Report::generate(Ok(sample()), 10, 10).expect("a report");
    assert_eq!(report.receitas(), 10000);
    assert_eq!(report.custos(), 4000);
    assert_eq!(report.despesas(), 0);
    assert_eq!(report.saldo_atual(), 5000);
    assert_eq!(report.total_saidas(), 4000);
    assert_eq!(report.saldo_inicial(), -1000);
}

#[test]
fn window_is_open_below_and_closed_above() {
    let entries = vec![
        entry(1, 0, Classificacao::Receita),
        entry(10, 1, Classificacao::Receita),
        entry(100, 10, Classificacao::Receita),
        entry(1000, 11, Classificacao::Receita),
    ];
    let report = Report::of_entries(&entries, 10, 10);
    assert_eq!(report.receitas(), 110);
    assert_eq!(report.saldo_atual(), 1111);
    let one_day = Report::of_entries(&entries, 10, 1);
    assert_eq!(one_day.receitas(), 100);
    let none = Report::of_entries(&entries, 10, 0);
    assert_eq!(none.receitas(), 0);
    assert_eq!(none.saldo_atual(), 1111);
}

#[test]
fn opening_balance_and_flow_give_the_current_balance() {
    for (dia, periodo) in [(10, 10), (20, 5), (30, 30), (5, 1), (-3, 7)] {
        let report = Report::of_entries(&sample(), dia, periodo);
        assert_eq!(
            report.saldo_inicial() + report.receitas() - report.custos() - report.despesas(),
            report.saldo_atual()
        );
    }
}

#[test]
fn totals_do_not_overflow_at_the_extremes() {
    let entries = vec![
        entry(i64::MAX, 1, Classificacao::Receita),
        entry(i64::MAX, 1, Classificacao::Receita),
        entry(i64::MIN, 1, Classificacao::Custo),
        entry(i64::MIN, 40, Classificacao::Despesa),
    ];
    let report = Report::of_entries(&entries, i32::MAX, i32::MIN);
    assert_eq!(report.receitas(), 0);
    let report = Report::of_entries(&entries, 30, 30);
    assert_eq!(report.receitas(), 2 * (i64::MAX as i128));
    assert_eq!(report.custos(), i64::MIN as i128);
    assert_eq!(report.despesas(), 0);
    assert_eq!(report.saldo_atual(), 2 * (i64::MAX as i128) - 2 * (i64::MIN as i128));
    assert_eq!(report.saldo_inicial(), -(i64::MIN as i128));
}

#[test]
fn empty_or_failed_fetch_gives_no_report() {
    assert!(matches!(Report::generate(Ok(Vec::new()), 10, 10), Err(ErpError::NotFound)));
    assert!(matches!(Report::generate(Err(failure()), 10, 10), Err(ErpError::Postgres(_))));
    assert!(matches!(routes::get_report(Ok(Vec::new()), 10, 10), Err(ErpError::NotFound)));
    assert!(matches!(routes::get_report(Err(failure()), 10, 10), Err(ErpError::Postgres(_))));
}

const EXPECTED: &str = "
            FLUXO DE CAIXA DO DIA 10 NO PERIODO DE 10 DIA(S)

            SALDO INICIAL: -10.00
            
            TOTAL DESPESAS: 0.00
            TOTAL CUSTOS: 40.00
            TOTAL DAS SAÍDAS: 40.00
            
            TOTAL RECEITAS: 100.00
            TOTAL DAS ENTRADAS: 100.00

            SALDO ATUAL: 50.00
            ";

#[test]
fn report_prints_every_figure_with_two_places() {
    let report = Report::of_entries(&sample(), 10, 10);
    assert_eq!(report.print(10, 10), EXPECTED);
}

#[test]
fn get_report_prints_the_generated_report() {
    let text = routes::get_report(Ok(sample()), 10, 10).expect("a report");
    assert_eq!(text, EXPECTED);
}

#[test]
fn decimal_text_has_sign_whole_part_and_two_digits() {
    assert_eq!(decimal_to_string(0), "0.00");
    assert_eq!(decimal_to_string(5), "0.05");
    assert_eq!(decimal_to_string(-5), "-0.05");
    assert_eq!(decimal_to_string(1337), "13.37");
    assert_eq!(decimal_to_string(-1337), "-13.37");
    assert_eq!(decimal_to_string(100), "1.00");
    assert_eq!(decimal_to_string(-99), "-0.99");
    assert_eq!(decimal_to_string(1234567890), "12345678.90");
    assert_eq!(
        decimal_to_string(i128::MAX),
        "1701411834604692317316873037158841057.27"
    );
    assert_eq!(
        decimal_to_string(i128::MIN),
        "-1701411834604692317316873037158841057.28"
    );
}

#[test]
fn numbers_are_appended_to_the_text() {
    let mut text = String::from("dia ");
    push_int(&mut text, -25);
    text.push_str(": ");
    push_decimal(&mut text, 1337);
    assert_eq!(text, "dia -25: 13.37");
    let mut text = String::new();
    push_int(&mut text, 0);
    push_int(&mut text, i128::MIN);
    assert_eq!(text, format!("0{}", i128::MIN));
}

#[test]
fn help_lists_the_routes() {
    let text = routes::help();
    assert!(text.starts_with("\n        USAGE:\n\n        GET /lancamento/ "));
    assert!(text.contains("PUT /lancamento/delete?id=      Deleta um lançamento"));
    assert!(text.ends_with("\"origem\": 2\n        }\n        "));
    assert_eq!(text.lines().count(), 19);
}
