use arima_console::catalog::Mode;
use arima_console::collector::{build_selection, Collector};
use arima_console::command::{
    cmd_to_string, extraction_command, forecast_command, has_space, join_with_commas, Tools,
};
use arima_console::selection::Selection;

fn tools() -> Tools {
    Tools {
        rscript: "Rscript".to_string(),
        rfile: "datasus_export_tabnet_csv.R".to_string(),
        python: "python".to_string(),
        pyfile: "ccnt2.py".to_string(),
        out_dir: "resultados".to_string(),
    }
}

fn selection(granularity: usize, months: Option<(i32, i32)>, folder: &str) -> Selection {
    let mut c = Collector::new();
    assert_eq!(c.answer_choice(24), Ok(()));
    assert_eq!(c.answer_choice(0), Ok(()));
    assert_eq!(c.answer_choice(granularity), Ok(()));
    assert_eq!(c.answer_choice(1), Ok(()));
    assert_eq!(c.answer_integer(2016), Ok(()));
    assert_eq!(c.answer_integer(2019), Ok(()));
    if let Some((first, last)) = months {
        assert_eq!(c.answer_integer(first), Ok(()));
        assert_eq!(c.answer_integer(last), Ok(()));
    }
    assert_eq!(c.answer_integer(3), Ok(()));
    assert_eq!(c.answer_real("0.95".to_string()), Ok(()));
    build_selection(&c, folder).unwrap()
}

fn strings(items: &[&str]) -> Vec<String> {
    items.iter().map(|s| s.to_string()).collect()
}

#[test]
fn spaces_are_found() {
    assert!(has_space(" "));
    assert!(has_space("a b"));
    assert!(has_space("ab "));
    assert!(has_space(" ab"));
    assert!(!has_space(""));
    assert!(!has_space("ab"));
    assert!(!has_space("a\tb"));
    assert!(!has_space("a\u{a0}b"));
}

#[test]
fn command_line_quotes_arguments_with_spaces() {
    assert_eq!(cmd_to_string("python", &Vec::new()), "python");
    assert_eq!(cmd_to_string("python", &strings(&["a", "b"])), "python a b");
    assert_eq!(
        cmd_to_string("python", &strings(&["--csv", "my folder/x.csv", "--pretty"])),
        "python --csv \"my folder/x.csv\" --pretty"
    );
    assert_eq!(cmd_to_string("my python", &strings(&[""])), "my python ");
    assert_eq!(cmd_to_string("p", &strings(&[" ", "a\"b"])), "p \" \" a\"b");
}

#[test]
fn prefixes_are_joined_with_commas() {
    assert_eq!(join_with_commas(&Vec::new()), "");
    assert_eq!(join_with_commas(&vec!["I"]), "I");
    assert_eq!(join_with_commas(&vec!["N18", "N19"]), "N18,N19");
    assert_eq!(join_with_commas(&vec!["E10", "E11", "E12", "E13", "E14"]), "E10,E11,E12,E13,E14");
    assert_eq!(join_with_commas(&vec!["", "a", ""]), ",a,");
}

#[test]
fn extraction_of_an_annual_series() {
    let sel = selection(0, None, "resultados/run");
    let command = extraction_command(
        &tools(),
        &sel,
        Mode::Year,
        sel.month_start,
        sel.month_end,
        &sel.layout.out_csv,
        &sel.layout.out_clean,
    );
    assert_eq!(command.program, "Rscript");
    assert_eq!(
        command.args,
        strings(&[
            "--vanilla",
            "datasus_export_tabnet_csv.R",
            "--system",
            "SIM-DO",
            "--uf",
            "SP",
            "--year-start",
            "2016",
            "--year-end",
            "2019",
            "--granularity",
            "year",
            "--icd-prefix",
            "E10,E11,E12,E13,E14",
            "--out",
            "resultados/run/dados_tabnet.csv",
            "--out-clean",
            "resultados/run/dados_limpos.csv",
        ])
    );
}

#[test]
fn extraction_of_a_monthly_series_hands_on_the_months() {
    let sel = selection(1, Some((2, 11)), "resultados/run");
    let command = extraction_command(
        &tools(),
        &sel,
        Mode::Month,
        sel.month_start,
        sel.month_end,
        &sel.layout.out_csv,
        &sel.layout.out_clean,
    );
    assert_eq!(command.program, "Rscript");
    assert_eq!(
        command.args,
        strings(&[
            "--vanilla",
            "datasus_export_tabnet_csv.R",
            "--system",
            "SIM-DO",
            "--uf",
            "SP",
            "--year-start",
            "2016",
            "--year-end",
            "2019",
            "--granularity",
            "month",
            "--icd-prefix",
            "E10,E11,E12,E13,E14",
            "--out",
            "resultados/run/dados_tabnet_mensal.csv",
            "--out-clean",
            "resultados/run/dados_limpos_mensal.csv",
            "--month-start",
            "2",
            "--month-end",
            "11",
        ])
    );
}

#[test]
fn forecast_arguments() {
    let sel = selection(0, None, "resultados/run");
    let command = forecast_command(&tools(), &sel, &sel.layout.out_csv, &sel.layout.out_json);
    assert_eq!(command.program, "python");
    assert_eq!(
        command.args,
        strings(&[
            "ccnt2.py",
            "--csv",
            "resultados/run/dados_tabnet.csv",
            "--estado",
            "35",
            "--anos-prev",
            "3",
            "--alpha",
            "0.95",
            "--saida",
            "resultados/run/saida_previsao.json",
            "--pretty",
        ])
    );
    assert_eq!(
        cmd_to_string(&command.program, &command.args),
        "python ccnt2.py --csv resultados/run/dados_tabnet.csv --estado 35 --anos-prev 3 \
         --alpha 0.95 --saida resultados/run/saida_previsao.json --pretty"
    );
}
