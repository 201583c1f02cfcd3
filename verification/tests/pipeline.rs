use arima_console::catalog::Mode;
use arima_console::collector::{build_selection, Collector, Refusal};
use arima_console::command::{Invocation, Tools};
use arima_console::pipeline::{
    diagnostic, fallback_notice, missing_message, planned_extraction, planned_forecast,
    report_lines, Action, Attempt, Failure, Menu, Outcome,
    Stage,
};
use arima_console::selection::Selection;

fn tools() -> Tools {
    Tools {
        rscript: "Rscript".to_string(),
        rfile: "export.R".to_string(),
        python: "python".to_string(),
        pyfile: "ccnt2.py".to_string(),
        out_dir: "resultados".to_string(),
    }
}

fn selection(granularity: usize, months: Option<(i32, i32)>) -> Selection {
    let mut c = Collector::new();
    assert_eq!(c.answer_choice(24), Ok(()));
    assert_eq!(c.answer_choice(0), Ok(()));
    assert_eq!(c.answer_choice(granularity), Ok(()));
    assert_eq!(c.answer_choice(0), Ok(()));
    assert_eq!(c.answer_integer(2016), Ok(()));
    assert_eq!(c.answer_integer(2019), Ok(()));
    if let Some((first, last)) = months {
        assert_eq!(c.answer_integer(first), Ok(()));
        assert_eq!(c.answer_integer(last), Ok(()));
    }
    assert_eq!(c.answer_integer(3), Ok(()));
    assert_eq!(c.answer_real("0.95".to_string()), Ok(()));
    build_selection(&c, "resultados/run").unwrap()
}

fn value_after<'a>(command: &'a Invocation, flag: &str) -> &'a str {
    let at = command.args.iter().position(|a| a == flag).unwrap();
    &command.args[at + 1]
}

/// Runs the stages against exits that are scripted: the first for the
/// extractions, the second for the forecasts, each in the order of the runs.
fn run(
    sel: &Selection,
    extraction_exits: &[bool],
    forecast_exits: &[bool],
) -> (Stage, Vec<Invocation>, Vec<Invocation>, bool) {
    let tools = tools();
    let mode = sel.granularity.mode;
    let mut stage = Stage::Idle;
    let mut extractions = Vec::new();
    let mut forecasts = Vec::new();
    let mut announced = false;
    for _ in 0..20 {
        let succeeded = match stage.pending_action() {
            Action::Begin => true,
            Action::Extract(attempt) => {
                extractions.push(planned_extraction(&tools, sel, attempt));
                extraction_exits[extractions.len() - 1]
            }
            Action::Forecast(attempt) => {
                forecasts.push(planned_forecast(&tools, sel, attempt));
                forecast_exits[forecasts.len() - 1]
            }
            Action::AnnounceFallback => {
                announced = true;
                true
            }
            Action::Report(_) | Action::Abort(_) => {
                return (stage, extractions, forecasts, announced);
            }
        };
        stage = stage.advance(mode, succeeded);
    }
    panic!("the run did not end");
}

#[test]
fn annual_run_that_succeeds() {
    let sel = selection(0, None);
    assert_eq!(sel.uf_sigla, "SP");
    assert_eq!(sel.analysis.label, "Óbitos (SIM-DO)");
    let (stage, extractions, forecasts, announced) = run(&sel, &[true], &[true]);
    assert_eq!(stage, Stage::Done(Outcome::Annual));
    assert!(!announced);
    assert_eq!(extractions.len(), 1);
    assert_eq!(forecasts.len(), 1);
    assert_eq!(value_after(&extractions[0], "--granularity"), "year");
    assert_eq!(value_after(&extractions[0], "--uf"), "SP");
    assert_eq!(value_after(&extractions[0], "--system"), "SIM-DO");
    assert_eq!(value_after(&extractions[0], "--year-start"), "2016");
    assert_eq!(value_after(&extractions[0], "--year-end"), "2019");
    assert_eq!(value_after(&extractions[0], "--out"), "resultados/run/dados_tabnet.csv");
    assert_eq!(value_after(&extractions[0], "--out-clean"), "resultados/run/dados_limpos.csv");
    assert!(!extractions[0].args.iter().any(|a| a == "--month-start" || a == "--month-end"));
    assert_eq!(value_after(&forecasts[0], "--csv"), "resultados/run/dados_tabnet.csv");
    assert_eq!(value_after(&forecasts[0], "--saida"), "resultados/run/saida_previsao.json");
    assert_eq!(value_after(&forecasts[0], "--anos-prev"), "3");
    assert_eq!(value_after(&forecasts[0], "--alpha"), "0.95");
    assert_eq!(value_after(&forecasts[0], "--estado"), "35");
    assert_eq!(
        report_lines(&sel, Outcome::Annual),
        vec![
            "\n[OK] Concluído!",
            "CSV:  resultados/run/dados_tabnet.csv",
            "JSON: resultados/run/saida_previsao.json",
        ]
    );
}

#[test]
fn monthly_run_that_falls_back_and_succeeds() {
    let sel = selection(1, Some((1, 12)));
    let (stage, extractions, forecasts, announced) = run(&sel, &[true, true], &[false, true]);
    assert_eq!(stage, Stage::Done(Outcome::AnnualFallback));
    assert!(announced);
    assert_eq!(extractions.len(), 2);
    assert_eq!(forecasts.len(), 2);
    assert_eq!(value_after(&extractions[0], "--granularity"), "month");
    assert_eq!(value_after(&extractions[0], "--month-start"), "1");
    assert_eq!(value_after(&extractions[0], "--month-end"), "12");
    assert_eq!(value_after(&extractions[0], "--out"), "resultados/run/dados_tabnet_mensal.csv");
    assert_eq!(
        value_after(&extractions[0], "--out-clean"),
        "resultados/run/dados_limpos_mensal.csv"
    );
    assert_eq!(value_after(&forecasts[0], "--csv"), "resultados/run/dados_tabnet_mensal.csv");
    assert_eq!(value_after(&forecasts[0], "--saida"), "resultados/run/saida_previsao_mensal.json");
    assert_eq!(value_after(&extractions[1], "--granularity"), "year");
    assert!(!extractions[1].args.iter().any(|a| a == "--month-start" || a == "--month-end"));
    assert_eq!(value_after(&extractions[1], "--year-start"), "2016");
    assert_eq!(value_after(&extractions[1], "--year-end"), "2019");
    assert_eq!(value_after(&extractions[1], "--out"), "resultados/run/dados_tabnet_anual.csv");
    assert_eq!(
        value_after(&extractions[1], "--out-clean"),
        "resultados/run/dados_limpos_anual.csv"
    );
    assert_eq!(value_after(&forecasts[1], "--csv"), "resultados/run/dados_tabnet_anual.csv");
    assert_eq!(value_after(&forecasts[1], "--saida"), "resultados/run/saida_previsao_anual.json");
    assert_eq!(
        report_lines(&sel, Outcome::AnnualFallback),
        vec![
            "\n[OK] ARIMA rodou em dados ANUAIS (fallback).",
            "CSV anual: resultados/run/dados_tabnet_anual.csv",
            "JSON:      resultados/run/saida_previsao_anual.json",
        ]
    );
}

#[test]
fn failed_extraction_runs_no_forecast() {
    for (granularity, months) in [(0, None), (1, Some((1, 12)))] {
        let sel = selection(granularity, months);
        let (stage, extractions, forecasts, announced) = run(&sel, &[false], &[]);
        assert_eq!(stage, Stage::Failed(Failure::Extraction));
        assert_eq!(stage.pending_action(), Action::Abort(Failure::Extraction));
        assert_eq!(extractions.len(), 1);
        assert_eq!(forecasts.len(), 0);
        assert!(!announced);
        assert_eq!(Failure::Extraction.exit_code(), 2);
    }
}

#[test]
fn monthly_run_that_succeeds_at_once() {
    let sel = selection(1, Some((3, 9)));
    let (stage, extractions, forecasts, announced) = run(&sel, &[true], &[true]);
    assert_eq!(stage, Stage::Done(Outcome::Monthly));
    assert!(!announced);
    assert_eq!(extractions.len(), 1);
    assert_eq!(forecasts.len(), 1);
    assert_eq!(value_after(&extractions[0], "--month-start"), "3");
    assert_eq!(value_after(&extractions[0], "--month-end"), "9");
    assert_eq!(
        report_lines(&sel, Outcome::Monthly),
        vec![
            "\n[OK] ARIMA rodou em dados MENSAIS.",
            "CSV mensal: resultados/run/dados_tabnet_mensal.csv",
            "JSON:       resultados/run/saida_previsao_mensal.json",
        ]
    );
}

#[test]
fn annual_run_whose_forecast_fails_does_not_fall_back() {
    let sel = selection(0, None);
    let (stage, extractions, forecasts, announced) = run(&sel, &[true], &[false]);
    assert_eq!(stage, Stage::Failed(Failure::Forecast));
    assert_eq!(extractions.len(), 1);
    assert_eq!(forecasts.len(), 1);
    assert!(!announced);
}

#[test]
fn fallback_whose_extraction_fails() {
    let sel = selection(1, Some((1, 12)));
    let (stage, extractions, forecasts, announced) = run(&sel, &[true, false], &[false]);
    assert_eq!(stage, Stage::Failed(Failure::Extraction));
    assert_eq!(extractions.len(), 2);
    assert_eq!(forecasts.len(), 1);
    assert!(announced);
}

#[test]
fn fallback_whose_forecast_fails() {
    let sel = selection(1, Some((1, 12)));
    let (stage, extractions, forecasts, announced) = run(&sel, &[true, true], &[false, false]);
    assert_eq!(stage, Stage::Failed(Failure::Forecast));
    assert_eq!(extractions.len(), 2);
    assert_eq!(forecasts.len(), 2);
    assert!(announced);
    assert_eq!(Failure::Forecast.exit_code(), 3);
}

#[test]
fn every_transition() {
    let primary = Attempt::Primary;
    let fallback = Attempt::Fallback;
    for mode in [Mode::Year, Mode::Month] {
        for ok in [true, false] {
            assert_eq!(Stage::Idle.advance(mode, ok), Stage::Extracting(primary));
            assert_eq!(Stage::FallingBack.advance(mode, ok), Stage::Extracting(fallback));
            for outcome in [Outcome::Annual, Outcome::Monthly, Outcome::AnnualFallback] {
                assert_eq!(Stage::Done(outcome).advance(mode, ok), Stage::Done(outcome));
            }
            for failure in [
                Failure::MissingCollaborator,
                Failure::InvalidYearRange,
                Failure::InvalidMonthRange,
                Failure::Extraction,
                Failure::Forecast,
            ] {
                assert_eq!(Stage::Failed(failure).advance(mode, ok), Stage::Failed(failure));
            }
        }
        for attempt in [primary, fallback] {
            assert_eq!(Stage::Extracting(attempt).advance(mode, true), Stage::Forecasting(attempt));
            assert_eq!(
                Stage::Extracting(attempt).advance(mode, false),
                Stage::Failed(Failure::Extraction)
            );
        }
        assert_eq!(
            Stage::Forecasting(fallback).advance(mode, true),
            Stage::Done(Outcome::AnnualFallback)
        );
        assert_eq!(
            Stage::Forecasting(fallback).advance(mode, false),
            Stage::Failed(Failure::Forecast)
        );
    }
    assert_eq!(Stage::Forecasting(primary).advance(Mode::Year, true), Stage::Done(Outcome::Annual));
    assert_eq!(
        Stage::Forecasting(primary).advance(Mode::Month, true),
        Stage::Done(Outcome::Monthly)
    );
    assert_eq!(
        Stage::Forecasting(primary).advance(Mode::Year, false),
        Stage::Failed(Failure::Forecast)
    );
    assert_eq!(Stage::Forecasting(primary).advance(Mode::Month, false), Stage::FallingBack);
}

#[test]
fn actions_of_the_stages() {
    assert_eq!(Stage::Idle.pending_action(), Action::Begin);
    assert_eq!(
        Stage::Extracting(Attempt::Primary).pending_action(),
        Action::Extract(Attempt::Primary)
    );
    assert_eq!(
        Stage::Extracting(Attempt::Fallback).pending_action(),
        Action::Extract(Attempt::Fallback)
    );
    assert_eq!(
        Stage::Forecasting(Attempt::Primary).pending_action(),
        Action::Forecast(Attempt::Primary)
    );
    assert_eq!(
        Stage::Forecasting(Attempt::Fallback).pending_action(),
        Action::Forecast(Attempt::Fallback)
    );
    assert_eq!(Stage::FallingBack.pending_action(), Action::AnnounceFallback);
    assert_eq!(Stage::Done(Outcome::Monthly).pending_action(), Action::Report(Outcome::Monthly));
    assert_eq!(
        Stage::Failed(Failure::Forecast).pending_action(),
        Action::Abort(Failure::Forecast)
    );
}

#[test]
fn every_run_ends_within_six_steps() {
    for mode in [Mode::Year, Mode::Month] {
        for script in 0u32..64 {
            let mut stage = Stage::Idle;
            let mut runs = 0;
            for step in 0..6 {
                if matches!(stage, Stage::Extracting(_) | Stage::Forecasting(_)) {
                    runs += 1;
                }
                stage = stage.advance(mode, script & (1 << step) != 0);
            }
            assert!(matches!(stage, Stage::Done(_) | Stage::Failed(_)));
            assert!(runs <= 4);
            if mode == Mode::Year {
                assert!(runs <= 2);
                assert!(matches!(
                    stage,
                    Stage::Done(Outcome::Annual)
                        | Stage::Failed(Failure::Extraction)
                        | Stage::Failed(Failure::Forecast)
                ));
            }
        }
    }
}

#[test]
fn exit_codes_are_distinct() {
    let codes = [
        Failure::MissingCollaborator.exit_code(),
        Failure::InvalidYearRange.exit_code(),
        Failure::InvalidMonthRange.exit_code(),
        Failure::Extraction.exit_code(),
        Failure::Forecast.exit_code(),
    ];
    assert_eq!(codes, [10, 11, 12, 2, 3]);
    for i in 0..codes.len() {
        assert_ne!(codes[i], 0);
        for j in 0..i {
            assert_ne!(codes[i], codes[j]);
        }
    }
}

#[test]
fn refusals_that_end_the_program() {
    assert_eq!(Failure::from_refusal(Refusal::YearRange), Some(Failure::InvalidYearRange));
    assert_eq!(Failure::from_refusal(Refusal::MonthRange), Some(Failure::InvalidMonthRange));
    assert_eq!(Failure::from_refusal(Refusal::OutOfRange), None);
    assert_eq!(Failure::from_refusal(Refusal::Unexpected), None);
}

#[test]
fn dialogue_around_the_runs() {
    for yes in [true, false] {
        assert_eq!(Menu::Collecting.advance(yes), Menu::ConfirmRun);
        assert_eq!(Menu::Running.advance(yes), Menu::ConfirmAgain);
        assert_eq!(Menu::Leaving.advance(yes), Menu::Leaving);
    }
    assert_eq!(Menu::ConfirmRun.advance(true), Menu::Running);
    assert_eq!(Menu::ConfirmRun.advance(false), Menu::ConfirmReturn);
    assert_eq!(Menu::ConfirmReturn.advance(true), Menu::Collecting);
    assert_eq!(Menu::ConfirmReturn.advance(false), Menu::Leaving);
    assert_eq!(Menu::ConfirmAgain.advance(true), Menu::Collecting);
    assert_eq!(Menu::ConfirmAgain.advance(false), Menu::Leaving);
    assert_eq!(Menu::ConfirmRun.question(), Some("Executar esta análise agora?"));
    assert_eq!(Menu::ConfirmReturn.question(), Some("Voltar ao menu?"));
    assert_eq!(Menu::ConfirmAgain.question(), Some("Rodar outra análise?"));
    assert_eq!(Menu::Collecting.question(), None);
    assert_eq!(Menu::Running.question(), None);
    assert_eq!(Menu::Leaving.question(), None);
}

#[test]
fn what_is_said_of_failures() {
    for mode in [Mode::Year, Mode::Month] {
        assert_eq!(diagnostic(Failure::MissingCollaborator, mode), None);
        assert_eq!(
            diagnostic(Failure::InvalidYearRange, mode),
            Some("[ERRO] Ano final não pode ser menor que o ano inicial.")
        );
        assert_eq!(
            diagnostic(Failure::InvalidMonthRange, mode),
            Some("[ERRO] Mês final não pode ser menor que o mês inicial.")
        );
        assert_eq!(diagnostic(Failure::Extraction, mode), Some("[ERRO] Rscript falhou."));
    }
    assert_eq!(diagnostic(Failure::Forecast, Mode::Year), Some("[ERRO] Python falhou."));
    assert_eq!(
        diagnostic(Failure::Forecast, Mode::Month),
        Some("[ERRO] Python falhou também no fallback anual.")
    );
    assert_eq!(
        missing_message("Script R", "datasus_export_tabnet_csv.R"),
        "[ERRO] Script R não encontrado: datasus_export_tabnet_csv.R"
    );
    assert_eq!(
        fallback_notice(),
        vec![
            "\n[AVISO] ccnt2.py falhou com dados mensais.",
            "[AVISO] Fazendo fallback automático: export ANUAL e roda ARIMA ANUAL (sem alterar ccnt2.py).",
        ]
    );
}
