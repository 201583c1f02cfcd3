//! The order of the two stages of a run, with the fallback to an annual
//! series, and the dialogue around the runs.
//!
//! A run extracts the records and forecasts on them. A failed extraction ends
//! the run. A failed forecast on a monthly series is tried again once, on an
//! annual series extracted for the purpose; any other failed forecast ends
//! the run.

use vstd::prelude::*;
use vstd::string::*;
use crate::catalog::Mode;
use crate::collector::Refusal;
use crate::command::{
    Invocation,
    Tools,
    extraction_args,
    extraction_command,
    forecast_args,
    forecast_command,
};
use crate::selection::Selection;
use crate::text::{push_str_text, push_text};

verus! {

/// Which series a stage works on.
#[derive(Clone, Copy, Debug, PartialEq, Eq, Structural)]
pub enum Attempt {
    /// The series at the granularity that was chosen.
    Primary,
    /// The annual series that stands in for a monthly one.
    Fallback,
}

/// How a run ended well.
#[derive(Clone, Copy, Debug, PartialEq, Eq, Structural)]
pub enum Outcome {
    /// The forecast was made on the annual series that was asked for.
    Annual,
    /// The forecast was made on the monthly series that was asked for.
    Monthly,
    /// The forecast failed on the monthly series and was made on an annual
    /// one instead.
    AnnualFallback,
}

/// Why the program ends early.
#[derive(Clone, Copy, Debug, PartialEq, Eq, Structural)]
pub enum Failure {
    /// A program or script of a stage is not where it should be.
    MissingCollaborator,
    /// The last year lies before the first one.
    InvalidYearRange,
    /// The last month lies before the first one.
    InvalidMonthRange,
    /// The extraction stage failed.
    Extraction,
    /// The forecasting stage failed, on the annual series too if the series
    /// asked for was monthly.
    Forecast,
}

/// Where a run stands.
#[derive(Clone, Copy, Debug, PartialEq, Eq, Structural)]
pub enum Stage {
    /// Nothing was started yet.
    Idle,
    /// The extraction is under way.
    Extracting(Attempt),
    /// The forecast is under way.
    Forecasting(Attempt),
    /// The forecast on the monthly series failed; the annual series is next.
    FallingBack,
    /// The run ended well.
    Done(Outcome),
    /// The run failed.
    Failed(Failure),
}

/// What is to be done at a stage.
#[derive(Clone, Copy, Debug, PartialEq, Eq, Structural)]
pub enum Action {
    /// Start the run.
    Begin,
    /// Run the extraction stage.
    Extract(Attempt),
    /// Run the forecasting stage.
    Forecast(Attempt),
    /// Tell the operator that the annual series is tried instead.
    AnnounceFallback,
    /// Tell the operator how the run ended.
    Report(Outcome),
    /// End the program with the failure.
    Abort(Failure),
}

/// Where the dialogue around the runs stands.
#[derive(Clone, Copy, Debug, PartialEq, Eq, Structural)]
pub enum Menu {
    /// The settings of a run are being asked for.
    Collecting,
    /// The operator is asked whether to run what was set.
    ConfirmRun,
    /// The operator, having declined to run, is asked whether to start over.
    ConfirmReturn,
    /// A run is under way.
    Running,
    /// The operator is asked whether to set up another run.
    ConfirmAgain,
    /// The dialogue is over.
    Leaving,
}

impl Stage {
    /// Whether the run is over at this stage.
    pub open spec fn is_terminal(self) -> bool {
        self is Done || self is Failed
    }

    /// The stage that follows this one for a series asked for at the
    /// granularity `mode`, where `succeeded` says whether the stage that was
    /// run exited with success. It counts only where a stage was run.
    pub open spec fn next(self, mode: Mode, succeeded: bool) -> Stage {
        match self {
            Stage::Idle => Stage::Extracting(Attempt::Primary),
            Stage::Extracting(attempt) => if succeeded {
                Stage::Forecasting(attempt)
            } else {
                Stage::Failed(Failure::Extraction)
            },
            Stage::Forecasting(Attempt::Primary) => if succeeded {
                Stage::Done(
                    if mode == Mode::Month {
                        Outcome::Monthly
                    } else {
                        Outcome::Annual
                    },
                )
            } else if mode == Mode::Month {
                Stage::FallingBack
            } else {
                Stage::Failed(Failure::Forecast)
            },
            Stage::Forecasting(Attempt::Fallback) => if succeeded {
                Stage::Done(Outcome::AnnualFallback)
            } else {
                Stage::Failed(Failure::Forecast)
            },
            Stage::FallingBack => Stage::Extracting(Attempt::Fallback),
            Stage::Done(outcome) => Stage::Done(outcome),
            Stage::Failed(failure) => Stage::Failed(failure),
        }
    }

    /// What is to be done at this stage.
    pub open spec fn action(self) -> Action {
        match self {
            Stage::Idle => Action::Begin,
            Stage::Extracting(attempt) => Action::Extract(attempt),
            Stage::Forecasting(attempt) => Action::Forecast(attempt),
            Stage::FallingBack => Action::AnnounceFallback,
            Stage::Done(outcome) => Action::Report(outcome),
            Stage::Failed(failure) => Action::Abort(failure),
        }
    }

    /// The stage reached from this one after the stages run have exited as
    /// `exits` tells, one after the other.
    pub open spec fn after(self, mode: Mode, exits: Seq<bool>) -> Stage
        decreases exits.len(),
    {
        if exits.len() == 0 {
            self
        } else {
            self.after(mode, exits.drop_last()).next(mode, exits.last())
        }
    }

    /// How many times a stage was run on the way from this one, the stages
    /// exiting as `exits` tells.
    pub open spec fn runs(self, mode: Mode, exits: Seq<bool>) -> nat
        decreases exits.len(),
    {
        if exits.len() == 0 {
            0
        } else {
            let before = self.after(mode, exits.drop_last());
            self.runs(mode, exits.drop_last()) + if before is Extracting || before is Forecasting {
                1nat
            } else {
                0
            }
        }
    }

    /// Whether a run for a series asked for at the granularity `mode` can
    /// come to this stage: one for an annual series never falls back.
    pub open spec fn reachable(self, mode: Mode) -> bool {
        mode == Mode::Year ==> self == Stage::Idle || self == Stage::Extracting(Attempt::Primary)
            || self == Stage::Forecasting(Attempt::Primary) || self == Stage::Done(Outcome::Annual)
            || self == Stage::Failed(Failure::Extraction) || self == Stage::Failed(
            Failure::Forecast,
        )
    }

    /// The stage that follows this one.
    pub fn advance(self, mode: Mode, succeeded: bool) -> (stage: Stage)
        ensures
            stage == self.next(mode, succeeded),
    {
        match self {
            Stage::Idle => Stage::Extracting(Attempt::Primary),
            Stage::Extracting(attempt) => if succeeded {
                Stage::Forecasting(attempt)
            } else {
                Stage::Failed(Failure::Extraction)
            },
            Stage::Forecasting(Attempt::Primary) => if succeeded {
                match mode {
                    Mode::Month => Stage::Done(Outcome::Monthly),
                    Mode::Year => Stage::Done(Outcome::Annual),
                }
            } else {
                match mode {
                    Mode::Month => Stage::FallingBack,
                    Mode::Year => Stage::Failed(Failure::Forecast),
                }
            },
            Stage::Forecasting(Attempt::Fallback) => if succeeded {
                Stage::Done(Outcome::AnnualFallback)
            } else {
                Stage::Failed(Failure::Forecast)
            },
            Stage::FallingBack => Stage::Extracting(Attempt::Fallback),
            Stage::Done(outcome) => Stage::Done(outcome),
            Stage::Failed(failure) => Stage::Failed(failure),
        }
    }

    /// What is to be done at this stage.
    pub fn pending_action(self) -> (action: Action)
        ensures
            action == self.action(),
    {
        match self {
            Stage::Idle => Action::Begin,
            Stage::Extracting(attempt) => Action::Extract(attempt),
            Stage::Forecasting(attempt) => Action::Forecast(attempt),
            Stage::FallingBack => Action::AnnounceFallback,
            Stage::Done(outcome) => Action::Report(outcome),
            Stage::Failed(failure) => Action::Abort(failure),
        }
    }
}

/// A run that is over stays as it ended.
pub proof fn lemma_terminal_stays(stage: Stage, mode: Mode, exits: Seq<bool>)
    requires
        stage.is_terminal(),
    ensures
        stage.after(mode, exits) == stage,
    decreases exits.len(),
{
    if exits.len() > 0 {
        lemma_terminal_stays(stage, mode, exits.drop_last());
    }
}

/// Every run is over after six steps, however its stages exit, and runs a
/// stage four times at most.
pub proof fn lemma_run_ends(mode: Mode, exits: Seq<bool>)
    ensures
        exits.len() >= 6 ==> Stage::Idle.after(mode, exits).is_terminal(),
        Stage::Idle.runs(mode, exits) <= 4,
{
    lemma_run_progress(mode, exits);
}

/// How far a run has come after each number of steps.
proof fn lemma_run_progress(mode: Mode, exits: Seq<bool>)
    ensures
        ({
            let stage = Stage::Idle.after(mode, exits);
            let runs = Stage::Idle.runs(mode, exits);
            &&& exits.len() == 0 ==> stage == Stage::Idle && runs == 0
            &&& exits.len() == 1 ==> stage == Stage::Extracting(Attempt::Primary) && runs == 0
            &&& exits.len() == 2 ==> (stage == Stage::Forecasting(Attempt::Primary)
                || stage.is_terminal()) && runs == 1
            &&& exits.len() == 3 ==> (stage == Stage::FallingBack || stage.is_terminal()) && runs
                <= 2
            &&& exits.len() == 4 ==> (stage == Stage::Extracting(Attempt::Fallback)
                || stage.is_terminal()) && runs <= 2
            &&& exits.len() == 5 ==> (stage == Stage::Forecasting(Attempt::Fallback)
                || stage.is_terminal()) && runs <= 3
            &&& exits.len() >= 6 ==> stage.is_terminal() && runs <= 4
        }),
    decreases exits.len(),
{
    if exits.len() > 0 {
        lemma_run_progress(mode, exits.drop_last());
    }
}

/// A run for an annual series never falls back: it comes to no stage but
/// those of the series asked for.
pub proof fn lemma_fallback_only_for_months(mode: Mode, exits: Seq<bool>)
    ensures
        Stage::Idle.after(mode, exits).reachable(mode),
    decreases exits.len(),
{
    if exits.len() > 0 {
        lemma_fallback_only_for_months(mode, exits.drop_last());
    }
}

/// No forecast follows a failed extraction: the run ends with the failure
/// of the extraction.
pub proof fn lemma_failed_extraction_ends_run(
    attempt: Attempt,
    mode: Mode,
    exits: Seq<bool>,
)
    ensures
        Stage::Extracting(attempt).next(mode, false).after(mode, exits) == Stage::Failed(
            Failure::Extraction,
        ),
{
    lemma_terminal_stays(Stage::Failed(Failure::Extraction), mode, exits);
}

impl Failure {
    /// The exit code of the program for the failure.
    pub open spec fn code(self) -> int {
        match self {
            Failure::MissingCollaborator => 10,
            Failure::InvalidYearRange => 11,
            Failure::InvalidMonthRange => 12,
            Failure::Extraction => 2,
            Failure::Forecast => 3,
        }
    }

    /// The exit code of the program for the failure.
    pub fn exit_code(self) -> (code: i32)
        ensures
            code == self.code(),
            code != 0,
    {
        match self {
            Failure::MissingCollaborator => 10,
            Failure::InvalidYearRange => 11,
            Failure::InvalidMonthRange => 12,
            Failure::Extraction => 2,
            Failure::Forecast => 3,
        }
    }

    /// The failure that a refused answer makes of the collection, if it ends
    /// it.
    pub open spec fn of_refusal(refusal: Refusal) -> Option<Failure> {
        match refusal {
            Refusal::YearRange => Some(Failure::InvalidYearRange),
            Refusal::MonthRange => Some(Failure::InvalidMonthRange),
            _ => None,
        }
    }

    /// The failure that a refused answer makes of the collection: a range
    /// that ends before it starts ends the program, any other refusal leaves
    /// the question to be asked again.
    pub fn from_refusal(refusal: Refusal) -> (failure: Option<Failure>)
        ensures
            failure == Failure::of_refusal(refusal),
    {
        match refusal {
            Refusal::YearRange => Some(Failure::InvalidYearRange),
            Refusal::MonthRange => Some(Failure::InvalidMonthRange),
            _ => None,
        }
    }
}

/// What is said of a failure of a run for a series asked for at the
/// granularity `mode`, or of a collection; nothing for a missing program or
/// script, of which [`missing_text`] speaks. A forecast of a monthly series
/// has failed for good only after the annual one failed too.
pub open spec fn diagnostic_text(failure: Failure, mode: Mode) -> Option<Seq<char>> {
    match failure {
        Failure::MissingCollaborator => None,
        Failure::InvalidYearRange => Some(
            "[ERRO] Ano final não pode ser menor que o ano inicial."@,
        ),
        Failure::InvalidMonthRange => Some(
            "[ERRO] Mês final não pode ser menor que o mês inicial."@,
        ),
        Failure::Extraction => Some("[ERRO] Rscript falhou."@),
        Failure::Forecast => Some(
            if mode == Mode::Month {
                "[ERRO] Python falhou também no fallback anual."@
            } else {
                "[ERRO] Python falhou."@
            },
        ),
    }
}

/// What is said of the program or script called `label` that is missing at
/// `path`.
pub open spec fn missing_text(label: Seq<char>, path: Seq<char>) -> Seq<char> {
    "[ERRO] "@ + label + " não encontrado: "@ + path
}

/// Says what failed, for a run of a series asked for at the granularity
/// `mode` or for a collection.
pub fn diagnostic(failure: Failure, mode: Mode) -> (text: Option<&'static str>)
    ensures
        match text {
            Some(said) => diagnostic_text(failure, mode) == Some(said@),
            None => diagnostic_text(failure, mode) is None,
        },
{
    match failure {
        Failure::MissingCollaborator => None,
        Failure::InvalidYearRange => Some("[ERRO] Ano final não pode ser menor que o ano inicial."),
        Failure::InvalidMonthRange => Some(
            "[ERRO] Mês final não pode ser menor que o mês inicial.",
        ),
        Failure::Extraction => Some("[ERRO] Rscript falhou."),
        Failure::Forecast => match mode {
            Mode::Month => Some("[ERRO] Python falhou também no fallback anual."),
            Mode::Year => Some("[ERRO] Python falhou."),
        },
    }
}

/// Says that the program or script called `label` is missing at `path`.
pub fn missing_message(label: &str, path: &str) -> (text: String)
    ensures
        text@ == missing_text(label@, path@),
{
    let mut text = String::from_str("[ERRO] ");
    text.append(label);
    text.append(" não encontrado: ");
    text.append(path);
    text
}

/// The lines that tell the operator that the forecast failed on the monthly
/// series and that an annual one is tried instead.
pub open spec fn fallback_notice_text() -> Seq<Seq<char>> {
    seq![
        "\n[AVISO] ccnt2.py falhou com dados mensais."@,
        "[AVISO] Fazendo fallback automático: export ANUAL e roda ARIMA ANUAL (sem alterar ccnt2.py)."@,
    ]
}

/// Writes the lines that tell the operator of the fallback.
pub fn fallback_notice() -> (lines: Vec<String>)
    ensures
        lines.deep_view() == fallback_notice_text(),
{
    let mut lines: Vec<String> = Vec::new();
    push_str_text(&mut lines, "\n[AVISO] ccnt2.py falhou com dados mensais.");
    push_str_text(
        &mut lines,
        "[AVISO] Fazendo fallback automático: export ANUAL e roda ARIMA ANUAL (sem alterar ccnt2.py).",
    );
    assert(lines.deep_view() =~= fallback_notice_text());
    lines
}

/// Each failure has an exit code of its own, and none is that of success.
pub proof fn lemma_exit_codes_distinct(a: Failure, b: Failure)
    ensures
        a.code() != 0,
        a != b ==> a.code() != b.code(),
{
}

impl Menu {
    /// Where the dialogue stands next. `yes` is the operator's answer where
    /// one was asked for, and counts nowhere else.
    pub open spec fn next(self, yes: bool) -> Menu {
        match self {
            Menu::Collecting => Menu::ConfirmRun,
            Menu::ConfirmRun => if yes {
                Menu::Running
            } else {
                Menu::ConfirmReturn
            },
            Menu::ConfirmReturn => if yes {
                Menu::Collecting
            } else {
                Menu::Leaving
            },
            Menu::Running => Menu::ConfirmAgain,
            Menu::ConfirmAgain => if yes {
                Menu::Collecting
            } else {
                Menu::Leaving
            },
            Menu::Leaving => Menu::Leaving,
        }
    }

    /// The question put to the operator, where one is asked.
    pub open spec fn question_text(self) -> Option<Seq<char>> {
        match self {
            Menu::ConfirmRun => Some("Executar esta análise agora?"@),
            Menu::ConfirmReturn => Some("Voltar ao menu?"@),
            Menu::ConfirmAgain => Some("Rodar outra análise?"@),
            _ => None,
        }
    }

    /// Where the dialogue stands next.
    pub fn advance(self, yes: bool) -> (menu: Menu)
        ensures
            menu == self.next(yes),
    {
        match self {
            Menu::Collecting => Menu::ConfirmRun,
            Menu::ConfirmRun => if yes {
                Menu::Running
            } else {
                Menu::ConfirmReturn
            },
            Menu::ConfirmReturn => if yes {
                Menu::Collecting
            } else {
                Menu::Leaving
            },
            Menu::Running => Menu::ConfirmAgain,
            Menu::ConfirmAgain => if yes {
                Menu::Collecting
            } else {
                Menu::Leaving
            },
            Menu::Leaving => Menu::Leaving,
        }
    }

    /// The question put to the operator, where one is asked. The answer
    /// suggested is always yes.
    pub fn question(self) -> (text: Option<&'static str>)
        ensures
            match text {
                Some(asked) => self.question_text() == Some(asked@),
                None => self.question_text() is None,
            },
    {
        match self {
            Menu::ConfirmRun => Some("Executar esta análise agora?"),
            Menu::ConfirmReturn => Some("Voltar ao menu?"),
            Menu::ConfirmAgain => Some("Rodar outra análise?"),
            _ => None,
        }
    }
}

/// The arguments of the extraction of `attempt`: that of the series asked
/// for, into the files of its granularity, or that of the annual series over
/// the whole year, into the files kept for it.
pub open spec fn planned_extraction_args(rfile: Seq<char>, selection: Selection, attempt: Attempt) -> Seq<
    Seq<char>,
> {
    match attempt {
        Attempt::Primary => extraction_args(
            rfile,
            selection,
            selection.granularity.mode,
            selection.month_start as int,
            selection.month_end as int,
            selection.layout.out_csv@,
            selection.layout.out_clean@,
        ),
        Attempt::Fallback => extraction_args(
            rfile,
            selection,
            Mode::Year,
            1,
            12,
            selection.layout.out_csv_anual@,
            selection.layout.out_clean_anual@,
        ),
    }
}

/// The file that the forecast of `attempt` writes.
pub open spec fn forecast_target(selection: Selection, attempt: Attempt) -> Seq<char> {
    match attempt {
        Attempt::Primary => if selection.granularity.mode == Mode::Month {
            selection.layout.out_json_mensal@
        } else {
            selection.layout.out_json@
        },
        Attempt::Fallback => selection.layout.out_json_anual@,
    }
}

/// The records that the forecast of `attempt` reads: those that the
/// extraction of the same attempt wrote.
pub open spec fn forecast_source(selection: Selection, attempt: Attempt) -> Seq<char> {
    match attempt {
        Attempt::Primary => selection.layout.out_csv@,
        Attempt::Fallback => selection.layout.out_csv_anual@,
    }
}

/// The command that runs the extraction of `attempt`.
pub fn planned_extraction(tools: &Tools, selection: &Selection, attempt: Attempt) -> (command:
    Invocation)
    ensures
        command.program@ == tools.rscript@,
        command.args.deep_view() == planned_extraction_args(tools.rfile@, *selection, attempt),
{
    match attempt {
        Attempt::Primary => extraction_command(
            tools,
            selection,
            selection.granularity.mode,
            selection.month_start,
            selection.month_end,
            selection.layout.out_csv.as_str(),
            selection.layout.out_clean.as_str(),
        ),
        Attempt::Fallback => extraction_command(
            tools,
            selection,
            Mode::Year,
            1,
            12,
            selection.layout.out_csv_anual.as_str(),
            selection.layout.out_clean_anual.as_str(),
        ),
    }
}

/// The command that runs the forecast of `attempt`.
pub fn planned_forecast(tools: &Tools, selection: &Selection, attempt: Attempt) -> (command:
    Invocation)
    ensures
        command.program@ == tools.python@,
        command.args.deep_view() == forecast_args(
            tools.pyfile@,
            *selection,
            forecast_source(*selection, attempt),
            forecast_target(*selection, attempt),
        ),
{
    match attempt {
        Attempt::Primary => {
            let target = match selection.granularity.mode {
                Mode::Month => selection.layout.out_json_mensal.as_str(),
                Mode::Year => selection.layout.out_json.as_str(),
            };
            forecast_command(tools, selection, selection.layout.out_csv.as_str(), target)
        },
        Attempt::Fallback => forecast_command(
            tools,
            selection,
            selection.layout.out_csv_anual.as_str(),
            selection.layout.out_json_anual.as_str(),
        ),
    }
}

/// The lines that tell how a run ended: what the forecast was made on, the
/// records it read and the file it wrote.
pub open spec fn report_text(selection: Selection, outcome: Outcome) -> Seq<Seq<char>> {
    match outcome {
        Outcome::Annual => seq![
            "\n[OK] Concluído!"@,
            "CSV:  "@ + selection.layout.out_csv@,
            "JSON: "@ + selection.layout.out_json@,
        ],
        Outcome::Monthly => seq![
            "\n[OK] ARIMA rodou em dados MENSAIS."@,
            "CSV mensal: "@ + selection.layout.out_csv@,
            "JSON:       "@ + selection.layout.out_json_mensal@,
        ],
        Outcome::AnnualFallback => seq![
            "\n[OK] ARIMA rodou em dados ANUAIS (fallback)."@,
            "CSV anual: "@ + selection.layout.out_csv_anual@,
            "JSON:      "@ + selection.layout.out_json_anual@,
        ],
    }
}

/// Writes the lines that tell how a run ended.
pub fn report_lines(selection: &Selection, outcome: Outcome) -> (lines: Vec<String>)
    ensures
        lines.deep_view() == report_text(*selection, outcome),
{
    let (title, csv_label, csv, json_label, json) = match outcome {
        Outcome::Annual => (
            "\n[OK] Concluído!",
            "CSV:  ",
            selection.layout.out_csv.as_str(),
            "JSON: ",
            selection.layout.out_json.as_str(),
        ),
        Outcome::Monthly => (
            "\n[OK] ARIMA rodou em dados MENSAIS.",
            "CSV mensal: ",
            selection.layout.out_csv.as_str(),
            "JSON:       ",
            selection.layout.out_json_mensal.as_str(),
        ),
        Outcome::AnnualFallback => (
            "\n[OK] ARIMA rodou em dados ANUAIS (fallback).",
            "CSV anual: ",
            selection.layout.out_csv_anual.as_str(),
            "JSON:      ",
            selection.layout.out_json_anual.as_str(),
        ),
    };
    let mut lines: Vec<String> = Vec::new();
    push_str_text(&mut lines, title);
    let mut csv_line = String::from_str(csv_label);
    csv_line.append(csv);
    push_text(&mut lines, csv_line);
    let mut json_line = String::from_str(json_label);
    json_line.append(json);
    push_text(&mut lines, json_line);
    assert(lines.deep_view() =~= report_text(*selection, outcome));
    lines
}

} // verus!
