//! The questions put to the operator, in their order, and the answers taken
//! so far.
//!
//! A [`Collector`] names the question to ask next and takes its answer. An
//! answer outside the question's range is refused and the question stays; a
//! final year or month before the first one ends the collection.

use vstd::prelude::*;
use vstd::string::*;
use crate::catalog::{
    AnalysisType,
    Disease,
    Granularity,
    Mode,
    analysis_table,
    analysis_types,
    disease_table,
    diseases,
    granularities,
    granularity_table,
    region_table,
    uf_list,
};
use crate::confidence::{
    DEFAULT_THOUSANDTHS,
    MAX_THOUSANDTHS,
    MIN_THOUSANDTHS,
    confidence_in_range,
    confidence_text_in_range,
};
use crate::layout::{folder_name, folder_name_text, join_path, joined_path, layout_in};
use crate::selection::Selection;
use crate::text::{decimal_text, push_decimal};

verus! {

/// The first year that can be asked for.
pub const MIN_YEAR: i32 = 1900;

/// The last year that can be asked for.
pub const MAX_YEAR: i32 = 2100;

/// The longest forecast horizon, in years.
pub const MAX_HORIZON: i32 = 20;

/// A question of the collection.
#[derive(Clone, Copy, Debug, PartialEq, Eq, Structural)]
pub enum Question {
    /// Which region.
    Region,
    /// Which type of analysis.
    Analysis,
    /// Which granularity.
    Granularity,
    /// Which disease class.
    Disease,
    /// The first year.
    YearStart,
    /// The last year.
    YearEnd,
    /// The first month.
    MonthStart,
    /// The last month.
    MonthEnd,
    /// The number of years to forecast.
    Horizon,
    /// The confidence level.
    Alpha,
}

/// How a question is put and what answers it takes.
#[derive(Clone, Copy, Debug, PartialEq, Eq, Structural)]
pub enum Prompt {
    /// One entry of a list of `count` entries, found by typing part of its
    /// label if `fuzzy`.
    Choice { count: usize, fuzzy: bool },
    /// A whole number from `min` to `max`, `default` on an empty answer.
    Integer { min: i32, max: i32, default: i32 },
    /// A decimal number, its bounds and its default in thousandths.
    Real { min_thousandths: u32, max_thousandths: u32, default_thousandths: u32 },
}

/// Why an answer was not taken.
#[derive(Clone, Copy, Debug, PartialEq, Eq, Structural)]
pub enum Refusal {
    /// The answer lies outside the range of the question, which stays
    /// pending.
    OutOfRange,
    /// The answer is not of the kind that the pending question asks for, or
    /// no question is pending.
    Unexpected,
    /// The last year lies before the first one: the collection is over.
    YearRange,
    /// The last month lies before the first one: the collection is over.
    MonthRange,
}

/// What a [`Collector`] holds: the pending question and the answers.
pub struct Answers {
    /// The question to ask next; `None` once all are answered.
    pub pending: Option<Question>,
    /// The place of the region in its catalog.
    pub region: int,
    /// The place of the analysis type in its catalog.
    pub analysis: int,
    /// The place of the granularity in its catalog.
    pub granularity: int,
    /// The place of the disease class in its catalog.
    pub disease: int,
    /// The first year.
    pub year_start: int,
    /// The last year.
    pub year_end: int,
    /// The first month.
    pub month_start: int,
    /// The last month.
    pub month_end: int,
    /// The number of years to forecast.
    pub anos_prev: int,
    /// The confidence level, as decimal text.
    pub alpha: Seq<char>,
}

impl Question {
    /// The place of the question in the order of the collection.
    pub open spec fn rank(self) -> int {
        match self {
            Question::Region => 0,
            Question::Analysis => 1,
            Question::Granularity => 2,
            Question::Disease => 3,
            Question::YearStart => 4,
            Question::YearEnd => 5,
            Question::MonthStart => 6,
            Question::MonthEnd => 7,
            Question::Horizon => 8,
            Question::Alpha => 9,
        }
    }

    /// The text that puts the question.
    pub open spec fn label_text(self) -> Seq<char> {
        match self {
            Question::Region => "Selecione a UF"@,
            Question::Analysis => "Tipo de análise"@,
            Question::Granularity => "Granularidade dos dados"@,
            Question::Disease => "Selecione a DCNT"@,
            Question::YearStart => "Ano inicial"@,
            Question::YearEnd => "Ano final"@,
            Question::MonthStart => "Mês inicial (1-12)"@,
            Question::MonthEnd => "Mês final (1-12)"@,
            Question::Horizon => "Anos de previsão (ARIMA)"@,
            Question::Alpha => "Alpha (ex.: 0.95)"@,
        }
    }

    /// How the question is put and what answers it takes.
    pub open spec fn prompt_of(self) -> Prompt {
        match self {
            Question::Region => Prompt::Choice { count: region_table().len() as usize, fuzzy: true },
            Question::Analysis => Prompt::Choice {
                count: analysis_table().len() as usize,
                fuzzy: false,
            },
            Question::Granularity => Prompt::Choice {
                count: granularity_table().len() as usize,
                fuzzy: false,
            },
            Question::Disease => Prompt::Choice {
                count: disease_table().len() as usize,
                fuzzy: true,
            },
            Question::YearStart => Prompt::Integer { min: MIN_YEAR, max: MAX_YEAR, default: 2016 },
            Question::YearEnd => Prompt::Integer { min: MIN_YEAR, max: MAX_YEAR, default: 2019 },
            Question::MonthStart => Prompt::Integer { min: 1, max: 12, default: 1 },
            Question::MonthEnd => Prompt::Integer { min: 1, max: 12, default: 12 },
            Question::Horizon => Prompt::Integer { min: 1, max: MAX_HORIZON, default: 3 },
            Question::Alpha => Prompt::Real {
                min_thousandths: MIN_THOUSANDTHS,
                max_thousandths: MAX_THOUSANDTHS,
                default_thousandths: DEFAULT_THOUSANDTHS,
            },
        }
    }

    /// The text that puts the question.
    pub fn label(self) -> (text: &'static str)
        ensures
            text@ == self.label_text(),
    {
        match self {
            Question::Region => "Selecione a UF",
            Question::Analysis => "Tipo de análise",
            Question::Granularity => "Granularidade dos dados",
            Question::Disease => "Selecione a DCNT",
            Question::YearStart => "Ano inicial",
            Question::YearEnd => "Ano final",
            Question::MonthStart => "Mês inicial (1-12)",
            Question::MonthEnd => "Mês final (1-12)",
            Question::Horizon => "Anos de previsão (ARIMA)",
            Question::Alpha => "Alpha (ex.: 0.95)",
        }
    }

    /// How the question is put and what answers it takes.
    pub fn prompt(self) -> (prompt: Prompt)
        ensures
            prompt == self.prompt_of(),
    {
        match self {
            Question::Region => Prompt::Choice { count: 27, fuzzy: true },
            Question::Analysis => Prompt::Choice { count: 3, fuzzy: false },
            Question::Granularity => Prompt::Choice { count: 2, fuzzy: false },
            Question::Disease => Prompt::Choice { count: 6, fuzzy: true },
            Question::YearStart => Prompt::Integer { min: MIN_YEAR, max: MAX_YEAR, default: 2016 },
            Question::YearEnd => Prompt::Integer { min: MIN_YEAR, max: MAX_YEAR, default: 2019 },
            Question::MonthStart => Prompt::Integer { min: 1, max: 12, default: 1 },
            Question::MonthEnd => Prompt::Integer { min: 1, max: 12, default: 12 },
            Question::Horizon => Prompt::Integer { min: 1, max: MAX_HORIZON, default: 3 },
            Question::Alpha => Prompt::Real {
                min_thousandths: MIN_THOUSANDTHS,
                max_thousandths: MAX_THOUSANDTHS,
                default_thousandths: DEFAULT_THOUSANDTHS,
            },
        }
    }
}

impl Answers {
    /// How the series is to be aggregated, by the granularity that was
    /// chosen.
    pub open spec fn mode(self) -> Mode {
        granularity_table()[self.granularity].1
    }

    /// Whether the question `q` has its answer.
    pub open spec fn has(self, q: Question) -> bool {
        match self.pending {
            None => true,
            Some(p) => q.rank() < p.rank(),
        }
    }

    /// Whether every answer that was taken is in the range of its question,
    /// no range of years or months ends before it starts, and what was not
    /// asked for yet, or is not asked for at all, has its first value: the
    /// first granularity, and the months of the whole year.
    pub open spec fn well_formed(self) -> bool {
        &&& self.has(Question::Region) ==> 0 <= self.region < region_table().len()
        &&& self.has(Question::Analysis) ==> 0 <= self.analysis < analysis_table().len()
        &&& 0 <= self.granularity < granularity_table().len()
        &&& !self.has(Question::Granularity) ==> self.granularity == 0
        &&& self.has(Question::Disease) ==> 0 <= self.disease < disease_table().len()
        &&& self.has(Question::YearStart) ==> MIN_YEAR <= self.year_start <= MAX_YEAR
        &&& self.has(Question::YearEnd) ==> self.year_start <= self.year_end <= MAX_YEAR
        &&& 1 <= self.month_start <= self.month_end <= 12
        &&& !self.has(Question::MonthStart) || self.mode() == Mode::Year ==> self.month_start == 1
        &&& !self.has(Question::MonthEnd) || self.mode() == Mode::Year ==> self.month_end == 12
        &&& self.pending == Some(Question::MonthStart) || self.pending == Some(Question::MonthEnd)
            ==> self.mode() == Mode::Month
        &&& self.has(Question::Horizon) ==> 1 <= self.anos_prev <= MAX_HORIZON
        &&& self.has(Question::Alpha) ==> confidence_text_in_range(self.alpha)
    }

    /// The answers before any was given: the first question pending, and the
    /// months of the whole year.
    pub open spec fn initial() -> Answers {
        Answers {
            pending: Some(Question::Region),
            region: 0,
            analysis: 0,
            granularity: 0,
            disease: 0,
            year_start: 0,
            year_end: 0,
            month_start: 1,
            month_end: 12,
            anos_prev: 0,
            alpha: Seq::empty(),
        }
    }

    /// The answers after the choice of entry number `index` was given, or why
    /// it is refused.
    pub open spec fn with_choice(self, index: int) -> Result<Answers, Refusal> {
        match self.pending {
            Some(Question::Region) => if 0 <= index < region_table().len() {
                Ok(Answers { pending: Some(Question::Analysis), region: index, ..self })
            } else {
                Err(Refusal::OutOfRange)
            },
            Some(Question::Analysis) => if 0 <= index < analysis_table().len() {
                Ok(Answers { pending: Some(Question::Granularity), analysis: index, ..self })
            } else {
                Err(Refusal::OutOfRange)
            },
            Some(Question::Granularity) => if 0 <= index < granularity_table().len() {
                Ok(Answers { pending: Some(Question::Disease), granularity: index, ..self })
            } else {
                Err(Refusal::OutOfRange)
            },
            Some(Question::Disease) => if 0 <= index < disease_table().len() {
                Ok(Answers { pending: Some(Question::YearStart), disease: index, ..self })
            } else {
                Err(Refusal::OutOfRange)
            },
            _ => Err(Refusal::Unexpected),
        }
    }

    /// The answers after the whole number `value` was given, or why it is
    /// refused. The months are asked for only if the series is monthly.
    pub open spec fn with_integer(self, value: int) -> Result<Answers, Refusal> {
        match self.pending {
            Some(Question::YearStart) => if MIN_YEAR <= value <= MAX_YEAR {
                Ok(Answers { pending: Some(Question::YearEnd), year_start: value, ..self })
            } else {
                Err(Refusal::OutOfRange)
            },
            Some(Question::YearEnd) => if !(MIN_YEAR <= value <= MAX_YEAR) {
                Err(Refusal::OutOfRange)
            } else if value < self.year_start {
                Err(Refusal::YearRange)
            } else {
                Ok(
                    Answers {
                        pending: Some(
                            if self.mode() == Mode::Month {
                                Question::MonthStart
                            } else {
                                Question::Horizon
                            },
                        ),
                        year_end: value,
                        ..self
                    },
                )
            },
            Some(Question::MonthStart) => if 1 <= value <= 12 {
                Ok(Answers { pending: Some(Question::MonthEnd), month_start: value, ..self })
            } else {
                Err(Refusal::OutOfRange)
            },
            Some(Question::MonthEnd) => if !(1 <= value <= 12) {
                Err(Refusal::OutOfRange)
            } else if value < self.month_start {
                Err(Refusal::MonthRange)
            } else {
                Ok(Answers { pending: Some(Question::Horizon), month_end: value, ..self })
            },
            Some(Question::Horizon) => if 1 <= value <= MAX_HORIZON {
                Ok(Answers { pending: Some(Question::Alpha), anos_prev: value, ..self })
            } else {
                Err(Refusal::OutOfRange)
            },
            _ => Err(Refusal::Unexpected),
        }
    }

    /// The answers after the decimal number written as `text` was given, or
    /// why it is refused.
    pub open spec fn with_real(self, text: Seq<char>) -> Result<Answers, Refusal> {
        match self.pending {
            Some(Question::Alpha) => if confidence_text_in_range(text) {
                Ok(Answers { pending: None, alpha: text, ..self })
            } else {
                Err(Refusal::OutOfRange)
            },
            _ => Err(Refusal::Unexpected),
        }
    }
}

/// A last year before the first one is never taken, nor a last month before
/// the first one: among the values in range, exactly those are refused for
/// it. A last year or month equal to the first one is taken.
pub proof fn lemma_range_ends_are_checked(answers: Answers, value: int)
    requires
        answers.well_formed(),
    ensures
        answers.pending == Some(Question::YearEnd) && value < answers.year_start
            ==> answers.with_integer(value) is Err,
        answers.pending == Some(Question::YearEnd) && MIN_YEAR <= value <= MAX_YEAR ==> (
        answers.with_integer(value) == Err::<Answers, Refusal>(Refusal::YearRange) <==> value
            < answers.year_start),
        answers.pending == Some(Question::YearEnd) && value == answers.year_start
            ==> answers.with_integer(value) is Ok,
        answers.pending == Some(Question::MonthEnd) && value < answers.month_start
            ==> answers.with_integer(value) is Err,
        answers.pending == Some(Question::MonthEnd) && 1 <= value <= 12 ==> (answers.with_integer(
            value,
        ) == Err::<Answers, Refusal>(Refusal::MonthRange) <==> value < answers.month_start),
        answers.pending == Some(Question::MonthEnd) && value == answers.month_start
            ==> answers.with_integer(value) is Ok,
{
}

/// Taking an answer keeps the answers well formed.
pub proof fn lemma_answers_stay_well_formed(answers: Answers, index: int, value: int, text: Seq<char>)
    requires
        answers.well_formed(),
    ensures
        answers.with_choice(index) matches Ok(next) ==> next.well_formed(),
        answers.with_integer(value) matches Ok(next) ==> next.well_formed(),
        answers.with_real(text) matches Ok(next) ==> next.well_formed(),
        Answers::initial().well_formed(),
{
}

/// The answers of one collection and the question that is pending.
#[derive(Debug)]
pub struct Collector {
    pending: Option<Question>,
    region: usize,
    analysis: usize,
    granularity: usize,
    disease: usize,
    year_start: i32,
    year_end: i32,
    month_start: i32,
    month_end: i32,
    anos_prev: i32,
    alpha: String,
}

impl View for Collector {
    type V = Answers;

    closed spec fn view(&self) -> Answers {
        Answers {
            pending: self.pending,
            region: self.region as int,
            analysis: self.analysis as int,
            granularity: self.granularity as int,
            disease: self.disease as int,
            year_start: self.year_start as int,
            year_end: self.year_end as int,
            month_start: self.month_start as int,
            month_end: self.month_end as int,
            anos_prev: self.anos_prev as int,
            alpha: self.alpha@,
        }
    }
}

impl Collector {
    #[verifier::type_invariant]
    spec fn wf(self) -> bool {
        self@.well_formed()
    }

    /// A collection with no answer yet.
    pub fn new() -> (collector: Collector)
        ensures
            collector@ == Answers::initial(),
            collector@.well_formed(),
    {
        Collector {
            pending: Some(Question::Region),
            region: 0,
            analysis: 0,
            granularity: 0,
            disease: 0,
            year_start: 0,
            year_end: 0,
            month_start: 1,
            month_end: 12,
            anos_prev: 0,
            alpha: String::new(),
        }
    }

    /// The question to ask next; `None` once all are answered.
    pub fn pending(&self) -> (question: Option<Question>)
        ensures
            question == self@.pending,
            self@.well_formed(),
    {
        proof {
            use_type_invariant(self);
        }
        self.pending
    }

    /// How the series is to be aggregated, by the granularity chosen so far.
    pub fn mode(&self) -> (mode: Mode)
        ensures
            mode == self@.mode(),
    {
        proof {
            use_type_invariant(self);
        }
        if self.granularity == 1 {
            Mode::Month
        } else {
            Mode::Year
        }
    }

    /// Takes the choice of entry number `index` as the answer to the pending
    /// question.
    pub fn answer_choice(&mut self, index: usize) -> (taken: Result<(), Refusal>)
        ensures
            match old(self)@.with_choice(index as int) {
                Ok(answers) => taken is Ok && final(self)@ == answers,
                Err(refusal) => taken == Err::<(), Refusal>(refusal) && final(self)@ == old(self)@,
            },
            final(self)@.well_formed(),
    {
        proof {
            use_type_invariant(&*self);
        }
        match self.pending {
            Some(Question::Region) => {
                if index >= 27 {
                    return Err(Refusal::OutOfRange);
                }
                self.region = index;
                self.pending = Some(Question::Analysis);
                Ok(())
            },
            Some(Question::Analysis) => {
                if index >= 3 {
                    return Err(Refusal::OutOfRange);
                }
                self.analysis = index;
                self.pending = Some(Question::Granularity);
                Ok(())
            },
            Some(Question::Granularity) => {
                if index >= 2 {
                    return Err(Refusal::OutOfRange);
                }
                self.pending = Some(Question::Disease);
                self.granularity = index;
                Ok(())
            },
            Some(Question::Disease) => {
                if index >= 6 {
                    return Err(Refusal::OutOfRange);
                }
                self.disease = index;
                self.pending = Some(Question::YearStart);
                Ok(())
            },
            _ => Err(Refusal::Unexpected),
        }
    }

    /// Takes the whole number `value` as the answer to the pending question.
    pub fn answer_integer(&mut self, value: i32) -> (taken: Result<(), Refusal>)
        ensures
            match old(self)@.with_integer(value as int) {
                Ok(answers) => taken is Ok && final(self)@ == answers,
                Err(refusal) => taken == Err::<(), Refusal>(refusal) && final(self)@ == old(self)@,
            },
            final(self)@.well_formed(),
    {
        proof {
            use_type_invariant(&*self);
        }
        match self.pending {
            Some(Question::YearStart) => {
                if value < MIN_YEAR || value > MAX_YEAR {
                    return Err(Refusal::OutOfRange);
                }
                self.year_start = value;
                self.pending = Some(Question::YearEnd);
                Ok(())
            },
            Some(Question::YearEnd) => {
                if value < MIN_YEAR || value > MAX_YEAR {
                    return Err(Refusal::OutOfRange);
                }
                if value < self.year_start {
                    return Err(Refusal::YearRange);
                }
                self.year_end = value;
                self.pending = Some(
                    if self.granularity == 1 {
                        Question::MonthStart
                    } else {
                        Question::Horizon
                    },
                );
                Ok(())
            },
            Some(Question::MonthStart) => {
                if value < 1 || value > 12 {
                    return Err(Refusal::OutOfRange);
                }
                self.pending = Some(Question::MonthEnd);
                self.month_start = value;
                Ok(())
            },
            Some(Question::MonthEnd) => {
                if value < 1 || value > 12 {
                    return Err(Refusal::OutOfRange);
                }
                if value < self.month_start {
                    return Err(Refusal::MonthRange);
                }
                self.pending = Some(Question::Horizon);
                self.month_end = value;
                Ok(())
            },
            Some(Question::Horizon) => {
                if value < 1 || value > MAX_HORIZON {
                    return Err(Refusal::OutOfRange);
                }
                self.anos_prev = value;
                self.pending = Some(Question::Alpha);
                Ok(())
            },
            _ => Err(Refusal::Unexpected),
        }
    }

    /// Takes the decimal number written as `text` as the answer to the
    /// pending question.
    pub fn answer_real(&mut self, text: String) -> (taken: Result<(), Refusal>)
        ensures
            match old(self)@.with_real(text@) {
                Ok(answers) => taken is Ok && final(self)@ == answers,
                Err(refusal) => taken == Err::<(), Refusal>(refusal) && final(self)@ == old(self)@,
            },
            final(self)@.well_formed(),
    {
        proof {
            use_type_invariant(&*self);
        }
        match self.pending {
            Some(Question::Alpha) => {
                if !confidence_in_range(text.as_str()) {
                    return Err(Refusal::OutOfRange);
                }
                self.alpha = text;
                self.pending = None;
                Ok(())
            },
            _ => Err(Refusal::Unexpected),
        }
    }
}

/// What is said of a whole number that lies outside the range from `min` to
/// `max`.
pub open spec fn range_message_text(min: int, max: int) -> Seq<char> {
    "Valor inválido. Use entre "@ + decimal_text(min) + " e "@ + decimal_text(max) + "."@
}

/// Checks that `value` lies from `min` to `max`, and says what the range is
/// if it does not.
pub fn check_in_range(value: i32, min: i32, max: i32) -> (checked: Result<(), String>)
    ensures
        match checked {
            Ok(_) => min <= value <= max,
            Err(message) => !(min <= value <= max) && message@ == range_message_text(
                min as int,
                max as int,
            ),
        },
{
    if value >= min && value <= max {
        return Ok(());
    }
    let mut message = String::from_str("Valor inválido. Use entre ");
    push_decimal(&mut message, min as i64);
    message.append(" e ");
    push_decimal(&mut message, max as i64);
    message.append(".");
    Err(message)
}

/// The folder that a run with the answers `answers` asks for on the day
/// written as `date`: under `out_dir`, named after the day, the disease class
/// and the type of analysis.
pub open spec fn base_folder_text(answers: Answers, out_dir: Seq<char>, date: Seq<char>) -> Seq<
    char,
> {
    joined_path(
        out_dir,
        folder_name_text(
            date,
            disease_table()[answers.disease].1,
            analysis_table()[answers.analysis].2,
        ),
    )
}

/// Names the folder that the run asks for on the day written as `date`, under
/// `out_dir`; nothing while a question is pending.
pub fn base_folder(collector: &Collector, out_dir: &str, date: &str) -> (folder: Option<String>)
    ensures
        match folder {
            Some(path) => collector@.pending is None && path@ == base_folder_text(
                collector@,
                out_dir@,
                date@,
            ),
            None => collector@.pending is Some,
        },
{
    proof {
        use_type_invariant(collector);
    }
    if collector.pending.is_some() {
        return None;
    }
    let analyses = analysis_types();
    let classes = diseases();
    assert(analyses@.map_values(|a: AnalysisType| a.entry())[collector.analysis as int]
        == analyses[collector.analysis as int].entry());
    assert(classes@.map_values(|d: Disease| d.entry())[collector.disease as int]
        == classes[collector.disease as int].entry());
    let name = folder_name(
        date,
        classes[collector.disease].slug,
        analyses[collector.analysis].slug,
    );
    Some(join_path(out_dir, name.as_str()))
}

/// Makes the selection of a run of the answers, with its files laid out in
/// `folder`; nothing while a question is pending.
pub fn build_selection(collector: &Collector, folder: &str) -> (selection: Option<Selection>)
    ensures
        match selection {
            Some(made) => collector@.pending is None && made.is_selection_of(collector@, folder@)
                && made.is_valid(),
            None => collector@.pending is Some,
        },
{
    proof {
        use_type_invariant(collector);
    }
    if collector.pending.is_some() {
        return None;
    }
    let mut regions = uf_list();
    assert(regions.deep_view()[collector.region as int] == regions[collector.region as int]
        .deep_view());
    let (uf_sigla, uf_cod, uf_nome) = regions.remove(collector.region);
    let analyses = analysis_types();
    assert(analyses@.map_values(|a: AnalysisType| a.entry())[collector.analysis as int]
        == analyses[collector.analysis as int].entry());
    let analysis = analyses[collector.analysis];
    let mut classes = diseases();
    assert(classes@.map_values(|d: Disease| d.entry())[collector.disease as int]
        == classes[collector.disease as int].entry());
    let disease = classes.remove(collector.disease);
    let levels = granularities();
    assert(levels@.map_values(|g: Granularity| g.entry())[collector.granularity as int]
        == levels[collector.granularity as int].entry());
    let granularity = levels[collector.granularity];
    let layout = layout_in(folder, granularity.mode);
    Some(
        Selection {
            uf_sigla,
            uf_cod,
            uf_nome,
            analysis,
            disease,
            granularity,
            year_start: collector.year_start,
            year_end: collector.year_end,
            month_start: collector.month_start,
            month_end: collector.month_end,
            anos_prev: collector.anos_prev,
            alpha: collector.alpha.clone(),
            layout,
        },
    )
}

} // verus!
