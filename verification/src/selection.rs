//! What one run works on: the entries chosen from the catalogs, the period,
//! the forecast settings and the paths of the files.

use vstd::prelude::*;
use vstd::string::*;
use crate::catalog::{
    AnalysisType,
    Disease,
    Granularity,
    Mode,
    analysis_table,
    analysis_types,
    disease_table,
    diseases,
    granularities,
    granularity_table,
    region_table,
    uf_list,
};
use crate::collector::{Answers, MAX_HORIZON, MAX_YEAR, MIN_YEAR, Question};
use crate::confidence::confidence_text_in_range;
use crate::layout::OutputLayout;
use crate::text::{decimal_text, push_decimal, push_str_text, push_text};

verus! {

/// The settings of one run and the paths of its files.
#[derive(Debug)]
pub struct Selection {
    /// The code letters of the region.
    pub uf_sigla: String,
    /// The numeric code of the region.
    pub uf_cod: String,
    /// The name of the region.
    pub uf_nome: String,
    /// The type of analysis.
    pub analysis: AnalysisType,
    /// The disease class.
    pub disease: Disease,
    /// The granularity of the series.
    pub granularity: Granularity,
    /// The first year of the period.
    pub year_start: i32,
    /// The last year of the period.
    pub year_end: i32,
    /// The first month; 1 unless the series is monthly.
    pub month_start: i32,
    /// The last month; 12 unless the series is monthly.
    pub month_end: i32,
    /// The number of years to forecast.
    pub anos_prev: i32,
    /// The confidence level, as decimal text.
    pub alpha: String,
    /// The paths of the files.
    pub layout: OutputLayout,
}

impl Selection {
    /// Whether the settings are in range: the years from the first to the
    /// last one that can be asked for, the months from 1 to 12, neither range
    /// ending before it starts, the months those of the whole year unless the
    /// series is monthly, the horizon from one year to the longest, and the
    /// confidence level from 0.5 to 0.999.
    pub open spec fn is_valid(self) -> bool {
        &&& MIN_YEAR <= self.year_start <= self.year_end <= MAX_YEAR
        &&& 1 <= self.month_start <= self.month_end <= 12
        &&& self.granularity.mode == Mode::Year ==> self.month_start == 1 && self.month_end == 12
        &&& 1 <= self.anos_prev <= MAX_HORIZON
        &&& confidence_text_in_range(self.alpha@)
    }

    /// Whether the selection is the one that `answers` describe, laid out in
    /// `folder`: each entry is the one at the chosen place of its catalog,
    /// the numbers and the confidence level are those given, and the files
    /// lie in `folder` under the names for the chosen granularity.
    pub open spec fn is_selection_of(self, answers: Answers, folder: Seq<char>) -> bool {
        &&& (self.uf_sigla@, self.uf_cod@, self.uf_nome@) == region_table()[answers.region]
        &&& self.analysis.entry() == analysis_table()[answers.analysis]
        &&& self.disease.entry() == disease_table()[answers.disease]
        &&& self.granularity.entry() == granularity_table()[answers.granularity]
        &&& self.year_start == answers.year_start
        &&& self.year_end == answers.year_end
        &&& self.month_start == answers.month_start
        &&& self.month_end == answers.month_end
        &&& self.anos_prev == answers.anos_prev
        &&& self.alpha@ == answers.alpha
        &&& self.layout.is_layout_of(folder, answers.mode())
    }

    /// The lines of the summary that is shown before a run: region, type of
    /// analysis, disease class, period, granularity, the months if the
    /// series is monthly, the forecast settings and the folder, between two
    /// rules.
    pub open spec fn summary_text(self) -> Seq<Seq<char>> {
        let head = seq![
            "\n================ RESUMO ================"@,
            "UF: "@ + self.uf_sigla@ + " ("@ + self.uf_cod@ + ") - "@ + self.uf_nome@,
            "Tipo: "@ + self.analysis.label@,
            "DCNT: "@ + self.disease.label@,
            "Período: "@ + decimal_text(self.year_start as int) + "-"@ + decimal_text(
                self.year_end as int,
            ),
            "Granularidade: "@ + self.granularity.label@,
        ];
        let months = if self.granularity.mode == Mode::Month {
            seq![
                "Meses: "@ + decimal_text(self.month_start as int) + "-"@ + decimal_text(
                    self.month_end as int,
                ),
            ]
        } else {
            Seq::<Seq<char>>::empty()
        };
        let tail = seq![
            "ARIMA (Python): "@ + decimal_text(self.anos_prev as int) + " anos | alpha="@
                + self.alpha@,
            "Pasta de saída: "@ + self.layout.out_folder@,
            "=======================================\n"@,
        ];
        head + months + tail
    }

    /// Writes the summary that is shown before a run, line by line.
    pub fn summary_lines(&self) -> (lines: Vec<String>)
        ensures
            lines.deep_view() == self.summary_text(),
    {
        let mut lines: Vec<String> = Vec::new();
        push_str_text(&mut lines, "\n================ RESUMO ================");

        let mut region = String::from_str("UF: ");
        region.append(self.uf_sigla.as_str());
        region.append(" (");
        region.append(self.uf_cod.as_str());
        region.append(") - ");
        region.append(self.uf_nome.as_str());
        push_text(&mut lines, region);

        let mut analysis = String::from_str("Tipo: ");
        analysis.append(self.analysis.label);
        push_text(&mut lines, analysis);

        let mut disease = String::from_str("DCNT: ");
        disease.append(self.disease.label);
        push_text(&mut lines, disease);

        let mut period = String::from_str("Período: ");
        push_decimal(&mut period, self.year_start as i64);
        period.append("-");
        push_decimal(&mut period, self.year_end as i64);
        push_text(&mut lines, period);

        let mut granularity = String::from_str("Granularidade: ");
        granularity.append(self.granularity.label);
        push_text(&mut lines, granularity);

        if self.granularity.mode == Mode::Month {
            let mut months = String::from_str("Meses: ");
            push_decimal(&mut months, self.month_start as i64);
            months.append("-");
            push_decimal(&mut months, self.month_end as i64);
            push_text(&mut lines, months);
        }
        let mut forecast = String::from_str("ARIMA (Python): ");
        push_decimal(&mut forecast, self.anos_prev as i64);
        forecast.append(" anos | alpha=");
        forecast.append(self.alpha.as_str());
        push_text(&mut lines, forecast);

        let mut folder = String::from_str("Pasta de saída: ");
        folder.append(self.layout.out_folder.as_str());
        push_text(&mut lines, folder);

        push_str_text(&mut lines, "=======================================\n");
        assert(lines.deep_view() =~= self.summary_text());
        lines
    }
}

/// The text that lists a region: its code letters, its name and, in
/// brackets, its numeric code.
pub open spec fn region_label_text(entry: (Seq<char>, Seq<char>, Seq<char>)) -> Seq<char> {
    entry.0 + " - "@ + entry.2 + " ("@ + entry.1 + ")"@
}

/// The texts that list the entries a question chooses from, in the order of
/// its catalog; none for a question that asks for a number.
pub open spec fn choice_label_texts(question: Question) -> Seq<Seq<char>> {
    match question {
        Question::Region => region_table().map_values(
            |entry: (Seq<char>, Seq<char>, Seq<char>)| region_label_text(entry),
        ),
        Question::Analysis => analysis_table().map_values(
            |entry: (Seq<char>, Seq<char>, Seq<char>)| entry.0,
        ),
        Question::Granularity => granularity_table().map_values(
            |entry: (Seq<char>, Mode, Seq<char>)| entry.0,
        ),
        Question::Disease => disease_table().map_values(
            |entry: (Seq<char>, Seq<char>, Seq<Seq<char>>)| entry.0,
        ),
        _ => Seq::empty(),
    }
}

/// Lists the regions.
fn region_labels() -> (labels: Vec<String>)
    ensures
        labels.deep_view() == choice_label_texts(Question::Region),
{
    let regions = uf_list();
    let mut labels: Vec<String> = Vec::new();
    let n = regions.len();
    let mut i: usize = 0;
    while i < n
        invariant
            i <= n,
            n == regions.len(),
            regions.deep_view() == region_table(),
            labels.deep_view() == choice_label_texts(Question::Region).take(i as int),
        decreases n - i,
    {
        assert(regions.deep_view()[i as int] == regions[i as int].deep_view());
        let mut label = String::from_str(regions[i].0.as_str());
        label.append(" - ");
        label.append(regions[i].2.as_str());
        label.append(" (");
        label.append(regions[i].1.as_str());
        label.append(")");
        push_text(&mut labels, label);
        i = i + 1;
        assert(labels.deep_view() =~= choice_label_texts(Question::Region).take(i as int));
    }
    assert(choice_label_texts(Question::Region).take(n as int) =~= choice_label_texts(
        Question::Region,
    ));
    labels
}

/// Lists the entries that `question` chooses from, in the order of its
/// catalog; nothing for a question that asks for a number.
pub fn choice_labels(question: Question) -> (labels: Vec<String>)
    ensures
        labels.deep_view() == choice_label_texts(question),
{
    let mut labels: Vec<String> = Vec::new();
    match question {
        Question::Region => {
            return region_labels();
        },
        Question::Analysis => {
            let list = analysis_types();
            let ghost table = list@.map_values(|a: AnalysisType| a.entry());
            let n = list.len();
            let mut i: usize = 0;
            while i < n
                invariant
                    i <= n,
                    n == list.len(),
                    table == list@.map_values(|a: AnalysisType| a.entry()),
                    table == analysis_table(),
                    labels.deep_view() == choice_label_texts(Question::Analysis).take(i as int),
                decreases n - i,
            {
                assert(table[i as int] == list[i as int].entry());
                push_str_text(&mut labels, list[i].label);
                i = i + 1;
                assert(labels.deep_view() =~= choice_label_texts(Question::Analysis).take(
                    i as int,
                ));
            }
        },
        Question::Granularity => {
            let list = granularities();
            let ghost table = list@.map_values(|g: Granularity| g.entry());
            let n = list.len();
            let mut i: usize = 0;
            while i < n
                invariant
                    i <= n,
                    n == list.len(),
                    table == list@.map_values(|g: Granularity| g.entry()),
                    table == granularity_table(),
                    labels.deep_view() == choice_label_texts(Question::Granularity).take(i as int),
                decreases n - i,
            {
                assert(table[i as int] == list[i as int].entry());
                push_str_text(&mut labels, list[i].label);
                i = i + 1;
                assert(labels.deep_view() =~= choice_label_texts(Question::Granularity).take(
                    i as int,
                ));
            }
        },
        Question::Disease => {
            let list = diseases();
            let ghost table = list@.map_values(|d: Disease| d.entry());
            let n = list.len();
            let mut i: usize = 0;
            while i < n
                invariant
                    i <= n,
                    n == list.len(),
                    table == list@.map_values(|d: Disease| d.entry()),
                    table == disease_table(),
                    labels.deep_view() == choice_label_texts(Question::Disease).take(i as int),
                decreases n - i,
            {
                assert(table[i as int] == list[i as int].entry());
                push_str_text(&mut labels, list[i].label);
                i = i + 1;
                assert(labels.deep_view() =~= choice_label_texts(Question::Disease).take(
                    i as int,
                ));
            }
        },
        _ => {},
    }
    assert(choice_label_texts(question).take(choice_label_texts(question).len() as int)
        =~= choice_label_texts(question));
    assert(labels.deep_view() =~= choice_label_texts(question));
    labels
}

} // verus!
