//! The reference catalogs an operator chooses from: regions, disease
//! classes, analysis types and granularities, each in the order in which it
//! is listed.

use vstd::prelude::*;
use vstd::string::*;

verus! {

/// How a series is aggregated.
#[derive(Clone, Copy, Debug, PartialEq, Eq, Structural)]
pub enum Mode {
    /// One value per year.
    Year,
    /// One value per month.
    Month,
}

/// A class of diseases, with the classification prefixes that select its
/// records.
#[derive(Debug)]
pub struct Disease {
    /// The text shown to the operator.
    pub label: &'static str,
    /// The name used in folder names.
    pub slug: &'static str,
    /// The classification prefixes, in the order in which they are handed on.
    pub icd_prefixes: Vec<&'static str>,
}

/// A kind of analysis, with the code of the record system it draws on.
#[derive(Clone, Copy, Debug)]
pub struct AnalysisType {
    /// The text shown to the operator.
    pub label: &'static str,
    /// The code of the record system.
    pub system: &'static str,
    /// The name used in folder names.
    pub slug: &'static str,
}

/// A granularity of the extracted series.
#[derive(Clone, Copy, Debug)]
pub struct Granularity {
    /// The text shown to the operator.
    pub label: &'static str,
    /// How the series is aggregated.
    pub mode: Mode,
    /// The name used in folder names.
    pub slug: &'static str,
}

impl Mode {
    /// The word that names the mode to the extraction stage.
    pub open spec fn value_text(self) -> Seq<char> {
        match self {
            Mode::Year => "year"@,
            Mode::Month => "month"@,
        }
    }

    /// The word that names the mode to the extraction stage.
    pub fn value(self) -> (word: &'static str)
        ensures
            word@ == self.value_text(),
    {
        match self {
            Mode::Year => "year",
            Mode::Month => "month",
        }
    }
}

/// The texts of a list of string slices.
pub open spec fn texts(items: Seq<&'static str>) -> Seq<Seq<char>> {
    items.map_values(|s: &'static str| s@)
}

impl Disease {
    /// The entry as label, slug and classification prefixes.
    pub open spec fn entry(self) -> (Seq<char>, Seq<char>, Seq<Seq<char>>) {
        (self.label@, self.slug@, texts(self.icd_prefixes@))
    }
}

impl AnalysisType {
    /// The entry as label, system code and slug.
    pub open spec fn entry(self) -> (Seq<char>, Seq<char>, Seq<char>) {
        (self.label@, self.system@, self.slug@)
    }
}

impl Granularity {
    /// The entry as label, mode and slug.
    pub open spec fn entry(self) -> (Seq<char>, Mode, Seq<char>) {
        (self.label@, self.mode, self.slug@)
    }
}

/// The regions: code letters, numeric code and name of each.
pub open spec fn region_table() -> Seq<(Seq<char>, Seq<char>, Seq<char>)> {
    seq![
        ("AC"@, "12"@, "Acre"@),
        ("AL"@, "27"@, "Alagoas"@),
        ("AP"@, "16"@, "Amapá"@),
        ("AM"@, "13"@, "Amazonas"@),
        ("BA"@, "29"@, "Bahia"@),
        ("CE"@, "23"@, "Ceará"@),
        ("DF"@, "53"@, "Distrito Federal"@),
        ("ES"@, "32"@, "Espírito Santo"@),
        ("GO"@, "52"@, "Goiás"@),
        ("MA"@, "21"@, "Maranhão"@),
        ("MT"@, "51"@, "Mato Grosso"@),
        ("MS"@, "50"@, "Mato Grosso do Sul"@),
        ("MG"@, "31"@, "Minas Gerais"@),
        ("PA"@, "15"@, "Pará"@),
        ("PB"@, "25"@, "Paraíba"@),
        ("PR"@, "41"@, "Paraná"@),
        ("PE"@, "26"@, "Pernambuco"@),
        ("PI"@, "22"@, "Piauí"@),
        ("RJ"@, "33"@, "Rio de Janeiro"@),
        ("RN"@, "24"@, "Rio Grande do Norte"@),
        ("RS"@, "43"@, "Rio Grande do Sul"@),
        ("RO"@, "11"@, "Rondônia"@),
        ("RR"@, "14"@, "Roraima"@),
        ("SC"@, "42"@, "Santa Catarina"@),
        ("SP"@, "35"@, "São Paulo"@),
        ("SE"@, "28"@, "Sergipe"@),
        ("TO"@, "17"@, "Tocantins"@),
    ]
}

/// The analysis types: label, system code and slug of each.
pub open spec fn analysis_table() -> Seq<(Seq<char>, Seq<char>, Seq<char>)> {
    seq![
        ("Óbitos (SIM-DO)"@, "SIM-DO"@, "obitos"@),
        ("Óbitos (SIM-DO-PRELIM)"@, "SIM-DO-PRELIM"@, "obitos_prelim"@),
        ("Internações (SIH-RD)"@, "SIH-RD"@, "internacoes"@),
    ]
}

/// The granularities: label, mode and slug of each.
pub open spec fn granularity_table() -> Seq<(Seq<char>, Mode, Seq<char>)> {
    seq![
        ("Anual (por ano)"@, Mode::Year, "anual"@),
        ("Mensal (por mês)"@, Mode::Month, "mensal"@),
    ]
}

/// The disease classes: label, slug and classification prefixes of each.
pub open spec fn disease_table() -> Seq<(Seq<char>, Seq<char>, Seq<Seq<char>>)> {
    seq![
        ("Doenças cardiovasculares (CID-10: I)"@, "cardiovasculares"@, seq!["I"@]),
        (
            "Diabetes mellitus (E10-E14)"@,
            "diabetes"@,
            seq!["E10"@, "E11"@, "E12"@, "E13"@, "E14"@],
        ),
        (
            "Doenças respiratórias crônicas (J40-J47,J45-J46)"@,
            "respiratorias_cronicas"@,
            seq!["J40"@, "J41"@, "J42"@, "J43"@, "J44"@, "J45"@, "J46"@, "J47"@],
        ),
        (
            "Neoplasias / Câncer (C e D0-D4)"@,
            "cancer"@,
            seq!["C"@, "D0"@, "D1"@, "D2"@, "D3"@, "D4"@],
        ),
        (
            "Hipertensão e doenças hipertensivas (I10-I15)"@,
            "hipertensao"@,
            seq!["I10"@, "I11"@, "I12"@, "I13"@, "I14"@, "I15"@],
        ),
        ("Doença renal crônica (N18-N19)"@, "doenca_renal_cronica"@, seq!["N18"@, "N19"@]),
    ]
}

/// Makes one region of its three texts.
fn region(sigla: &str, cod: &str, nome: &str) -> (entry: (String, String, String))
    ensures
        entry.deep_view() == (sigla@, cod@, nome@),
{
    (String::from_str(sigla), String::from_str(cod), String::from_str(nome))
}

/// The regions, in the order in which they are listed: code letters, numeric
/// code and name of each.
pub fn uf_list() -> (list: Vec<(String, String, String)>)
    ensures
        list.deep_view() == region_table(),
{
    let mut list: Vec<(String, String, String)> = Vec::new();
    list.push(region("AC", "12", "Acre"));
    list.push(region("AL", "27", "Alagoas"));
    list.push(region("AP", "16", "Amapá"));
    list.push(region("AM", "13", "Amazonas"));
    list.push(region("BA", "29", "Bahia"));
    list.push(region("CE", "23", "Ceará"));
    list.push(region("DF", "53", "Distrito Federal"));
    list.push(region("ES", "32", "Espírito Santo"));
    list.push(region("GO", "52", "Goiás"));
    list.push(region("MA", "21", "Maranhão"));
    list.push(region("MT", "51", "Mato Grosso"));
    list.push(region("MS", "50", "Mato Grosso do Sul"));
    list.push(region("MG", "31", "Minas Gerais"));
    list.push(region("PA", "15", "Pará"));
    list.push(region("PB", "25", "Paraíba"));
    list.push(region("PR", "41", "Paraná"));
    list.push(region("PE", "26", "Pernambuco"));
    list.push(region("PI", "22", "Piauí"));
    list.push(region("RJ", "33", "Rio de Janeiro"));
    list.push(region("RN", "24", "Rio Grande do Norte"));
    list.push(region("RS", "43", "Rio Grande do Sul"));
    list.push(region("RO", "11", "Rondônia"));
    list.push(region("RR", "14", "Roraima"));
    list.push(region("SC", "42", "Santa Catarina"));
    list.push(region("SP", "35", "São Paulo"));
    list.push(region("SE", "28", "Sergipe"));
    list.push(region("TO", "17", "Tocantins"));
    assert(list.deep_view() =~= region_table());
    list
}

/// The analysis types, in the order in which they are listed.
pub fn analysis_types() -> (list: Vec<AnalysisType>)
    ensures
        list@.map_values(|a: AnalysisType| a.entry()) == analysis_table(),
{
    let mut list: Vec<AnalysisType> = Vec::new();
    list.push(AnalysisType { label: "Óbitos (SIM-DO)", system: "SIM-DO", slug: "obitos" });
    list.push(
        AnalysisType {
            label: "Óbitos (SIM-DO-PRELIM)",
            system: "SIM-DO-PRELIM",
            slug: "obitos_prelim",
        },
    );
    list.push(
        AnalysisType { label: "Internações (SIH-RD)", system: "SIH-RD", slug: "internacoes" },
    );
    assert(list@.map_values(|a: AnalysisType| a.entry()) =~= analysis_table());
    list
}

/// The granularities, in the order in which they are listed.
pub fn granularities() -> (list: Vec<Granularity>)
    ensures
        list@.map_values(|g: Granularity| g.entry()) == granularity_table(),
{
    let mut list: Vec<Granularity> = Vec::new();
    list.push(Granularity { label: "Anual (por ano)", mode: Mode::Year, slug: "anual" });
    list.push(Granularity { label: "Mensal (por mês)", mode: Mode::Month, slug: "mensal" });
    assert(list@.map_values(|g: Granularity| g.entry()) =~= granularity_table());
    list
}

/// The disease classes, in the order in which they are listed.
pub fn diseases() -> (list: Vec<Disease>)
    ensures
        list@.map_values(|d: Disease| d.entry()) == disease_table(),
{
    let mut list: Vec<Disease> = Vec::new();
    let cardio: Vec<&'static str> = vec!["I"];
    assert(texts(cardio@) =~= seq!["I"@]);
    list.push(
        Disease {
            label: "Doenças cardiovasculares (CID-10: I)",
            slug: "cardiovasculares",
            icd_prefixes: cardio,
        },
    );
    let diabetes: Vec<&'static str> = vec!["E10", "E11", "E12", "E13", "E14"];
    assert(texts(diabetes@) =~= seq!["E10"@, "E11"@, "E12"@, "E13"@, "E14"@]);
    list.push(
        Disease {
            label: "Diabetes mellitus (E10-E14)",
            slug: "diabetes",
            icd_prefixes: diabetes,
        },
    );
    let respiratory: Vec<&'static str> = vec![
        "J40",
        "J41",
        "J42",
        "J43",
        "J44",
        "J45",
        "J46",
        "J47",
    ];
    assert(texts(respiratory@) =~= seq![
        "J40"@,
        "J41"@,
        "J42"@,
        "J43"@,
        "J44"@,
        "J45"@,
        "J46"@,
        "J47"@,
    ]);
    list.push(
        Disease {
            label: "Doenças respiratórias crônicas (J40-J47,J45-J46)",
            slug: "respiratorias_cronicas",
            icd_prefixes: respiratory,
        },
    );
    let cancer: Vec<&'static str> = vec!["C", "D0", "D1", "D2", "D3", "D4"];
    assert(texts(cancer@) =~= seq!["C"@, "D0"@, "D1"@, "D2"@, "D3"@, "D4"@]);
    list.push(
        Disease {
            label: "Neoplasias / Câncer (C e D0-D4)",
            slug: "cancer",
            icd_prefixes: cancer,
        },
    );
    let hypertension: Vec<&'static str> = vec!["I10", "I11", "I12", "I13", "I14", "I15"];
    assert(texts(hypertension@) =~= seq!["I10"@, "I11"@, "I12"@, "I13"@, "I14"@, "I15"@]);
    list.push(
        Disease {
            label: "Hipertensão e doenças hipertensivas (I10-I15)",
            slug: "hipertensao",
            icd_prefixes: hypertension,
        },
    );
    let renal: Vec<&'static str> = vec!["N18", "N19"];
    assert(texts(renal@) =~= seq!["N18"@, "N19"@]);
    list.push(
        Disease {
            label: "Doença renal crônica (N18-N19)",
            slug: "doenca_renal_cronica",
            icd_prefixes: renal,
        },
    );
    assert(list@.map_values(|d: Disease| d.entry()) =~= disease_table());
    list
}

} // verus!
