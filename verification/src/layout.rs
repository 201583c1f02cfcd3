//! Where the files of one run go: the name of its folder, the search for a
//! folder that is not taken yet, and the paths of the files inside it.

use vstd::prelude::*;
use vstd::string::*;
use crate::catalog::Mode;
use crate::slug::{sanitize_component, sanitized};
use crate::text::{chars_of, decimal_text, push_decimal};

verus! {

/// The last number that is tried as a suffix of a folder name.
pub const LAST_SUFFIX: u32 = 999;

/// `name` placed under `base`: a `/` is put between them unless `base` is
/// empty or ends in one already, and a `name` that starts at the root stands
/// alone.
pub open spec fn joined_path(base: Seq<char>, name: Seq<char>) -> Seq<char> {
    if name.len() > 0 && name[0] == '/' {
        name
    } else if base.len() == 0 || base.last() == '/' {
        base + name
    } else {
        base + seq!['/'] + name
    }
}

/// The name of a run's folder: the date, the sanitized slug of the disease
/// class and the slug of the analysis type, joined by hyphens.
pub open spec fn folder_name_text(
    date: Seq<char>,
    disease_slug: Seq<char>,
    analysis_slug: Seq<char>,
) -> Seq<char> {
    date + seq!['-'] + sanitized(disease_slug) + seq!['-'] + analysis_slug
}

/// The path that attempt number `attempt` tries for the folder `base`: `base`
/// itself at first, then `base` with `_` and the number of the attempt.
pub open spec fn candidate_text(base: Seq<char>, attempt: int) -> Seq<char> {
    if attempt <= 1 {
        base
    } else {
        base + seq!['_'] + decimal_text(attempt)
    }
}

/// The attempt that follows `attempt`.
pub open spec fn next_attempt(attempt: int) -> int {
    if attempt <= 1 {
        2
    } else {
        attempt + 1
    }
}

/// The folder that the search settles on, from attempt number `attempt` on,
/// where `taken` holds the paths that exist: the first candidate that is not
/// taken, and `base` itself once the last suffix is taken too.
pub open spec fn settled_folder(base: Seq<char>, taken: Set<Seq<char>>, attempt: int) -> Seq<
    char,
>
    decreases LAST_SUFFIX - attempt,
{
    if !taken.contains(candidate_text(base, attempt)) {
        candidate_text(base, attempt)
    } else if attempt < LAST_SUFFIX {
        settled_folder(base, taken, next_attempt(attempt))
    } else {
        base
    }
}

/// The folder chosen for a run that asks for `base`, where `taken` holds the
/// paths that exist.
pub open spec fn chosen_folder(base: Seq<char>, taken: Set<Seq<char>>) -> Seq<char> {
    settled_folder(base, taken, 1)
}

/// What the search for a folder does next.
#[derive(Debug)]
pub enum FolderStep {
    /// The search is over: this is the folder to use.
    Use(String),
    /// The candidate of this attempt is to be looked up next.
    Try(u32),
}

/// The paths of the files of one run.
#[derive(Debug)]
pub struct OutputLayout {
    /// The folder that holds the files.
    pub out_folder: String,
    /// The extracted records, at the granularity that was chosen.
    pub out_csv: String,
    /// The cleaned records, at the granularity that was chosen.
    pub out_clean: String,
    /// The forecast, at the granularity that was chosen.
    pub out_json: String,
    /// The extracted records of the annual fallback.
    pub out_csv_anual: String,
    /// The cleaned records of the annual fallback.
    pub out_clean_anual: String,
    /// The forecast of the annual fallback.
    pub out_json_anual: String,
    /// The forecast on monthly records.
    pub out_json_mensal: String,
}

/// The name of the file of extracted records for `mode`.
pub open spec fn raw_name(mode: Mode) -> Seq<char> {
    match mode {
        Mode::Year => "dados_tabnet.csv"@,
        Mode::Month => "dados_tabnet_mensal.csv"@,
    }
}

/// The name of the file of cleaned records for `mode`.
pub open spec fn clean_name(mode: Mode) -> Seq<char> {
    match mode {
        Mode::Year => "dados_limpos.csv"@,
        Mode::Month => "dados_limpos_mensal.csv"@,
    }
}

/// The name of the file that holds the forecast for `mode`.
pub open spec fn result_name(mode: Mode) -> Seq<char> {
    match mode {
        Mode::Year => "saida_previsao.json"@,
        Mode::Month => "saida_previsao_mensal.json"@,
    }
}

impl OutputLayout {
    /// Whether the layout is the one of the folder `folder` for a run at the
    /// granularity `mode`: the files of the run under their names for that
    /// granularity, and the three files of the annual fallback.
    pub open spec fn is_layout_of(self, folder: Seq<char>, mode: Mode) -> bool {
        &&& self.out_folder@ == folder
        &&& self.out_csv@ == joined_path(folder, raw_name(mode))
        &&& self.out_clean@ == joined_path(folder, clean_name(mode))
        &&& self.out_json@ == joined_path(folder, result_name(mode))
        &&& self.out_csv_anual@ == joined_path(folder, "dados_tabnet_anual.csv"@)
        &&& self.out_clean_anual@ == joined_path(folder, "dados_limpos_anual.csv"@)
        &&& self.out_json_anual@ == joined_path(folder, "saida_previsao_anual.json"@)
        &&& self.out_json_mensal@ == joined_path(folder, "saida_previsao_mensal.json"@)
    }
}

/// Places `name` under `base`.
pub fn join_path(base: &str, name: &str) -> (path: String)
    ensures
        path@ == joined_path(base@, name@),
{
    let name_chars = chars_of(name);
    if name_chars.len() > 0 && name_chars[0] == '/' {
        return String::from_str(name);
    }
    let base_chars = chars_of(base);
    let n = base_chars.len();
    let mut path = String::from_str(base);
    if n > 0 && base_chars[n - 1] != '/' {
        path.push('/');
    }
    path.append(name);
    path
}

/// Names the folder of a run: the date, the sanitized slug of the disease
/// class and the slug of the analysis type, joined by hyphens.
pub fn folder_name(date: &str, disease_slug: &str, analysis_slug: &str) -> (name: String)
    ensures
        name@ == folder_name_text(date@, disease_slug@, analysis_slug@),
{
    let mut name = String::from_str(date);
    name.push('-');
    let slug = sanitize_component(disease_slug);
    name.append(slug.as_str());
    name.push('-');
    name.append(analysis_slug);
    name
}

/// The path that attempt number `attempt` tries for the folder `base`.
pub fn folder_candidate(base: &str, attempt: u32) -> (path: String)
    ensures
        path@ == candidate_text(base@, attempt as int),
{
    let mut path = String::from_str(base);
    if attempt >= 2 {
        path.push('_');
        push_decimal(&mut path, attempt as i64);
    }
    path
}

/// One step of the search for a folder that is not taken yet. `exists` says
/// whether the candidate of attempt number `attempt` exists. If it does not,
/// it is the folder to use. If it does, the next attempt follows, up to the
/// last suffix; after that the search gives up and uses `base` itself.
pub fn unique_folder(base: &str, attempt: u32, exists: bool) -> (step: FolderStep)
    ensures
        match step {
            FolderStep::Use(path) => if exists {
                attempt >= LAST_SUFFIX && path@ == base@
            } else {
                path@ == candidate_text(base@, attempt as int)
            },
            FolderStep::Try(next) => exists && attempt < LAST_SUFFIX && next == next_attempt(
                attempt as int,
            ),
        },
        forall|taken: Set<Seq<char>>|
            taken.contains(candidate_text(base@, attempt as int)) == exists
                ==> #[trigger] settled_folder(base@, taken, attempt as int) == match step {
                FolderStep::Use(path) => path@,
                FolderStep::Try(next) => settled_folder(base@, taken, next as int),
            },
{
    if !exists {
        FolderStep::Use(folder_candidate(base, attempt))
    } else if attempt < LAST_SUFFIX {
        FolderStep::Try(
            if attempt <= 1 {
                2
            } else {
                attempt + 1
            },
        )
    } else {
        FolderStep::Use(String::from_str(base))
    }
}

/// With every candidate from attempt `from` up to but not including `to`
/// taken, the search from `from` settles where the search from `to` does.
proof fn lemma_settled_skips(base: Seq<char>, taken: Set<Seq<char>>, from: int, to: int)
    requires
        2 <= from <= to <= LAST_SUFFIX,
        forall|j: int| from <= j < to ==> taken.contains(#[trigger] candidate_text(base, j)),
    ensures
        settled_folder(base, taken, from) == settled_folder(base, taken, to),
    decreases to - from,
{
    if from < to {
        lemma_settled_skips(base, taken, from + 1, to);
    }
}

/// From an attempt with a suffix on, the search settles on a candidate that
/// is not taken, or every candidate up to the last suffix is taken and it
/// settles on `base`.
proof fn lemma_settled_is_free(base: Seq<char>, taken: Set<Seq<char>>, from: int)
    requires
        2 <= from <= LAST_SUFFIX,
    ensures
        !taken.contains(settled_folder(base, taken, from)) || (settled_folder(base, taken, from)
            == base && forall|k: int|
            from <= k <= LAST_SUFFIX ==> taken.contains(#[trigger] candidate_text(base, k))),
    decreases LAST_SUFFIX - from,
{
    if taken.contains(candidate_text(base, from)) && from < LAST_SUFFIX {
        lemma_settled_is_free(base, taken, from + 1);
    }
}

/// The folder chosen is `base` itself if it is not taken. If it is, the
/// folder is `base` with the smallest suffix from 2 to the last one that is
/// not taken, and `base` again if all of them are. So the folder chosen is
/// taken only if `base` and every suffix are.
pub proof fn lemma_chosen_folder(base: Seq<char>, taken: Set<Seq<char>>)
    ensures
        !taken.contains(base) ==> chosen_folder(base, taken) == base,
        forall|k: int|
            2 <= k <= LAST_SUFFIX && taken.contains(base) && !taken.contains(
                #[trigger] candidate_text(base, k),
            ) && (forall|j: int| 2 <= j < k ==> taken.contains(#[trigger] candidate_text(base, j)))
                ==> chosen_folder(base, taken) == candidate_text(base, k),
        (forall|k: int| 1 <= k <= LAST_SUFFIX ==> taken.contains(#[trigger] candidate_text(base, k)))
            ==> chosen_folder(base, taken) == base,
        taken.contains(chosen_folder(base, taken)) ==> forall|k: int|
            1 <= k <= LAST_SUFFIX ==> taken.contains(#[trigger] candidate_text(base, k)),
{
    assert(candidate_text(base, 1) == base);
    assert forall|k: int|
        2 <= k <= LAST_SUFFIX && taken.contains(base) && !taken.contains(
            #[trigger] candidate_text(base, k),
        ) && (forall|j: int|
            2 <= j < k ==> taken.contains(#[trigger] candidate_text(base, j))) implies chosen_folder(
        base,
        taken,
    ) == candidate_text(base, k) by {
        lemma_settled_skips(base, taken, 2, k);
    }
    if forall|k: int| 1 <= k <= LAST_SUFFIX ==> taken.contains(#[trigger] candidate_text(base, k)) {
        assert(taken.contains(candidate_text(base, 1)));
        lemma_settled_skips(base, taken, 2, LAST_SUFFIX as int);
        assert(taken.contains(candidate_text(base, LAST_SUFFIX as int)));
    }
    if taken.contains(chosen_folder(base, taken)) {
        lemma_settled_is_free(base, taken, 2);
        assert forall|k: int| 1 <= k <= LAST_SUFFIX implies taken.contains(
            #[trigger] candidate_text(base, k),
        ) by {
            if k == 1 {
                assert(taken.contains(candidate_text(base, 1)));
            }
        }
    }
}

/// Lays out the files of a run at the granularity `mode` in `folder`.
pub fn layout_in(folder: &str, mode: Mode) -> (layout: OutputLayout)
    ensures
        layout.is_layout_of(folder@, mode),
{
    let (raw, clean, result) = match mode {
        Mode::Year => ("dados_tabnet.csv", "dados_limpos.csv", "saida_previsao.json"),
        Mode::Month => (
            "dados_tabnet_mensal.csv",
            "dados_limpos_mensal.csv",
            "saida_previsao_mensal.json",
        ),
    };
    OutputLayout {
        out_folder: String::from_str(folder),
        out_csv: join_path(folder, raw),
        out_clean: join_path(folder, clean),
        out_json: join_path(folder, result),
        out_csv_anual: join_path(folder, "dados_tabnet_anual.csv"),
        out_clean_anual: join_path(folder, "dados_limpos_anual.csv"),
        out_json_anual: join_path(folder, "saida_previsao_anual.json"),
        out_json_mensal: join_path(folder, "saida_previsao_mensal.json"),
    }
}

} // verus!
