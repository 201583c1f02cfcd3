//! The command lines of the two stages: the program of each, its arguments
//! in order, and the line that shows them to the operator.

use vstd::prelude::*;
use vstd::string::*;
use crate::catalog::{Mode, texts};
use crate::selection::Selection;
use crate::text::{chars_of, decimal_string, decimal_text, push_str_text, push_text};

verus! {

/// The programs and scripts of the two stages, and the folder under which
/// each run gets its own.
#[derive(Debug)]
pub struct Tools {
    /// The program that runs the extraction script.
    pub rscript: String,
    /// The extraction script.
    pub rfile: String,
    /// The program that runs the forecasting script.
    pub python: String,
    /// The forecasting script.
    pub pyfile: String,
    /// The folder under which each run gets its own.
    pub out_dir: String,
}

/// A program and the arguments to start it with.
#[derive(Debug)]
pub struct Invocation {
    /// The program.
    pub program: String,
    /// The arguments, in order.
    pub args: Vec<String>,
}

/// How an argument is shown in a command line: after a space, and between
/// double quotes if it holds a space itself.
pub open spec fn shown_arg(arg: Seq<char>) -> Seq<char> {
    if arg.contains(' ') {
        seq![' ', '"'] + arg + seq!['"']
    } else {
        seq![' '] + arg
    }
}

/// The arguments as they are shown in a command line, one after the other.
pub open spec fn shown_args(args: Seq<Seq<char>>) -> Seq<char>
    decreases args.len(),
{
    if args.len() == 0 {
        Seq::empty()
    } else {
        shown_args(args.drop_last()) + shown_arg(args.last())
    }
}

/// The command line that shows a program and its arguments.
pub open spec fn command_line(program: Seq<char>, args: Seq<Seq<char>>) -> Seq<char> {
    program + shown_args(args)
}

/// The texts of `items` with a comma between each two of them.
pub open spec fn comma_joined(items: Seq<Seq<char>>) -> Seq<char>
    decreases items.len(),
{
    if items.len() == 0 {
        Seq::empty()
    } else if items.len() == 1 {
        items[0]
    } else {
        comma_joined(items.drop_last()) + seq![','] + items.last()
    }
}

/// The arguments of an extraction for `selection` at the granularity `mode`,
/// into the files `out_csv` and `out_clean`: the script, then the record
/// system, the region, the years, the granularity, the classification
/// prefixes and the two files, each after its flag; the months follow only
/// for a monthly series.
pub open spec fn extraction_args(
    rfile: Seq<char>,
    selection: Selection,
    mode: Mode,
    month_start: int,
    month_end: int,
    out_csv: Seq<char>,
    out_clean: Seq<char>,
) -> Seq<Seq<char>> {
    seq![
        "--vanilla"@,
        rfile,
        "--system"@,
        selection.analysis.system@,
        "--uf"@,
        selection.uf_sigla@,
        "--year-start"@,
        decimal_text(selection.year_start as int),
        "--year-end"@,
        decimal_text(selection.year_end as int),
        "--granularity"@,
        mode.value_text(),
        "--icd-prefix"@,
        comma_joined(texts(selection.disease.icd_prefixes@)),
        "--out"@,
        out_csv,
        "--out-clean"@,
        out_clean,
    ] + if mode == Mode::Month {
        seq![
            "--month-start"@,
            decimal_text(month_start),
            "--month-end"@,
            decimal_text(month_end),
        ]
    } else {
        Seq::<Seq<char>>::empty()
    }
}

/// The arguments of a forecast for `selection` on the records in `csv`, into
/// the file `out_json`: the script, then the records, the numeric code of the
/// region, the horizon, the confidence level and the file, each after its
/// flag, and the flag that asks for readable output.
pub open spec fn forecast_args(
    pyfile: Seq<char>,
    selection: Selection,
    csv: Seq<char>,
    out_json: Seq<char>,
) -> Seq<Seq<char>> {
    seq![
        pyfile,
        "--csv"@,
        csv,
        "--estado"@,
        selection.uf_cod@,
        "--anos-prev"@,
        decimal_text(selection.anos_prev as int),
        "--alpha"@,
        selection.alpha@,
        "--saida"@,
        out_json,
        "--pretty"@,
    ]
}

/// Tells whether `text` holds a space.
pub fn has_space(text: &str) -> (found: bool)
    ensures
        found == text@.contains(' '),
{
    let chars = chars_of(text);
    let n = chars.len();
    let mut i: usize = 0;
    while i < n
        invariant
            i <= n,
            n == chars.len(),
            chars@ == text@,
            forall|j: int| 0 <= j < i ==> text@[j] != ' ',
        decreases n - i,
    {
        if chars[i] == ' ' {
            assert(text@[i as int] == ' ');
            return true;
        }
        i = i + 1;
    }
    false
}

/// Writes the command line that shows `program` and `args`: each argument
/// after a space, and between double quotes if it holds a space itself.
pub fn cmd_to_string(program: &str, args: &Vec<String>) -> (line: String)
    ensures
        line@ == command_line(program@, args.deep_view()),
{
    let mut line = String::from_str(program);
    let n = args.len();
    let mut i: usize = 0;
    while i < n
        invariant
            i <= n,
            n == args.len(),
            line@ == program@ + shown_args(args.deep_view().take(i as int)),
        decreases n - i,
    {
        let arg = args[i].as_str();
        let ghost before = args.deep_view().take(i as int);
        let ghost after = args.deep_view().take(i + 1);
        proof {
            assert(after.drop_last() =~= before);
            assert(after.last() == arg@);
        }
        if has_space(arg) {
            line.push(' ');
            line.push('"');
            line.append(arg);
            line.push('"');
        } else {
            line.push(' ');
            line.append(arg);
        }
        i = i + 1;
        assert(line@ =~= program@ + shown_args(after));
    }
    assert(args.deep_view().take(n as int) =~= args.deep_view());
    line
}

/// Joins `items` with a comma between each two of them.
pub fn join_with_commas(items: &Vec<&'static str>) -> (joined: String)
    ensures
        joined@ == comma_joined(texts(items@)),
{
    let mut joined = String::new();
    let n = items.len();
    let mut i: usize = 0;
    while i < n
        invariant
            i <= n,
            n == items.len(),
            joined@ == comma_joined(texts(items@).take(i as int)),
        decreases n - i,
    {
        let ghost before = texts(items@).take(i as int);
        let ghost after = texts(items@).take(i + 1);
        proof {
            assert(after.drop_last() =~= before);
            assert(after.last() == items[i as int]@);
            if i == 1 {
                assert(before[0] == after[0]);
            }
        }
        if i > 0 {
            joined.push(',');
        }
        joined.append(items[i]);
        i = i + 1;
        assert(joined@ =~= comma_joined(after));
    }
    assert(texts(items@).take(n as int) =~= texts(items@));
    joined
}

/// The command of an extraction for `selection` at the granularity `mode`,
/// into the files `out_csv` and `out_clean`. The months are handed on only
/// for a monthly series.
pub fn extraction_command(
    tools: &Tools,
    selection: &Selection,
    mode: Mode,
    month_start: i32,
    month_end: i32,
    out_csv: &str,
    out_clean: &str,
) -> (command: Invocation)
    ensures
        command.program@ == tools.rscript@,
        command.args.deep_view() == extraction_args(
            tools.rfile@,
            *selection,
            mode,
            month_start as int,
            month_end as int,
            out_csv@,
            out_clean@,
        ),
{
    let mut args: Vec<String> = Vec::new();
    push_str_text(&mut args, "--vanilla");
    push_str_text(&mut args, tools.rfile.as_str());
    push_str_text(&mut args, "--system");
    push_str_text(&mut args, selection.analysis.system);
    push_str_text(&mut args, "--uf");
    push_str_text(&mut args, selection.uf_sigla.as_str());
    push_str_text(&mut args, "--year-start");
    push_text(&mut args, decimal_string(selection.year_start as i64));
    push_str_text(&mut args, "--year-end");
    push_text(&mut args, decimal_string(selection.year_end as i64));
    push_str_text(&mut args, "--granularity");
    push_str_text(&mut args, mode.value());
    push_str_text(&mut args, "--icd-prefix");
    push_text(&mut args, join_with_commas(&selection.disease.icd_prefixes));
    push_str_text(&mut args, "--out");
    push_str_text(&mut args, out_csv);
    push_str_text(&mut args, "--out-clean");
    push_str_text(&mut args, out_clean);
    if mode == Mode::Month {
        push_str_text(&mut args, "--month-start");
        push_text(&mut args, decimal_string(month_start as i64));
        push_str_text(&mut args, "--month-end");
        push_text(&mut args, decimal_string(month_end as i64));
    }
    assert(args.deep_view() =~= extraction_args(
        tools.rfile@,
        *selection,
        mode,
        month_start as int,
        month_end as int,
        out_csv@,
        out_clean@,
    ));
    Invocation { program: tools.rscript.clone(), args }
}

/// The command of a forecast for `selection` on the records in `csv`, into
/// the file `out_json`.
pub fn forecast_command(tools: &Tools, selection: &Selection, csv: &str, out_json: &str) -> (command:
    Invocation)
    ensures
        command.program@ == tools.python@,
        command.args.deep_view() == forecast_args(tools.pyfile@, *selection, csv@, out_json@),
{
    let mut args: Vec<String> = Vec::new();
    push_str_text(&mut args, tools.pyfile.as_str());
    push_str_text(&mut args, "--csv");
    push_str_text(&mut args, csv);
    push_str_text(&mut args, "--estado");
    push_str_text(&mut args, selection.uf_cod.as_str());
    push_str_text(&mut args, "--anos-prev");
    push_text(&mut args, decimal_string(selection.anos_prev as i64));
    push_str_text(&mut args, "--alpha");
    push_str_text(&mut args, selection.alpha.as_str());
    push_str_text(&mut args, "--saida");
    push_str_text(&mut args, out_json);
    push_str_text(&mut args, "--pretty");
    assert(args.deep_view() =~= forecast_args(tools.pyfile@, *selection, csv@, out_json@));
    Invocation { program: tools.python.clone(), args }
}

} // verus!
