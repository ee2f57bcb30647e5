use vstd::prelude::*;
use vstd::string::StringExecFns;
use crate::debug_text::texts_view;
use crate::display::string_option_view;
use crate::text::{decimal, push_decimal, text_chars};

verus! {

/// How the name of a saved project file ends.
pub open spec fn project_file_suffix_view() -> Seq<char> {
    ".mpc2000xl-project.json"@
}

/// How the name of a saved project file ends.
pub fn project_file_suffix() -> (suffix: &'static str)
    ensures
        suffix@ == project_file_suffix_view(),
{
    ".mpc2000xl-project.json"
}

/// Whether `text` ends with `suffix`.
pub open spec fn ends_with_view(text: Seq<char>, suffix: Seq<char>) -> bool {
    &&& suffix.len() <= text.len()
    &&& text.subrange(text.len() - suffix.len(), text.len() as int) == suffix
}

/// Whether `text` ends with `suffix`, as `str::ends_with` answers.
pub fn text_ends_with(text: &str, suffix: &str) -> (result: bool)
    ensures
        result == ends_with_view(text@, suffix@),
{
    let text_seq = text_chars(text);
    let suffix_chars = text_chars(suffix);
    if suffix_chars.len() > text_seq.len() {
        return false;
    }
    let offset = text_seq.len() - suffix_chars.len();
    let mut i: usize = 0;
    while i < suffix_chars.len()
        invariant
            text_seq@ == text@,
            suffix_chars@ == suffix@,
            offset + suffix_chars.len() == text_seq.len(),
            i <= suffix_chars.len(),
            forall|j: int| 0 <= j < i ==> text_seq@[offset + j] == #[trigger] suffix_chars@[j],
        decreases suffix_chars.len() - i,
    {
        if text_seq[offset + i] != suffix_chars[i] {
            proof {
                let tail = text@.subrange(offset as int, text@.len() as int);
                assert(tail[i as int] == text@[offset + i]);
            }
            return false;
        }
        i = i + 1;
    }
    proof {
        assert(text@.subrange(offset as int, text@.len() as int) =~= suffix@);
    }
    true
}

/// What `std::path::Path::file_name` gives for a path, as text.
pub uninterp spec fn path_file_name(path: Seq<char>) -> Option<Seq<char>>;

/// Calls `std::path::Path::file_name` on `path` and converts the name to text.
/// Claims that the result is `path_file_name(path@)`: a function of the path
/// alone; nothing more of it is stated here.
#[verifier::external_body]
fn file_name_of(path: &str) -> (name: Option<String>)
    ensures
        string_option_view(name) == path_file_name(path@),
{
    match std::path::Path::new(path).file_name() {
        Some(name) => match name.to_str() {
            Some(name) => Some(name.to_owned()),
            None => None,
        },
        None => None,
    }
}

/// Whether the file name of `path` is text that ends with the project suffix.
pub open spec fn has_project_suffix(path: Seq<char>) -> bool {
    match path_file_name(path) {
        Some(name) => ends_with_view(name, project_file_suffix_view()),
        None => false,
    }
}

/// Whether the file name of `path` is text that ends with the project suffix.
pub fn path_has_project_suffix(path: &str) -> (result: bool)
    ensures
        result == has_project_suffix(path@),
{
    match file_name_of(path) {
        Some(name) => text_ends_with(name.as_str(), project_file_suffix()),
        None => false,
    }
}

/// `line` alone when `condition` holds, nothing otherwise.
pub open spec fn line_if(condition: bool, line: Seq<char>) -> Seq<Seq<char>> {
    if condition {
        seq![line]
    } else {
        Seq::empty()
    }
}

/// What a project file round trip reports of the save report: that it
/// counted no bytes.
pub open spec fn project_file_save_report_view(save_byte_count: nat) -> Seq<Seq<char>> {
    line_if(save_byte_count == 0, "project_round_trip.file.save byte_count is zero"@)
}

/// What a project file round trip reports of the saved path, held against the
/// canonical path of the file when that could be found.
pub open spec fn canonical_path_report_view(save_path: Seq<char>, canonical_path: Option<Seq<char>>) -> Seq<
    Seq<char>,
> {
    match canonical_path {
        Some(canonical) => line_if(
            save_path != canonical,
            "project_round_trip.file.report_path expectation mismatch: expected "@ + canonical + ", got "@
                + save_path,
        ) + line_if(
            !has_project_suffix(canonical),
            "project_round_trip.file.report_path suffix mismatch: "@ + canonical,
        ),
        None => Seq::empty(),
    }
}

/// The lines on the byte counts of the save and load reports.
pub open spec fn byte_count_report_view(save_byte_count: nat, load_byte_count: nat) -> Seq<Seq<char>> {
    line_if(load_byte_count == 0, "project_round_trip.file.load byte_count is zero"@) + line_if(
        save_byte_count != load_byte_count,
        "project_round_trip.file.byte_count mismatch: save "@ + decimal(save_byte_count) + ", load "@
            + decimal(load_byte_count),
    )
}

/// The line on the snapshot versions of the save and load reports.
pub open spec fn version_report_view(save_version: nat, load_version: nat) -> Seq<Seq<char>> {
    line_if(
        save_version != load_version,
        "project_round_trip.file.snapshot_version mismatch: save "@ + decimal(save_version) + ", load "@
            + decimal(load_version),
    )
}

/// The line on the paths of the save and load reports.
pub open spec fn path_report_view(save_path: Seq<char>, load_path: Seq<char>) -> Seq<Seq<char>> {
    line_if(
        save_path != load_path,
        "project_round_trip.file.report_path mismatch: save "@ + save_path + ", load "@ + load_path,
    )
}

/// The line on the saved snapshot version against the expected one.
pub open spec fn expected_version_report_view(save_version: nat, expected_version: nat) -> Seq<Seq<char>> {
    line_if(
        save_version != expected_version,
        "project_round_trip.file.snapshot_version expectation mismatch: expected "@ + decimal(
            expected_version,
        ) + ", got "@ + decimal(save_version),
    )
}

/// What a project file round trip reports once the file was loaded back: the
/// load and save reports held against each other, the saved path against the
/// canonical path, and the saved snapshot version against the expected one,
/// in that order.
pub open spec fn project_file_report_view(
    save_byte_count: nat,
    load_byte_count: nat,
    save_version: nat,
    load_version: nat,
    save_path: Seq<char>,
    load_path: Seq<char>,
    canonical_path: Option<Seq<char>>,
    expected_version: nat,
) -> Seq<Seq<char>> {
    byte_count_report_view(save_byte_count, load_byte_count) + version_report_view(save_version, load_version)
        + path_report_view(save_path, load_path) + canonical_path_report_view(save_path, canonical_path)
        + expected_version_report_view(save_version, expected_version)
}

pub open spec fn str_option_view(text: Option<&str>) -> Option<Seq<char>> {
    match text {
        Some(t) => Some(t@),
        None => None,
    }
}

/// Appends `line` to `details` when `condition` holds.
fn push_line_if(details: &mut Vec<String>, condition: bool, line: String)
    ensures
        texts_view(final(details)@) == texts_view(old(details)@) + line_if(condition, line@),
{
    let ghost before = details@;
    if condition {
        details.push(line);
        proof {
            assert(texts_view(details@) =~= texts_view(before) + line_if(condition, line@));
        }
    } else {
        proof {
            assert(texts_view(details@) =~= texts_view(before) + line_if(condition, line@));
        }
    }
}

/// Reports a saved project file whose save report counted no bytes.
pub fn project_file_save_report(details: &mut Vec<String>, save_byte_count: u64)
    ensures
        texts_view(final(details)@) == texts_view(old(details)@) + project_file_save_report_view(
            save_byte_count as nat,
        ),
{
    push_line_if(details, save_byte_count == 0, "project_round_trip.file.save byte_count is zero".to_owned());
}

fn push_byte_count_report(details: &mut Vec<String>, save_byte_count: u64, load_byte_count: u64)
    ensures
        texts_view(final(details)@) == texts_view(old(details)@) + byte_count_report_view(
            save_byte_count as nat,
            load_byte_count as nat,
        ),
{
    let ghost start = texts_view(details@);
    push_line_if(details, load_byte_count == 0, "project_round_trip.file.load byte_count is zero".to_owned());
    let mut line = "project_round_trip.file.byte_count mismatch: save ".to_owned();
    push_decimal(&mut line, save_byte_count);
    line.append(", load ");
    push_decimal(&mut line, load_byte_count);
    push_line_if(details, save_byte_count != load_byte_count, line);
    proof {
        assert(texts_view(details@) =~= start + byte_count_report_view(
            save_byte_count as nat,
            load_byte_count as nat,
        ));
    }
}

fn push_version_report(details: &mut Vec<String>, save_version: u16, load_version: u16)
    ensures
        texts_view(final(details)@) == texts_view(old(details)@) + version_report_view(
            save_version as nat,
            load_version as nat,
        ),
{
    let mut line = "project_round_trip.file.snapshot_version mismatch: save ".to_owned();
    push_decimal(&mut line, save_version as u64);
    line.append(", load ");
    push_decimal(&mut line, load_version as u64);
    push_line_if(details, save_version != load_version, line);
}

fn push_path_report(details: &mut Vec<String>, save_path: &str, load_path: &str)
    ensures
        texts_view(final(details)@) == texts_view(old(details)@) + path_report_view(save_path@, load_path@),
{
    let paths_differ = save_path.to_owned() != load_path.to_owned();
    let mut line = "project_round_trip.file.report_path mismatch: save ".to_owned();
    line.append(save_path);
    line.append(", load ");
    line.append(load_path);
    push_line_if(details, paths_differ, line);
}

fn push_canonical_path_report(details: &mut Vec<String>, save_path: &str, canonical_path: Option<&str>)
    ensures
        texts_view(final(details)@) == texts_view(old(details)@) + canonical_path_report_view(
            save_path@,
            str_option_view(canonical_path),
        ),
{
    let ghost start = texts_view(details@);
    if let Some(canonical) = canonical_path {
        let differs = save_path.to_owned() != canonical.to_owned();
        let mut line = "project_round_trip.file.report_path expectation mismatch: expected ".to_owned();
        line.append(canonical);
        line.append(", got ");
        line.append(save_path);
        push_line_if(details, differs, line);

        let mut line = "project_round_trip.file.report_path suffix mismatch: ".to_owned();
        line.append(canonical);
        push_line_if(details, !path_has_project_suffix(canonical), line);
    }
    proof {
        assert(texts_view(details@) =~= start + canonical_path_report_view(
            save_path@,
            str_option_view(canonical_path),
        ));
    }
}

fn push_expected_version_report(details: &mut Vec<String>, save_version: u16, expected_version: u16)
    ensures
        texts_view(final(details)@) == texts_view(old(details)@) + expected_version_report_view(
            save_version as nat,
            expected_version as nat,
        ),
{
    let mut line = "project_round_trip.file.snapshot_version expectation mismatch: expected ".to_owned();
    push_decimal(&mut line, expected_version as u64);
    line.append(", got ");
    push_decimal(&mut line, save_version as u64);
    push_line_if(details, save_version != expected_version, line);
}

/// Reports how a loaded project file differs from what was saved: byte
/// counts, snapshot versions and report paths, the saved path against the
/// canonical path of the file (when it could be found) and that path's
/// suffix, and the saved snapshot version against `expected_version`.
pub fn project_file_report(
    details: &mut Vec<String>,
    save_byte_count: u64,
    load_byte_count: u64,
    save_version: u16,
    load_version: u16,
    save_path: &str,
    load_path: &str,
    canonical_path: Option<&str>,
    expected_version: u16,
)
    ensures
        texts_view(final(details)@) == texts_view(old(details)@) + project_file_report_view(
            save_byte_count as nat,
            load_byte_count as nat,
            save_version as nat,
            load_version as nat,
            save_path@,
            load_path@,
            str_option_view(canonical_path),
            expected_version as nat,
        ),
{
    let ghost start = texts_view(details@);
    push_byte_count_report(details, save_byte_count, load_byte_count);
    push_version_report(details, save_version, load_version);
    push_path_report(details, save_path, load_path);
    push_canonical_path_report(details, save_path, canonical_path);
    push_expected_version_report(details, save_version, expected_version);
    proof {
        let counts = byte_count_report_view(save_byte_count as nat, load_byte_count as nat);
        let versions = version_report_view(save_version as nat, load_version as nat);
        let paths = path_report_view(save_path@, load_path@);
        let canonical = canonical_path_report_view(save_path@, str_option_view(canonical_path));
        let expectation = expected_version_report_view(save_version as nat, expected_version as nat);
        assert(texts_view(details@) =~= start + (counts + versions + paths + canonical + expectation));
    }
}

} // verus!
