use vstd::prelude::*;
use vstd::string::StringExecFns;
use crate::debug_text::{
    debug_bank, debug_bool, debug_list, debug_mode, debug_option, debug_quoted, debug_render_kind,
    debug_settings, debug_source_kind, debug_voice, push_debug_bank, push_debug_bool, push_debug_list,
    push_debug_mode, push_debug_quoted, push_debug_render_kind, push_debug_settings,
    push_debug_source_kind, push_debug_voice, texts_view,
};
use crate::fixture::ExpectedHostAudioEventType;
use crate::engine::voice_views;
use crate::host::{HostAudioMode, HostAudioVoiceSummary, HostAudioVoiceSummaryView};
use crate::intents::PadBank;
use crate::render::{AudioRenderKind, AudioSourceKind, ChannelBalance};
use crate::settings::AudioRenderSettings;
use crate::text::{decimal, decimal_text, push_decimal};

verus! {

// Report lines of the form `<label> mismatch: expected <e>, got <a>`, where
// both values are written as `{:?}` writes them.

pub open spec fn mismatch_line(label: Seq<char>, expected: Seq<char>, actual: Seq<char>) -> Seq<char> {
    label + " mismatch: expected "@ + expected + ", got "@ + actual
}

/// One mismatch line when the values differ, none otherwise.
pub open spec fn check_line(label: Seq<char>, differs: bool, expected: Seq<char>, actual: Seq<char>) -> Seq<Seq<char>> {
    if differs {
        seq![mismatch_line(label, expected, actual)]
    } else {
        Seq::empty()
    }
}

/// Appends the line that reports `expected` and `actual` under `label`; the
/// caller has already found that the values differ.
pub fn push_mismatch_line(details: &mut Vec<String>, label: &str, expected: &str, actual: &str)
    ensures
        texts_view(final(details)@) == texts_view(old(details)@).push(
            mismatch_line(label@, expected@, actual@),
        ),
{
    let mut line = label.to_owned();
    line.append(" mismatch: expected ");
    line.append(expected);
    line.append(", got ");
    line.append(actual);
    details.push(line);
    proof {
        assert(texts_view(final(details)@) =~= texts_view(old(details)@).push(
            mismatch_line(label@, expected@, actual@),
        ));
    }
}

/// Appends a mismatch line under `label` when the two renderings differ,
/// and nothing when they are the same.
pub fn push_mismatch(details: &mut Vec<String>, label: &str, expected: &str, actual: &str)
    ensures
        texts_view(final(details)@) == texts_view(old(details)@) + check_line(
            label@,
            expected@ != actual@,
            expected@,
            actual@,
        ),
{
    let expected_text = expected.to_owned();
    let actual_text = actual.to_owned();
    if expected_text != actual_text {
        push_mismatch_line(details, label, expected, actual);
    }
    proof {
        assert(texts_view(final(details)@) =~= texts_view(old(details)@) + check_line(
            label@,
            expected@ != actual@,
            expected@,
            actual@,
        ));
    }
}

// ---------------------------------------------------------------------------
// Renderings of single values
// ---------------------------------------------------------------------------

pub open spec fn debug_event_type(kind: ExpectedHostAudioEventType) -> Seq<char> {
    match kind {
        ExpectedHostAudioEventType::Ignored => "Ignored"@,
        ExpectedHostAudioEventType::Enqueued => "Enqueued"@,
        ExpectedHostAudioEventType::Released => "Released"@,
        ExpectedHostAudioEventType::Failed => "Failed"@,
    }
}

pub open spec fn debug_u64(value: u64) -> Seq<char> {
    decimal(value as nat)
}

pub open spec fn debug_usize(value: usize) -> Seq<char> {
    decimal(value as nat)
}

pub open spec fn debug_optional_u64(value: Option<u64>) -> Seq<char> {
    match value {
        Some(v) => debug_option(Some(debug_u64(v))),
        None => debug_option(None),
    }
}

pub open spec fn debug_optional_usize(value: Option<usize>) -> Seq<char> {
    match value {
        Some(v) => debug_option(Some(debug_usize(v))),
        None => debug_option(None),
    }
}

pub open spec fn debug_optional_bool(value: Option<bool>) -> Seq<char> {
    match value {
        Some(v) => debug_option(Some(debug_bool(v))),
        None => debug_option(None),
    }
}

pub open spec fn debug_optional_render_kind(value: Option<AudioRenderKind>) -> Seq<char> {
    match value {
        Some(v) => debug_option(Some(debug_render_kind(v))),
        None => debug_option(None),
    }
}

pub open spec fn debug_optional_source_kind(value: Option<AudioSourceKind>) -> Seq<char> {
    match value {
        Some(v) => debug_option(Some(debug_source_kind(v))),
        None => debug_option(None),
    }
}

fn event_type_text(kind: ExpectedHostAudioEventType) -> (text: &'static str)
    ensures
        text@ == debug_event_type(kind),
{
    match kind {
        ExpectedHostAudioEventType::Ignored => "Ignored",
        ExpectedHostAudioEventType::Enqueued => "Enqueued",
        ExpectedHostAudioEventType::Released => "Released",
        ExpectedHostAudioEventType::Failed => "Failed",
    }
}

fn optional_u64_debug_text(value: Option<u64>) -> (text: String)
    ensures
        text@ == debug_optional_u64(value),
{
    let mut text = String::new();
    match value {
        Some(v) => {
            text.append("Some(");
            let digits = decimal_text(v);
            text.append(digits.as_str());
            text.append(")");
        },
        None => text.append("None"),
    }
    proof {
        assert(text@ =~= debug_optional_u64(value));
    }
    text
}

fn optional_bool_debug_text(value: Option<bool>) -> (text: String)
    ensures
        text@ == debug_optional_bool(value),
{
    let mut text = String::new();
    match value {
        Some(v) => {
            text.append("Some(");
            push_debug_bool(&mut text, v);
            text.append(")");
        },
        None => text.append("None"),
    }
    proof {
        assert(text@ =~= debug_optional_bool(value));
    }
    text
}

fn optional_render_kind_debug_text(value: Option<AudioRenderKind>) -> (text: String)
    ensures
        text@ == debug_optional_render_kind(value),
{
    let mut text = String::new();
    match value {
        Some(v) => {
            text.append("Some(");
            push_debug_render_kind(&mut text, v);
            text.append(")");
        },
        None => text.append("None"),
    }
    proof {
        assert(text@ =~= debug_optional_render_kind(value));
    }
    text
}

fn optional_source_kind_debug_text(value: Option<AudioSourceKind>) -> (text: String)
    ensures
        text@ == debug_optional_source_kind(value),
{
    let mut text = String::new();
    match value {
        Some(v) => {
            text.append("Some(");
            push_debug_source_kind(&mut text, v);
            text.append(")");
        },
        None => text.append("None"),
    }
    proof {
        assert(text@ =~= debug_optional_source_kind(value));
    }
    text
}

// ---------------------------------------------------------------------------
// Expected scalar values against actual ones
// ---------------------------------------------------------------------------

#[verifier::opaque]
pub open spec fn u64_lines(label: Seq<char>, expected: Option<u64>, actual: u64) -> Seq<Seq<char>> {
    match expected {
        Some(value) => check_line(label, value != actual, debug_u64(value), debug_u64(actual)),
        None => Seq::empty(),
    }
}

pub fn push_u64_mismatch(details: &mut Vec<String>, label: &str, expected: Option<u64>, actual: u64)
    ensures
        texts_view(final(details)@) == texts_view(old(details)@) + u64_lines(label@, expected, actual),
{
    if let Some(value) = expected {
        if value != actual {
            let e = decimal_text(value);
            let a = decimal_text(actual);
            push_mismatch_line(details, label, e.as_str(), a.as_str());
        }
    }
    proof {
        reveal(u64_lines);
        assert(texts_view(final(details)@) =~= texts_view(old(details)@) + u64_lines(label@, expected, actual));
    }
}

#[verifier::opaque]
pub open spec fn usize_lines(label: Seq<char>, expected: Option<usize>, actual: usize) -> Seq<Seq<char>> {
    match expected {
        Some(value) => check_line(label, value != actual, debug_usize(value), debug_usize(actual)),
        None => Seq::empty(),
    }
}

pub fn push_usize_mismatch(details: &mut Vec<String>, label: &str, expected: Option<usize>, actual: usize)
    ensures
        texts_view(final(details)@) == texts_view(old(details)@) + usize_lines(label@, expected, actual),
{
    if let Some(value) = expected {
        if value != actual {
            let e = decimal_text(value as u64);
            let a = decimal_text(actual as u64);
            push_mismatch_line(details, label, e.as_str(), a.as_str());
        }
    }
    proof {
        reveal(usize_lines);
        assert(texts_view(final(details)@) =~= texts_view(old(details)@) + usize_lines(label@, expected, actual));
    }
}

#[verifier::opaque]
pub open spec fn text_lines(label: Seq<char>, expected: Option<Seq<char>>, actual: Seq<char>) -> Seq<Seq<char>> {
    match expected {
        Some(value) => check_line(label, value != actual, debug_quoted(value), debug_quoted(actual)),
        None => Seq::empty(),
    }
}

pub fn push_text_mismatch(details: &mut Vec<String>, label: &str, expected: Option<&str>, actual: &str)
    ensures
        texts_view(final(details)@) == texts_view(old(details)@) + text_lines(
            label@,
            match expected {
                Some(t) => Some(t@),
                None => None,
            },
            actual@,
        ),
{
    if let Some(value) = expected {
        let value_owned = value.to_owned();
        let actual_owned = actual.to_owned();
        if value_owned != actual_owned {
            let mut e = String::new();
            push_debug_quoted(&mut e, value);
            let mut a = String::new();
            push_debug_quoted(&mut a, actual);
            push_mismatch_line(details, label, e.as_str(), a.as_str());
        }
    }
    proof {
        reveal(text_lines);
        assert(texts_view(final(details)@) =~= texts_view(old(details)@) + text_lines(
            label@,
            match expected {
                Some(t) => Some(t@),
                None => None,
            },
            actual@,
        ));
    }
}

#[verifier::opaque]
pub open spec fn mode_lines(label: Seq<char>, expected: Option<HostAudioMode>, actual: HostAudioMode) -> Seq<Seq<char>> {
    match expected {
        Some(value) => check_line(label, value != actual, debug_mode(value), debug_mode(actual)),
        None => Seq::empty(),
    }
}

pub fn push_mode_mismatch(details: &mut Vec<String>, label: &str, expected: Option<HostAudioMode>, actual: HostAudioMode)
    ensures
        texts_view(final(details)@) == texts_view(old(details)@) + mode_lines(label@, expected, actual),
{
    if let Some(value) = expected {
        if value != actual {
            let mut e = String::new();
            push_debug_mode(&mut e, value);
            let mut a = String::new();
            push_debug_mode(&mut a, actual);
            push_mismatch_line(details, label, e.as_str(), a.as_str());
        }
    }
    proof {
        reveal(mode_lines);
        assert(texts_view(final(details)@) =~= texts_view(old(details)@) + mode_lines(label@, expected, actual));
    }
}

#[verifier::opaque]
pub open spec fn settings_lines(
    label: Seq<char>,
    expected: Option<AudioRenderSettings>,
    actual: AudioRenderSettings,
) -> Seq<Seq<char>> {
    match expected {
        Some(value) => check_line(label, value != actual, debug_settings(value), debug_settings(actual)),
        None => Seq::empty(),
    }
}

pub fn push_settings_mismatch(
    details: &mut Vec<String>,
    label: &str,
    expected: Option<AudioRenderSettings>,
    actual: AudioRenderSettings,
)
    ensures
        texts_view(final(details)@) == texts_view(old(details)@) + settings_lines(label@, expected, actual),
{
    if let Some(value) = expected {
        if value.sample_rate_hz != actual.sample_rate_hz || value.frame_count != actual.frame_count {
            let mut e = String::new();
            push_debug_settings(&mut e, value);
            let mut a = String::new();
            push_debug_settings(&mut a, actual);
            push_mismatch_line(details, label, e.as_str(), a.as_str());
        }
    }
    proof {
        reveal(settings_lines);
        assert(texts_view(final(details)@) =~= texts_view(old(details)@) + settings_lines(label@, expected, actual));
    }
}

#[verifier::opaque]
pub open spec fn event_type_lines(
    label: Seq<char>,
    expected: Option<ExpectedHostAudioEventType>,
    actual: ExpectedHostAudioEventType,
) -> Seq<Seq<char>> {
    match expected {
        Some(value) => check_line(label, value != actual, debug_event_type(value), debug_event_type(actual)),
        None => Seq::empty(),
    }
}

pub fn push_event_type_mismatch(
    details: &mut Vec<String>,
    label: &str,
    expected: Option<ExpectedHostAudioEventType>,
    actual: ExpectedHostAudioEventType,
)
    ensures
        texts_view(final(details)@) == texts_view(old(details)@) + event_type_lines(label@, expected, actual),
{
    if let Some(value) = expected {
        if value != actual {
            push_mismatch_line(details, label, event_type_text(value), event_type_text(actual));
        }
    }
    proof {
        reveal(event_type_lines);
        assert(texts_view(final(details)@) =~= texts_view(old(details)@) + event_type_lines(label@, expected, actual));
    }
}

// ---------------------------------------------------------------------------
// Expected values against optional actual ones: the actual value is written
// as an `Option`, the expected one bare.
// ---------------------------------------------------------------------------

#[verifier::opaque]
pub open spec fn optional_u64_lines(label: Seq<char>, expected: Option<u64>, actual: Option<u64>) -> Seq<Seq<char>> {
    match expected {
        Some(value) => check_line(label, actual != Some(value), debug_u64(value), debug_optional_u64(actual)),
        None => Seq::empty(),
    }
}

pub fn push_optional_u64_mismatch(details: &mut Vec<String>, label: &str, expected: Option<u64>, actual: Option<u64>)
    ensures
        texts_view(final(details)@) == texts_view(old(details)@) + optional_u64_lines(label@, expected, actual),
{
    if let Some(value) = expected {
        let same = match actual {
            Some(a) => a == value,
            None => false,
        };
        if !same {
            let e = decimal_text(value);
            let a = optional_u64_debug_text(actual);
            push_mismatch_line(details, label, e.as_str(), a.as_str());
        }
    }
    proof {
        reveal(optional_u64_lines);
        assert(texts_view(final(details)@) =~= texts_view(old(details)@) + optional_u64_lines(label@, expected, actual));
    }
}

#[verifier::opaque]
pub open spec fn optional_usize_lines(label: Seq<char>, expected: Option<usize>, actual: Option<usize>) -> Seq<Seq<char>> {
    match expected {
        Some(value) => check_line(label, actual != Some(value), debug_usize(value), debug_optional_usize(actual)),
        None => Seq::empty(),
    }
}

pub fn push_optional_usize_mismatch(
    details: &mut Vec<String>,
    label: &str,
    expected: Option<usize>,
    actual: Option<usize>,
)
    ensures
        texts_view(final(details)@) == texts_view(old(details)@) + optional_usize_lines(label@, expected, actual),
{
    if let Some(value) = expected {
        let same = match actual {
            Some(a) => a == value,
            None => false,
        };
        if !same {
            let e = decimal_text(value as u64);
            let a = match actual {
                Some(v) => optional_u64_debug_text(Some(v as u64)),
                None => optional_u64_debug_text(None),
            };
            push_mismatch_line(details, label, e.as_str(), a.as_str());
        }
    }
    proof {
        reveal(optional_usize_lines);
        assert(texts_view(final(details)@) =~= texts_view(old(details)@) + optional_usize_lines(label@, expected, actual));
    }
}

#[verifier::opaque]
pub open spec fn optional_render_kind_lines(
    label: Seq<char>,
    expected: Option<AudioRenderKind>,
    actual: Option<AudioRenderKind>,
) -> Seq<Seq<char>> {
    match expected {
        Some(value) => check_line(
            label,
            actual != Some(value),
            debug_render_kind(value),
            debug_optional_render_kind(actual),
        ),
        None => Seq::empty(),
    }
}

pub fn push_optional_render_kind_mismatch(
    details: &mut Vec<String>,
    label: &str,
    expected: Option<AudioRenderKind>,
    actual: Option<AudioRenderKind>,
)
    ensures
        texts_view(final(details)@) == texts_view(old(details)@) + optional_render_kind_lines(
            label@,
            expected,
            actual,
        ),
{
    if let Some(value) = expected {
        let same = match actual {
            Some(a) => a == value,
            None => false,
        };
        if !same {
            let mut e = String::new();
            push_debug_render_kind(&mut e, value);
            let a = optional_render_kind_debug_text(actual);
            push_mismatch_line(details, label, e.as_str(), a.as_str());
        }
    }
    proof {
        reveal(optional_render_kind_lines);
        assert(texts_view(final(details)@) =~= texts_view(old(details)@) + optional_render_kind_lines(
            label@,
            expected,
            actual,
        ));
    }
}

#[verifier::opaque]
pub open spec fn optional_source_kind_lines(
    label: Seq<char>,
    expected: Option<AudioSourceKind>,
    actual: Option<AudioSourceKind>,
) -> Seq<Seq<char>> {
    match expected {
        Some(value) => check_line(
            label,
            actual != Some(value),
            debug_source_kind(value),
            debug_optional_source_kind(actual),
        ),
        None => Seq::empty(),
    }
}

pub fn push_optional_source_kind_mismatch(
    details: &mut Vec<String>,
    label: &str,
    expected: Option<AudioSourceKind>,
    actual: Option<AudioSourceKind>,
)
    ensures
        texts_view(final(details)@) == texts_view(old(details)@) + optional_source_kind_lines(
            label@,
            expected,
            actual,
        ),
{
    if let Some(value) = expected {
        let same = match actual {
            Some(a) => a == value,
            None => false,
        };
        if !same {
            let mut e = String::new();
            push_debug_source_kind(&mut e, value);
            let a = optional_source_kind_debug_text(actual);
            push_mismatch_line(details, label, e.as_str(), a.as_str());
        }
    }
    proof {
        reveal(optional_source_kind_lines);
        assert(texts_view(final(details)@) =~= texts_view(old(details)@) + optional_source_kind_lines(
            label@,
            expected,
            actual,
        ));
    }
}


// ---------------------------------------------------------------------------
// Expected lists against actual ones, written as `[a, b, c]`
// ---------------------------------------------------------------------------

pub open spec fn usize_list_text(values: Seq<usize>) -> Seq<char> {
    debug_list(values.map_values(|v: usize| debug_usize(v)))
}

#[verifier::opaque]
pub open spec fn usize_list_lines(label: Seq<char>, expected: Option<Seq<usize>>, actual: Seq<usize>) -> Seq<Seq<char>> {
    match expected {
        Some(values) => check_line(label, values != actual, usize_list_text(values), usize_list_text(actual)),
        None => Seq::empty(),
    }
}

fn usize_list_debug_text(values: &Vec<usize>) -> (text: String)
    ensures
        text@ == usize_list_text(values@),
{
    let mut items: Vec<String> = Vec::new();
    let mut index: usize = 0;
    while index < values.len()
        invariant
            index <= values@.len(),
            texts_view(items@) == values@.take(index as int).map_values(|v: usize| debug_usize(v)),
        decreases values@.len() - index,
    {
        let x = values[index];
        let item = decimal_text(x as u64);
        let ghost before = items@;
        items.push(item);
        proof {
            assert(values@.take(index + 1) =~= values@.take(index as int).push(x));
            assert(texts_view(items@) =~= texts_view(before).push(item@));
            assert(texts_view(items@) =~= values@.take(index + 1).map_values(|v: usize| debug_usize(v)));
        }
        index = index + 1;
    }
    let mut text = String::new();
    push_debug_list(&mut text, &items);
    proof {
        assert(values@.take(values@.len() as int) =~= values@);
    }
    text
}

fn usize_lists_equal(a: &Vec<usize>, b: &Vec<usize>) -> (same: bool)
    ensures
        same == (a@ == b@),
{
    if a.len() != b.len() {
        return false;
    }
    let mut index: usize = 0;
    while index < a.len()
        invariant
            a@.len() == b@.len(),
            index <= a@.len(),
            forall|j: int| 0 <= j < index ==> a@[j] == b@[j],
        decreases a@.len() - index,
    {
        let x = a[index];
        let y = b[index];
        let equal = x == y;
        if !equal {
            return false;
        }
        index = index + 1;
    }
    proof {
        assert(a@ =~= b@);
    }
    true
}

pub fn push_usize_list_mismatch(details: &mut Vec<String>, label: &str, expected: Option<&Vec<usize>>, actual: &Vec<usize>)
    ensures
        texts_view(final(details)@) == texts_view(old(details)@) + usize_list_lines(
            label@,
            match expected {
                Some(values) => Some(values@),
                None => None,
            },
            actual@,
        ),
{
    if let Some(values) = expected {
        if !usize_lists_equal(values, actual) {
            let e = usize_list_debug_text(values);
            let a = usize_list_debug_text(actual);
            push_mismatch_line(details, label, e.as_str(), a.as_str());
        }
    }
    proof {
        reveal(usize_list_lines);
        assert(texts_view(final(details)@) =~= texts_view(old(details)@) + usize_list_lines(
            label@,
            match expected {
                Some(values) => Some(values@),
                None => None,
            },
            actual@,
        ));
    }
}

pub open spec fn render_kind_list_text(values: Seq<AudioRenderKind>) -> Seq<char> {
    debug_list(values.map_values(|v: AudioRenderKind| debug_render_kind(v)))
}

#[verifier::opaque]
pub open spec fn render_kind_list_lines(label: Seq<char>, expected: Option<Seq<AudioRenderKind>>, actual: Seq<AudioRenderKind>) -> Seq<Seq<char>> {
    match expected {
        Some(values) => check_line(label, values != actual, render_kind_list_text(values), render_kind_list_text(actual)),
        None => Seq::empty(),
    }
}

fn render_kind_list_debug_text(values: &Vec<AudioRenderKind>) -> (text: String)
    ensures
        text@ == render_kind_list_text(values@),
{
    let mut items: Vec<String> = Vec::new();
    let mut index: usize = 0;
    while index < values.len()
        invariant
            index <= values@.len(),
            texts_view(items@) == values@.take(index as int).map_values(|v: AudioRenderKind| debug_render_kind(v)),
        decreases values@.len() - index,
    {
        let x = values[index];
        let mut item = String::new();
            push_debug_render_kind(&mut item, x);
        let ghost before = items@;
        items.push(item);
        proof {
            assert(values@.take(index + 1) =~= values@.take(index as int).push(x));
            assert(texts_view(items@) =~= texts_view(before).push(item@));
            assert(texts_view(items@) =~= values@.take(index + 1).map_values(|v: AudioRenderKind| debug_render_kind(v)));
        }
        index = index + 1;
    }
    let mut text = String::new();
    push_debug_list(&mut text, &items);
    proof {
        assert(values@.take(values@.len() as int) =~= values@);
    }
    text
}

fn render_kind_lists_equal(a: &Vec<AudioRenderKind>, b: &Vec<AudioRenderKind>) -> (same: bool)
    ensures
        same == (a@ == b@),
{
    if a.len() != b.len() {
        return false;
    }
    let mut index: usize = 0;
    while index < a.len()
        invariant
            a@.len() == b@.len(),
            index <= a@.len(),
            forall|j: int| 0 <= j < index ==> a@[j] == b@[j],
        decreases a@.len() - index,
    {
        let x = a[index];
        let y = b[index];
        let equal = x == y;
        if !equal {
            return false;
        }
        index = index + 1;
    }
    proof {
        assert(a@ =~= b@);
    }
    true
}

pub fn push_render_kind_list_mismatch(details: &mut Vec<String>, label: &str, expected: Option<&Vec<AudioRenderKind>>, actual: &Vec<AudioRenderKind>)
    ensures
        texts_view(final(details)@) == texts_view(old(details)@) + render_kind_list_lines(
            label@,
            match expected {
                Some(values) => Some(values@),
                None => None,
            },
            actual@,
        ),
{
    if let Some(values) = expected {
        if !render_kind_lists_equal(values, actual) {
            let e = render_kind_list_debug_text(values);
            let a = render_kind_list_debug_text(actual);
            push_mismatch_line(details, label, e.as_str(), a.as_str());
        }
    }
    proof {
        reveal(render_kind_list_lines);
        assert(texts_view(final(details)@) =~= texts_view(old(details)@) + render_kind_list_lines(
            label@,
            match expected {
                Some(values) => Some(values@),
                None => None,
            },
            actual@,
        ));
    }
}

pub open spec fn source_kind_list_text(values: Seq<AudioSourceKind>) -> Seq<char> {
    debug_list(values.map_values(|v: AudioSourceKind| debug_source_kind(v)))
}

#[verifier::opaque]
pub open spec fn source_kind_list_lines(label: Seq<char>, expected: Option<Seq<AudioSourceKind>>, actual: Seq<AudioSourceKind>) -> Seq<Seq<char>> {
    match expected {
        Some(values) => check_line(label, values != actual, source_kind_list_text(values), source_kind_list_text(actual)),
        None => Seq::empty(),
    }
}

fn source_kind_list_debug_text(values: &Vec<AudioSourceKind>) -> (text: String)
    ensures
        text@ == source_kind_list_text(values@),
{
    let mut items: Vec<String> = Vec::new();
    let mut index: usize = 0;
    while index < values.len()
        invariant
            index <= values@.len(),
            texts_view(items@) == values@.take(index as int).map_values(|v: AudioSourceKind| debug_source_kind(v)),
        decreases values@.len() - index,
    {
        let x = values[index];
        let mut item = String::new();
            push_debug_source_kind(&mut item, x);
        let ghost before = items@;
        items.push(item);
        proof {
            assert(values@.take(index + 1) =~= values@.take(index as int).push(x));
            assert(texts_view(items@) =~= texts_view(before).push(item@));
            assert(texts_view(items@) =~= values@.take(index + 1).map_values(|v: AudioSourceKind| debug_source_kind(v)));
        }
        index = index + 1;
    }
    let mut text = String::new();
    push_debug_list(&mut text, &items);
    proof {
        assert(values@.take(values@.len() as int) =~= values@);
    }
    text
}

fn source_kind_lists_equal(a: &Vec<AudioSourceKind>, b: &Vec<AudioSourceKind>) -> (same: bool)
    ensures
        same == (a@ == b@),
{
    if a.len() != b.len() {
        return false;
    }
    let mut index: usize = 0;
    while index < a.len()
        invariant
            a@.len() == b@.len(),
            index <= a@.len(),
            forall|j: int| 0 <= j < index ==> a@[j] == b@[j],
        decreases a@.len() - index,
    {
        let x = a[index];
        let y = b[index];
        let equal = x == y;
        if !equal {
            return false;
        }
        index = index + 1;
    }
    proof {
        assert(a@ =~= b@);
    }
    true
}

pub fn push_source_kind_list_mismatch(details: &mut Vec<String>, label: &str, expected: Option<&Vec<AudioSourceKind>>, actual: &Vec<AudioSourceKind>)
    ensures
        texts_view(final(details)@) == texts_view(old(details)@) + source_kind_list_lines(
            label@,
            match expected {
                Some(values) => Some(values@),
                None => None,
            },
            actual@,
        ),
{
    if let Some(values) = expected {
        if !source_kind_lists_equal(values, actual) {
            let e = source_kind_list_debug_text(values);
            let a = source_kind_list_debug_text(actual);
            push_mismatch_line(details, label, e.as_str(), a.as_str());
        }
    }
    proof {
        reveal(source_kind_list_lines);
        assert(texts_view(final(details)@) =~= texts_view(old(details)@) + source_kind_list_lines(
            label@,
            match expected {
                Some(values) => Some(values@),
                None => None,
            },
            actual@,
        ));
    }
}

pub open spec fn optional_u64_list_text(values: Seq<Option<u64>>) -> Seq<char> {
    debug_list(values.map_values(|v: Option<u64>| debug_optional_u64(v)))
}

#[verifier::opaque]
pub open spec fn optional_u64_list_lines(label: Seq<char>, expected: Option<Seq<Option<u64>>>, actual: Seq<Option<u64>>) -> Seq<Seq<char>> {
    match expected {
        Some(values) => check_line(label, values != actual, optional_u64_list_text(values), optional_u64_list_text(actual)),
        None => Seq::empty(),
    }
}

fn optional_u64_list_debug_text(values: &Vec<Option<u64>>) -> (text: String)
    ensures
        text@ == optional_u64_list_text(values@),
{
    let mut items: Vec<String> = Vec::new();
    let mut index: usize = 0;
    while index < values.len()
        invariant
            index <= values@.len(),
            texts_view(items@) == values@.take(index as int).map_values(|v: Option<u64>| debug_optional_u64(v)),
        decreases values@.len() - index,
    {
        let x = values[index];
        let item = optional_u64_debug_text(x);
        let ghost before = items@;
        items.push(item);
        proof {
            assert(values@.take(index + 1) =~= values@.take(index as int).push(x));
            assert(texts_view(items@) =~= texts_view(before).push(item@));
            assert(texts_view(items@) =~= values@.take(index + 1).map_values(|v: Option<u64>| debug_optional_u64(v)));
        }
        index = index + 1;
    }
    let mut text = String::new();
    push_debug_list(&mut text, &items);
    proof {
        assert(values@.take(values@.len() as int) =~= values@);
    }
    text
}

fn optional_u64_lists_equal(a: &Vec<Option<u64>>, b: &Vec<Option<u64>>) -> (same: bool)
    ensures
        same == (a@ == b@),
{
    if a.len() != b.len() {
        return false;
    }
    let mut index: usize = 0;
    while index < a.len()
        invariant
            a@.len() == b@.len(),
            index <= a@.len(),
            forall|j: int| 0 <= j < index ==> a@[j] == b@[j],
        decreases a@.len() - index,
    {
        let x = a[index];
        let y = b[index];
        let equal = match (x, y) { (Some(p), Some(q)) => p == q, (None, None) => true, _ => false };
        if !equal {
            return false;
        }
        index = index + 1;
    }
    proof {
        assert(a@ =~= b@);
    }
    true
}

pub fn push_optional_u64_list_mismatch(details: &mut Vec<String>, label: &str, expected: Option<&Vec<Option<u64>>>, actual: &Vec<Option<u64>>)
    ensures
        texts_view(final(details)@) == texts_view(old(details)@) + optional_u64_list_lines(
            label@,
            match expected {
                Some(values) => Some(values@),
                None => None,
            },
            actual@,
        ),
{
    if let Some(values) = expected {
        if !optional_u64_lists_equal(values, actual) {
            let e = optional_u64_list_debug_text(values);
            let a = optional_u64_list_debug_text(actual);
            push_mismatch_line(details, label, e.as_str(), a.as_str());
        }
    }
    proof {
        reveal(optional_u64_list_lines);
        assert(texts_view(final(details)@) =~= texts_view(old(details)@) + optional_u64_list_lines(
            label@,
            match expected {
                Some(values) => Some(values@),
                None => None,
            },
            actual@,
        ));
    }
}

pub open spec fn optional_bool_list_text(values: Seq<Option<bool>>) -> Seq<char> {
    debug_list(values.map_values(|v: Option<bool>| debug_optional_bool(v)))
}

#[verifier::opaque]
pub open spec fn optional_bool_list_lines(label: Seq<char>, expected: Option<Seq<Option<bool>>>, actual: Seq<Option<bool>>) -> Seq<Seq<char>> {
    match expected {
        Some(values) => check_line(label, values != actual, optional_bool_list_text(values), optional_bool_list_text(actual)),
        None => Seq::empty(),
    }
}

fn optional_bool_list_debug_text(values: &Vec<Option<bool>>) -> (text: String)
    ensures
        text@ == optional_bool_list_text(values@),
{
    let mut items: Vec<String> = Vec::new();
    let mut index: usize = 0;
    while index < values.len()
        invariant
            index <= values@.len(),
            texts_view(items@) == values@.take(index as int).map_values(|v: Option<bool>| debug_optional_bool(v)),
        decreases values@.len() - index,
    {
        let x = values[index];
        let item = optional_bool_debug_text(x);
        let ghost before = items@;
        items.push(item);
        proof {
            assert(values@.take(index + 1) =~= values@.take(index as int).push(x));
            assert(texts_view(items@) =~= texts_view(before).push(item@));
            assert(texts_view(items@) =~= values@.take(index + 1).map_values(|v: Option<bool>| debug_optional_bool(v)));
        }
        index = index + 1;
    }
    let mut text = String::new();
    push_debug_list(&mut text, &items);
    proof {
        assert(values@.take(values@.len() as int) =~= values@);
    }
    text
}

fn optional_bool_lists_equal(a: &Vec<Option<bool>>, b: &Vec<Option<bool>>) -> (same: bool)
    ensures
        same == (a@ == b@),
{
    if a.len() != b.len() {
        return false;
    }
    let mut index: usize = 0;
    while index < a.len()
        invariant
            a@.len() == b@.len(),
            index <= a@.len(),
            forall|j: int| 0 <= j < index ==> a@[j] == b@[j],
        decreases a@.len() - index,
    {
        let x = a[index];
        let y = b[index];
        let equal = match (x, y) { (Some(p), Some(q)) => p == q, (None, None) => true, _ => false };
        if !equal {
            return false;
        }
        index = index + 1;
    }
    proof {
        assert(a@ =~= b@);
    }
    true
}

pub fn push_optional_bool_list_mismatch(details: &mut Vec<String>, label: &str, expected: Option<&Vec<Option<bool>>>, actual: &Vec<Option<bool>>)
    ensures
        texts_view(final(details)@) == texts_view(old(details)@) + optional_bool_list_lines(
            label@,
            match expected {
                Some(values) => Some(values@),
                None => None,
            },
            actual@,
        ),
{
    if let Some(values) = expected {
        if !optional_bool_lists_equal(values, actual) {
            let e = optional_bool_list_debug_text(values);
            let a = optional_bool_list_debug_text(actual);
            push_mismatch_line(details, label, e.as_str(), a.as_str());
        }
    }
    proof {
        reveal(optional_bool_list_lines);
        assert(texts_view(final(details)@) =~= texts_view(old(details)@) + optional_bool_list_lines(
            label@,
            match expected {
                Some(values) => Some(values@),
                None => None,
            },
            actual@,
        ));
    }
}


pub open spec fn text_list_text(values: Seq<Seq<char>>) -> Seq<char> {
    debug_list(values.map_values(|v: Seq<char>| debug_quoted(v)))
}

#[verifier::opaque]
pub open spec fn text_list_lines(label: Seq<char>, expected: Option<Seq<Seq<char>>>, actual: Seq<Seq<char>>) -> Seq<Seq<char>> {
    match expected {
        Some(values) => check_line(label, values != actual, text_list_text(values), text_list_text(actual)),
        None => Seq::empty(),
    }
}

fn text_list_debug_text(values: &Vec<String>) -> (text: String)
    ensures
        text@ == text_list_text(texts_view(values@)),
{
    let mut items: Vec<String> = Vec::new();
    let mut index: usize = 0;
    while index < values.len()
        invariant
            index <= values@.len(),
            texts_view(items@) == texts_view(values@).take(index as int).map_values(|v: Seq<char>| debug_quoted(v)),
        decreases values@.len() - index,
    {
        let mut item = String::new();
        push_debug_quoted(&mut item, values[index].as_str());
        let ghost before = items@;
        items.push(item);
        proof {
            assert(texts_view(values@).take(index + 1) =~= texts_view(values@).take(index as int).push(values@[index as int]@));
            assert(texts_view(items@) =~= texts_view(before).push(item@));
            assert(texts_view(items@) =~= texts_view(values@).take(index + 1).map_values(|v: Seq<char>| debug_quoted(v)));
        }
        index = index + 1;
    }
    let mut text = String::new();
    push_debug_list(&mut text, &items);
    proof {
        assert(texts_view(values@).take(values@.len() as int) =~= texts_view(values@));
    }
    text
}

fn text_lists_equal(a: &Vec<String>, b: &Vec<String>) -> (same: bool)
    ensures
        same == (texts_view(a@) == texts_view(b@)),
{
    if a.len() != b.len() {
        proof {
            assert(texts_view(a@).len() != texts_view(b@).len());
        }
        return false;
    }
    let mut index: usize = 0;
    while index < a.len()
        invariant
            a@.len() == b@.len(),
            index <= a@.len(),
            forall|j: int| 0 <= j < index ==> a@[j]@ == b@[j]@,
        decreases a@.len() - index,
    {
        if a[index] != b[index] {
            proof {
                assert(texts_view(a@)[index as int] != texts_view(b@)[index as int]);
            }
            return false;
        }
        index = index + 1;
    }
    proof {
        assert(texts_view(a@) =~= texts_view(b@));
    }
    true
}

pub fn push_text_list_mismatch(details: &mut Vec<String>, label: &str, expected: Option<&Vec<String>>, actual: &Vec<String>)
    ensures
        texts_view(final(details)@) == texts_view(old(details)@) + text_list_lines(
            label@,
            match expected {
                Some(values) => Some(texts_view(values@)),
                None => None,
            },
            texts_view(actual@),
        ),
{
    if let Some(values) = expected {
        if !text_lists_equal(values, actual) {
            let e = text_list_debug_text(values);
            let a = text_list_debug_text(actual);
            push_mismatch_line(details, label, e.as_str(), a.as_str());
        }
    }
    proof {
        reveal(text_list_lines);
        assert(texts_view(final(details)@) =~= texts_view(old(details)@) + text_list_lines(
            label@,
            match expected {
                Some(values) => Some(texts_view(values@)),
                None => None,
            },
            texts_view(actual@),
        ));
    }
}

pub open spec fn voice_list_text(voices: Seq<HostAudioVoiceSummaryView>) -> Seq<char> {
    debug_list(voices.map_values(|v: HostAudioVoiceSummaryView| debug_voice(v)))
}

#[verifier::opaque]
pub open spec fn voice_list_lines(
    label: Seq<char>,
    expected: Option<Seq<HostAudioVoiceSummaryView>>,
    actual: Seq<HostAudioVoiceSummaryView>,
) -> Seq<Seq<char>> {
    match expected {
        Some(voices) => check_line(label, voices != actual, voice_list_text(voices), voice_list_text(actual)),
        None => Seq::empty(),
    }
}

fn voice_list_debug_text(voices: &Vec<HostAudioVoiceSummary>) -> (text: String)
    ensures
        text@ == voice_list_text(voice_views(voices@)),
{
    let mut items: Vec<String> = Vec::new();
    let mut index: usize = 0;
    while index < voices.len()
        invariant
            index <= voices@.len(),
            texts_view(items@) == voice_views(voices@).take(index as int).map_values(
                |v: HostAudioVoiceSummaryView| debug_voice(v),
            ),
        decreases voices@.len() - index,
    {
        let mut item = String::new();
        push_debug_voice(&mut item, &voices[index]);
        let ghost before = items@;
        items.push(item);
        proof {
            assert(voice_views(voices@).take(index + 1) =~= voice_views(voices@).take(index as int).push(
                voices@[index as int]@,
            ));
            assert(texts_view(items@) =~= texts_view(before).push(item@));
            assert(texts_view(items@) =~= voice_views(voices@).take(index + 1).map_values(
                |v: HostAudioVoiceSummaryView| debug_voice(v),
            ));
        }
        index = index + 1;
    }
    let mut text = String::new();
    push_debug_list(&mut text, &items);
    proof {
        assert(voice_views(voices@).take(voices@.len() as int) =~= voice_views(voices@));
    }
    text
}

fn voices_equal(a: &HostAudioVoiceSummary, b: &HostAudioVoiceSummary) -> (same: bool)
    ensures
        same == (a@ == b@),
{
    a.voice_id == b.voice_id && a.render_kind == b.render_kind && a.source_label == b.source_label
        && a.source_sample_id == b.source_sample_id && a.bank == b.bank && a.pad_number == b.pad_number
        && a.total_frame_count == b.total_frame_count && a.remaining_frame_count == b.remaining_frame_count
}

fn voice_lists_equal(a: &Vec<HostAudioVoiceSummary>, b: &Vec<HostAudioVoiceSummary>) -> (same: bool)
    ensures
        same == (voice_views(a@) == voice_views(b@)),
{
    if a.len() != b.len() {
        proof {
            assert(voice_views(a@).len() != voice_views(b@).len());
        }
        return false;
    }
    let mut index: usize = 0;
    while index < a.len()
        invariant
            a@.len() == b@.len(),
            index <= a@.len(),
            forall|j: int| 0 <= j < index ==> a@[j]@ == b@[j]@,
        decreases a@.len() - index,
    {
        if !voices_equal(&a[index], &b[index]) {
            proof {
                assert(voice_views(a@)[index as int] != voice_views(b@)[index as int]);
            }
            return false;
        }
        index = index + 1;
    }
    proof {
        assert(voice_views(a@) =~= voice_views(b@));
    }
    true
}

pub fn push_voice_list_mismatch(
    details: &mut Vec<String>,
    label: &str,
    expected: Option<&Vec<HostAudioVoiceSummary>>,
    actual: &Vec<HostAudioVoiceSummary>,
)
    ensures
        texts_view(final(details)@) == texts_view(old(details)@) + voice_list_lines(
            label@,
            match expected {
                Some(voices) => Some(voice_views(voices@)),
                None => None,
            },
            voice_views(actual@),
        ),
{
    if let Some(voices) = expected {
        if !voice_lists_equal(voices, actual) {
            let e = voice_list_debug_text(voices);
            let a = voice_list_debug_text(actual);
            push_mismatch_line(details, label, e.as_str(), a.as_str());
        }
    }
    proof {
        reveal(voice_list_lines);
        assert(texts_view(final(details)@) =~= texts_view(old(details)@) + voice_list_lines(
            label@,
            match expected {
                Some(voices) => Some(voice_views(voices@)),
                None => None,
            },
            voice_views(actual@),
        ));
    }
}

// ---------------------------------------------------------------------------
// Further scalar kinds
// ---------------------------------------------------------------------------

/// A signed integer as `{:?}` writes it: a minus sign before negative values.
pub open spec fn debug_i16(value: i16) -> Seq<char> {
    if value < 0 {
        "-"@ + decimal((-value) as nat)
    } else {
        decimal(value as nat)
    }
}

fn i16_debug_text(value: i16) -> (text: String)
    ensures
        text@ == debug_i16(value),
{
    let mut text = String::new();
    if value < 0 {
        text.append("-");
        push_decimal(&mut text, (-(value as i32)) as u64);
    } else {
        push_decimal(&mut text, value as u64);
    }
    proof {
        assert(text@ =~= debug_i16(value));
    }
    text
}

#[verifier::opaque]
pub open spec fn i16_lines(label: Seq<char>, expected: Option<i16>, actual: i16) -> Seq<Seq<char>> {
    match expected {
        Some(value) => check_line(label, value != actual, debug_i16(value), debug_i16(actual)),
        None => Seq::empty(),
    }
}

pub fn push_i16_mismatch(details: &mut Vec<String>, label: &str, expected: Option<i16>, actual: i16)
    ensures
        texts_view(final(details)@) == texts_view(old(details)@) + i16_lines(label@, expected, actual),
{
    if let Some(value) = expected {
        if value != actual {
            let e = i16_debug_text(value);
            let a = i16_debug_text(actual);
            push_mismatch_line(details, label, e.as_str(), a.as_str());
        }
    }
    proof {
        reveal(i16_lines);
        assert(texts_view(final(details)@) =~= texts_view(old(details)@) + i16_lines(label@, expected, actual));
    }
}

#[verifier::opaque]
pub open spec fn bank_lines(label: Seq<char>, expected: Option<PadBank>, actual: PadBank) -> Seq<Seq<char>> {
    match expected {
        Some(value) => check_line(label, value != actual, debug_bank(value), debug_bank(actual)),
        None => Seq::empty(),
    }
}

pub fn push_bank_mismatch(details: &mut Vec<String>, label: &str, expected: Option<PadBank>, actual: PadBank)
    ensures
        texts_view(final(details)@) == texts_view(old(details)@) + bank_lines(label@, expected, actual),
{
    if let Some(value) = expected {
        if value != actual {
            let mut e = String::new();
            push_debug_bank(&mut e, value);
            let mut a = String::new();
            push_debug_bank(&mut a, actual);
            push_mismatch_line(details, label, e.as_str(), a.as_str());
        }
    }
    proof {
        reveal(bank_lines);
        assert(texts_view(final(details)@) =~= texts_view(old(details)@) + bank_lines(label@, expected, actual));
    }
}

pub open spec fn debug_balance(balance: ChannelBalance) -> Seq<char> {
    match balance {
        ChannelBalance::Left => "Left"@,
        ChannelBalance::Center => "Center"@,
        ChannelBalance::Right => "Right"@,
    }
}

fn balance_text(balance: ChannelBalance) -> (text: &'static str)
    ensures
        text@ == debug_balance(balance),
{
    match balance {
        ChannelBalance::Left => "Left",
        ChannelBalance::Center => "Center",
        ChannelBalance::Right => "Right",
    }
}

#[verifier::opaque]
pub open spec fn balance_lines(label: Seq<char>, expected: Option<ChannelBalance>, actual: ChannelBalance) -> Seq<Seq<char>> {
    match expected {
        Some(value) => check_line(label, value != actual, debug_balance(value), debug_balance(actual)),
        None => Seq::empty(),
    }
}

pub fn push_balance_mismatch(
    details: &mut Vec<String>,
    label: &str,
    expected: Option<ChannelBalance>,
    actual: ChannelBalance,
)
    ensures
        texts_view(final(details)@) == texts_view(old(details)@) + balance_lines(label@, expected, actual),
{
    if let Some(value) = expected {
        if value != actual {
            push_mismatch_line(details, label, balance_text(value), balance_text(actual));
        }
    }
    proof {
        reveal(balance_lines);
        assert(texts_view(final(details)@) =~= texts_view(old(details)@) + balance_lines(label@, expected, actual));
    }
}

#[verifier::opaque]
pub open spec fn source_kind_lines(label: Seq<char>, expected: Option<AudioSourceKind>, actual: AudioSourceKind) -> Seq<Seq<char>> {
    match expected {
        Some(value) => check_line(label, value != actual, debug_source_kind(value), debug_source_kind(actual)),
        None => Seq::empty(),
    }
}

pub fn push_source_kind_mismatch(
    details: &mut Vec<String>,
    label: &str,
    expected: Option<AudioSourceKind>,
    actual: AudioSourceKind,
)
    ensures
        texts_view(final(details)@) == texts_view(old(details)@) + source_kind_lines(label@, expected, actual),
{
    if let Some(value) = expected {
        if value != actual {
            let mut e = String::new();
            push_debug_source_kind(&mut e, value);
            let mut a = String::new();
            push_debug_source_kind(&mut a, actual);
            push_mismatch_line(details, label, e.as_str(), a.as_str());
        }
    }
    proof {
        reveal(source_kind_lines);
        assert(texts_view(final(details)@) =~= texts_view(old(details)@) + source_kind_lines(label@, expected, actual));
    }
}

} // verus!
