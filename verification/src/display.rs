use vstd::prelude::*;
use vstd::string::StringExecFns;
use crate::host::{host_audio_error_text, HostAudioEvent, HostAudioEventView};
use crate::render::{AudioRenderSummary, AudioSourceKind};
use crate::text::{decimal, push_decimal, push_zero_padded, text_chars, zero_padded};

verus! {

/// Whether the device audio backend uses the host's default output or one the user picked.
#[derive(Debug, Clone, Copy, PartialEq, Eq, Structural)]
pub enum DesktopAudioDeviceOrigin {
    Default,
    Selected,
}

impl DesktopAudioDeviceOrigin {
    pub fn label(self) -> (label: &'static str)
        ensures
            label@ == (match self {
                DesktopAudioDeviceOrigin::Default => "default device"@,
                DesktopAudioDeviceOrigin::Selected => "selected device"@,
            }),
    {
        match self {
            DesktopAudioDeviceOrigin::Default => "default device",
            DesktopAudioDeviceOrigin::Selected => "selected device",
        }
    }
}

/// A tempo kept in hundredths of a BPM, e.g. `120.50 BPM`.
pub open spec fn tempo_view(tempo_bpm_x100: u32) -> Seq<char> {
    decimal((tempo_bpm_x100 / 100) as nat) + "."@ + zero_padded((tempo_bpm_x100 % 100) as nat, 2)
        + " BPM"@
}

pub fn tempo_text(tempo_bpm_x100: u32) -> (text: String)
    ensures
        text@ == tempo_view(tempo_bpm_x100),
{
    let mut text = String::new();
    push_decimal(&mut text, (tempo_bpm_x100 / 100) as u64);
    text.append(".");
    push_zero_padded(&mut text, (tempo_bpm_x100 % 100) as u64, 2);
    text.append(" BPM");
    proof {
        assert(text@ =~= tempo_view(tempo_bpm_x100));
    }
    text
}

/// A tune offset with its sign and at least three digits, e.g. `+000c`, `-005c`, `+1200c`.
pub open spec fn tune_view(tune_cents: i16) -> Seq<char> {
    (if tune_cents < 0 {
        "-"@
    } else {
        "+"@
    }) + zero_padded(
        (if tune_cents < 0 {
            -tune_cents
        } else {
            tune_cents as int
        }) as nat,
        3,
    ) + "c"@
}

pub fn tune_text(tune_cents: i16) -> (text: String)
    ensures
        text@ == tune_view(tune_cents),
{
    let mut text = String::new();
    let magnitude: u64 = if tune_cents < 0 {
        text.append("-");
        (-(tune_cents as i32)) as u64
    } else {
        text.append("+");
        tune_cents as u64
    };
    push_zero_padded(&mut text, magnitude, 3);
    text.append("c");
    proof {
        assert(text@ =~= tune_view(tune_cents));
    }
    text
}

/// `off` for no mute group, otherwise the group with two digits.
pub open spec fn mute_group_view(mute_group: u8) -> Seq<char> {
    if mute_group == 0 {
        "off"@
    } else {
        zero_padded(mute_group as nat, 2)
    }
}

pub fn mute_group_text(mute_group: u8) -> (text: String)
    ensures
        text@ == mute_group_view(mute_group),
{
    if mute_group == 0 {
        "off".to_owned()
    } else {
        let mut text = String::new();
        push_zero_padded(&mut text, mute_group as u64, 2);
        proof {
            assert(text@ =~= mute_group_view(mute_group));
        }
        text
    }
}

/// `Omni`, or the channel with two digits, e.g. `Ch 03`.
pub open spec fn midi_input_channel_view(input_channel: Option<u8>) -> Seq<char> {
    match input_channel {
        Some(channel) => "Ch "@ + zero_padded(channel as nat, 2),
        None => "Omni"@,
    }
}

pub fn midi_input_channel_text(input_channel: Option<u8>) -> (text: String)
    ensures
        text@ == midi_input_channel_view(input_channel),
{
    match input_channel {
        Some(channel) => {
            let mut text = String::new();
            text.append("Ch ");
            push_zero_padded(&mut text, channel as u64, 2);
            proof {
                assert(text@ =~= midi_input_channel_view(input_channel));
            }
            text
        },
        None => "Omni".to_owned(),
    }
}

/// The sixteen notes starting at `base_note`, e.g. `36..=51`; the top saturates at 255.
pub open spec fn midi_note_range_view(base_note: u8) -> Seq<char> {
    decimal(base_note as nat) + "..="@ + decimal(
        (if base_note + 15 > 255 {
            255
        } else {
            base_note + 15
        }) as nat,
    )
}

pub fn midi_note_range_text(base_note: u8) -> (text: String)
    ensures
        text@ == midi_note_range_view(base_note),
{
    let mut text = String::new();
    push_decimal(&mut text, base_note as u64);
    text.append("..=");
    push_decimal(&mut text, base_note.saturating_add(15) as u64);
    proof {
        assert(text@ =~= midi_note_range_view(base_note));
    }
    text
}

/// The value in decimal, or `?` when it is unknown.
pub open spec fn optional_number_view(value: Option<u64>) -> Seq<char> {
    match value {
        Some(value) => decimal(value as nat),
        None => "?"@,
    }
}

pub fn optional_u8_text(value: Option<u8>) -> (text: String)
    ensures
        text@ == optional_number_view(
            match value {
                Some(v) => Some(v as u64),
                None => None,
            },
        ),
{
    match value {
        Some(value) => crate::text::decimal_text(value as u64),
        None => "?".to_owned(),
    }
}

pub fn optional_u64_text(value: Option<u64>) -> (text: String)
    ensures
        text@ == optional_number_view(value),
{
    match value {
        Some(value) => crate::text::decimal_text(value),
        None => "?".to_owned(),
    }
}

/// Keeps a selection inside a list of `port_count` entries (0 for an empty list).
pub fn clamp_port_index(index: usize, port_count: usize) -> (clamped: usize)
    ensures
        port_count == 0 ==> clamped == 0,
        port_count > 0 ==> clamped == (if index < port_count {
            index
        } else {
            (port_count - 1) as usize
        }),
{
    if port_count == 0 {
        0
    } else if index <= port_count - 1 {
        index
    } else {
        port_count - 1
    }
}

/// `<prefix>v<version>, <bytes> bytes, <status>` when both numbers are known, else the status alone.
pub open spec fn saved_status_view(prefix: Seq<char>, status: Seq<char>, version: Option<u16>, byte_count: Option<usize>) -> Seq<char> {
    match (version, byte_count) {
        (Some(version), Some(byte_count)) => prefix + "v"@ + decimal(version as nat) + ", "@ + decimal(
            byte_count as nat,
        ) + " bytes, "@ + status,
        _ => status,
    }
}

fn saved_status_text(prefix: &str, status: &str, version: Option<u16>, byte_count: Option<usize>) -> (text: String)
    ensures
        text@ == saved_status_view(prefix@, status@, version, byte_count),
{
    match (version, byte_count) {
        (Some(version), Some(byte_count)) => {
            let mut text = String::new();
            text.append(prefix);
            text.append("v");
            push_decimal(&mut text, version as u64);
            text.append(", ");
            push_decimal(&mut text, byte_count as u64);
            text.append(" bytes, ");
            text.append(status);
            proof {
                assert(text@ =~= saved_status_view(prefix@, status@, Some(version), Some(byte_count)));
            }
            text
        },
        _ => status.to_owned(),
    }
}

pub fn project_snapshot_status_text(status: &str, version: Option<u16>, byte_count: Option<usize>) -> (text: String)
    ensures
        text@ == saved_status_view("Snapshot: "@, status@, version, byte_count),
{
    saved_status_text("Snapshot: ", status, version, byte_count)
}

pub fn project_file_status_text(status: &str, version: Option<u16>, byte_count: Option<usize>) -> (text: String)
    ensures
        text@ == saved_status_view("Project file: "@, status@, version, byte_count),
{
    saved_status_text("Project file: ", status, version, byte_count)
}

/// `count-in accent|click bar <bar> beat <beat> tick <tick>`, with `?` for missing values.
pub open spec fn count_in_click_label_view(summary: AudioRenderSummary) -> Seq<char> {
    (if summary.accent == Some(true) {
        "count-in accent"@
    } else {
        "count-in click"@
    }) + " bar "@ + optional_number_view(
        match summary.bar_index {
            Some(v) => Some(v as u64),
            None => None,
        },
    ) + " beat "@ + optional_number_view(
        match summary.beat_index {
            Some(v) => Some(v as u64),
            None => None,
        },
    ) + " tick "@ + optional_number_view(summary.count_in_tick)
}

pub fn count_in_click_summary_label(summary: &AudioRenderSummary) -> (text: String)
    ensures
        text@ == count_in_click_label_view(*summary),
{
    let accented: bool = match summary.accent {
        Some(accent) => accent,
        None => false,
    };
    let mut text = String::new();
    if accented {
        text.append("count-in accent");
    } else {
        text.append("count-in click");
    }
    text.append(" bar ");
    text.append(optional_u8_text(summary.bar_index).as_str());
    text.append(" beat ");
    text.append(optional_u8_text(summary.beat_index).as_str());
    text.append(" tick ");
    text.append(optional_u64_text(summary.count_in_tick).as_str());
    proof {
        assert(text@ =~= count_in_click_label_view(*summary));
    }
    text
}

/// What `std::path::Path::file_stem` gives for a path, as text.
pub uninterp spec fn path_file_stem(path: Seq<char>) -> Option<Seq<char>>;

/// The characters with the Unicode `White_Space` property, which
/// `char::is_whitespace` accepts.
pub open spec fn unicode_whitespace(c: char) -> bool {
    ||| ('\u{9}' <= c && c <= '\u{d}')
    ||| c == ' '
    ||| c == '\u{85}'
    ||| c == '\u{a0}'
    ||| c == '\u{1680}'
    ||| ('\u{2000}' <= c && c <= '\u{200a}')
    ||| c == '\u{2028}'
    ||| c == '\u{2029}'
    ||| c == '\u{202f}'
    ||| c == '\u{205f}'
    ||| c == '\u{3000}'
}

/// The text without its leading whitespace.
pub open spec fn trim_start_view(text: Seq<char>) -> Seq<char>
    decreases text.len(),
{
    if text.len() > 0 && unicode_whitespace(text[0]) {
        trim_start_view(text.drop_first())
    } else {
        text
    }
}

/// The text without its trailing whitespace.
pub open spec fn trim_end_view(text: Seq<char>) -> Seq<char>
    decreases text.len(),
{
    if text.len() > 0 && unicode_whitespace(text.last()) {
        trim_end_view(text.drop_last())
    } else {
        text
    }
}

/// What `str::trim` leaves of a text: the text without leading and trailing
/// whitespace.
pub open spec fn trimmed(text: Seq<char>) -> Seq<char> {
    trim_end_view(trim_start_view(text))
}

pub open spec fn string_option_view(text: Option<String>) -> Option<Seq<char>> {
    match text {
        Some(t) => Some(t@),
        None => None,
    }
}

/// Calls `std::path::Path::file_stem` on `path` and converts the stem to text.
/// Claims that the result is `path_file_stem(path@)`: a function of the path
/// alone; nothing more of it is stated here.
#[verifier::external_body]
fn file_stem_of(path: &str) -> (stem: Option<String>)
    ensures
        string_option_view(stem) == path_file_stem(path@),
{
    match std::path::Path::new(path).file_stem() {
        Some(name) => match name.to_str() {
            Some(name) => Some(name.to_owned()),
            None => None,
        },
        None => None,
    }
}

/// Whether `c` has the Unicode `White_Space` property.
fn is_unicode_whitespace(c: char) -> (result: bool)
    ensures
        result == unicode_whitespace(c),
{
    ('\u{9}' <= c && c <= '\u{d}') || c == ' ' || c == '\u{85}' || c == '\u{a0}' || c == '\u{1680}'
        || ('\u{2000}' <= c && c <= '\u{200a}') || c == '\u{2028}' || c == '\u{2029}'
        || c == '\u{202f}' || c == '\u{205f}' || c == '\u{3000}'
}

/// Dropping `k` leading whitespace characters, the first of the rest not
/// being whitespace, is what `trim_start_view` does.
proof fn lemma_trim_start_at(text: Seq<char>, k: int)
    requires
        0 <= k <= text.len(),
        forall|i: int| 0 <= i < k ==> unicode_whitespace(#[trigger] text[i]),
        k == text.len() || !unicode_whitespace(text[k]),
    ensures
        trim_start_view(text) == text.subrange(k, text.len() as int),
    decreases k,
{
    if k == 0 {
        assert(text.subrange(0, text.len() as int) =~= text);
    } else {
        assert(unicode_whitespace(text[0]));
        let rest = text.drop_first();
        assert forall|i: int| 0 <= i < k - 1 implies unicode_whitespace(#[trigger] rest[i]) by {
            assert(rest[i] == text[i + 1]);
        }
        if k < text.len() {
            assert(rest[k - 1] == text[k]);
        }
        lemma_trim_start_at(rest, k - 1);
        assert(rest.subrange(k - 1, rest.len() as int) =~= text.subrange(k, text.len() as int));
    }
}

/// Keeping the first `k` characters, all after them being whitespace and the
/// last kept one not, is what `trim_end_view` does.
proof fn lemma_trim_end_at(text: Seq<char>, k: int)
    requires
        0 <= k <= text.len(),
        forall|i: int| k <= i < text.len() ==> unicode_whitespace(#[trigger] text[i]),
        k == 0 || !unicode_whitespace(text[k - 1]),
    ensures
        trim_end_view(text) == text.subrange(0, k),
    decreases text.len() - k,
{
    if k == text.len() {
        assert(text.subrange(0, k) =~= text);
    } else {
        assert(unicode_whitespace(text.last()));
        let rest = text.drop_last();
        assert forall|i: int| k <= i < rest.len() implies unicode_whitespace(#[trigger] rest[i]) by {
            assert(rest[i] == text[i]);
        }
        if k > 0 {
            assert(rest[k - 1] == text[k - 1]);
        }
        lemma_trim_end_at(rest, k);
        assert(rest.subrange(0, k) =~= text.subrange(0, k));
    }
}

/// The text without its leading and trailing Unicode whitespace, as
/// `str::trim` leaves it.
fn trim_text(text: &str) -> (result: String)
    ensures
        result@ == trimmed(text@),
{
    let chars = text_chars(text);
    let n = chars.len();
    let mut start: usize = 0;
    while start < n && is_unicode_whitespace(chars[start])
        invariant
            chars@ == text@,
            n == chars.len(),
            start <= n,
            forall|i: int| 0 <= i < start ==> unicode_whitespace(#[trigger] chars@[i]),
        decreases n - start,
    {
        start = start + 1;
    }
    let mut end: usize = n;
    while end > start && is_unicode_whitespace(chars[end - 1])
        invariant
            chars@ == text@,
            n == chars.len(),
            start <= end <= n,
            forall|i: int| end <= i < n ==> unicode_whitespace(#[trigger] chars@[i]),
        decreases end - start,
    {
        end = end - 1;
    }
    let mut result = String::new();
    let mut i: usize = start;
    while i < end
        invariant
            chars@ == text@,
            start <= i <= end <= n,
            n == chars.len(),
            result@ == chars@.subrange(start as int, i as int),
        decreases end - i,
    {
        result.push(chars[i]);
        proof {
            assert(result@ =~= chars@.subrange(start as int, i as int + 1));
        }
        i = i + 1;
    }
    proof {
        let s = text@;
        lemma_trim_start_at(s, start as int);
        let rest = s.subrange(start as int, n as int);
        let k = end - start;
        assert forall|j: int| k <= j < rest.len() implies unicode_whitespace(#[trigger] rest[j]) by {
            assert(rest[j] == s[start + j]);
        }
        if k > 0 {
            assert(rest[k - 1] == s[end - 1]);
        }
        lemma_trim_end_at(rest, k as int);
        assert(rest.subrange(0, k as int) =~= s.subrange(start as int, end as int));
    }
    result
}

/// The sample name a WAV path is imported under: the trimmed file stem, or
/// `USER-WAV` when there is none.
pub open spec fn sample_name_view(path: Seq<char>) -> Seq<char> {
    match path_file_stem(path) {
        Some(stem) => if trimmed(stem).len() == 0 {
            "USER-WAV"@
        } else {
            trimmed(stem)
        },
        None => "USER-WAV"@,
    }
}

pub fn sample_name_from_path(path: &str) -> (name: String)
    ensures
        name@ == sample_name_view(path@),
{
    match file_stem_of(path) {
        Some(stem) => {
            let name = trim_text(stem.as_str());
            if name.as_str().is_empty() {
                "USER-WAV".to_owned()
            } else {
                name
            }
        },
        None => "USER-WAV".to_owned(),
    }
}

/// How the status line names the source of a render.
pub fn audio_source_label(summary: &AudioRenderSummary) -> (label: &'static str)
    ensures
        label@ == (match summary.source_kind {
            AudioSourceKind::RightsSafeGenerated => "Generated render"@,
        }),
{
    match summary.source_kind {
        AudioSourceKind::RightsSafeGenerated => "Generated render",
    }
}


/// The status line for a failed host-audio request; other events have none.
pub open spec fn host_audio_failure_view(event: HostAudioEventView) -> Option<Seq<char>> {
    match event {
        HostAudioEventView::Failed { error, .. } => Some("Host audio failed: "@ + host_audio_error_text(error)),
        _ => None,
    }
}

pub fn host_audio_error_message(event: &HostAudioEvent) -> (message: Option<String>)
    ensures
        string_option_view(message) == host_audio_failure_view(event@),
{
    match event {
        HostAudioEvent::Failed { error, .. } => {
            let mut text = "Host audio failed: ".to_owned();
            text.append(error.message().as_str());
            Some(text)
        },
        HostAudioEvent::Ignored { .. } | HostAudioEvent::Enqueued { .. } | HostAudioEvent::Released { .. } => None,
    }
}

} // verus!
