use vstd::prelude::*;
use vstd::string::StringExecFns;
use crate::host::{
    CapturedHostAudioRender, HostAudioMode, HostAudioVoiceSummary, HostAudioVoiceSummaryView,
};
use crate::intents::PadBank;
use crate::render::{AudioRenderKind, AudioSourceKind};
use crate::settings::AudioRenderSettings;
use crate::text::{decimal, push_decimal};

verus! {

// Debug renderings (`{:?}`) of the values that fixtures compare.

/// What `<str as Debug>::fmt` writes for a text: the text in double quotes,
/// with quotes, backslashes and control characters escaped.
pub uninterp spec fn debug_quoted(text: Seq<char>) -> Seq<char>;

/// Formats `text` with `{:?}`. Claims that the result is `debug_quoted(text@)`,
/// a function of the text alone; the escaping rules are not stated here.
#[verifier::external_body]
fn debug_quoted_text(text: &str) -> (quoted: String)
    ensures
        quoted@ == debug_quoted(text@),
{
    format!("{:?}", text)
}

pub open spec fn debug_mode(mode: HostAudioMode) -> Seq<char> {
    match mode {
        HostAudioMode::Disabled => "Disabled"@,
        HostAudioMode::Enabled => "Enabled"@,
    }
}

pub open spec fn debug_render_kind(kind: AudioRenderKind) -> Seq<char> {
    match kind {
        AudioRenderKind::SamplePlayback => "SamplePlayback"@,
        AudioRenderKind::CountInClick => "CountInClick"@,
    }
}

pub open spec fn debug_source_kind(kind: AudioSourceKind) -> Seq<char> {
    match kind {
        AudioSourceKind::RightsSafeGenerated => "RightsSafeGenerated"@,
    }
}

pub open spec fn debug_bank(bank: PadBank) -> Seq<char> {
    match bank {
        PadBank::A => "A"@,
        PadBank::B => "B"@,
        PadBank::C => "C"@,
        PadBank::D => "D"@,
    }
}

pub open spec fn debug_bool(value: bool) -> Seq<char> {
    if value {
        "true"@
    } else {
        "false"@
    }
}

pub open spec fn debug_settings(settings: AudioRenderSettings) -> Seq<char> {
    "AudioRenderSettings { sample_rate_hz: "@ + decimal(settings.sample_rate_hz as nat)
        + ", frame_count: "@ + decimal(settings.frame_count as nat) + " }"@
}

pub open spec fn debug_voice(voice: HostAudioVoiceSummaryView) -> Seq<char> {
    "HostAudioVoiceSummary { voice_id: "@ + decimal(voice.voice_id as nat) + ", render_kind: "@
        + debug_render_kind(voice.render_kind) + ", source_label: "@ + debug_quoted(
        voice.source_label,
    ) + ", source_sample_id: "@ + debug_quoted(voice.source_sample_id) + ", bank: "@
        + debug_bank(voice.bank) + ", pad_number: "@ + decimal(voice.pad_number as nat)
        + ", total_frame_count: "@ + decimal(voice.total_frame_count as nat)
        + ", remaining_frame_count: "@ + decimal(voice.remaining_frame_count as nat) + " }"@
}

pub open spec fn debug_option(value: Option<Seq<char>>) -> Seq<char> {
    match value {
        Some(text) => "Some("@ + text + ")"@,
        None => "None"@,
    }
}

/// The items separated by `, `.
pub open spec fn join_items(items: Seq<Seq<char>>) -> Seq<char>
    decreases items.len(),
{
    if items.len() == 0 {
        Seq::empty()
    } else if items.len() == 1 {
        items[0]
    } else {
        join_items(items.drop_last()) + ", "@ + items.last()
    }
}

/// A list as `{:?}` writes it: `[a, b, c]`.
pub open spec fn debug_list(items: Seq<Seq<char>>) -> Seq<char> {
    "["@ + join_items(items) + "]"@
}

pub open spec fn texts_view(texts: Seq<String>) -> Seq<Seq<char>> {
    texts.map_values(|t: String| t@)
}

pub fn push_debug_quoted(text: &mut String, value: &str)
    ensures
        final(text)@ == old(text)@ + debug_quoted(value@),
{
    let quoted = debug_quoted_text(value);
    text.append(quoted.as_str());
}

pub fn push_debug_mode(text: &mut String, mode: HostAudioMode)
    ensures
        final(text)@ == old(text)@ + debug_mode(mode),
{
    match mode {
        HostAudioMode::Disabled => text.append("Disabled"),
        HostAudioMode::Enabled => text.append("Enabled"),
    }
}

pub fn push_debug_render_kind(text: &mut String, kind: AudioRenderKind)
    ensures
        final(text)@ == old(text)@ + debug_render_kind(kind),
{
    match kind {
        AudioRenderKind::SamplePlayback => text.append("SamplePlayback"),
        AudioRenderKind::CountInClick => text.append("CountInClick"),
    }
}

pub fn push_debug_source_kind(text: &mut String, kind: AudioSourceKind)
    ensures
        final(text)@ == old(text)@ + debug_source_kind(kind),
{
    match kind {
        AudioSourceKind::RightsSafeGenerated => text.append("RightsSafeGenerated"),
    }
}

pub fn push_debug_bank(text: &mut String, bank: PadBank)
    ensures
        final(text)@ == old(text)@ + debug_bank(bank),
{
    match bank {
        PadBank::A => text.append("A"),
        PadBank::B => text.append("B"),
        PadBank::C => text.append("C"),
        PadBank::D => text.append("D"),
    }
}

pub fn push_debug_bool(text: &mut String, value: bool)
    ensures
        final(text)@ == old(text)@ + debug_bool(value),
{
    if value {
        text.append("true");
    } else {
        text.append("false");
    }
}

pub fn push_debug_settings(text: &mut String, settings: AudioRenderSettings)
    ensures
        final(text)@ == old(text)@ + debug_settings(settings),
{
    text.append("AudioRenderSettings { sample_rate_hz: ");
    push_decimal(text, settings.sample_rate_hz as u64);
    text.append(", frame_count: ");
    push_decimal(text, settings.frame_count as u64);
    text.append(" }");
    proof {
        assert(final(text)@ =~= old(text)@ + debug_settings(settings));
    }
}

pub fn push_debug_voice(text: &mut String, voice: &HostAudioVoiceSummary)
    ensures
        final(text)@ == old(text)@ + debug_voice(voice@),
{
    text.append("HostAudioVoiceSummary { voice_id: ");
    push_decimal(text, voice.voice_id);
    text.append(", render_kind: ");
    push_debug_render_kind(text, voice.render_kind);
    text.append(", source_label: ");
    push_debug_quoted(text, voice.source_label.as_str());
    text.append(", source_sample_id: ");
    push_debug_quoted(text, voice.source_sample_id.as_str());
    text.append(", bank: ");
    push_debug_bank(text, voice.bank);
    text.append(", pad_number: ");
    push_decimal(text, voice.pad_number as u64);
    text.append(", total_frame_count: ");
    push_decimal(text, voice.total_frame_count as u64);
    text.append(", remaining_frame_count: ");
    push_decimal(text, voice.remaining_frame_count as u64);
    text.append(" }");
    proof {
        assert(final(text)@ =~= old(text)@ + debug_voice(voice@));
    }
}

/// Appends `Some(<item>)` around an item text, or `None`.
pub fn push_debug_option(text: &mut String, item: Option<String>)
    ensures
        final(text)@ == old(text)@ + debug_option(
            match item {
                Some(t) => Some(t@),
                None => None,
            },
        ),
{
    match item {
        Some(item) => {
            text.append("Some(");
            text.append(item.as_str());
            text.append(")");
        },
        None => text.append("None"),
    }
    proof {
        assert(final(text)@ =~= old(text)@ + debug_option(
            match item {
                Some(t) => Some(t@),
                None => None,
            },
        ));
    }
}

/// Appends a list of already formatted items as `[a, b, c]`.
pub fn push_debug_list(text: &mut String, items: &Vec<String>)
    ensures
        final(text)@ == old(text)@ + debug_list(texts_view(items@)),
{
    text.append("[");
    let ghost start = text@;
    let mut index: usize = 0;
    while index < items.len()
        invariant
            index <= items@.len(),
            text@ == start + join_items(texts_view(items@).take(index as int)),
        decreases items@.len() - index,
    {
        let ghost before = text@;
        if index > 0 {
            text.append(", ");
        }
        text.append(items[index].as_str());
        proof {
            let all = texts_view(items@);
            assert(all.take(index + 1).drop_last() =~= all.take(index as int));
            assert(all.take(index + 1).last() == items@[index as int]@);
            if index == 0 {
                assert(all.take(1)[0] == items@[0]@);
            }
            assert(text@ =~= start + join_items(all.take(index + 1)));
        }
        index = index + 1;
    }
    text.append("]");
    proof {
        assert(texts_view(items@).take(items@.len() as int) =~= texts_view(items@));
        assert(final(text)@ =~= old(text)@ + debug_list(texts_view(items@)));
    }
}

} // verus!
