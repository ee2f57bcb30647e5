use vstd::prelude::*;

verus! {

/// One of the four pad banks.
#[derive(Debug, Clone, Copy, PartialEq, Eq, Structural)]
pub enum PadBank {
    A,
    B,
    C,
    D,
}

/// A request from the sequencer core to sound the sample assigned to a pad.
#[derive(Debug, Clone, PartialEq, Eq)]
pub struct SamplePlaybackIntent {
    pub selected_track: u8,
    pub program_index: u8,
    pub program_name: String,
    pub bank: PadBank,
    pub pad_number: u8,
    pub sample_id: String,
    pub sample_name: String,
    pub velocity: u8,
    pub level: u8,
    pub pan: i8,
    pub tune_cents: i16,
    pub start_frame: u32,
    pub end_frame: u32,
    pub window_length_frames: u32,
}

/// A request to stop the voices of a pad's sample.
#[derive(Debug, Clone, PartialEq, Eq)]
pub struct SampleReleaseIntent {
    pub selected_track: u8,
    pub program_index: u8,
    pub program_name: String,
    pub bank: PadBank,
    pub pad_number: u8,
    pub sample_id: String,
    pub sample_name: String,
    pub release_velocity: u8,
}

/// A metronome click during count-in.
#[derive(Debug, Clone, Copy, PartialEq, Eq, Structural)]
pub struct CountInClickIntent {
    pub count_in_tick: u64,
    pub bar_index: u8,
    pub beat_index: u8,
    pub accent: bool,
}

/// The mathematical content of a release intent, strings taken by their characters.
pub struct SampleReleaseIntentView {
    pub selected_track: u8,
    pub program_index: u8,
    pub program_name: Seq<char>,
    pub bank: PadBank,
    pub pad_number: u8,
    pub sample_id: Seq<char>,
    pub sample_name: Seq<char>,
    pub release_velocity: u8,
}

impl View for SampleReleaseIntent {
    type V = SampleReleaseIntentView;

    open spec fn view(&self) -> SampleReleaseIntentView {
        SampleReleaseIntentView {
            selected_track: self.selected_track,
            program_index: self.program_index,
            program_name: self.program_name@,
            bank: self.bank,
            pad_number: self.pad_number,
            sample_id: self.sample_id@,
            sample_name: self.sample_name@,
            release_velocity: self.release_velocity,
        }
    }
}

impl SampleReleaseIntent {
    /// A field-for-field copy.
    pub fn duplicate(&self) -> (copy: Self)
        ensures
            copy@ == self@,
    {
        SampleReleaseIntent {
            selected_track: self.selected_track,
            program_index: self.program_index,
            program_name: self.program_name.clone(),
            bank: self.bank,
            pad_number: self.pad_number,
            sample_id: self.sample_id.clone(),
            sample_name: self.sample_name.clone(),
            release_velocity: self.release_velocity,
        }
    }
}

} // verus!
