//! The command/response protocol between a caller and the command processor.
use vstd::prelude::*;

verus! {

/// One requested action.
#[derive(Debug)]
pub enum AudioCommand {
    CloseThread,
    EnumerateRecordingDevices,
    InitRecordingSession(String),
    CloseRecordingSession,
    StartRecording,
    StopRecording,
}

/// The outcome of a command. Samples travel as the raw bits of each 32-bit
/// floating-point value, unchanged.
#[derive(Debug)]
pub enum AudioResponse {
    RecordingDeviceList(Vec<String>),
    AudioData(Vec<u32>),
    Error(String),
    Success(String),
}

/// What a response says, as mathematical values.
pub enum Reply {
    DeviceList(Seq<Seq<char>>),
    Data(Seq<u32>),
    Error(Seq<char>),
    Success(Seq<char>),
}

/// The texts of a sequence of strings.
pub open spec fn texts(v: Seq<String>) -> Seq<Seq<char>> {
    v.map_values(|s: String| s@)
}

impl View for AudioResponse {
    type V = Reply;

    open spec fn view(&self) -> Reply {
        match self {
            AudioResponse::RecordingDeviceList(v) => Reply::DeviceList(texts(v@)),
            AudioResponse::AudioData(v) => Reply::Data(v@),
            AudioResponse::Error(s) => Reply::Error(s@),
            AudioResponse::Success(s) => Reply::Success(s@),
        }
    }
}

} // verus!
