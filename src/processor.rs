//! The command processor: the single authority over the recording session.
//! It decides, command by command, what is to be done and what is answered;
//! the work on the audio device is done by its driver, which reports back.
use crate::buffer::CaptureBuffer;
use crate::protocol::{AudioCommand, AudioResponse, Reply, texts};
use vstd::prelude::*;

verus! {

/// The currently open capture session: the device stream, owned
/// exclusively, and the recording flag that gates the capture callback.
pub struct RecordingSession<H> {
    pub stream: H,
    pub recording: bool,
}

/// The processor as mathematical values: the recording flag of the open
/// session, if any, and whether it still takes commands.
pub struct ProcessorState {
    pub session: Option<bool>,
    pub running: bool,
}

/// Owns zero or one recording session and takes commands until closed.
pub struct CommandProcessor<H> {
    session: Option<RecordingSession<H>>,
    running: bool,
}

/// The recording flag of a session, if there is one.
pub open spec fn flag_of<H>(s: Option<RecordingSession<H>>) -> Option<bool> {
    match s {
        Some(s) => Some(s.recording),
        None => None,
    }
}

impl<H> View for CommandProcessor<H> {
    type V = ProcessorState;

    closed spec fn view(&self) -> ProcessorState {
        ProcessorState { session: flag_of(self.session), running: self.running }
    }
}

/// What the driver is to do for a command, as mathematical values.
pub enum Step {
    /// Answer at once; nothing else to do.
    Answer(Reply),
    /// List the input devices.
    ListDevices,
    /// Open a stream on the named input device.
    OpenDevice(Seq<char>),
    /// Raise the shared recording flag and play the stream.
    Play,
    /// Lower the shared recording flag, pause the stream, drain the buffer.
    PauseAndDrain,
    /// Lower the shared recording flag, release the stream, then answer.
    Release(Reply),
    /// Release the stream if there is one, answer, and take no more commands.
    Exit(Reply),
}

/// What the driver is to do for a command.
pub enum Action<H> {
    Send(AudioResponse),
    ListDevices,
    OpenDevice(String),
    Play,
    PauseAndDrain,
    Release(RecordingSession<H>, AudioResponse),
    Exit(Option<RecordingSession<H>>, AudioResponse),
}

impl<H> View for Action<H> {
    type V = Step;

    open spec fn view(&self) -> Step {
        match self {
            Action::Send(r) => Step::Answer(r@),
            Action::ListDevices => Step::ListDevices,
            Action::OpenDevice(name) => Step::OpenDevice(name@),
            Action::Play => Step::Play,
            Action::PauseAndDrain => Step::PauseAndDrain,
            Action::Release(_, r) => Step::Release(r@),
            Action::Exit(_, r) => Step::Exit(r@),
        }
    }
}

/// What the processor does for `cmd` in state `s`.
pub open spec fn step_for(s: ProcessorState, cmd: AudioCommand) -> Step {
    match cmd {
        AudioCommand::EnumerateRecordingDevices => Step::ListDevices,
        AudioCommand::InitRecordingSession(name) => Step::OpenDevice(name@),
        AudioCommand::StartRecording => if s.session is Some {
            Step::Play
        } else {
            Step::Answer(Reply::Error("Recording session not initialized"@))
        },
        AudioCommand::StopRecording => if s.session is Some {
            Step::PauseAndDrain
        } else {
            Step::Answer(Reply::Error("No active recording"@))
        },
        AudioCommand::CloseRecordingSession => if s.session is Some {
            Step::Release(Reply::Success("Recording session closed"@))
        } else {
            Step::Answer(Reply::Success("No active recording session"@))
        },
        AudioCommand::CloseThread => Step::Exit(Reply::Success("Thread closed"@)),
    }
}

/// The state after the processor has taken `cmd` in state `s`. Opening a
/// session waits for the driver's report, see `after_opened`.
pub open spec fn after_command(s: ProcessorState, cmd: AudioCommand) -> ProcessorState {
    match cmd {
        AudioCommand::StartRecording => if s.session is Some {
            ProcessorState { session: Some(true), ..s }
        } else {
            s
        },
        AudioCommand::StopRecording => if s.session is Some {
            ProcessorState { session: Some(false), ..s }
        } else {
            s
        },
        AudioCommand::CloseRecordingSession => ProcessorState { session: None, ..s },
        AudioCommand::CloseThread => ProcessorState { session: None, running: false },
        _ => s,
    }
}

/// The state once a new session has been opened: any previous session is
/// replaced by one that is not recording.
pub open spec fn after_opened(s: ProcessorState) -> ProcessorState {
    ProcessorState { session: Some(false), ..s }
}

/// How opening a stream on a named device went, as the driver reports it.
pub enum OpenOutcome<H> {
    /// The input devices could not be listed; the error's text.
    ListFailed(String),
    /// No listed input device bears the name.
    NotFound,
    /// The device has no usable default input configuration; the error's text.
    ConfigFailed(String),
    /// The stream could not be built; the error's text.
    BuildFailed(String),
    /// The stream was built, not yet playing, its callback wired to a fresh
    /// capture buffer and to a lowered recording flag.
    Opened(H),
}

/// The answer to an opening that went as `o` says.
pub open spec fn open_reply<H>(o: OpenOutcome<H>) -> Reply {
    match o {
        OpenOutcome::ListFailed(e) => Reply::Error(e@),
        OpenOutcome::NotFound => Reply::Error("Device not found"@),
        OpenOutcome::ConfigFailed(e) => Reply::Error(e@),
        OpenOutcome::BuildFailed(e) => Reply::Error("Failed to build stream: "@ + e@),
        OpenOutcome::Opened(_) => Reply::Success("Recording session initialized"@),
    }
}

/// The answer to starting a session whose stream reported `played`.
pub open spec fn start_reply(played: Result<(), String>) -> Reply {
    match played {
        Ok(()) => Reply::Success("Recording started"@),
        Err(e) => Reply::Error("Failed to start stream: "@ + e@),
    }
}

/// The answer to starting a session whose stream reported `played`. The
/// recording flag stays raised either way.
pub fn start_response(played: Result<(), String>) -> (r: AudioResponse)
    ensures
        r@ == start_reply(played),
{
    match played {
        Ok(()) => AudioResponse::Success("Recording started".to_owned()),
        Err(e) => {
            let mut msg = "Failed to start stream: ".to_owned();
            msg.append(e.as_str());
            AudioResponse::Error(msg)
        },
    }
}

/// The answer to stopping a recording: every sample the session's buffer
/// held, eldest first, which leaves it empty.
pub fn stop_response(buffer: &mut CaptureBuffer) -> (r: AudioResponse)
    requires
        old(buffer).wf(),
    ensures
        r@ == Reply::Data(old(buffer)@),
        final(buffer).wf(),
        final(buffer).capacity() == old(buffer).capacity(),
        final(buffer)@ == Seq::<u32>::empty(),
{
    AudioResponse::AudioData(buffer.drain())
}

/// A session with its recording flag lowered.
pub open spec fn lowered<H>(s: RecordingSession<H>) -> RecordingSession<H> {
    RecordingSession { recording: false, ..s }
}

impl<H> CommandProcessor<H> {
    /// The open session, if any.
    pub closed spec fn current(&self) -> Option<RecordingSession<H>> {
        self.session
    }

    /// A processor with no session, taking commands.
    pub fn new() -> (r: CommandProcessor<H>)
        ensures
            r@ == (ProcessorState { session: None, running: true }),
    {
        CommandProcessor { session: None, running: true }
    }

    /// Whether the processor still takes commands.
    pub fn is_running(&self) -> (r: bool)
        ensures
            r == self@.running,
    {
        self.running
    }

    /// The open session, if any.
    pub fn session(&self) -> (r: &Option<RecordingSession<H>>)
        ensures
            *r == self.current(),
            flag_of(*r) == self@.session,
    {
        &self.session
    }

    /// Takes the driver's report on opening a device. A new stream becomes
    /// the one session, not recording, in place of any previous one; on a
    /// failure nothing changes.
    pub fn session_opened(&mut self, outcome: OpenOutcome<H>) -> (r: AudioResponse)
        ensures
            r@ == open_reply(outcome),
            outcome is Opened ==> final(self)@ == after_opened(old(self)@),
            outcome is Opened ==> final(self).current() == Some(
                RecordingSession { stream: outcome->Opened_0, recording: false },
            ),
            !(outcome is Opened) ==> final(self)@ == old(self)@,
            !(outcome is Opened) ==> final(self).current() == old(self).current(),
    {
        match outcome {
            OpenOutcome::ListFailed(e) => AudioResponse::Error(e),
            OpenOutcome::NotFound => AudioResponse::Error("Device not found".to_owned()),
            OpenOutcome::ConfigFailed(e) => AudioResponse::Error(e),
            OpenOutcome::BuildFailed(e) => {
                let mut msg = "Failed to build stream: ".to_owned();
                msg.append(e.as_str());
                AudioResponse::Error(msg)
            },
            OpenOutcome::Opened(stream) => {
                self.session = Some(RecordingSession { stream, recording: false });
                AudioResponse::Success("Recording session initialized".to_owned())
            },
        }
    }

    /// Takes one command: updates the session state and says what the driver
    /// is to do. A released session is handed over with its flag lowered.
    pub fn handle(&mut self, cmd: AudioCommand) -> (r: Action<H>)
        requires
            old(self)@.running,
        ensures
            r@ == step_for(old(self)@, cmd),
            final(self)@ == after_command(old(self)@, cmd),
            r is Release ==> r->Release_0 == lowered(old(self).current()->0),
            r is Exit ==> match old(self).current() {
                Some(s) => r->Exit_0 == Some(lowered(s)),
                None => r->Exit_0 is None,
            },
    {
        match cmd {
            AudioCommand::EnumerateRecordingDevices => Action::ListDevices,
            AudioCommand::InitRecordingSession(name) => Action::OpenDevice(name),
            AudioCommand::StartRecording => match &mut self.session {
                Some(s) => {
                    s.recording = true;
                    Action::Play
                },
                None => Action::Send(
                    AudioResponse::Error("Recording session not initialized".to_owned()),
                ),
            },
            AudioCommand::StopRecording => match &mut self.session {
                Some(s) => {
                    s.recording = false;
                    Action::PauseAndDrain
                },
                None => Action::Send(AudioResponse::Error("No active recording".to_owned())),
            },
            AudioCommand::CloseRecordingSession => match self.session.take() {
                Some(s) => Action::Release(
                    RecordingSession { stream: s.stream, recording: false },
                    AudioResponse::Success("Recording session closed".to_owned()),
                ),
                None => Action::Send(
                    AudioResponse::Success("No active recording session".to_owned()),
                ),
            },
            AudioCommand::CloseThread => {
                let released = match self.session.take() {
                    Some(s) => Some(RecordingSession { stream: s.stream, recording: false }),
                    None => None,
                };
                self.running = false;
                Action::Exit(released, AudioResponse::Success("Thread closed".to_owned()))
            },
        }
    }
}

/// Without a session, starting to record is answered with an error, and no
/// command creates a session: only the report of an opened stream does.
pub proof fn lemma_start_without_session(s: ProcessorState, cmd: AudioCommand)
    requires
        s.session is None,
    ensures
        step_for(s, AudioCommand::StartRecording)
            == Step::Answer(Reply::Error("Recording session not initialized"@)),
        after_command(s, AudioCommand::StartRecording) == s,
        after_command(s, cmd).session is None,
{
}

/// Opening a stream leaves exactly one session, not recording; opening a
/// second one still leaves exactly one, the new one.
pub proof fn lemma_open_keeps_one_session(s: ProcessorState)
    ensures
        after_opened(s).session == Some(false),
        after_opened(after_opened(s)).session == Some(false),
        after_opened(after_opened(s)).running == s.running,
{
}

/// Closing the session never fails: without a session it is answered with
/// success and changes nothing.
pub proof fn lemma_close_session_succeeds(s: ProcessorState)
    ensures
        step_for(s, AudioCommand::CloseRecordingSession) matches Step::Answer(Reply::Success(_))
            || step_for(s, AudioCommand::CloseRecordingSession) matches Step::Release(
            Reply::Success(_),
        ),
        s.session is None ==> step_for(s, AudioCommand::CloseRecordingSession) == Step::Answer(
            Reply::Success("No active recording session"@),
        ),
        s.session is None ==> after_command(s, AudioCommand::CloseRecordingSession) == s,
{
}

/// Closing the processor, from any state, releases the session, is answered
/// with success and ends the taking of commands: `handle` takes none after.
pub proof fn lemma_close_thread_ends(s: ProcessorState)
    ensures
        step_for(s, AudioCommand::CloseThread) == Step::Exit(Reply::Success("Thread closed"@)),
        !after_command(s, AudioCommand::CloseThread).running,
        after_command(s, AudioCommand::CloseThread).session is None,
{
}

} // verus!
