use recorder::buffer::{CaptureBuffer, RING_BUFFER_SIZE};
use recorder::devices::{collect_names, device_list_responses, find_device};
use recorder::processor::{start_response, stop_response, Action, CommandProcessor, OpenOutcome};
use recorder::protocol::{AudioCommand, AudioResponse};

fn error_text(r: &AudioResponse) -> String {
    match r {
        AudioResponse::Error(e) => e.clone(),
        other => panic!("expected an error, got {:?}", other),
    }
}

fn success_text(r: &AudioResponse) -> String {
    match r {
        AudioResponse::Success(m) => m.clone(),
        other => panic!("expected a success, got {:?}", other),
    }
}

fn sent(a: Action<u32>) -> AudioResponse {
    match a {
        Action::Send(r) => r,
        _ => panic!("expected an answer"),
    }
}

fn samples(n: u32) -> Vec<u32> {
    (0..n).map(|i| (i as f32 * 0.25).to_bits()).collect()
}

#[test]
fn start_without_session_is_an_error() {
    let mut p: CommandProcessor<u32> = CommandProcessor::new();
    let r = sent(p.handle(AudioCommand::StartRecording));
    assert_eq!(error_text(&r), "Recording session not initialized");
    assert!(p.session().is_none());
    assert!(p.is_running());
}

#[test]
fn second_open_replaces_the_session() {
    let mut p: CommandProcessor<u32> = CommandProcessor::new();
    let r = p.session_opened(OpenOutcome::Opened(1));
    assert_eq!(success_text(&r), "Recording session initialized");
    assert_eq!(p.session().as_ref().map(|s| s.stream), Some(1));
    assert!(matches!(p.handle(AudioCommand::StartRecording), Action::Play));
    assert_eq!(p.session().as_ref().map(|s| s.recording), Some(true));
    let r = p.session_opened(OpenOutcome::Opened(2));
    assert_eq!(success_text(&r), "Recording session initialized");
    let s = p.session().as_ref().unwrap();
    assert_eq!(s.stream, 2);
    assert!(!s.recording);
}

#[test]
fn recorded_block_drains_in_order() {
    let mut b = CaptureBuffer::new();
    let data = samples(100);
    assert_eq!(b.capture_block(true, &data), 100);
    assert_eq!(b.drain(), data);
    assert_eq!(b.drain(), Vec::<u32>::new());
}

#[test]
fn blocks_while_not_recording_are_discarded() {
    let mut b = CaptureBuffer::new();
    assert_eq!(b.capture_block(false, &samples(50)), 0);
    assert!(b.drain().is_empty());
}

#[test]
fn overflow_is_dropped() {
    let mut b = CaptureBuffer::new();
    let data = samples(RING_BUFFER_SIZE as u32 + 10);
    assert_eq!(b.capture_block(true, &data[..100]), 100);
    assert_eq!(b.push_block(&data[100..]), RING_BUFFER_SIZE - 100);
    assert!(!b.push(7));
    let out = b.drain();
    assert_eq!(out.len(), RING_BUFFER_SIZE);
    assert_eq!(&out[..], &data[..RING_BUFFER_SIZE]);
    assert!(b.push(7));
    assert_eq!(b.drain(), vec![7]);
}

#[test]
fn close_session_without_session_succeeds() {
    let mut p: CommandProcessor<u32> = CommandProcessor::new();
    let r = sent(p.handle(AudioCommand::CloseRecordingSession));
    assert_eq!(success_text(&r), "No active recording session");
    assert!(p.is_running());
}

#[test]
fn close_session_releases_it() {
    let mut p: CommandProcessor<u32> = CommandProcessor::new();
    p.session_opened(OpenOutcome::Opened(5));
    assert!(matches!(p.handle(AudioCommand::StartRecording), Action::Play));
    match p.handle(AudioCommand::CloseRecordingSession) {
        Action::Release(s, r) => {
            assert_eq!(s.stream, 5);
            assert!(!s.recording);
            assert_eq!(success_text(&r), "Recording session closed");
        }
        _ => panic!("expected a release"),
    }
    assert!(p.session().is_none());
}

#[test]
fn close_thread_stops_taking_commands() {
    let mut p: CommandProcessor<u32> = CommandProcessor::new();
    p.session_opened(OpenOutcome::Opened(9));
    match p.handle(AudioCommand::CloseThread) {
        Action::Exit(s, r) => {
            let s = s.unwrap();
            assert_eq!(s.stream, 9);
            assert!(!s.recording);
            assert_eq!(success_text(&r), "Thread closed");
        }
        _ => panic!("expected an exit"),
    }
    assert!(!p.is_running());
    assert!(p.session().is_none());

    let mut q: CommandProcessor<u32> = CommandProcessor::new();
    match q.handle(AudioCommand::CloseThread) {
        Action::Exit(s, r) => {
            assert!(s.is_none());
            assert_eq!(success_text(&r), "Thread closed");
        }
        _ => panic!("expected an exit"),
    }
    assert!(!q.is_running());
}

#[test]
fn enumerate_empty_host() {
    let mut p: CommandProcessor<u32> = CommandProcessor::new();
    assert!(matches!(p.handle(AudioCommand::EnumerateRecordingDevices), Action::ListDevices));
    let rs = device_list_responses(Ok(vec![]));
    assert_eq!(rs.len(), 1);
    match &rs[0] {
        AudioResponse::RecordingDeviceList(v) => assert!(v.is_empty()),
        other => panic!("expected a device list, got {:?}", other),
    }
}

#[test]
fn enumerate_skips_unreadable_names() {
    let listing = vec![Some("Mic A".to_string()), None, Some("Mic B".to_string())];
    assert_eq!(collect_names(&listing), vec!["Mic A".to_string(), "Mic B".to_string()]);
    let rs = device_list_responses(Ok(listing));
    match &rs[..] {
        [AudioResponse::RecordingDeviceList(v)] => {
            assert_eq!(v, &vec!["Mic A".to_string(), "Mic B".to_string()])
        }
        other => panic!("unexpected responses {:?}", other),
    }
}

#[test]
fn enumerate_failure_reports_error_then_empty_list() {
    let rs = device_list_responses(Err("host unavailable".to_string()));
    assert_eq!(rs.len(), 2);
    assert_eq!(error_text(&rs[0]), "host unavailable");
    match &rs[1] {
        AudioResponse::RecordingDeviceList(v) => assert!(v.is_empty()),
        other => panic!("expected a device list, got {:?}", other),
    }
}

#[test]
fn initialize_nonexistent_device() {
    let mut p: CommandProcessor<u32> = CommandProcessor::new();
    let wanted = "Nonexistent Mic".to_string();
    match p.handle(AudioCommand::InitRecordingSession(wanted.clone())) {
        Action::OpenDevice(name) => assert_eq!(name, wanted),
        _ => panic!("expected an open"),
    }
    let listing = vec![Some("Built-in Mic".to_string()), None];
    assert_eq!(find_device(&listing, &wanted), None);
    let r = p.session_opened(OpenOutcome::NotFound);
    assert_eq!(error_text(&r), "Device not found");
    assert!(p.session().is_none());
}

#[test]
fn find_device_takes_the_first_match() {
    let listing = vec![
        None,
        Some("USB Mic".to_string()),
        Some("Built-in Mic".to_string()),
        Some("USB Mic".to_string()),
    ];
    assert_eq!(find_device(&listing, &"USB Mic".to_string()), Some(1));
    assert_eq!(find_device(&listing, &"Built-in Mic".to_string()), Some(2));
    assert_eq!(find_device(&listing, &"usb mic".to_string()), None);
    assert_eq!(find_device(&vec![], &"USB Mic".to_string()), None);
}

#[test]
fn open_failures_leave_the_session_alone() {
    let mut p: CommandProcessor<u32> = CommandProcessor::new();
    let r = p.session_opened(OpenOutcome::ListFailed("backend gone".to_string()));
    assert_eq!(error_text(&r), "backend gone");
    let r = p.session_opened(OpenOutcome::ConfigFailed("no config".to_string()));
    assert_eq!(error_text(&r), "no config");
    let r = p.session_opened(OpenOutcome::BuildFailed("busy".to_string()));
    assert_eq!(error_text(&r), "Failed to build stream: busy");
    assert!(p.session().is_none());
    p.session_opened(OpenOutcome::Opened(4));
    p.session_opened(OpenOutcome::BuildFailed("busy".to_string()));
    assert_eq!(p.session().as_ref().map(|s| s.stream), Some(4));
}

#[test]
fn start_responses() {
    assert_eq!(success_text(&start_response(Ok(()))), "Recording started");
    assert_eq!(
        error_text(&start_response(Err("device lost".to_string()))),
        "Failed to start stream: device lost"
    );
}

#[test]
fn record_one_hundred_samples() {
    let mut p: CommandProcessor<u32> = CommandProcessor::new();
    let mut b = CaptureBuffer::new();
    p.session_opened(OpenOutcome::Opened(0));
    assert!(matches!(p.handle(AudioCommand::StartRecording), Action::Play));
    let recording = p.session().as_ref().unwrap().recording;
    let data = samples(100);
    b.capture_block(recording, &data);
    assert!(matches!(p.handle(AudioCommand::StopRecording), Action::PauseAndDrain));
    assert!(!p.session().as_ref().unwrap().recording);
    let r = stop_response(&mut b);
    assert!(b.drain().is_empty());
    match r {
        AudioResponse::AudioData(v) => {
            assert_eq!(v.len(), 100);
            assert_eq!(v, data);
        }
        other => panic!("expected audio data, got {:?}", other),
    }
}

#[test]
fn stop_without_session_is_an_error() {
    let mut p: CommandProcessor<u32> = CommandProcessor::new();
    let r = sent(p.handle(AudioCommand::StopRecording));
    assert_eq!(error_text(&r), "No active recording");
    assert!(p.session().is_none());
}
