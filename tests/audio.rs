use voice_type::capture::Recorder;
use voice_type::config::{default_language, Config};
use voice_type::pipeline::plan_upload;
use voice_type::transcription::PartContent;
use voice_type::wav::{samples_to_wav, worth_transcribing, WAV_HEADER_LEN};

fn header(n: u32) -> Vec<u8> {
    let mut h = Vec::new();
    h.extend_from_slice(b"RIFF");
    h.extend_from_slice(&(36 + 2 * n).to_le_bytes());
    h.extend_from_slice(b"WAVEfmt ");
    h.extend_from_slice(&16u32.to_le_bytes());
    h.extend_from_slice(&1u16.to_le_bytes());
    h.extend_from_slice(&1u16.to_le_bytes());
    h.extend_from_slice(&16000u32.to_le_bytes());
    h.extend_from_slice(&32000u32.to_le_bytes());
    h.extend_from_slice(&2u16.to_le_bytes());
    h.extend_from_slice(&16u16.to_le_bytes());
    h.extend_from_slice(b"data");
    h.extend_from_slice(&(2 * n).to_le_bytes());
    h
}

#[test]
fn wav_of_empty_recording_is_bare_header() {
    let blob = samples_to_wav(&[]);
    assert_eq!(blob.len(), WAV_HEADER_LEN);
    assert_eq!(blob, header(0));
}

#[test]
fn wav_holds_samples_little_endian() {
    let blob = samples_to_wav(&[1, -1, 32767, -32768, 0x1234]);
    let mut expected = header(5);
    expected.extend_from_slice(&[0x01, 0x00, 0xff, 0xff, 0xff, 0x7f, 0x00, 0x80, 0x34, 0x12]);
    assert_eq!(blob, expected);
}

#[test]
fn debounce_threshold_is_sixteen_thousand_samples() {
    assert!(!worth_transcribing(&samples_to_wav(&vec![0i16; 15999])));
    assert!(worth_transcribing(&samples_to_wav(&vec![0i16; 16000])));
    assert!(!worth_transcribing(&[]));
}

#[test]
fn frames_before_start_are_ignored() {
    let mut r = Recorder::new();
    r.push_frame(&[1, 2, 3]);
    assert_eq!(r.len(), 0);
    assert!(!r.is_streaming());
}

#[test]
fn start_clears_previous_session() {
    let mut r = Recorder::new();
    r.start();
    r.push_frame(&[5, 6]);
    let first = r.stop();
    assert_eq!(first, samples_to_wav(&[5, 6]));
    r.start();
    assert_eq!(r.len(), 0);
    r.push_frame(&[7]);
    r.push_frame(&[8, 9]);
    assert_eq!(r.stop(), samples_to_wav(&[7, 8, 9]));
}

#[test]
fn frames_after_stop_are_ignored() {
    let mut r = Recorder::new();
    r.start();
    r.push_frame(&[1]);
    r.stop();
    r.push_frame(&[2, 3]);
    assert_eq!(r.len(), 1);
}

#[test]
fn stop_without_session_gives_empty_container() {
    let mut r = Recorder::new();
    assert_eq!(r.stop(), samples_to_wav(&[]));
    r.start();
    r.push_frame(&[4, 4]);
    r.stop();
    assert_eq!(r.stop(), samples_to_wav(&[]));
}

#[test]
fn short_recording_is_not_uploaded() {
    let config = Config::default();
    let mut r = Recorder::new();
    r.start();
    r.push_frame(&vec![100i16; 15999]);
    assert!(plan_upload(&config, r.stop()).is_none());
}

#[test]
fn long_recording_is_uploaded_with_config() {
    let config = Config::default();
    let mut r = Recorder::new();
    r.start();
    r.push_frame(&vec![100i16; 16000]);
    let blob = r.stop();
    let req = plan_upload(&config, blob.clone()).expect("upload planned");
    assert_eq!(req.url, "http://localhost:8000/v1/transcribe");
    assert_eq!(req.authorization, "Bearer changeme");
    assert_eq!(req.parts.len(), 2);
    match &req.parts[0].content {
        PartContent::File { bytes, .. } => assert_eq!(bytes, &blob),
        PartContent::Text(_) => panic!("first part is the file"),
    }
}

#[test]
fn default_config_values() {
    let c = Config::default();
    assert_eq!(c.api_url, "http://localhost:8000");
    assert_eq!(c.api_token, "changeme");
    assert_eq!(c.hotkey, "super+c");
    assert_eq!(c.language, "en");
    assert_eq!(default_language(), "en");
}
