use std::io::Cursor;
use voicenote::capture::{CaptureStream, DeviceStatus};
use voicenote::format::AudioFormat;
use voicenote::pipeline::{PipelineAction, PipelineState, PipelineSupervisor, EXIT_FAILURE, EXIT_SUCCESS};
use voicenote::stop::{CompletionSignal, StopCoordinator, StopError, StopRequest};
use voicenote::wav::{encoded, fits_in_file, serialize, EncodeError, HEADER_LEN, MAX_SAMPLES};

fn recording(frames: &[&[i64]]) -> CaptureStream {
    let mut stream = match CaptureStream::open(AudioFormat::new(), DeviceStatus::Ready) {
        Ok(stream) => stream,
        Err(_) => panic!("a ready device must open"),
    };
    stream.begin();
    for frame in frames {
        assert!(stream.deliver(frame));
    }
    stream
}

fn persisted(request: Result<StopRequest, StopError>) -> Vec<u8> {
    match request {
        Ok(StopRequest::Persist(bytes)) => bytes,
        Ok(StopRequest::Ignored) => panic!("the first request must not be ignored"),
        Err(_) => panic!("the recording must be encodable"),
    }
}

fn decode(bytes: &[u8]) -> (hound::WavSpec, Vec<i16>) {
    let mut reader = hound::WavReader::new(Cursor::new(bytes.to_vec())).unwrap();
    let spec = reader.spec();
    let samples: Vec<i16> = reader.samples::<i16>().map(|s| s.unwrap()).collect();
    (spec, samples)
}

#[test]
fn serialize_writes_header_then_little_endian_samples() {
    let bytes = serialize(&AudioFormat::new(), &vec![1, -2, 256, -32768, 32767]).unwrap();
    let header: Vec<u8> = vec![
        b'R', b'I', b'F', b'F', 46, 0, 0, 0, b'W', b'A', b'V', b'E', b'f', b'm', b't', b' ',
        16, 0, 0, 0, 1, 0, 1, 0, 0x80, 0x3e, 0, 0, 0x00, 0x7d, 0, 0, 2, 0, 16, 0,
        b'd', b'a', b't', b'a', 10, 0, 0, 0,
    ];
    assert_eq!(HEADER_LEN, 44);
    assert_eq!(&bytes[..HEADER_LEN], &header[..]);
    assert_eq!(&bytes[HEADER_LEN..], &[1, 0, 0xfe, 0xff, 0, 1, 0, 0x80, 0xff, 0x7f]);
}

#[test]
fn serialize_of_nothing_is_a_bare_header() {
    let bytes = serialize(&AudioFormat::new(), &Vec::new()).unwrap();
    assert_eq!(bytes.len(), 44);
    let (spec, samples) = decode(&bytes);
    assert_eq!(spec.channels, 1);
    assert!(samples.is_empty());
}

#[test]
fn serialize_round_trips_through_a_reader() {
    let recorded: Vec<i16> = (0..1000).map(|i| ((i * 37) % 65536 - 32768) as i16).collect();
    let bytes = serialize(&AudioFormat::new(), &recorded).unwrap();
    assert_eq!(bytes.len(), 44 + 2 * recorded.len());
    let (spec, samples) = decode(&bytes);
    assert_eq!(spec.channels, 1);
    assert_eq!(spec.sample_rate, 16000);
    assert_eq!(spec.bits_per_sample, 16);
    assert!(spec.sample_format == hound::SampleFormat::Int);
    assert_eq!(samples, recorded);
}

#[test]
fn serialize_is_a_function_of_the_samples() {
    let a = serialize(&AudioFormat::new(), &vec![5, 6, 7]).unwrap();
    let b = serialize(&AudioFormat::new(), &vec![5, 6, 7]).unwrap();
    assert_eq!(a, b);
}

#[test]
fn encoder_failure_becomes_encode_error() {
    let failed: Result<Vec<u8>, hound::Error> = Err(hound::Error::Unsupported);
    assert_eq!(encoded(failed), Err(EncodeError::Encoder));
    let fine: Result<Vec<u8>, hound::Error> = Ok(vec![1, 2, 3]);
    assert_eq!(encoded(fine), Ok(vec![1, 2, 3]));
}

#[test]
fn payload_is_two_bytes_per_delivered_sample() {
    let mut stream = recording(&[&[1, 2, 3], &[99999, -99999], &[], &[4]]);
    let mut coordinator = StopCoordinator::new();
    let bytes = persisted(coordinator.request_stop(&mut stream));
    assert_eq!(bytes.len() - HEADER_LEN, 2 * 6);
    let (_, samples) = decode(&bytes);
    assert_eq!(samples, vec![1, 2, 3, 32767, -32768, 4]);
}

#[test]
fn three_silent_frames_and_a_double_stop() {
    let mut stream = recording(&[&[0; 10], &[0; 10], &[0; 5]]);
    let mut coordinator = StopCoordinator::new();
    let mut supervisor = PipelineSupervisor::new();
    assert!(coordinator.is_armed());
    assert!(supervisor.poll(&coordinator) == PipelineAction::Wait);

    let first = coordinator.request_stop(&mut stream);
    let second = coordinator.request_stop(&mut stream);
    let bytes = persisted(first);
    assert!(matches!(second, Ok(StopRequest::Ignored)));
    assert!(!coordinator.is_armed());
    assert!(coordinator.is_pending());
    assert!(stream.is_stopped());

    assert_eq!(bytes.len(), 44 + 50);
    let (spec, samples) = decode(&bytes);
    assert_eq!(spec.channels, 1);
    assert_eq!(spec.sample_rate, 16000);
    assert_eq!(spec.bits_per_sample, 16);
    assert!(spec.sample_format == hound::SampleFormat::Int);
    assert_eq!(samples, vec![0i16; 25]);

    assert!(!coordinator.is_complete());
    assert!(supervisor.poll(&coordinator) == PipelineAction::Wait);
    assert_eq!(coordinator.finish(true), Ok(()));
    assert!(coordinator.is_complete());
    assert!(!coordinator.is_pending());
    assert_eq!(coordinator.finish(true), Ok(()));
    assert!(matches!(coordinator.request_stop(&mut stream), Ok(StopRequest::Ignored)));

    let mut invocations = 0;
    for _ in 0..5 {
        if supervisor.poll(&coordinator) == PipelineAction::Process {
            invocations += 1;
        }
    }
    assert_eq!(invocations, 1);
    assert_eq!(supervisor.state(), PipelineState::Processing);
    assert_eq!(supervisor.exit_status(), None);
    supervisor.processed(true);
    assert_eq!(supervisor.state(), PipelineState::Succeeded);
    assert!(supervisor.poll(&coordinator) == PipelineAction::Exit(EXIT_SUCCESS));
    assert_eq!(supervisor.exit_status(), Some(0));
}

#[test]
fn many_stop_requests_persist_once() {
    let mut stream = recording(&[&[1, 2, 3]]);
    let mut coordinator = StopCoordinator::new();
    let mut images = 0;
    let mut ignored = 0;
    for _ in 0..16 {
        match coordinator.request_stop(&mut stream) {
            Ok(StopRequest::Persist(_)) => images += 1,
            Ok(StopRequest::Ignored) => ignored += 1,
            Err(_) => panic!("the recording must be encodable"),
        }
    }
    assert_eq!(images, 1);
    assert_eq!(ignored, 15);
}

#[test]
fn failed_write_never_signals_and_never_processes() {
    let mut stream = recording(&[&[1, 2, 3]]);
    let mut coordinator = StopCoordinator::new();
    let mut supervisor = PipelineSupervisor::new();
    let _ = persisted(coordinator.request_stop(&mut stream));
    assert_eq!(coordinator.finish(false), Err(StopError::PersistenceFailed));
    assert!(!coordinator.is_complete());
    assert!(!coordinator.is_pending());
    assert_eq!(coordinator.finish(true), Ok(()));
    assert!(!coordinator.is_complete());
    assert!(matches!(coordinator.request_stop(&mut stream), Ok(StopRequest::Ignored)));
    assert!(!coordinator.is_complete());
    for _ in 0..5 {
        assert!(supervisor.poll(&coordinator) == PipelineAction::Wait);
    }
    supervisor.abort();
    assert_eq!(supervisor.state(), PipelineState::Failed);
    assert!(supervisor.poll(&coordinator) == PipelineAction::Exit(EXIT_FAILURE));
    assert_eq!(supervisor.exit_status(), Some(1));
}

#[test]
fn failed_encoding_fails_the_stop_sequence() {
    let mut coordinator = StopCoordinator::new();
    assert!(coordinator.trigger());
    assert!(!coordinator.trigger());
    let outcome = coordinator.persisting(Err(EncodeError::Encoder));
    assert!(matches!(outcome, Err(StopError::PersistenceFailed)));
    assert!(!coordinator.is_pending());
    assert!(!coordinator.is_complete());
    assert_eq!(coordinator.finish(true), Ok(()));
    assert!(!coordinator.is_complete());
}

#[test]
fn report_before_any_request_is_ignored() {
    let mut coordinator = StopCoordinator::new();
    assert_eq!(coordinator.finish(true), Ok(()));
    assert_eq!(coordinator.finish(false), Ok(()));
    assert!(coordinator.is_armed());
    assert!(!coordinator.is_complete());
}

#[test]
fn completion_signal_is_set_once() {
    let mut signal = CompletionSignal::new();
    assert!(!signal.check());
    assert!(signal.set());
    assert!(signal.check());
    assert!(!signal.set());
    assert!(signal.check());
}

#[test]
fn failed_processing_exits_with_failure() {
    let mut stream = recording(&[&[0, 0]]);
    let mut coordinator = StopCoordinator::new();
    let mut supervisor = PipelineSupervisor::new();
    let _ = persisted(coordinator.request_stop(&mut stream));
    assert_eq!(coordinator.finish(true), Ok(()));
    supervisor.processed(true);
    assert_eq!(supervisor.state(), PipelineState::Waiting);
    assert!(supervisor.poll(&coordinator) == PipelineAction::Process);
    supervisor.abort();
    assert_eq!(supervisor.state(), PipelineState::Processing);
    supervisor.processed(false);
    assert_eq!(supervisor.state(), PipelineState::Failed);
    supervisor.processed(true);
    assert!(supervisor.poll(&coordinator) == PipelineAction::Exit(1));
    assert_eq!(supervisor.exit_status(), Some(EXIT_FAILURE));
}

#[test]
fn file_limit_is_what_32_bits_can_count() {
    assert_eq!(2 * (MAX_SAMPLES as u64) + 36, u32::MAX as u64 - 1);
    assert!(fits_in_file(0));
    assert!(fits_in_file(MAX_SAMPLES));
    assert!(!fits_in_file(MAX_SAMPLES + 1));
}

#[test]
fn data_bytes_are_little_endian_twos_complement() {
    let bytes = serialize(&AudioFormat::new(), &vec![1, -1, 256, -32768]).unwrap();
    assert_eq!(bytes.len(), 52);
    assert_eq!(&bytes[44..], &[0x01, 0x00, 0xff, 0xff, 0x00, 0x01, 0x00, 0x80]);
    assert_eq!(&bytes[4..8], &[44, 0, 0, 0]);
    assert_eq!(&bytes[40..44], &[8, 0, 0, 0]);
}

#[test]
fn format_chunk_of_a_silent_recording() {
    let bytes = serialize(&AudioFormat::new(), &vec![0i16; 25]).unwrap();
    assert_eq!(bytes.len(), 94);
    assert_eq!(&bytes[4..8], &[86, 0, 0, 0]);
    assert_eq!(&bytes[16..20], &[16, 0, 0, 0]);
    assert_eq!(&bytes[20..22], &[1, 0]);
    assert_eq!(&bytes[22..24], &[1, 0]);
    assert_eq!(&bytes[24..28], &16000u32.to_le_bytes());
    assert_eq!(&bytes[28..32], &32000u32.to_le_bytes());
    assert_eq!(&bytes[32..34], &[2, 0]);
    assert_eq!(&bytes[34..36], &[16, 0]);
    assert_eq!(&bytes[40..44], &[50, 0, 0, 0]);
    assert!(bytes[44..].iter().all(|b| *b == 0));
}
