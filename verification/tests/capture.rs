use voicenote::buffer::SampleBuffer;
use voicenote::capture::{CaptureError, CaptureStream, DeviceStatus};
use voicenote::format::AudioFormat;
use voicenote::sample::{quantize, quantize_frame, FULL_SCALE};

fn running_stream() -> CaptureStream {
    let mut stream = match CaptureStream::open(AudioFormat::new(), DeviceStatus::Ready) {
        Ok(stream) => stream,
        Err(_) => panic!("a ready device must open"),
    };
    stream.begin();
    stream
}

#[test]
fn format_is_mono_16khz_16bit() {
    let format = AudioFormat::new();
    assert_eq!(format.channel_count, 1);
    assert_eq!(format.sample_rate_hz, 16000);
    assert_eq!(format.bits_per_sample, 16);
    assert_eq!(format.bytes_per_sample(), 2);
    assert!(format.check_standard());
    let other = AudioFormat { channel_count: 2, sample_rate_hz: 16000, bits_per_sample: 16 };
    assert!(!other.check_standard());
}

#[test]
fn quantize_keeps_values_within_full_scale() {
    assert_eq!(FULL_SCALE, 32767);
    assert_eq!(quantize(0), 0);
    assert_eq!(quantize(1), 1);
    assert_eq!(quantize(-1), -1);
    assert_eq!(quantize(16384), 16384);
    assert_eq!(quantize(32767), 32767);
    assert_eq!(quantize(-32767), -32767);
}

#[test]
fn quantize_clamps_out_of_range_values() {
    assert_eq!(quantize(32768), 32767);
    assert_eq!(quantize(-32768), -32768);
    assert_eq!(quantize(-32769), -32768);
    assert_eq!(quantize(i64::MAX), 32767);
    assert_eq!(quantize(i64::MIN), -32768);
}

#[test]
fn quantize_is_monotone_on_a_sweep() {
    let mut previous = quantize(-40000);
    let mut scaled: i64 = -40000;
    while scaled <= 40000 {
        let sample = quantize(scaled);
        assert!(previous <= sample);
        if scaled.abs() <= 32767 {
            assert_eq!(sample as i64, scaled);
            assert!((-32767..=32767).contains(&sample));
        }
        previous = sample;
        scaled += 251;
    }
}

#[test]
fn quantize_frame_keeps_order() {
    assert_eq!(quantize_frame(&[3, -70000, 2, 70000, 1]), vec![3, -32768, 2, 32767, 1]);
    assert_eq!(quantize_frame(&[]), Vec::<i16>::new());
}

#[test]
fn buffer_appends_in_order() {
    let mut buffer = SampleBuffer::new();
    assert!(buffer.is_empty());
    buffer.append(&[1, 2, 3]);
    buffer.append(&[]);
    buffer.append(&[4, 5]);
    assert_eq!(buffer.len(), 5);
    assert!(!buffer.is_empty());
    assert_eq!(buffer.snapshot(), vec![1, 2, 3, 4, 5]);
    assert_eq!(buffer.snapshot(), vec![1, 2, 3, 4, 5]);
}

#[test]
fn open_without_device_fails() {
    match CaptureStream::open(AudioFormat::new(), DeviceStatus::Absent) {
        Err(e) => assert_eq!(e, CaptureError::NoInputDevice),
        Ok(_) => panic!("no device, no stream"),
    }
}

#[test]
fn open_with_rejected_format_fails() {
    match CaptureStream::open(AudioFormat::new(), DeviceStatus::Rejected) {
        Err(e) => assert_eq!(e, CaptureError::DeviceConfigRejected),
        Ok(_) => panic!("a device that rejects the format gives no stream"),
    }
}

#[test]
fn open_gives_idle_empty_stream() {
    let stream = match CaptureStream::open(AudioFormat::new(), DeviceStatus::Ready) {
        Ok(stream) => stream,
        Err(_) => panic!("a ready device must open"),
    };
    assert!(!stream.is_running());
    assert!(!stream.is_stopped());
    assert_eq!(stream.sample_count(), 0);
    assert_eq!(stream.audio_format(), AudioFormat::new());
}

#[test]
fn frames_before_begin_are_dropped() {
    let mut stream = match CaptureStream::open(AudioFormat::new(), DeviceStatus::Ready) {
        Ok(stream) => stream,
        Err(_) => panic!("a ready device must open"),
    };
    assert!(!stream.deliver(&[1, 2, 3]));
    assert_eq!(stream.sample_count(), 0);
}

#[test]
fn frames_are_recorded_in_arrival_order() {
    let mut stream = running_stream();
    assert!(stream.is_running());
    assert!(stream.deliver(&[1, 2]));
    assert!(stream.deliver(&[]));
    assert!(stream.deliver(&[40000, -40000, 3]));
    assert_eq!(stream.sample_count(), 5);
    stream.stop();
    assert!(stream.is_stopped());
    assert_eq!(stream.snapshot(), vec![1, 2, 32767, -32768, 3]);
}

#[test]
fn frames_after_stop_are_dropped() {
    let mut stream = running_stream();
    assert!(stream.deliver(&[7, 8]));
    stream.stop();
    assert!(!stream.deliver(&[9]));
    stream.begin();
    assert!(stream.is_stopped());
    assert!(!stream.deliver(&[10]));
    assert_eq!(stream.snapshot(), vec![7, 8]);
}

#[test]
fn capture_errors_in_words() {
    assert_eq!(CaptureError::NoInputDevice.message(), "Failed to get input device");
    assert_eq!(
        CaptureError::DeviceConfigRejected.message(),
        "Input device rejected the recording format"
    );
}
