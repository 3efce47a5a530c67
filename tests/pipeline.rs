use hamshack::sdr::{SDRManager, SDRStatus, SdrError, SpectrumData, WorkerStep};
use std::time::Instant;

fn manager() -> SDRManager<f32> {
    SDRManager::new()
}

#[test]
fn start_succeeds_once_then_already_running() {
    let mut m = manager();
    assert!(m.start().is_ok());
    assert_eq!(m.start().err(), Some(SdrError::AlreadyRunning));
    assert!(m.get_status().is_running);
}

#[test]
fn start_after_stop_succeeds_again() {
    let mut m = manager();
    assert!(m.start().is_ok());
    assert_eq!(m.stop(), Ok(()));
    assert!(m.start().is_ok());
    assert!(m.get_status().is_running);
}

#[test]
fn stop_never_started_is_not_running() {
    let mut m = manager();
    assert_eq!(m.stop(), Err(SdrError::NotRunning));
    assert!(!m.get_status().is_running);
}

#[test]
fn stop_twice_is_not_running() {
    let mut m = manager();
    assert!(m.start().is_ok());
    assert_eq!(m.stop(), Ok(()));
    assert_eq!(m.stop(), Err(SdrError::NotRunning));
}

#[test]
fn set_frequency_idle_is_not_running() {
    let mut m = manager();
    assert_eq!(m.set_frequency(7074000), Err(SdrError::NotRunning));
    assert!(m.start().is_ok());
    assert_eq!(m.stop(), Ok(()));
    assert_eq!(m.set_frequency(7074000), Err(SdrError::NotRunning));
    assert_eq!(m.get_status().frequency, 14200000);
}

#[test]
fn frame_length_matches_transform_size() {
    let mut m = manager();
    let worker = m.start().ok().unwrap();
    assert_eq!(worker.config().fft_size, 1024);
    let frame = worker.frame(vec![0.0f32; 1024], Instant::now());
    assert_eq!(frame.spectrum.len(), 1024);
    assert_eq!(frame.frequency, 14200000);
}

#[test]
fn no_frame_right_after_start_then_one_after_a_cycle() {
    let mut m = manager();
    assert!(m.get_spectrum_data().is_none());
    let worker = m.start().ok().unwrap();
    assert!(m.get_spectrum_data().is_none());
    let frame = worker.frame(vec![-3.5f32; 1024], Instant::now());
    let delivered = worker.publish(frame);
    assert!(delivered.is_ok());
    assert_eq!(WorkerStep::after_delivery(&delivered), WorkerStep::Continue);
    let got = m.get_spectrum_data().unwrap();
    assert_eq!(got.spectrum.len(), 1024);
    assert_eq!(got.spectrum[0], -3.5f32);
    assert!(m.get_spectrum_data().is_none());
}

#[test]
fn retune_shows_in_status_but_not_in_frames() {
    let mut m = manager();
    let worker = m.start().ok().unwrap();
    assert_eq!(m.set_frequency(7074000), Ok(()));
    assert_eq!(m.get_status().frequency, 7074000);
    let delivered = worker.publish(worker.frame(vec![0.0f32; 1024], Instant::now()));
    assert!(delivered.is_ok());
    assert_eq!(m.get_spectrum_data().unwrap().frequency, 14200000);
    assert_eq!(m.stop(), Ok(()));
    let restarted = m.start().ok().unwrap();
    assert_eq!(restarted.config().frequency, 7074000);
    assert!(restarted.publish(restarted.frame(vec![0.0f32; 1024], Instant::now())).is_ok());
    assert_eq!(m.get_spectrum_data().unwrap().frequency, 7074000);
}

#[test]
fn end_to_end_with_defaults() {
    let mut m = manager();
    assert!(m.start().is_ok());
    assert_eq!(
        m.get_status(),
        SDRStatus { is_running: true, frequency: 14200000, sample_rate: 2400000, gain_tenth_db: 300 }
    );
    assert_eq!(m.get_status().gain_tenth_db as f32 / 10.0, 30.0f32);
    assert_eq!(m.stop(), Ok(()));
    assert!(!m.get_status().is_running);
    assert_eq!(m.stop(), Err(SdrError::NotRunning));
}

#[test]
fn stop_ends_the_worker_and_hands_the_frame_back() {
    let mut m = manager();
    let worker = m.start().ok().unwrap();
    assert_eq!(m.stop(), Ok(()));
    let delivered = worker.publish(worker.frame(vec![1.0f32; 1024], Instant::now()));
    assert_eq!(WorkerStep::after_delivery(&delivered), WorkerStep::Exit);
    let back = delivered.err().unwrap();
    assert_eq!(back.frequency, 14200000);
    assert_eq!(back.spectrum, vec![1.0f32; 1024]);
    assert!(m.get_spectrum_data().is_none());
}

#[test]
fn idle_manager_returns_no_frame_even_if_queued() {
    let mut m = manager();
    let worker = m.start().ok().unwrap();
    assert!(worker.publish(worker.frame(vec![0.0f32; 1024], Instant::now())).is_ok());
    assert_eq!(m.stop(), Ok(()));
    assert!(m.get_spectrum_data().is_none());
}

#[test]
fn worker_snapshot_is_the_default_config() {
    let mut m = manager();
    let worker = m.start().ok().unwrap();
    let c = worker.config();
    assert_eq!(c.device, "rtlsdr");
    assert_eq!(c.sample_rate, 2400000);
    assert_eq!(c.frequency, 14200000);
    assert_eq!(c.gain_tenth_db, 300);
    assert_eq!(c.fft_size, 1024);
}

#[test]
fn frame_not_matching_the_worker_snapshot_is_discarded() {
    let mut m = manager();
    let worker = m.start().ok().unwrap();
    let short = SpectrumData { frequency: 14200000, spectrum: vec![0.0f32; 512], timestamp: Instant::now() };
    assert!(worker.publish(short).is_ok());
    assert!(m.get_spectrum_data().is_none());
    let retuned = SpectrumData { frequency: 7074000, spectrum: vec![0.0f32; 1024], timestamp: Instant::now() };
    assert!(worker.publish(retuned).is_ok());
    assert!(m.get_spectrum_data().is_none());
    assert!(worker.publish(worker.frame(vec![2.0f32; 1024], Instant::now())).is_ok());
    let got = m.get_spectrum_data().unwrap();
    assert_eq!((got.frequency, got.spectrum.len()), (14200000, 1024));
}
