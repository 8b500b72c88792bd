use ctranslate2_rs::engine::{Admission, EngineSettings, Placement, QueueBound};
use ctranslate2_rs::error::{EngineError, SettingsIssue};
use ctranslate2_rs::names::{ComputeType, Device};

#[test]
fn settings_default_to_device_zero() {
    let s = EngineSettings::new("m", Device::CPU, &[], ComputeType::Auto, 1, 0, 1).unwrap();
    assert_eq!(s.device_indices, vec![0]);
    assert_eq!(s.num_replicas(), 1);
    assert_eq!(s.model_path, "m");
    assert_eq!(s.queue_bound(), QueueBound::AtMost(1));
}

#[test]
fn settings_one_replica_per_index() {
    let s = EngineSettings::new("m", Device::CUDA, &[0, 1, 2], ComputeType::Float16, 2, 4, -1).unwrap();
    assert_eq!(s.num_replicas(), 3);
    assert_eq!(s.queue_bound(), QueueBound::Unbounded);
    assert_eq!(s.intra_threads, 4);
}

#[test]
fn settings_refuse_zero_threads() {
    let r = EngineSettings::new("m", Device::CPU, &[0], ComputeType::Auto, 0, 0, 1);
    assert_eq!(r.err(), Some(EngineError::Configuration(SettingsIssue::ZeroThreads)));
}

#[test]
fn settings_refuse_negative_index() {
    let r = EngineSettings::new("m", Device::CUDA, &[0, -1], ComputeType::Auto, 1, 0, 1);
    assert_eq!(r.err(), Some(EngineError::Configuration(SettingsIssue::NegativeDeviceIndex)));
}

#[test]
fn zero_bound_overloads_beyond_replicas() {
    let s = EngineSettings::new("m", Device::CUDA, &[0, 1], ComputeType::Auto, 1, 0, 0).unwrap();
    let mut a = s.admission();
    assert_eq!(a.submit(1), Ok(Placement::Started));
    assert_eq!(a.submit(2), Ok(Placement::Started));
    assert_eq!(a.submit(3), Err(EngineError::Overloaded));
    assert_eq!(a.num_active_batches(), 2);
    assert_eq!(a.num_queued_batches(), 0);
    assert_eq!(a.finish(), None);
    assert_eq!(a.submit(4), Ok(Placement::Started));
}

#[test]
fn queued_batches_start_in_order() {
    let mut a = Admission::new(1, QueueBound::AtMost(2));
    assert_eq!(a.submit(10), Ok(Placement::Started));
    assert_eq!(a.submit(11), Ok(Placement::Queued));
    assert_eq!(a.submit(12), Ok(Placement::Queued));
    assert_eq!(a.submit(13), Err(EngineError::Overloaded));
    assert_eq!(a.num_queued_batches(), 2);
    assert_eq!(a.finish(), Some(11));
    assert_eq!(a.finish(), Some(12));
    assert_eq!(a.finish(), None);
    assert_eq!(a.num_active_batches(), 0);
}

#[test]
fn unbounded_queue_never_overloads() {
    let mut a = Admission::new(1, QueueBound::Unbounded);
    for id in 0..100u64 {
        assert!(a.submit(id).is_ok());
    }
    assert_eq!(a.num_active_batches(), 1);
    assert_eq!(a.num_queued_batches(), 99);
}
