use rs_vst_host::shm::{ShmAudioBuffer, ShmHeader, HEADER_SIZE};

#[test]
fn test_header_size_is_64() {
    assert_eq!(std::mem::size_of::<ShmHeader>(), 64);
    assert_eq!(HEADER_SIZE, 64);
}

#[test]
fn test_required_size_calculation() {
    let size = ShmAudioBuffer::required_size(2, 2, 1024);
    assert_eq!(size, 64 + (2 + 2) * 1024 * 4);
}

#[test]
fn test_required_size_zero_channels() {
    let size = ShmAudioBuffer::required_size(0, 0, 1024);
    assert_eq!(size, 64);
}

#[test]
fn test_describe_reports_dimensions() {
    let shm = ShmAudioBuffer::describe("/rs-vst-host-test", 2, 2, 1024, true);
    assert_eq!(shm.name(), "/rs-vst-host-test");
    assert_eq!(shm.input_channels(), 2);
    assert_eq!(shm.output_channels(), 2);
    assert_eq!(shm.max_block_size(), 1024);
    assert_eq!(shm.size(), ShmAudioBuffer::required_size(2, 2, 1024));
    assert!(shm.is_owner());
}

#[test]
fn test_channel_offsets() {
    let shm = ShmAudioBuffer::describe("/x", 1, 2, 64, false);
    assert_eq!(shm.input_channel_offset(0), Some(64));
    assert_eq!(shm.input_channel_offset(1), None);
    assert_eq!(shm.output_channel_offset(0), Some(64 + 64 * 4));
    assert_eq!(shm.output_channel_offset(1), Some(64 + 2 * 64 * 4));
    assert_eq!(shm.output_channel_offset(2), None);
    assert_eq!(shm.size(), 64 + 3 * 64 * 4);
    assert!(!shm.is_owner());
}

#[test]
fn test_zero_input_channels_offsets() {
    let shm = ShmAudioBuffer::describe("/y", 0, 2, 128, true);
    assert_eq!(shm.input_channel_offset(0), None);
    assert_eq!(shm.output_channel_offset(0), Some(64));
}

#[test]
fn test_last_channel_ends_at_region_end() {
    let shm = ShmAudioBuffer::describe("/z", 2, 2, 8192, true);
    let last = shm.output_channel_offset(1).unwrap();
    assert_eq!(last + 8192 * 4, shm.size());
}

#[test]
fn test_initial_header() {
    let h = ShmHeader::initial(2, 3);
    assert_eq!(h.ready_flag, 0);
    assert_eq!(h.num_samples, 0);
    assert_eq!(h.input_channels, 2);
    assert_eq!(h.output_channels, 3);
    assert!(h._reserved.iter().all(|b| *b == 0));
}
