use containment_agent::errors::AgentError;
use containment_agent::sentinel::{scan, MappedMemory, ScanWindow};

const RAM_BASE: u32 = 0x2000_0000;

fn memory_with(bytes: Vec<u8>) -> MappedMemory {
    MappedMemory { base: RAM_BASE, bytes }
}

#[test]
fn zero_filled_window_is_not_anomalous() {
    // 512 bytes, all 0x00: one distinct value
    let memory = memory_with(vec![0u8; 512]);
    let window = ScanWindow { address: RAM_BASE, length: 512 };
    let verdict = scan(&memory, &window).unwrap();
    assert!(!verdict.is_anomalous);
    assert_eq!(verdict.unique_byte_count, 1);
    assert_eq!(verdict.window_length, 512);
}

#[test]
fn mostly_distinct_window_is_anomalous() {
    // 400 bytes holding 256 distinct values: 256 > 400 / 2
    let mut bytes = Vec::new();
    for i in 0..256usize {
        bytes.push(i as u8);
    }
    for _ in 256..400usize {
        bytes.push(0xAA);
    }
    let memory = memory_with(bytes);
    let window = ScanWindow { address: RAM_BASE, length: 400 };
    let verdict = scan(&memory, &window).unwrap();
    assert!(verdict.is_anomalous);
    assert_eq!(verdict.unique_byte_count, 256);
}

#[test]
fn full_byte_domain_in_512_window_sits_on_the_boundary() {
    // 512 bytes holding all 256 possible values: 256 == 512 / 2, and the
    // strict comparison keeps the verdict negative
    let mut bytes = Vec::new();
    for i in 0..512usize {
        bytes.push((i % 256) as u8);
    }
    let memory = memory_with(bytes);
    let window = ScanWindow { address: RAM_BASE, length: 512 };
    let verdict = scan(&memory, &window).unwrap();
    assert_eq!(verdict.unique_byte_count, 256);
    assert!(!verdict.is_anomalous);
}

#[test]
fn all_distinct_small_window_is_anomalous() {
    let memory = memory_with(vec![0x10, 0x20, 0x30, 0x40]);
    let window = ScanWindow { address: RAM_BASE, length: 4 };
    let verdict = scan(&memory, &window).unwrap();
    assert_eq!(verdict.unique_byte_count, 4);
    assert!(verdict.is_anomalous);
}

#[test]
fn single_repeated_value_is_not_anomalous() {
    let memory = memory_with(vec![0x5A; 10]);
    let window = ScanWindow { address: RAM_BASE, length: 10 };
    let verdict = scan(&memory, &window).unwrap();
    assert_eq!(verdict.unique_byte_count, 1);
    assert!(!verdict.is_anomalous);
}

#[test]
fn midpoint_unique_count_is_not_anomalous() {
    // 4 bytes, 2 distinct values: 2 == 4 / 2, strict comparison stays false
    let memory = memory_with(vec![0x01, 0x01, 0x02, 0x02]);
    let window = ScanWindow { address: RAM_BASE, length: 4 };
    let verdict = scan(&memory, &window).unwrap();
    assert_eq!(verdict.unique_byte_count, 2);
    assert!(!verdict.is_anomalous);
}

#[test]
fn empty_window_is_not_anomalous() {
    let memory = memory_with(vec![0xFF; 16]);
    let window = ScanWindow { address: RAM_BASE + 8, length: 0 };
    let verdict = scan(&memory, &window).unwrap();
    assert!(!verdict.is_anomalous);
    assert_eq!(verdict.unique_byte_count, 0);
    assert_eq!(verdict.window_length, 0);
}

#[test]
fn window_below_mapped_range_is_rejected() {
    let memory = memory_with(vec![0u8; 64]);
    let window = ScanWindow { address: RAM_BASE - 4, length: 8 };
    assert_eq!(scan(&memory, &window), Err(AgentError::UnmappedScanWindow));
}

#[test]
fn window_past_mapped_range_is_rejected() {
    let memory = memory_with(vec![0u8; 64]);
    let window = ScanWindow { address: RAM_BASE + 32, length: 64 };
    assert_eq!(scan(&memory, &window), Err(AgentError::UnmappedScanWindow));
}

#[test]
fn window_exactly_filling_mapped_range_is_accepted() {
    let memory = memory_with(vec![0x11; 64]);
    let window = ScanWindow { address: RAM_BASE, length: 64 };
    assert!(scan(&memory, &window).is_ok());
}
