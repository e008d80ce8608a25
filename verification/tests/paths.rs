use fifo_ipc::paths::{read_path, u32_to_decimal, write_path};
use fifo_ipc::{ChannelPair, Fifo};

#[test]
fn decimal_rendering_is_exact() {
    assert_eq!(u32_to_decimal(0), "0");
    assert_eq!(u32_to_decimal(7), "7");
    assert_eq!(u32_to_decimal(10), "10");
    assert_eq!(u32_to_decimal(90210), "90210");
    assert_eq!(u32_to_decimal(u32::MAX), "4294967295");
}

#[test]
fn connection_paths_are_exact() {
    assert_eq!(read_path("/tmp/rust-fifo", 42), "/tmp/rust-fifo-read.42");
    assert_eq!(write_path("/tmp/rust-fifo", 42), "/tmp/rust-fifo-write.42");
}

#[test]
fn distinct_identifiers_never_share_a_path() {
    let ids = [0u32, 1, 9, 10, 11, 100, 4242, u32::MAX];
    let mut all: Vec<String> = Vec::new();
    for id in ids {
        all.push(read_path("/tmp/base", id));
        all.push(write_path("/tmp/base", id));
    }
    for i in 0..all.len() {
        for j in 0..all.len() {
            if i != j {
                assert_ne!(all[i], all[j]);
            }
        }
    }
}

#[test]
fn read_and_write_paths_differ_for_equal_identifiers() {
    assert_ne!(read_path("/tmp/base", 5), write_path("/tmp/base", 5));
}

#[test]
fn channel_pair_derives_both_paths() {
    let pair = ChannelPair::new("/tmp/rust-fifo", 7);
    assert_eq!(pair.id, 7);
    assert_eq!(pair.read.path(), "/tmp/rust-fifo-read.7");
    assert_eq!(pair.write.path(), "/tmp/rust-fifo-write.7");
}

#[test]
fn fifo_owns_its_path() {
    let f = Fifo::new("/tmp/rust-fifo".to_string());
    assert_eq!(f.path(), "/tmp/rust-fifo");
}
