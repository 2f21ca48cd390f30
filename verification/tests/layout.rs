use vblock::Layout;
use vblock::LayoutError;

#[test]
fn regular_file_fallback() {
    // A regular file of byte length L on a filesystem with block size B.
    let l = Layout::from_regular_file(1 << 20, 4096);
    assert_eq!(l.size, 1 << 20);
    assert_eq!(l.logical_block_size, 4096);
    assert_eq!(l.physical_block_size, 4096);
    assert_eq!(l.minimum_io_size, 512);
    assert_eq!(l.optimal_io_size, 0);
}

#[test]
fn regular_file_fallback_small() {
    let l = Layout::from_regular_file(7, 1024);
    assert_eq!(l.size, 7);
    assert_eq!(l.logical_block_size, 1024);
    assert_eq!(l.physical_block_size, 1024);
    assert_eq!(l.minimum_io_size, 512);
    assert_eq!(l.optimal_io_size, 0);
}

#[test]
fn block_device_geometry() {
    let l = Layout::from_block_device(10 << 30, 512, 4096, 4096, 0);
    assert_eq!(l.size, 10 << 30);
    assert_eq!(l.logical_block_size, 512);
    assert_eq!(l.physical_block_size, 4096);
    assert_eq!(l.minimum_io_size, 4096);
    assert_eq!(l.optimal_io_size, 0);
}

#[test]
fn error_messages() {
    assert!(!LayoutError::UnsupportedDeviceType.message().is_empty());
    assert!(!LayoutError::IOError(2).message().is_empty());
    assert!(!LayoutError::QueryError(25).message().is_empty());
    assert_eq!(
        LayoutError::UnsupportedDeviceType.message(),
        "target is not a block device or regular file"
    );
}

#[test]
fn error_variants_carry_os_error() {
    assert_eq!(LayoutError::IOError(13), LayoutError::IOError(13));
    assert_ne!(LayoutError::IOError(13), LayoutError::QueryError(13));
    assert_ne!(LayoutError::IOError(13), LayoutError::IOError(2));
}
