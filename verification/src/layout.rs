use vstd::prelude::*;

verus! {

/// The layout of a given device describes low level IO characteristics.
///
/// Although this is intended primarily for block devices, it can also be
/// used for files.
#[derive(Debug, Clone)]
pub struct Layout {
    /// Total size of the target in bytes.
    pub size: u64,
    /// Size of a logical block (sector) on the device.
    pub logical_block_size: u64,
    /// Size of a physical block on the device.
    pub physical_block_size: u64,
    /// The minimum size of an IO.
    pub minimum_io_size: u64,
    /// The optimal size of an IO. This is usually not reported and set to 0.
    pub optimal_io_size: u64,
}

/// An error encountered when loading the [`Layout`] of a device.
///
/// The payloads are raw OS error numbers, so that callers that talk to the
/// operating system can record the failure without this crate depending on
/// any I/O machinery.
#[derive(Debug, Clone, PartialEq, Eq, Structural)]
pub enum LayoutError {
    /// Not a block device or regular file.
    UnsupportedDeviceType,
    /// IO error while querying metadata; carries the OS error number.
    IOError(i32),
    /// IO error while querying layout; carries the OS error number.
    QueryError(i32),
}

impl LayoutError {
    /// A short description of the error, suitable for an operator.
    pub fn message(&self) -> (r: String)
        ensures
            r@.len() > 0,
    {
        let r: String = match self {
            LayoutError::UnsupportedDeviceType => String::from_str(
                "target is not a block device or regular file",
            ),
            LayoutError::IOError(_) => String::from_str(
                "i/o error while querying target metadata",
            ),
            LayoutError::QueryError(_) => String::from_str(
                "i/o error while querying target layout",
            ),
        };
        proof {
            reveal_strlit("target is not a block device or regular file");
            reveal_strlit("i/o error while querying target metadata");
            reveal_strlit("i/o error while querying target layout");
        }
        r
    }
}

impl Layout {
    /// Build the layout of a block device from the five values reported by
    /// the device's geometry queries.
    pub fn from_block_device(
        size: u64,
        logical_block_size: u64,
        physical_block_size: u64,
        minimum_io_size: u64,
        optimal_io_size: u64,
    ) -> (r: Layout)
        ensures
            r.size == size,
            r.logical_block_size == logical_block_size,
            r.physical_block_size == physical_block_size,
            r.minimum_io_size == minimum_io_size,
            r.optimal_io_size == optimal_io_size,
    {
        Layout {
            size,
            logical_block_size,
            physical_block_size,
            minimum_io_size,
            optimal_io_size,
        }
    }

    /// Build the layout of a regular file from its filesystem metadata: the
    /// file's byte length and the filesystem's reported I/O block size.
    ///
    /// Both block sizes are taken from the filesystem; the minimum I/O size
    /// defaults to 512 bytes as a conservative sector-alignment assumption,
    /// and the optimal I/O size is left at 0 (unknown).
    pub fn from_regular_file(size: u64, fs_block_size: u64) -> (r: Layout)
        ensures
            r.size == size,
            r.logical_block_size == fs_block_size,
            r.physical_block_size == fs_block_size,
            r.minimum_io_size == 512,
            r.optimal_io_size == 0,
    {
        Layout {
            size,
            logical_block_size: fs_block_size,
            physical_block_size: fs_block_size,
            minimum_io_size: 512,
            optimal_io_size: 0,
        }
    }
}

} // verus!
