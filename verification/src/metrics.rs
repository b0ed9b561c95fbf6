//! Observability counters of the storage layer: operation counts and
//! bytes transferred, for an external metrics collector to scrape. When
//! no collector is wired up, nothing holds a [`DatabaseMetrics`] and no
//! cost is paid.

use vstd::prelude::*;

verus! {

/// Read/write counters of one storage handle. Counts saturate rather
/// than wrap: a collector reading a saturated counter sees a floor, not
/// a small number.
#[derive(Copy, Clone, Debug, PartialEq, Eq, Structural)]
pub struct DatabaseMetrics {
    /// Read operations performed.
    pub read_ops: u64,
    /// Write operations performed.
    pub write_ops: u64,
    /// Bytes handed to readers.
    pub bytes_read: u64,
    /// Bytes taken from writers.
    pub bytes_written: u64,
}

impl DatabaseMetrics {
    /// Fresh counters, all zero.
    pub fn new() -> (r: DatabaseMetrics)
        ensures
            r.read_ops == 0,
            r.write_ops == 0,
            r.bytes_read == 0,
            r.bytes_written == 0,
    {
        DatabaseMetrics { read_ops: 0, write_ops: 0, bytes_read: 0, bytes_written: 0 }
    }

    /// Record one read of `bytes` bytes.
    pub fn record_read(&mut self, bytes: usize)
        ensures
            final(self).read_ops == if old(self).read_ops < u64::MAX {
                old(self).read_ops + 1
            } else {
                u64::MAX as int
            },
            final(self).bytes_read == if old(self).bytes_read + bytes <= u64::MAX {
                old(self).bytes_read + bytes
            } else {
                u64::MAX as int
            },
            final(self).write_ops == old(self).write_ops,
            final(self).bytes_written == old(self).bytes_written,
    {
        self.read_ops = self.read_ops.saturating_add(1);
        self.bytes_read = self.bytes_read.saturating_add(bytes as u64);
    }

    /// Record one write of `bytes` bytes.
    pub fn record_write(&mut self, bytes: usize)
        ensures
            final(self).write_ops == if old(self).write_ops < u64::MAX {
                old(self).write_ops + 1
            } else {
                u64::MAX as int
            },
            final(self).bytes_written == if old(self).bytes_written + bytes <= u64::MAX {
                old(self).bytes_written + bytes
            } else {
                u64::MAX as int
            },
            final(self).read_ops == old(self).read_ops,
            final(self).bytes_read == old(self).bytes_read,
    {
        self.write_ops = self.write_ops.saturating_add(1);
        self.bytes_written = self.bytes_written.saturating_add(bytes as u64);
    }
}

} // verus!
