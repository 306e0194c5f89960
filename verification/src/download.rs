//! Progress accounting for the streaming download.
//!
//! The download step writes the response body to disk chunk by chunk and
//! reports cumulative bytes written against the advertised total length
//! (0 when the server did not advertise one). The accounting here is
//! exact: the counter is the sum of the recorded chunk lengths, saturating
//! only at the top of `u64`.

use vstd::prelude::*;

verus! {

/// Cumulative progress of one streaming download.
pub struct DownloadProgress {
    /// The advertised total length in bytes (0 when not advertised).
    pub total: u64,
    /// Bytes written so far.
    pub downloaded: u64,
}

impl DownloadProgress {
    /// Start tracking a download with the advertised total length.
    pub fn new(total: u64) -> (r: DownloadProgress)
        ensures
            r.total == total,
            r.downloaded == 0,
    {
        DownloadProgress { total, downloaded: 0 }
    }

    /// Record one written chunk: the counter grows by the chunk length,
    /// saturating at `u64::MAX`; the advertised total never changes.
    pub fn record_chunk(&mut self, len: usize)
        ensures
            final(self).total == old(self).total,
            final(self).downloaded == if old(self).downloaded + len <= u64::MAX {
                old(self).downloaded + len
            } else {
                u64::MAX as int
            },
    {
        let l: u64 = len as u64;
        if self.downloaded <= u64::MAX - l {
            self.downloaded = self.downloaded + l;
        } else {
            self.downloaded = u64::MAX;
        }
    }

    /// Whether the bytes written so far match the advertised total.
    pub fn matches_advertised(&self) -> (r: bool)
        ensures
            r == (self.downloaded == self.total),
    {
        self.downloaded == self.total
    }
}

} // verus!
