//! Download accounting: the fixed archive name and the progress of a
//! streamed download, tracked chunk by chunk against the advertised content
//! length.

use vstd::prelude::*;
use vstd::string::StringExecFns;

verus! {

/// The fixed file name the server archive is downloaded to.
pub fn server_archive_name() -> (r: String)
    ensures
        r@ == "server.jar"@,
{
    String::from_str("server.jar")
}

/// Progress of a streaming download: bytes received so far against the
/// advertised content length (zero when none was advertised).
pub struct DownloadProgress {
    pub received: u64,
    pub total: u64,
}

impl DownloadProgress {
    /// Starts tracking a download of the advertised length.
    pub fn new(total: u64) -> (r: Self)
        ensures
            r.received == 0,
            r.total == total,
    {
        DownloadProgress { received: 0, total }
    }

    /// Records one received chunk. The advertised length never changes; the
    /// received count grows by the chunk's length, saturating rather than
    /// wrapping.
    pub fn record_chunk(&mut self, len: u64)
        ensures
            final(self).total == old(self).total,
            final(self).received == if old(self).received + len <= u64::MAX {
                old(self).received + len
            } else {
                u64::MAX as int
            },
    {
        if len <= u64::MAX - self.received {
            self.received = self.received + len;
        } else {
            self.received = u64::MAX;
        }
    }
}

} // verus!
