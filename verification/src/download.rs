//! Progress accounting for a streaming artifact download.
//!
//! The download itself (an HTTP GET whose body arrives in chunks of
//! arbitrary size) is driven outside the library; this module owns the
//! arithmetic: how many bytes have arrived so far and which percentage is
//! reported after each chunk. The percentage is deliberately not clamped
//! to 100: when the size reported at resolution time was smaller than the
//! bytes actually received, the reported value exceeds 100.

use vstd::prelude::*;
use vstd::arithmetic::div_mod::lemma_div_is_ordered;

verus! {

/// The percentage reported once `downloaded` bytes of an expected
/// `expected` have arrived: `100 * downloaded / expected`, rounded half
/// away from zero (for non-negative values, `floor((200*d + e) / (2*e))`).
pub open spec fn rounded_percent(downloaded: int, expected: int) -> int
    recommends
        expected >= 1,
{
    (200 * downloaded + expected) / (2 * expected)
}

/// Byte accounting for one download in flight.
pub struct DownloadProgress {
    /// The artifact size the release index reported, in bytes.
    pub expected_size: u64,
    /// Bytes received and written so far.
    pub downloaded_size: u64,
}

impl DownloadProgress {
    /// A meaningful progress report needs a positive expected size.
    pub open spec fn wf(self) -> bool {
        self.expected_size >= 1
    }

    pub fn new(expected_size: u64) -> (r: DownloadProgress)
        requires
            expected_size >= 1,
        ensures
            r.wf(),
            r.expected_size == expected_size,
            r.downloaded_size == 0,
    {
        DownloadProgress { expected_size, downloaded_size: 0 }
    }

    /// Account for one arrived chunk of `len` bytes and return the
    /// percentage to report for it. Successive reports never decrease.
    pub fn record_chunk(&mut self, len: u64) -> (pct: u128)
        requires
            old(self).wf(),
            old(self).downloaded_size + len <= u64::MAX,
        ensures
            final(self).wf(),
            final(self).expected_size == old(self).expected_size,
            final(self).downloaded_size == old(self).downloaded_size + len,
            pct == rounded_percent(
                final(self).downloaded_size as int,
                final(self).expected_size as int,
            ),
            rounded_percent(old(self).downloaded_size as int, old(self).expected_size as int)
                <= pct,
    {
        self.downloaded_size = self.downloaded_size + len;
        let d = self.downloaded_size as u128;
        let e = self.expected_size as u128;
        let pct: u128 = (200 * d + e) / (2 * e);
        proof {
            lemma_progress_monotonic(
                old(self).downloaded_size as int,
                self.downloaded_size as int,
                e as int,
            );
        }
        pct
    }
}

/// Progress is monotonically non-decreasing: reporting for a larger byte
/// count never yields a smaller percentage.
pub proof fn lemma_progress_monotonic(d1: int, d2: int, expected: int)
    requires
        0 <= d1 <= d2,
        expected >= 1,
    ensures
        rounded_percent(d1, expected) <= rounded_percent(d2, expected),
{
    assert(200 * d1 + expected <= 200 * d2 + expected) by (nonlinear_arith)
        requires 0 <= d1 <= d2;
    lemma_div_is_ordered(200 * d1 + expected, 200 * d2 + expected, 2 * expected);
}

} // verus!
