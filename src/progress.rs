use vstd::prelude::*;

use crate::text::{concat_str, decimal_digits, u64_to_decimal};

verus! {

/// A progress report of an upload. `uploaded_bytes` counts the bytes
/// confirmed before the bytes this report adds, `current_part_bytes`;
/// their sum is the running total.
#[derive(Debug, Clone, Copy)]
pub struct ProgressInfo {
    /// Size of the whole transfer.
    pub total_bytes: u64,
    /// Bytes done before this report.
    pub uploaded_bytes: u64,
    /// Index of the block being sent, from 0.
    pub current_part: u32,
    /// Bytes this report adds.
    pub current_part_bytes: u64,
}

impl ProgressInfo {
    /// Bytes done once this report is counted.
    pub open spec fn running_total(&self) -> int {
        self.uploaded_bytes + self.current_part_bytes
    }

    /// `ProgressInfo { total_bytes: T, uploaded_bytes: U, current_part: P, current_part_bytes: B }`.
    pub fn to_display_string(&self) -> (r: String)
        ensures
            r@ == "ProgressInfo { total_bytes: "@ + decimal_digits(self.total_bytes as nat)
                + ", uploaded_bytes: "@ + decimal_digits(self.uploaded_bytes as nat)
                + ", current_part: "@ + decimal_digits(self.current_part as nat)
                + ", current_part_bytes: "@ + decimal_digits(self.current_part_bytes as nat)
                + " }"@,
    {
        let s = concat_str("ProgressInfo { total_bytes: ", u64_to_decimal(self.total_bytes).as_str());
        let s = concat_str(s.as_str(), ", uploaded_bytes: ");
        let s = concat_str(s.as_str(), u64_to_decimal(self.uploaded_bytes).as_str());
        let s = concat_str(s.as_str(), ", current_part: ");
        let s = concat_str(s.as_str(), u64_to_decimal(self.current_part as u64).as_str());
        let s = concat_str(s.as_str(), ", current_part_bytes: ");
        let s = concat_str(s.as_str(), u64_to_decimal(self.current_part_bytes).as_str());
        concat_str(s.as_str(), " }")
    }
}

/// Counts the bytes of one block as they go on the wire and turns each
/// chunk into a progress report. What it counts never passes the block's
/// length, so reports stay inside the block's byte range.
pub struct PartProgress {
    total_bytes: u64,
    base: u64,
    part: u32,
    part_len: u64,
    sent: u64,
}

impl PartProgress {
    #[verifier::type_invariant]
    spec fn inv(self) -> bool {
        &&& self.sent <= self.part_len
        &&& self.base + self.part_len <= u64::MAX
    }

    pub closed spec fn spec_sent(&self) -> u64 {
        self.sent
    }

    pub closed spec fn spec_base(&self) -> u64 {
        self.base
    }

    pub closed spec fn spec_part_len(&self) -> u64 {
        self.part_len
    }

    pub closed spec fn spec_total(&self) -> u64 {
        self.total_bytes
    }

    pub closed spec fn spec_part(&self) -> u32 {
        self.part
    }

    /// Bytes counted so far and the block's end never pass the largest
    /// byte count.
    pub open spec fn in_range(&self) -> bool {
        &&& self.spec_sent() <= self.spec_part_len()
        &&& self.spec_base() + self.spec_part_len() <= u64::MAX
    }

    /// A counter for the block that `info` describes: it starts at
    /// `info.uploaded_bytes` and spans `info.current_part_bytes` bytes (or
    /// up to the largest byte count, if the block would pass it).
    pub fn new(info: &ProgressInfo) -> (r: Self)
        ensures
            r.in_range(),
            r.spec_sent() == 0,
            r.spec_base() == info.uploaded_bytes,
            info.uploaded_bytes + info.current_part_bytes <= u64::MAX ==> r.spec_part_len()
                == info.current_part_bytes,
            info.uploaded_bytes + info.current_part_bytes > u64::MAX ==> r.spec_part_len()
                == u64::MAX - info.uploaded_bytes,
            r.spec_total() == info.total_bytes,
            r.spec_part() == info.current_part,
    {
        let room = u64::MAX - info.uploaded_bytes;
        let part_len = if info.current_part_bytes <= room {
            info.current_part_bytes
        } else {
            room
        };
        PartProgress {
            total_bytes: info.total_bytes,
            base: info.uploaded_bytes,
            part: info.current_part,
            part_len,
            sent: 0,
        }
    }

    /// Bytes of this block counted so far.
    pub fn sent(&self) -> (r: u64)
        ensures
            self.in_range(),
            r == self.spec_sent(),
            r <= self.spec_part_len(),
    {
        proof {
            use_type_invariant(self);
        }
        self.sent
    }

    /// Counts a chunk of `len` bytes and reports it: the report starts
    /// where the previous one ended and adds what the chunk added, up to the
    /// end of the block.
    pub fn on_chunk(&mut self, len: u64) -> (r: ProgressInfo)
        ensures
            final(self).spec_base() == old(self).spec_base(),
            final(self).spec_part_len() == old(self).spec_part_len(),
            final(self).spec_total() == old(self).spec_total(),
            final(self).spec_part() == old(self).spec_part(),
            final(self).spec_sent() == if old(self).spec_sent() + len
                <= old(self).spec_part_len() {
                old(self).spec_sent() + len
            } else {
                old(self).spec_part_len() as int
            },
            r.total_bytes == old(self).spec_total(),
            r.current_part == old(self).spec_part(),
            final(self).in_range(),
            r.current_part_bytes == final(self).spec_sent() - old(self).spec_sent(),
            r.uploaded_bytes == old(self).spec_base() + old(self).spec_sent(),
            r.running_total() == old(self).spec_base() + final(self).spec_sent(),
    {
        proof {
            use_type_invariant(&*self);
        }
        let prev = self.sent;
        let room = self.part_len - prev;
        let add = if len <= room {
            len
        } else {
            room
        };
        self.sent = prev + add;
        ProgressInfo {
            total_bytes: self.total_bytes,
            uploaded_bytes: self.base + prev,
            current_part: self.part,
            current_part_bytes: add,
        }
    }
}

/// Progress of a download: bytes written so far and the announced length
/// (0 when the server did not announce one).
pub struct DownloadProgress {
    pub downloaded: u64,
    pub total: u64,
}

impl DownloadProgress {
    pub fn new(total: u64) -> (r: Self)
        ensures
            r.downloaded == 0,
            r.total == total,
    {
        DownloadProgress { downloaded: 0, total }
    }

    /// Counts a written chunk and gives the pair to report:
    /// `(bytes written so far, announced length)`.
    pub fn on_chunk(&mut self, len: u64) -> (r: (u64, u64))
        ensures
            final(self).total == old(self).total,
            final(self).downloaded == if old(self).downloaded + len <= u64::MAX {
                old(self).downloaded + len
            } else {
                u64::MAX as int
            },
            final(self).downloaded >= old(self).downloaded,
            r == (final(self).downloaded, final(self).total),
    {
        self.downloaded = self.downloaded.saturating_add(len);
        (self.downloaded, self.total)
    }
}

} // verus!
