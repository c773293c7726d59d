use vstd::prelude::*;

use crate::digest::{md5_hex, md5_hex_string};

verus! {

/// Length of the leading segment whose digest the server checks (256 KiB).
pub const HEADER_SLICE_SIZE: u64 = 256 * 1024;

/// Number of blocks of `block_size` bytes that cover `size` bytes:
/// `ceil(size / block_size)`, and 0 when the block size is 0.
pub open spec fn block_count(size: int, block_size: int) -> int {
    if block_size <= 0 {
        0
    } else if size % block_size == 0 {
        size / block_size
    } else {
        size / block_size + 1
    }
}

/// First byte of block `i`.
pub open spec fn block_start(block_size: int, i: int) -> int {
    i * block_size
}

/// One past the last byte of block `i` in a file of `size` bytes.
pub open spec fn block_end(size: int, block_size: int, i: int) -> int {
    if (i + 1) * block_size < size {
        (i + 1) * block_size
    } else {
        size
    }
}

/// Length of block `i`: a full block, or what is left for the last one.
pub open spec fn block_len(size: int, block_size: int, i: int) -> int {
    block_end(size, block_size, i) - block_start(block_size, i)
}

/// Bytes of block `i` of `content`.
pub open spec fn block_bytes(content: Seq<u8>, block_size: int, i: int) -> Seq<u8> {
    content.subrange(block_start(block_size, i), block_end(content.len() as int, block_size, i))
}

/// The leading segment of `content`: its first `min(256 KiB, len)` bytes.
pub open spec fn lead_bytes(content: Seq<u8>) -> Seq<u8> {
    if content.len() < HEADER_SLICE_SIZE {
        content
    } else {
        content.subrange(0, HEADER_SLICE_SIZE as int)
    }
}

/// Blocks `0..k` of `content`, concatenated in order.
pub open spec fn blocks_concat(content: Seq<u8>, block_size: int, k: int) -> Seq<u8>
    decreases k,
{
    if k <= 0 {
        Seq::empty()
    } else {
        blocks_concat(content, block_size, k - 1) + block_bytes(content, block_size, k - 1)
    }
}

/// Layout facts of the block at index `i`: where it starts, that it is not
/// empty, and that it is no longer than a block.
pub proof fn lemma_block_in_file(size: int, block_size: int, i: int)
    requires
        block_size > 0,
        size >= 0,
        0 <= i < block_count(size, block_size),
    ensures
        block_start(block_size, i) < size,
        0 < block_len(size, block_size, i) <= block_size,
        (i + 1) * block_size == block_start(block_size, i) + block_size,
        block_start(block_size, i + 1) == (i + 1) * block_size,
        i + 1 < block_count(size, block_size) ==> (i + 1) * block_size < size,
        i + 1 < block_count(size, block_size) ==> block_end(size, block_size, i) == (i + 1)
            * block_size,
        i + 1 == block_count(size, block_size) ==> block_end(size, block_size, i) == size,
{
    let q = size / block_size;
    let r = size % block_size;
    vstd::arithmetic::div_mod::lemma_fundamental_div_mod(size, block_size);
    assert(0 <= r < block_size);
    assert((i + 1) * block_size == i * block_size + block_size) by (nonlinear_arith);
    if r == 0 {
        assert(i < q);
        assert(i * block_size < size) by (nonlinear_arith)
            requires
                i < q,
                size == block_size * q,
                block_size > 0,
        ;
        if i + 1 < q {
            assert((i + 1) * block_size < size) by (nonlinear_arith)
                requires
                    i + 1 < q,
                    size == block_size * q,
                    block_size > 0,
            ;
        } else {
            assert((i + 1) * block_size == size) by (nonlinear_arith)
                requires
                    i + 1 == q,
                    size == block_size * q,
            ;
        }
    } else {
        assert(i <= q);
        assert(i * block_size < size) by (nonlinear_arith)
            requires
                i <= q,
                size == block_size * q + r,
                r > 0,
                block_size > 0,
        ;
        if i + 1 <= q {
            assert((i + 1) * block_size < size) by (nonlinear_arith)
                requires
                    i + 1 <= q,
                    size == block_size * q + r,
                    r > 0,
                    block_size > 0,
            ;
        } else {
            assert((i + 1) * block_size >= size) by (nonlinear_arith)
                requires
                    i == q,
                    size == block_size * q + r,
                    r < block_size,
            ;
        }
    }
}

/// The block count is `ceil(size / block_size)` for a positive block size:
/// the blocks reach the end of the file and the last one starts inside it;
/// an empty file has no block.
pub proof fn lemma_block_count(size: int, block_size: int)
    requires
        block_size > 0,
        size >= 0,
    ensures
        block_count(size, block_size) >= 0,
        block_count(size, block_size) * block_size >= size,
        size > 0 ==> (block_count(size, block_size) - 1) * block_size < size,
        size == 0 ==> block_count(size, block_size) == 0,
{
    let q = size / block_size;
    let r = size % block_size;
    vstd::arithmetic::div_mod::lemma_fundamental_div_mod(size, block_size);
    assert(0 <= r < block_size);
    assert(q >= 0) by (nonlinear_arith)
        requires
            size == block_size * q + r,
            size >= 0,
            r < block_size,
            block_size > 0,
    ;
    if r == 0 {
        assert(q * block_size >= size) by (nonlinear_arith)
            requires
                size == block_size * q,
        ;
        if size > 0 {
            assert((q - 1) * block_size < size) by (nonlinear_arith)
                requires
                    size == block_size * q,
                    block_size > 0,
            ;
        } else {
            assert(q == 0) by (nonlinear_arith)
                requires
                    0 == block_size * q,
                    block_size > 0,
            ;
        }
    } else {
        assert((q + 1) * block_size >= size) by (nonlinear_arith)
            requires
                size == block_size * q + r,
                r < block_size,
        ;
        assert(q * block_size < size) by (nonlinear_arith)
            requires
                size == block_size * q + r,
                r > 0,
        ;
    }
}

/// The blocks tile the file: block `i` starts at `i * block_size`, each
/// block ends where the next begins, the last ends at the end of the file,
/// and their bytes, concatenated in order, are the file's bytes.
pub proof fn lemma_blocks_cover_file(content: Seq<u8>, block_size: int)
    requires
        block_size > 0,
    ensures
        forall|i: int|
            0 <= i < block_count(content.len() as int, block_size) ==> #[trigger] block_start(
                block_size,
                i,
            ) == i * block_size,
        forall|i: int|
            0 <= i < block_count(content.len() as int, block_size) - 1 ==> #[trigger] block_end(
                content.len() as int,
                block_size,
                i,
            ) == block_start(block_size, i + 1),
        block_count(content.len() as int, block_size) > 0 ==> block_end(
            content.len() as int,
            block_size,
            block_count(content.len() as int, block_size) - 1,
        ) == content.len(),
        blocks_concat(content, block_size, block_count(content.len() as int, block_size))
            == content,
{
    let n = content.len() as int;
    let count = block_count(n, block_size);
    lemma_block_count(n, block_size);
    assert forall|i: int| 0 <= i < count - 1 implies #[trigger] block_end(n, block_size, i)
        == block_start(block_size, i + 1) by {
        lemma_block_in_file(n, block_size, i);
    }
    if count > 0 {
        lemma_block_in_file(n, block_size, count - 1);
    }
    lemma_blocks_concat_prefix(content, block_size, count);
    if count == 0 {
        assert(content =~= Seq::<u8>::empty());
    } else {
        assert(content.subrange(0, n) =~= content);
    }
}

/// The first `k` blocks are the prefix of the file that ends where block
/// `k - 1` ends.
proof fn lemma_blocks_concat_prefix(content: Seq<u8>, block_size: int, k: int)
    requires
        block_size > 0,
        0 <= k <= block_count(content.len() as int, block_size),
    ensures
        k > 0 ==> blocks_concat(content, block_size, k) == content.subrange(
            0,
            block_end(content.len() as int, block_size, k - 1),
        ),
        k == 0 ==> blocks_concat(content, block_size, k) == Seq::<u8>::empty(),
    decreases k,
{
    let n = content.len() as int;
    if k > 1 {
        lemma_blocks_concat_prefix(content, block_size, k - 1);
        lemma_block_in_file(n, block_size, k - 2);
        lemma_block_in_file(n, block_size, k - 1);
        assert(k - 2 + 1 == k - 1);
        assert(block_end(n, block_size, k - 2) == block_start(block_size, k - 1));
        assert(content.subrange(0, block_end(n, block_size, k - 2)) + block_bytes(
            content,
            block_size,
            k - 1,
        ) =~= content.subrange(0, block_end(n, block_size, k - 1)));
    } else if k == 1 {
        lemma_block_in_file(n, block_size, 0);
        assert(blocks_concat(content, block_size, 0) == Seq::<u8>::empty());
        assert(Seq::<u8>::empty() + block_bytes(content, block_size, 0) =~= content.subrange(
            0,
            block_end(n, block_size, 0),
        ));
    }
}

/// Content-addressed description of a local file, built once per upload.
#[derive(Debug, Clone)]
pub struct PcsFileSliceInfo {
    /// Local file path.
    pub path: String,
    /// File size in bytes when the description was built.
    pub size: u64,
    /// MD5 of the whole file, 32 lower-case hex digits.
    pub content_md5: String,
    /// MD5 of the leading segment (first 256 KiB), 32 lower-case hex digits.
    pub slice_md5: String,
    /// MD5 of each block, in block order.
    pub block_list: Vec<String>,
    /// Creation time, seconds since the epoch.
    pub ctime: i64,
    /// Modification time, seconds since the epoch.
    pub mtime: i64,
}

impl PcsFileSliceInfo {
    /// This description's digests and size are those of `content` cut into
    /// blocks of `block_size` bytes; every digest is 32 hex digits.
    pub open spec fn describes(&self, content: Seq<u8>, block_size: int) -> bool {
        &&& self.size == content.len()
        &&& self.content_md5@ == md5_hex(content)
        &&& self.slice_md5@ == md5_hex(lead_bytes(content))
        &&& self.content_md5@.len() == 32
        &&& self.slice_md5@.len() == 32
        &&& self.block_list@.len() == block_count(content.len() as int, block_size)
        &&& forall|i: int|
            0 <= i < self.block_list@.len() ==> (#[trigger] self.block_list@[i])@ == md5_hex(
                block_bytes(content, block_size, i),
            ) && self.block_list@[i]@.len() == 32
    }
}

/// Builds the description of a file from its bytes: the digest of the whole
/// content, of the leading segment, and of each block of `block_size` bytes
/// (the last block holds what is left). A block size of 0 gives no blocks.
pub fn get_file_block_list(
    path: &str,
    content: &[u8],
    block_size: u64,
    ctime: i64,
    mtime: i64,
) -> (r: PcsFileSliceInfo)
    ensures
        r.describes(content@, block_size as int),
        r.path@ == path@,
        r.ctime == ctime,
        r.mtime == mtime,
{
    let n: usize = content.len();
    let lead_len: usize = if (n as u64) < HEADER_SLICE_SIZE {
        n
    } else {
        HEADER_SLICE_SIZE as usize
    };
    let lead = vstd::slice::slice_subrange(content, 0, lead_len);
    assert(lead@ =~= lead_bytes(content@));
    let slice_md5 = md5_hex_string(lead);
    let content_md5 = md5_hex_string(content);
    let mut block_list: Vec<String> = Vec::new();
    if block_size > 0 {
        let bs: u64 = block_size;
        let total: u64 = n as u64;
        let mut offset: u64 = 0;
        let mut i: u64 = 0;
        proof {
            lemma_block_count(n as int, bs as int);
        }
        while offset < total
            invariant
                bs == block_size,
                bs > 0,
                total == n,
                n == content@.len(),
                0 <= i <= block_count(n as int, bs as int),
                i <= offset <= total,
                offset < total ==> offset == i * bs && i < block_count(n as int, bs as int),
                offset == total ==> i == block_count(n as int, bs as int),
                block_list@.len() == i,
                forall|j: int|
                    0 <= j < i ==> (#[trigger] block_list@[j])@ == md5_hex(
                        block_bytes(content@, bs as int, j),
                    ) && block_list@[j]@.len() == 32,
            decreases total - offset,
        {
            proof {
                lemma_block_in_file(n as int, bs as int, i as int);
            }
            let this_len: u64 = if total - offset < bs {
                total - offset
            } else {
                bs
            };
            let end: u64 = offset + this_len;
            assert(end == block_end(n as int, bs as int, i as int));
            let part = vstd::slice::slice_subrange(content, offset as usize, end as usize);
            assert(part@ =~= block_bytes(content@, bs as int, i as int));
            let digest = md5_hex_string(part);
            block_list.push(digest);
            offset = end;
            i = i + 1;
        }
    }
    PcsFileSliceInfo {
        path: path.to_owned(),
        size: n as u64,
        content_md5,
        slice_md5,
        block_list,
        ctime,
        mtime,
    }
}

/// Building the description twice from the same bytes and block size gives
/// the same size and the same digests.
pub proof fn lemma_manifest_deterministic(
    a: PcsFileSliceInfo,
    b: PcsFileSliceInfo,
    content: Seq<u8>,
    block_size: int,
)
    requires
        a.describes(content, block_size),
        b.describes(content, block_size),
    ensures
        a.size == b.size,
        a.content_md5@ == b.content_md5@,
        a.slice_md5@ == b.slice_md5@,
        a.block_list@.len() == b.block_list@.len(),
        forall|i: int|
            0 <= i < a.block_list@.len() ==> (#[trigger] a.block_list@[i])@ == b.block_list@[i]@,
{
}

} // verus!
