//! Splitting byte strings into 16-byte blocks padded with zero bytes, and
//! joining blocks back together with the trailing zero bytes removed.

use vstd::prelude::*;

verus! {

/// Size in bytes of one cipher block.
pub const BLOCK_SIZE: usize = 16;

/// One cipher block.
pub type Block = [u8; 16];

/// Number of zero bytes that bring a length of `n` up to a multiple of 16.
pub open spec fn padding_len(n: nat) -> nat {
    if n % 16 == 0 {
        0
    } else {
        (16 - n % 16) as nat
    }
}

/// `n` zero bytes.
pub open spec fn zeros(n: nat) -> Seq<u8> {
    Seq::new(n, |i: int| 0u8)
}

/// `data` followed by the fewest zero bytes that make its length a multiple of 16.
pub open spec fn zero_padded(data: Seq<u8>) -> Seq<u8> {
    data + zeros(padding_len(data.len()))
}

/// Block number `j` (bytes `16 * j .. 16 * j + 16`) of `data`.
pub open spec fn block_at(data: Seq<u8>, j: int) -> Seq<u8> {
    data.subrange(16 * j, 16 * j + 16)
}

/// `data` with every trailing zero byte removed.
pub open spec fn trim_trailing_zeros(data: Seq<u8>) -> Seq<u8>
    decreases data.len(),
{
    if data.len() == 0 || data.last() != 0 {
        data
    } else {
        trim_trailing_zeros(data.drop_last())
    }
}

/// Whether `data` is empty or ends in a byte other than zero.
pub open spec fn has_no_trailing_zero(data: Seq<u8>) -> bool {
    data.len() == 0 || data.last() != 0
}

/// Trimming keeps a prefix of the data that does not end in a zero byte and
/// drops only zero bytes after it.
pub proof fn lemma_trim_characterized(data: Seq<u8>)
    ensures
        trim_trailing_zeros(data).len() <= data.len(),
        trim_trailing_zeros(data) == data.take(trim_trailing_zeros(data).len() as int),
        has_no_trailing_zero(trim_trailing_zeros(data)),
        forall|i: int| trim_trailing_zeros(data).len() <= i < data.len() ==> data[i] == 0,
    decreases data.len(),
{
    if data.len() == 0 || data.last() != 0 {
        assert(data.take(data.len() as int) =~= data);
    } else {
        let rest = data.drop_last();
        lemma_trim_characterized(rest);
        let t = trim_trailing_zeros(rest);
        assert(rest.take(t.len() as int) =~= data.take(t.len() as int));
        assert forall|i: int| t.len() <= i < data.len() implies data[i] == 0 by {
            if i < rest.len() {
                assert(rest[i] == data[i]);
            }
        }
    }
}

/// Appending zero bytes does not change what trimming gives.
pub proof fn lemma_trim_ignores_zeros(data: Seq<u8>, n: nat)
    ensures
        trim_trailing_zeros(data + zeros(n)) == trim_trailing_zeros(data),
    decreases n,
{
    if n > 0 {
        let longer = data + zeros(n);
        assert(longer.last() == 0);
        assert(longer.drop_last() =~= data + zeros((n - 1) as nat));
        lemma_trim_ignores_zeros(data, (n - 1) as nat);
    } else {
        assert(data + zeros(0) =~= data);
    }
}

/// Trimming a padded string gives what trimming the string gives.
pub proof fn lemma_trim_zero_padded(data: Seq<u8>)
    ensures
        trim_trailing_zeros(zero_padded(data)) == trim_trailing_zeros(data),
{
    lemma_trim_ignores_zeros(data, padding_len(data.len()));
}

/// Trimming leaves a string without a trailing zero unchanged.
pub proof fn lemma_trim_identity(data: Seq<u8>)
    requires
        has_no_trailing_zero(data),
    ensures
        trim_trailing_zeros(data) == data,
{
}

/// Trimming a prefix that ends where the zero run of the whole starts.
proof fn lemma_trim_prefix(data: Seq<u8>, k: int)
    requires
        0 <= k <= data.len(),
        forall|i: int| k <= i < data.len() ==> data[i] == 0,
    ensures
        trim_trailing_zeros(data) == trim_trailing_zeros(data.take(k)),
    decreases data.len() - k,
{
    if k < data.len() {
        assert(data.drop_last().take(k) =~= data.take(k));
        lemma_trim_prefix(data.drop_last(), k);
    } else {
        assert(data.take(k) =~= data);
    }
}

/// Removes the trailing zero bytes of `data`.
pub fn trimmed(data: &Vec<u8>) -> (res: Vec<u8>)
    ensures
        res@ == trim_trailing_zeros(data@),
{
    let mut end: usize = data.len();
    while end > 0 && data[end - 1] == 0
        invariant
            end <= data@.len(),
            forall|i: int| end <= i < data@.len() ==> data@[i] == 0,
        decreases end,
    {
        end = end - 1;
    }
    proof {
        lemma_trim_prefix(data@, end as int);
    }
    let mut res: Vec<u8> = Vec::new();
    let mut i: usize = 0;
    while i < end
        invariant
            end <= data@.len(),
            i <= end,
            res@ =~= data@.take(i as int),
        decreases end - i,
    {
        res.push(data[i]);
        i = i + 1;
    }
    proof {
        assert(res@ =~= data@.take(end as int));
    }
    res
}


/// Number of blocks that `data` fills once padded.
pub open spec fn block_count(data: Seq<u8>) -> nat {
    zero_padded(data).len() / 16
}

/// Byte `i` of the concatenation of `blocks`, each 16 bytes long.
pub open spec fn joined_byte(blocks: Seq<Block>, i: int) -> u8 {
    blocks[i / 16]@[i % 16]
}

/// The concatenation of `blocks`.
pub open spec fn joined(blocks: Seq<Block>) -> Seq<u8> {
    Seq::new(16 * blocks.len(), |i: int| joined_byte(blocks, i))
}

/// Whether `blocks` are the consecutive blocks of `data` padded with zero bytes.
pub open spec fn is_split_of(blocks: Seq<Block>, data: Seq<u8>) -> bool {
    &&& blocks.len() == block_count(data)
    &&& forall|j: int| 0 <= j < blocks.len() ==> #[trigger] blocks[j]@ == block_at(zero_padded(data), j)
}

/// Length facts of a padded string.
pub proof fn lemma_zero_padded_len(data: Seq<u8>)
    ensures
        zero_padded(data).len() % 16 == 0,
        data.len() <= zero_padded(data).len() < data.len() + 16,
        zero_padded(data).len() == 16 * block_count(data),
        data.len() % 16 == 0 ==> zero_padded(data) == data,
{
    if data.len() % 16 == 0 {
        assert(zero_padded(data) =~= data);
    }
}

proof fn lemma_padded_len(n: nat)
    ensures
        (n + padding_len(n)) % 16 == 0,
        n <= n + padding_len(n) < n + 16,
        (n + padding_len(n)) / 16 == (n + 15) / 16,
{
}

/// Splits `data` into 16-byte blocks, the last one filled up with zero bytes.
pub fn to_blocks(data: &[u8]) -> (res: Vec<Block>)
    requires
        data@.len() + 16 <= usize::MAX,
    ensures
        is_split_of(res@, data@),
{
    let len = data.len();
    let num_blocks = (len + BLOCK_SIZE - 1) / BLOCK_SIZE;
    proof {
        lemma_padded_len(len as nat);
    }
    let ghost padded = zero_padded(data@);
    let mut res: Vec<Block> = Vec::new();
    let mut j: usize = 0;
    while j < num_blocks
        invariant
            len == data@.len(),
            len + 16 <= usize::MAX,
            padded == zero_padded(data@),
            num_blocks == block_count(data@),
            padded.len() == 16 * num_blocks,
            j <= num_blocks,
            res@.len() == j,
            forall|b: int| 0 <= b < j ==> #[trigger] res@[b]@ == block_at(padded, b),
        decreases num_blocks - j,
    {
        let mut block: Block = [0u8; 16];
        let mut k: usize = 0;
        while k < BLOCK_SIZE
            invariant
                len == data@.len(),
                padded == zero_padded(data@),
                padded.len() == 16 * num_blocks,
                j < num_blocks,
                k <= 16,
                forall|t: int| 0 <= t < k ==> block@[t] == padded[16 * j + t],
                forall|t: int| k <= t < 16 ==> block@[t] == 0,
            decreases 16 - k,
        {
            let idx = BLOCK_SIZE * j + k;
            if idx < len {
                block[k] = data[idx];
            } else {
                block[k] = 0;
            }
            k = k + 1;
        }
        assert(block@ =~= block_at(padded, j as int));
        res.push(block);
        j = j + 1;
    }
    res
}

/// Joins 16-byte blocks into one byte string.
pub fn join_blocks(blocks: &Vec<Block>) -> (res: Vec<u8>)
    requires
        16 * blocks@.len() <= usize::MAX,
    ensures
        res@ == joined(blocks@),
{
    let mut res: Vec<u8> = Vec::new();
    let mut j: usize = 0;
    while j < blocks.len()
        invariant
            16 * blocks@.len() <= usize::MAX,
            j <= blocks@.len(),
            res@.len() == 16 * j,
            forall|i: int| 0 <= i < res@.len() ==> res@[i] == #[trigger] joined_byte(blocks@, i),
        decreases blocks@.len() - j,
    {
        let block: Block = blocks[j];
        let mut k: usize = 0;
        while k < BLOCK_SIZE
            invariant
                j < blocks@.len(),
                block == blocks@[j as int],
                k <= 16,
                res@.len() == 16 * j + k,
                forall|i: int| 0 <= i < res@.len() ==> res@[i] == #[trigger] joined_byte(blocks@, i),
            decreases 16 - k,
        {
            res.push(block[k]);
            proof {
                let i = 16 * j + k;
                assert(i / 16 == j && i % 16 == k);
            }
            k = k + 1;
        }
        j = j + 1;
    }
    assert(res@ =~= joined(blocks@));
    res
}

/// Joins 16-byte blocks, then removes the trailing zero bytes if `remove_padding`.
pub fn merge_blocks(blocks: &Vec<Block>, remove_padding: bool) -> (res: Vec<u8>)
    requires
        16 * blocks@.len() <= usize::MAX,
    ensures
        res@ == if remove_padding {
            trim_trailing_zeros(joined(blocks@))
        } else {
            joined(blocks@)
        },
{
    let combined = join_blocks(blocks);
    if remove_padding {
        trimmed(&combined)
    } else {
        combined
    }
}

} // verus!
