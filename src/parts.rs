use vstd::prelude::*;

verus! {

/// Smallest part size that S3-compatible providers accept for every part
/// of a multipart upload but the last: 5 MiB.
pub const MIN_PART_SIZE: u64 = 5_242_880;

/// Number of parts an object of `size` bytes is cut into with parts of
/// `chunk_size` bytes: `ceil(size / chunk_size)`.
pub open spec fn part_count(size: nat, chunk_size: nat) -> nat {
    if chunk_size == 0 {
        0
    } else {
        ((size + chunk_size - 1) as nat) / chunk_size
    }
}

/// First byte of the part numbered `number` (1-based).
pub open spec fn part_start(number: nat, chunk_size: nat) -> nat {
    ((number - 1) as nat) * chunk_size
}

/// Byte count of the part numbered `number`: a whole chunk, or what is left.
pub open spec fn part_length(size: nat, chunk_size: nat, number: nat) -> nat {
    let start = part_start(number, chunk_size);
    if size - start >= chunk_size {
        chunk_size
    } else {
        (size - start) as nat
    }
}

/// How an object is written to the destination.
#[derive(PartialEq, Eq, Structural, Clone, Copy, Debug)]
pub enum Strategy {
    SinglePut,
    Multipart,
}

pub open spec fn strategy_for(size: nat, chunk_size: nat) -> Strategy {
    if size <= chunk_size {
        Strategy::SinglePut
    } else {
        Strategy::Multipart
    }
}

/// Objects of at most `chunk_size` bytes (zero-byte ones included) go in one
/// PUT; larger ones in a multipart upload.
pub fn choose_strategy(size: u64, chunk_size: u64) -> (r: Strategy)
    ensures
        r == strategy_for(size as nat, chunk_size as nat),
{
    if size <= chunk_size {
        Strategy::SinglePut
    } else {
        Strategy::Multipart
    }
}

/// One contiguous byte range of a multipart upload.
#[derive(PartialEq, Eq, Structural, Clone, Copy, Debug)]
pub struct PartRange {
    pub part_number: u64,
    pub start: u64,
    pub length: u64,
}

/// The range of part `number`, correct for every part of the plan.
pub open spec fn is_part(p: PartRange, size: nat, chunk_size: nat, number: nat) -> bool {
    &&& p.part_number == number
    &&& p.start == part_start(number, chunk_size)
    &&& p.length == part_length(size, chunk_size, number)
}

pub proof fn lemma_part_count_bounds(size: nat, chunk_size: nat)
    requires
        chunk_size > 0,
    ensures
        part_count(size, chunk_size) * chunk_size >= size,
        part_count(size, chunk_size) > 0 ==> ((part_count(size, chunk_size) - 1) as nat)
            * chunk_size < size,
        size > 0 ==> part_count(size, chunk_size) >= 1,
        size > chunk_size ==> part_count(size, chunk_size) >= 2,
        part_count(size, chunk_size) <= size,
{
    let n = part_count(size, chunk_size) as int;
    let c = chunk_size as int;
    let t = size + c - 1;
    vstd::arithmetic::div_mod::lemma_fundamental_div_mod(t, c);
    vstd::arithmetic::div_mod::lemma_mod_pos_bound(t, c);
    assert(n == t / c);
    assert(c * n == n * c) by (nonlinear_arith);
    assert((n - 1) * c == n * c - c) by (nonlinear_arith);
    if size > 0 {
        assert(n >= 1) by (nonlinear_arith)
            requires
                c > 0,
                n * c > 0,
        ;
    }
    if size > chunk_size {
        assert(n >= 2) by (nonlinear_arith)
            requires
                c > 0,
                n * c > c,
        ;
    }
    if n > 0 {
        assert(n - 1 <= (n - 1) * c) by (nonlinear_arith)
            requires
                c >= 1,
                n >= 1,
        ;
    }
}

/// The part of number `number` as a range of bytes.
pub fn part_range(size: u64, chunk_size: u64, number: u64) -> (r: PartRange)
    requires
        chunk_size > 0,
        1 <= number <= part_count(size as nat, chunk_size as nat),
    ensures
        is_part(r, size as nat, chunk_size as nat, number as nat),
        r.start as nat + r.length as nat <= size,
        r.length > 0,
{
    proof {
        lemma_part_count_bounds(size as nat, chunk_size as nat);
        let n = part_count(size as nat, chunk_size as nat);
        assert(((number - 1) as nat) * (chunk_size as nat) <= ((n - 1) as nat) * (chunk_size as nat))
            by (nonlinear_arith)
            requires
                number <= n,
                number >= 1,
        ;
    }
    let start: u64 = (number - 1) * chunk_size;
    let length: u64 = if size - start >= chunk_size {
        chunk_size
    } else {
        size - start
    };
    PartRange { part_number: number, start, length }
}

/// `ceil(size / chunk_size)`, computed without overflow.
pub fn part_total(size: u64, chunk_size: u64) -> (r: u64)
    requires
        chunk_size > 0,
    ensures
        r == part_count(size as nat, chunk_size as nat),
{
    proof {
        let c = chunk_size as int;
        let a = size - 1;
        if size > 0 {
            assert((a + c) / c == a / c + 1) by (nonlinear_arith)
                requires
                    c > 0,
                    a >= 0,
            ;
        } else {
            assert((c - 1) / c == 0) by (nonlinear_arith)
                requires
                    c > 0,
            ;
        }
    }
    if size == 0 {
        0
    } else {
        (size - 1) / chunk_size + 1
    }
}

/// Cuts an object of `size` bytes into parts of `chunk_size` bytes, the last
/// one possibly shorter, numbered from 1 upward.
pub fn plan_parts(size: u64, chunk_size: u64) -> (r: Vec<PartRange>)
    requires
        chunk_size > 0,
    ensures
        r@.len() == part_count(size as nat, chunk_size as nat),
        forall|i: int|
            0 <= i < r@.len() ==> is_part(#[trigger] r@[i], size as nat, chunk_size as nat, (i + 1) as nat),
{
    let count = part_total(size, chunk_size);
    let mut r: Vec<PartRange> = Vec::new();
    let mut k: u64 = 0;
    while k < count
        invariant
            chunk_size > 0,
            count == part_count(size as nat, chunk_size as nat),
            k <= count,
            r@.len() == k,
            forall|i: int|
                0 <= i < r@.len() ==> is_part(#[trigger] r@[i], size as nat, chunk_size as nat, (i + 1) as nat),
        decreases count - k,
    {
        let p = part_range(size, chunk_size, k + 1);
        r.push(p);
        k = k + 1;
    }
    r
}

} // verus!
