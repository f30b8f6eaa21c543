//! Numbers in memory.

use vstd::prelude::*;

verus! {

/// 256 to the power of `n`: the number of values that `n` bytes take.
pub open spec fn limit(n: nat) -> nat
    decreases n,
{
    if n == 0 {
        1
    } else {
        256 * limit((n - 1) as nat)
    }
}

/// The number that the bytes stand for when the high byte comes first.
pub open spec fn spec_be(bytes: Seq<u8>) -> nat
    decreases bytes.len(),
{
    if bytes.len() == 0 {
        0
    } else {
        spec_be(bytes.drop_last()) * 256 + bytes.last() as nat
    }
}

/// The number that the bytes stand for when the low byte comes first.
pub open spec fn spec_le(bytes: Seq<u8>) -> nat
    decreases bytes.len(),
{
    if bytes.len() == 0 {
        0
    } else {
        bytes[0] as nat + 256 * spec_le(bytes.subrange(1, bytes.len() as int))
    }
}

/// The unsigned number that the bytes stand for.
pub open spec fn spec_unsigned(bytes: Seq<u8>, little_endian: bool) -> nat {
    if little_endian {
        spec_le(bytes)
    } else {
        spec_be(bytes)
    }
}

/// The signed number that the bytes stand for, in two's complement.
pub open spec fn spec_signed(bytes: Seq<u8>, little_endian: bool) -> int {
    let u = spec_unsigned(bytes, little_endian);
    if 2 * u >= limit(bytes.len()) {
        u - limit(bytes.len())
    } else {
        u as int
    }
}

/// More bytes take more values.
pub proof fn lemma_limit_grows(m: nat, n: nat)
    requires
        m <= n,
    ensures
        1 <= limit(m) <= limit(n),
    decreases n,
{
    if n > 0 {
        if m < n {
            lemma_limit_grows(m, (n - 1) as nat);
        } else {
            lemma_limit_grows((m - 1) as nat, (n - 1) as nat);
        }
    }
}

/// The values that up to sixteen bytes take.
pub proof fn lemma_limits()
    ensures
        limit(0) == 1,
        limit(1) == 0x100,
        limit(2) == 0x1_0000,
        limit(4) == 0x1_0000_0000,
        limit(8) == 0x1_0000_0000_0000_0000,
        limit(15) == 0x1_0000_0000_0000_0000_0000_0000_0000_00,
        limit(16) == 0x1_0000_0000_0000_0000_0000_0000_0000_0000,
{
    reveal_with_fuel(limit, 17);
}

/// The `len` bytes that store the number `n` with the low byte first.
pub open spec fn spec_le_bytes(n: nat, len: nat) -> Seq<u8>
    decreases len,
{
    if len == 0 {
        Seq::empty()
    } else {
        seq![(n % 256) as u8] + spec_le_bytes(n / 256, (len - 1) as nat)
    }
}

/// The `len` bytes that store the number `n` with the high byte first.
pub open spec fn spec_be_bytes(n: nat, len: nat) -> Seq<u8>
    decreases len,
{
    if len == 0 {
        Seq::empty()
    } else {
        spec_be_bytes(n / 256, (len - 1) as nat).push((n % 256) as u8)
    }
}

/// The bytes that store a number are as many as asked for.
pub proof fn lemma_bytes_len(n: nat, len: nat)
    ensures
        spec_le_bytes(n, len).len() == len,
        spec_be_bytes(n, len).len() == len,
    decreases len,
{
    if len > 0 {
        lemma_bytes_len(n / 256, (len - 1) as nat);
    }
}

/// Reading is the inverse of storing: a number that `len` bytes can
/// hold is read back from the bytes that store it, in either byte order.
pub proof fn lemma_stored_number_is_read_back(n: nat, len: nat)
    requires
        n < limit(len),
    ensures
        spec_unsigned(spec_le_bytes(n, len), true) == n,
        spec_unsigned(spec_be_bytes(n, len), false) == n,
    decreases len,
{
    if len > 0 {
        let rest = (len - 1) as nat;
        lemma_stored_number_is_read_back(n / 256, rest);
        lemma_bytes_len(n / 256, rest);
        let le = spec_le_bytes(n, len);
        assert(le.subrange(1, le.len() as int) == spec_le_bytes(n / 256, rest));
        assert(le[0] == (n % 256) as u8);
        let be = spec_be_bytes(n, len);
        assert(be.drop_last() == spec_be_bytes(n / 256, rest));
        assert(be.last() == (n % 256) as u8);
    }
}

/// Reads an unsigned number of up to sixteen bytes.
pub fn unsigned(bytes: &[u8], little_endian: bool) -> (r: u128)
    requires
        bytes@.len() <= 16,
    ensures
        r == spec_unsigned(bytes@, little_endian),
        r < limit(bytes@.len()),
{
    let n = bytes.len();
    let mut acc: u128 = 0;
    proof {
        lemma_limits();
    }
    if little_endian {
        let mut i: usize = n;
        assert(bytes@.subrange(n as int, n as int).len() == 0);
        while i > 0
            invariant
                i <= n,
                n == bytes@.len(),
                n <= 16,
                acc == spec_le(bytes@.subrange(i as int, n as int)),
                acc < limit((n - i) as nat),
            decreases i,
        {
            let ghost rest = bytes@.subrange(i as int, n as int);
            i -= 1;
            proof {
                let all = bytes@.subrange(i as int, n as int);
                assert(all.subrange(1, all.len() as int) == rest);
                assert(all[0] == bytes@[i as int]);
                lemma_limit_grows((n - i) as nat, 16);
                lemma_limits();
            }
            acc = acc * 256 + bytes[i] as u128;
        }
        assert(bytes@.subrange(0, n as int) == bytes@);
    } else {
        let mut i: usize = 0;
        assert(bytes@.take(0).len() == 0);
        while i < n
            invariant
                i <= n,
                n == bytes@.len(),
                n <= 16,
                acc == spec_be(bytes@.take(i as int)),
                acc < limit(i as nat),
            decreases n - i,
        {
            proof {
                let all = bytes@.take(i + 1);
                assert(all.drop_last() == bytes@.take(i as int));
                assert(all.last() == bytes@[i as int]);
                lemma_limit_grows((i + 1) as nat, 16);
                lemma_limits();
            }
            acc = acc * 256 + bytes[i] as u128;
            i += 1;
        }
        assert(bytes@.take(n as int) == bytes@);
    }
    acc
}

/// Reads a signed number of up to sixteen bytes, in two's complement.
pub fn signed(bytes: &[u8], little_endian: bool) -> (r: i128)
    requires
        bytes@.len() <= 16,
    ensures
        r == spec_signed(bytes@, little_endian),
        -limit(bytes@.len()) <= 2 * r < limit(bytes@.len()),
{
    let u = unsigned(bytes, little_endian);
    let n = bytes.len();
    if n == 0 {
        return 0;
    }
    let mut half: u128 = 128;
    let mut k: usize = 1;
    proof {
        lemma_limits();
    }
    while k < n
        invariant
            1 <= k <= n,
            n <= 16,
            half == 128 * limit((k - 1) as nat),
        decreases n - k,
    {
        proof {
            lemma_limit_grows(k as nat, 15);
            lemma_limits();
        }
        half = half * 256;
        k += 1;
    }
    proof {
        lemma_limit_grows((n - 1) as nat, 15);
        lemma_limits();
        assert(2 * half == limit(n as nat));
    }
    if u >= half {
        let low = (u - half) as i128;
        low - ((half - 1) as i128) - 1
    } else {
        u as i128
    }
}

} // verus!
