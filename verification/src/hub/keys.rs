//! Storage keys and pagination of the hub.

use vstd::prelude::*;
use vstd::arithmetic::div_mod::{lemma_div_denominator, lemma_div_is_ordered, lemma_fundamental_div_mod};

verus! {

/// The largest page of unbond history that a query returns.
pub const MAX_LIMIT: u32 = 100;
/// The page size when the query names none.
pub const DEFAULT_LIMIT: u32 = 10;

/// The key made of `namespace` followed by `key`.
pub fn concat(namespace: &[u8], key: &[u8]) -> (r: Vec<u8>)
    ensures
        r@ == namespace@ + key@,
{
    let mut k: Vec<u8> = Vec::new();
    let mut i: usize = 0;
    while i < namespace.len()
        invariant
            i <= namespace.len(),
            k@ == namespace@.subrange(0, i as int),
        decreases namespace.len() - i,
    {
        k.push(namespace[i]);
        i = i + 1;
        assert(k@ == namespace@.subrange(0, i as int));
    }
    let mut j: usize = 0;
    while j < key.len()
        invariant
            j <= key.len(),
            k@ == namespace@ + key@.subrange(0, j as int),
        decreases key.len() - j,
    {
        k.push(key[j]);
        j = j + 1;
        assert(k@ == namespace@ + key@.subrange(0, j as int));
    }
    assert(key@.subrange(0, key.len() as int) == key@);
    k
}

/// The eight big-endian bytes of `x`.
pub open spec fn be_bytes(x: u64) -> Seq<u8> {
    Seq::new(8, |i: int| ((x as int / pow256(7 - i)) % 256) as u8)
}

/// `256^n`.
pub open spec fn pow256(n: int) -> int
    decreases n,
{
    if n <= 0 { 1 } else { 256 * pow256(n - 1) }
}

/// The key that a page starts after: the batch id in big-endian bytes with a
/// trailing one, so that the page begins with the next batch.
pub fn convert(start_after: Option<u64>) -> (r: Option<Vec<u8>>)
    ensures
        start_after is None ==> r is None,
        start_after matches Some(idx) ==> (r matches Some(v) && v@ == be_bytes(idx).push(1u8)),
{
    match start_after {
        None => None,
        Some(idx) => {
            let mut v: Vec<u8> = Vec::new();
            let mut i: usize = 0;
            while i < 8
                invariant
                    i <= 8,
                    v@ == be_bytes(idx).subrange(0, i as int),
                decreases 8 - i,
            {
                let shift: u64 = (7 - i as u64) * 8;
                let b: u8 = ((idx >> shift) & 0xff) as u8;
                proof { lemma_byte(idx, i as int); }
                v.push(b);
                i = i + 1;
                assert(v@ == be_bytes(idx).subrange(0, i as int));
            }
            assert(be_bytes(idx).subrange(0, 8) == be_bytes(idx));
            v.push(1);
            Some(v)
        },
    }
}

proof fn lemma_byte(x: u64, i: int)
    requires
        0 <= i < 8,
    ensures
        (((x >> ((7 - i) as u64 * 8) as u64) & 0xff) as u8) == ((x as int / pow256(7 - i)) % 256) as u8,
{
    reveal_with_fuel(pow256, 8);
    let s = ((7 - i) * 8) as u64;
    assert(s < 64);
    let p = pow256(7 - i);
    assert(x >> s == x / (p as u64)) by {
        if i == 0 { assert(x >> 56u64 == x / 0x100000000000000u64) by (bit_vector); }
        else if i == 1 { assert(x >> 48u64 == x / 0x1000000000000u64) by (bit_vector); }
        else if i == 2 { assert(x >> 40u64 == x / 0x10000000000u64) by (bit_vector); }
        else if i == 3 { assert(x >> 32u64 == x / 0x100000000u64) by (bit_vector); }
        else if i == 4 { assert(x >> 24u64 == x / 0x1000000u64) by (bit_vector); }
        else if i == 5 { assert(x >> 16u64 == x / 0x10000u64) by (bit_vector); }
        else if i == 6 { assert(x >> 8u64 == x / 0x100u64) by (bit_vector); }
        else { assert(x >> 0u64 == x / 1u64) by (bit_vector); }
    }
    let q = x / (p as u64);
    assert((q & 0xff) as u8 == (q % 256) as u8) by (bit_vector);
}

/// The size of a page of unbond history: the limit asked for, ten when none
/// is, and never more than a hundred.
pub fn page_limit(limit: Option<u32>) -> (r: usize)
    ensures
        r == (match limit {
            Some(l) => if l < MAX_LIMIT { l } else { MAX_LIMIT },
            None => DEFAULT_LIMIT,
        }),
{
    let l = match limit {
        Some(l) => l,
        None => DEFAULT_LIMIT,
    };
    let m = if l < MAX_LIMIT { l } else { MAX_LIMIT };
    m as usize
}

/// Whether `a` and `b` agree before position `k` and `a` comes first there: it
/// has the smaller byte at `k`, or it ends at `k` while `b` goes on.
pub open spec fn first_difference(a: Seq<u8>, b: Seq<u8>, k: int) -> bool {
    &&& 0 <= k <= a.len()
    &&& k <= b.len()
    &&& a.take(k) == b.take(k)
    &&& (k < a.len() && k < b.len() && a[k] < b[k]) || (k == a.len() && k < b.len())
}

/// The order of storage keys: byte by byte, a key before its extensions.
pub open spec fn key_before(a: Seq<u8>, b: Seq<u8>) -> bool {
    exists|k: int| #[trigger] first_difference(a, b, k)
}

/// The order of storage keys is strict: no key comes both before and after another.
pub proof fn lemma_key_before_asymmetric(a: Seq<u8>, b: Seq<u8>)
    ensures
        key_before(a, b) ==> !key_before(b, a),
{
    if key_before(a, b) && key_before(b, a) {
        let k1 = choose|k: int| #[trigger] first_difference(a, b, k);
        let k2 = choose|k: int| #[trigger] first_difference(b, a, k);
        if k1 < k2 {
            assert(a.take(k2)[k1] == b.take(k2)[k1]);
        } else if k2 < k1 {
            assert(a.take(k1)[k2] == b.take(k1)[k2]);
        }
    }
}

proof fn lemma_pow256_positive(n: int)
    ensures
        pow256(n) > 0,
    decreases n,
{
    if n > 0 {
        lemma_pow256_positive(n - 1);
    }
}

/// The number made of the first `k` big-endian bytes of `x`.
spec fn leading(x: u64, k: int) -> int {
    x as int / pow256(8 - k)
}

proof fn lemma_leading_step(x: u64, k: int)
    requires
        0 <= k < 8,
    ensures
        leading(x, k) == leading(x, k + 1) / 256,
        leading(x, k + 1) == 256 * leading(x, k) + leading(x, k + 1) % 256,
        be_bytes(x)[k] as int == leading(x, k + 1) % 256,
{
    lemma_pow256_positive(7 - k);
    assert(pow256(8 - k) == pow256(7 - k) * 256);
    lemma_div_denominator(x as int, pow256(7 - k), 256);
    lemma_fundamental_div_mod(leading(x, k + 1), 256);
}

proof fn lemma_leading_ends(x: u64)
    ensures
        leading(x, 0) == 0,
        leading(x, 8) == x,
{
    reveal_with_fuel(pow256, 9);
    assert(pow256(8) == 0x1_0000_0000_0000_0000int);
    assert(pow256(0) == 1);
    let v = x as int;
    assert(v / 0x1_0000_0000_0000_0000int == 0 && v / 1 == v) by (nonlinear_arith)
        requires 0 <= v < 0x1_0000_0000_0000_0000int;
}

proof fn lemma_first_byte_difference(x: u64, y: u64, k: int)
    requires
        x < y,
        0 <= k <= 8,
        leading(x, k) == leading(y, k),
        be_bytes(x).take(k) == be_bytes(y).take(k),
    ensures
        exists|j: int| j < 8 && #[trigger] first_difference(be_bytes(x), be_bytes(y), j),
    decreases 8 - k,
{
    lemma_leading_ends(x);
    lemma_leading_ends(y);
    if k < 8 {
        lemma_leading_step(x, k);
        lemma_leading_step(y, k);
        lemma_pow256_positive(7 - k);
        lemma_div_is_ordered(x as int, y as int, pow256(7 - k));
        if leading(x, k + 1) == leading(y, k + 1) {
            assert(be_bytes(x).take(k + 1) == be_bytes(x).take(k).push(be_bytes(x)[k]));
            assert(be_bytes(y).take(k + 1) == be_bytes(y).take(k).push(be_bytes(y)[k]));
            lemma_first_byte_difference(x, y, k + 1);
        } else {
            assert(first_difference(be_bytes(x), be_bytes(y), k));
        }
    }
}

/// A smaller id has an earlier key: the big-endian bytes of `x < y` first
/// differ within the eight bytes, with the smaller byte in `x`.
pub proof fn lemma_be_bytes_ordered(x: u64, y: u64)
    requires
        x < y,
    ensures
        exists|j: int| j < 8 && #[trigger] first_difference(be_bytes(x), be_bytes(y), j),
{
    lemma_leading_ends(x);
    lemma_leading_ends(y);
    assert(be_bytes(x).take(0) == be_bytes(y).take(0));
    lemma_first_byte_difference(x, y, 0);
}

} // verus!
