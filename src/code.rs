use vstd::prelude::*;

verus! {

/// The HMAC-SHA1 tag of `msg` under `key`.
pub uninterp spec fn hmac_sha1(key: Seq<u8>, msg: Seq<u8>) -> Seq<u8>;

/// Relies on rust-crypto's `Hmac<Sha1>`: `Hmac::new` keyed with `key`, one `input`
/// of `msg`, then `result().code()`, a 20-byte SHA-1 sized tag.
#[verifier::external_body]
fn hmac_sha1_tag(key: &[u8], msg: &[u8]) -> (r: Vec<u8>)
    ensures
        r@ == hmac_sha1(key@, msg@),
        r@.len() == 20,
{
    let mut mac = crypto::hmac::Hmac::new(crypto::sha1::Sha1::new(), key);
    crypto::mac::Mac::input(&mut mac, msg);
    crypto::mac::Mac::result(&mut mac).code().to_vec()
}

/// The eight bytes of `counter`, reinterpreted as unsigned, most significant first.
pub open spec fn counter_message(counter: i64) -> Seq<u8> {
    let v = counter as u64;
    seq![
        (v >> 56u64) as u8,
        (v >> 48u64) as u8,
        (v >> 40u64) as u8,
        (v >> 32u64) as u8,
        (v >> 24u64) as u8,
        (v >> 16u64) as u8,
        (v >> 8u64) as u8,
        v as u8,
    ]
}

/// The four bytes of `b` from `i` on, read as a big-endian unsigned number.
pub open spec fn be_u32_at(b: Seq<u8>, i: int) -> int {
    b[i] * 0x1000000 + b[i + 1] * 0x10000 + b[i + 2] * 0x100 + b[i + 3]
}

/// Dynamic truncation of a 20-byte tag: the low nibble of the last byte picks
/// an offset, the four bytes there are read big-endian and the top bit is cleared.
pub open spec fn truncated(tag: Seq<u8>) -> int {
    be_u32_at(tag, (tag[19] & 0x0fu8) as int) % 0x8000_0000
}

pub open spec fn pow10(n: nat) -> nat
    decreases n,
{
    if n == 0 {
        1
    } else {
        10 * pow10((n - 1) as nat)
    }
}

/// The one-time code of `key` at time step `counter`, with `digits` decimal digits.
pub open spec fn code_of(key: Seq<u8>, counter: i64, digits: nat) -> int {
    truncated(hmac_sha1(key, counter_message(counter))) % (pow10(digits) as int)
}

proof fn lemma_pow10_mono(a: nat, b: nat)
    requires
        a <= b,
    ensures
        1 <= pow10(a) <= pow10(b),
    decreases b,
{
    if b > 0 {
        if a < b {
            lemma_pow10_mono(a, (b - 1) as nat);
        } else {
            lemma_pow10_mono((a - 1) as nat, (b - 1) as nat);
        }
    }
}

proof fn lemma_pow10_bound(n: nat)
    requires
        n <= 9,
    ensures
        1 <= pow10(n) <= 1_000_000_000,
        n < 9 ==> pow10(n) <= 100_000_000,
{
    reveal_with_fuel(pow10, 10);
    if n < 9 {
        lemma_pow10_mono(n, 8);
    }
    lemma_pow10_mono(n, 9);
}

fn message_of(counter: i64) -> (r: Vec<u8>)
    ensures
        r@ == counter_message(counter),
{
    let v: u64 = counter as u64;
    let r = vec![
        (v >> 56u64) as u8,
        (v >> 48u64) as u8,
        (v >> 40u64) as u8,
        (v >> 32u64) as u8,
        (v >> 24u64) as u8,
        (v >> 16u64) as u8,
        (v >> 8u64) as u8,
        v as u8,
    ];
    assert(r@ =~= counter_message(counter));
    r
}

fn dyn_truncate(hash: &[u8]) -> (r: u32)
    requires
        hash@.len() == 20,
    ensures
        r == truncated(hash@),
{
    let last: u8 = hash[19];
    assert(last & 0x0fu8 <= 15u8) by (bit_vector);
    let offset: usize = (last & 0x0fu8) as usize;
    let v: u32 = (hash[offset] as u32) * 0x1000000 + (hash[offset + 1] as u32) * 0x10000 + (
    hash[offset + 2] as u32) * 0x100 + (hash[offset + 3] as u32);
    assert(v & 0x7fff_ffffu32 == v % 0x8000_0000) by (bit_vector);
    v & 0x7fff_ffff
}

fn pow10_exec(n: u32) -> (r: u32)
    requires
        n <= 9,
    ensures
        r == pow10(n as nat),
{
    let mut p: u32 = 1;
    let mut i: u32 = 0;
    while i < n
        invariant
            i <= n <= 9,
            p == pow10(i as nat),
        decreases n - i,
    {
        proof {
            lemma_pow10_bound(i as nat);
        }
        p = p * 10;
        i = i + 1;
    }
    p
}

/// The code of `key` at time step `counter`: HMAC-SHA1 of the step's eight
/// big-endian bytes, dynamically truncated, reduced modulo `10^digits`.
pub fn code_at(key: &[u8], counter: i64, digits: u32) -> (r: u32)
    requires
        digits <= 9,
    ensures
        r == code_of(key@, counter, digits as nat),
{
    let msg = message_of(counter);
    let tag = hmac_sha1_tag(key, msg.as_slice());
    let t = dyn_truncate(tag.as_slice());
    let m = pow10_exec(digits);
    proof {
        lemma_pow10_bound(digits as nat);
    }
    t % m
}

} // verus!
