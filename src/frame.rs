//! Frame delimitation: each frame is a base-128 varint length followed by
//! that many bytes of payload.
use vstd::prelude::*;
use vstd::arithmetic::power2::{lemma2_to64, lemma2_to64_rest, lemma_pow2_adds, lemma_pow2_pos, pow2};
use vstd::bits::lemma_u64_shl_is_mul;

verus! {

/// At most this many bytes make a varint.
pub const MAX_VARINT_BYTES: usize = 10;

/// The value of little-endian base-128 digits: the low seven bits of each
/// byte, least significant first.
pub open spec fn varint_sum(b: Seq<u8>) -> nat
    decreases b.len(),
{
    if b.len() == 0 {
        0
    } else {
        varint_sum(b.drop_last()) + (b.last() % 128) as nat * pow2((7 * (b.len() - 1)) as nat)
    }
}

/// The value as a 64-bit integer (bits beyond the 64th are dropped).
pub open spec fn varint_value(b: Seq<u8>) -> u64 {
    (varint_sum(b) % pow2(64)) as u64
}

/// Every byte carries the continuation bit.
pub open spec fn all_continue(b: Seq<u8>) -> bool {
    forall|j: int| 0 <= j < b.len() ==> b[j] >= 128
}

/// `b` is one complete varint: continuation bits on every byte but the last.
pub open spec fn is_varint(b: Seq<u8>) -> bool {
    &&& 1 <= b.len() <= MAX_VARINT_BYTES
    &&& all_continue(b.drop_last())
    &&& b.last() < 128
}

#[derive(Debug, Clone, Copy, PartialEq, Eq, Structural)]
pub enum FrameError {
    /// Ten bytes all carried the continuation bit.
    VarintTooLong,
    /// The input ended inside a length prefix or a payload.
    Truncated,
}

#[derive(Debug, Clone, Copy, PartialEq, Eq, Structural)]
pub enum VarintStep {
    /// The byte ended the varint, whose value this is.
    Done(u64),
    /// The byte carried the continuation bit.
    NeedMore,
    /// The tenth byte carried the continuation bit.
    TooLong,
}

/// Incremental varint decoder, fed one byte at a time.
pub struct VarintReader {
    value: u64,
    count: usize,
    bytes: Ghost<Seq<u8>>,
}

proof fn lemma_sum_bound(b: Seq<u8>)
    ensures
        varint_sum(b) < pow2((7 * b.len()) as nat),
    decreases b.len(),
{
    if b.len() == 0 {
        lemma_pow2_pos(0);
    } else {
        let k = (b.len() - 1) as nat;
        let pk = pow2(7 * k);
        lemma_sum_bound(b.drop_last());
        assert(b.drop_last().len() == k);
        assert(varint_sum(b.drop_last()) < pk);
        let x = (b.last() % 128) as nat;
        assert(varint_sum(b) == varint_sum(b.drop_last()) + x * pk);
        lemma_pow2_adds(7 * k, 7);
        lemma2_to64();
        assert(pow2(7 * k + 7) == pk * 128);
        assert(x * pk <= 127 * pk) by (nonlinear_arith)
            requires
                x <= 127,
        ;
        assert((7 * b.len()) as nat == 7 * k + 7);
    }
}

impl VarintReader {
    /// The bytes fed since the last varint ended.
    pub closed spec fn pending(&self) -> Seq<u8> {
        self.bytes@
    }

    pub closed spec fn wf(&self) -> bool {
        &&& self.count == self.bytes@.len()
        &&& self.count < MAX_VARINT_BYTES
        &&& all_continue(self.bytes@)
        &&& self.value as nat == varint_sum(self.bytes@)
    }

    pub fn new() -> (r: VarintReader)
        ensures
            r.wf(),
            r.pending() == Seq::<u8>::empty(),
    {
        VarintReader { value: 0, count: 0, bytes: Ghost(Seq::empty()) }
    }

    /// Feeds one byte.  A finished or overlong varint starts the reader over.
    pub fn push(&mut self, byte: u8) -> (r: VarintStep)
        requires
            old(self).wf(),
        ensures
            final(self).wf(),
            ({
                let b = old(self).pending().push(byte);
                if byte < 128 {
                    &&& r == VarintStep::Done(varint_value(b))
                    &&& final(self).pending() == Seq::<u8>::empty()
                } else if b.len() == MAX_VARINT_BYTES {
                    &&& r == VarintStep::TooLong
                    &&& final(self).pending() == Seq::<u8>::empty()
                } else {
                    &&& r == VarintStep::NeedMore
                    &&& final(self).pending() == b
                }
            }),
    {
        let ghost b = self.bytes@.push(byte);
        let x: u64 = (byte & 0x7f) as u64;
        let shift: u64 = 7 * self.count as u64;
        proof {
            assert(x == byte % 128) by (bit_vector)
                requires
                    x == (byte & 0x7f) as u64,
            ;
            assert(b.drop_last() =~= self.bytes@);
            lemma_sum_bound(self.bytes@);
            lemma2_to64();
            lemma2_to64_rest();
            lemma_pow2_pos(shift as nat);
            let r = self.value;
            let one: u64 = 1;
            lemma_u64_shl_is_mul(one, shift);
            if shift < 63 {
                assert(x * pow2(shift as nat) < pow2(63)) by {
                    lemma_pow2_adds(shift as nat, (63 - shift) as nat);
                    lemma_pow2_adds(7, (56 - shift) as nat);
                    lemma_pow2_pos((56 - shift) as nat);
                    assert(x * pow2(shift as nat) < 128 * pow2(shift as nat)) by (nonlinear_arith)
                        requires
                            x < 128,
                            pow2(shift as nat) > 0,
                    ;
                    assert(128 * pow2(shift as nat) <= pow2(63)) by (nonlinear_arith)
                        requires
                            pow2(63) == pow2(shift as nat) * pow2((63 - shift) as nat),
                            pow2((63 - shift) as nat) == 128 * pow2((56 - shift) as nat),
                            pow2((56 - shift) as nat) >= 1,
                    ;
                }
                lemma_u64_shl_is_mul(x, shift);
                assert((r + (x << shift)) as nat == varint_sum(b));
                assert(varint_sum(b) < pow2(64));
                vstd::arithmetic::div_mod::lemma_small_mod(varint_sum(b), pow2(64));
            } else {
                assert(shift == 63);
                assert((x << shift) == (x % 2) * 0x8000_0000_0000_0000u64) by (bit_vector)
                    requires
                        shift == 63,
                ;
                let p: int = pow2(63) as int;
                assert(p == 0x8000_0000_0000_0000);
                assert(pow2(64) as int == 2 * p);
                assert(varint_sum(b) == r + x * p);
                let m: int = x as int % 2;
                let q: int = x as int / 2;
                assert(r + x * p == (2 * p) * q + (r + m * p)) by (nonlinear_arith)
                    requires
                        x == 2 * q + m,
                ;
                vstd::arithmetic::div_mod::lemma_mod_multiples_vanish(q, r + m * p, 2 * p);
                vstd::arithmetic::div_mod::lemma_small_mod((r + m * p) as nat, (2 * p) as nat);
            }
        }
        let v = self.value + (x << shift);
        if byte < 128 {
            self.value = 0;
            self.count = 0;
            self.bytes = Ghost(Seq::empty());
            VarintStep::Done(v)
        } else if self.count + 1 == MAX_VARINT_BYTES {
            self.value = 0;
            self.count = 0;
            self.bytes = Ghost(Seq::empty());
            VarintStep::TooLong
        } else {
            self.value = v;
            self.count = self.count + 1;
            self.bytes = Ghost(b);
            proof {
                assert(v as nat == varint_sum(b) % pow2(64));
                lemma_sum_bound(b);
                assert(pow2((7 * b.len()) as nat) <= pow2(64)) by {
                    lemma_pow2_adds((7 * b.len()) as nat, (64 - 7 * b.len()) as nat);
                    lemma_pow2_pos((64 - 7 * b.len()) as nat);
                    assert(pow2((7 * b.len()) as nat) * pow2((64 - 7 * b.len()) as nat) >= pow2((7 * b.len()) as nat) * 1) by (nonlinear_arith)
                        requires pow2((64 - 7 * b.len()) as nat) >= 1;
                }
                vstd::arithmetic::div_mod::lemma_small_mod(varint_sum(b), pow2(64));
                assert(all_continue(b));
            }
            VarintStep::NeedMore
        }
    }
}

/// One past the first byte without the continuation bit, among the bytes
/// from `i` on and within the first ten.
pub open spec fn stop_index(b: Seq<u8>, i: nat) -> Option<nat>
    decreases MAX_VARINT_BYTES - i,
{
    if i >= MAX_VARINT_BYTES || i >= b.len() {
        None
    } else if b[i as int] < 128 {
        Some(i + 1)
    } else {
        stop_index(b, i + 1)
    }
}

proof fn lemma_stop_index_bounds(b: Seq<u8>, i: nat)
    ensures
        stop_index(b, i) matches Some(n) ==> i < n <= b.len() && n <= MAX_VARINT_BYTES,
    decreases MAX_VARINT_BYTES - i,
{
    if i < MAX_VARINT_BYTES && i < b.len() && b[i as int] >= 128 {
        lemma_stop_index_bounds(b, i + 1);
    }
}

/// What a varint at the start of `b` reads as: its value and length.
pub open spec fn varint_at(b: Seq<u8>) -> Result<(u64, nat), FrameError> {
    match stop_index(b, 0) {
        Some(n) => Ok((varint_value(b.take(n as int)), n)),
        None => if b.len() >= MAX_VARINT_BYTES {
            Err(FrameError::VarintTooLong)
        } else {
            Err(FrameError::Truncated)
        },
    }
}

/// Where the first frame of `b` lies: `Ok(None)` at the end of the input,
/// else the payload's start and end.
pub open spec fn frame_at(b: Seq<u8>) -> Result<Option<(nat, nat)>, FrameError> {
    if b.len() == 0 {
        Ok(None)
    } else {
        match varint_at(b) {
            Err(e) => Err(e),
            Ok((v, n)) => if n + v > b.len() {
                Err(FrameError::Truncated)
            } else {
                Ok(Some((n, (n + v) as nat)))
            },
        }
    }
}

/// Reads the varint at the start of `buf`.
pub fn read_varint(buf: &[u8]) -> (r: Result<(u64, usize), FrameError>)
    ensures
        match varint_at(buf@) {
            Ok((v, n)) => r == Ok::<(u64, usize), FrameError>((v, n as usize)),
            Err(e) => r == Err::<(u64, usize), FrameError>(e),
        },
{
    let mut reader = VarintReader::new();
    let mut i: usize = 0;
    while i < buf.len()
        invariant
            reader.wf(),
            i <= buf@.len(),
            i < MAX_VARINT_BYTES,
            reader.pending() == buf@.take(i as int),
            stop_index(buf@, 0) == stop_index(buf@, i as nat),
        decreases buf@.len() - i,
    {
        let ghost before = reader.pending();
        let step = reader.push(buf[i]);
        proof {
            assert(before.push(buf@[i as int]) =~= buf@.take(i as int + 1));
        }
        proof {
            if buf@[i as int] >= 128 {
                assert(stop_index(buf@, i as nat) == stop_index(buf@, i as nat + 1));
            }
        }
        match step {
            VarintStep::Done(v) => {
                return Ok((v, i + 1));
            },
            VarintStep::TooLong => {
                return Err(FrameError::VarintTooLong);
            },
            VarintStep::NeedMore => {},
        }
        i += 1;
    }
    Err(FrameError::Truncated)
}

/// Locates the first frame of `buf` (see `frame_at`).
pub fn split_frame(buf: &[u8]) -> (r: Result<Option<(usize, usize)>, FrameError>)
    ensures
        match frame_at(buf@) {
            Ok(Some((start, end))) => r == Ok::<Option<(usize, usize)>, FrameError>(
                Some((start as usize, end as usize)),
            ),
            Ok(None) => r == Ok::<Option<(usize, usize)>, FrameError>(None),
            Err(e) => r == Err::<Option<(usize, usize)>, FrameError>(e),
        },
{
    if buf.len() == 0 {
        return Ok(None);
    }
    let (len, n) = read_varint(buf)?;
    proof {
        lemma_stop_index_bounds(buf@, 0);
    }
    if len > (buf.len() - n) as u64 {
        return Err(FrameError::Truncated);
    }
    Ok(Some((n, n + len as usize)))
}

} // verus!
