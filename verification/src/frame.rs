//! Length-prefixed framing of encoded log records.
//!
//! A log file is a sequence of frames; a frame is the big-endian length
//! of one encoded record followed by the record's bytes. The `log`
//! backend writes 4-byte prefixes, the `tracing` layer 8-byte prefixes.

use vstd::prelude::*;

verus! {

/// The 4-byte big-endian encoding of `n` (taken modulo 2^32).
pub open spec fn be32(n: nat) -> Seq<u8> {
    seq![
        ((n / 0x100_0000) % 0x100) as u8,
        ((n / 0x1_0000) % 0x100) as u8,
        ((n / 0x100) % 0x100) as u8,
        (n % 0x100) as u8,
    ]
}

/// The 8-byte big-endian encoding of `n` (taken modulo 2^64): the
/// encodings of its high and low 32-bit halves.
pub open spec fn be64(n: nat) -> Seq<u8> {
    be32((n / 0x1_0000_0000) % 0x1_0000_0000) + be32(n % 0x1_0000_0000)
}

/// 256 to the power `n`.
pub open spec fn pow256(n: nat) -> nat
    decreases n,
{
    if n == 0 {
        1
    } else {
        256 * pow256((n - 1) as nat)
    }
}

/// The number that `s` encodes in big-endian byte order.
pub open spec fn be_value(s: Seq<u8>) -> nat
    decreases s.len(),
{
    if s.len() == 0 {
        0
    } else {
        be_value(s.drop_last()) * 256 + (s.last() as nat)
    }
}

/// The `width`-byte big-endian encoding of `n`, for the two prefix
/// widths in use.
pub open spec fn be_width(n: nat, width: nat) -> Seq<u8> {
    if width == 4 {
        be32(n)
    } else {
        be64(n)
    }
}

/// One 4-byte-prefixed frame around `payload`.
pub open spec fn frame32(payload: Seq<u8>) -> Seq<u8> {
    be32(payload.len()) + payload
}

/// One 8-byte-prefixed frame around `payload`.
pub open spec fn frame64(payload: Seq<u8>) -> Seq<u8> {
    be64(payload.len()) + payload
}

/// The frames of `payloads` with `width`-byte prefixes, one after the other.
pub open spec fn concat_frames(payloads: Seq<Seq<u8>>, width: nat) -> Seq<u8>
    decreases payloads.len(),
{
    if payloads.len() == 0 {
        Seq::empty()
    } else {
        be_width(payloads[0].len(), width) + payloads[0] + concat_frames(payloads.drop_first(), width)
    }
}

/// The payloads of the first `nums` frames of `data`, whose prefixes are
/// `width` bytes long (all frames when the data ends first), or `None`
/// when one of those frames is cut short.
pub open spec fn frames(data: Seq<u8>, width: nat, nums: nat) -> Option<Seq<Seq<u8>>>
    decreases data.len(),
{
    if data.len() == 0 || nums == 0 || width == 0 {
        Some(Seq::empty())
    } else if data.len() < width {
        None
    } else {
        let size = be_value(data.take(width as int)) as int;
        if data.len() - width < size {
            None
        } else {
            match frames(data.skip(width + size), width, (nums - 1) as nat) {
                Some(rest) => Some(seq![data.subrange(width as int, width + size)] + rest),
                None => None,
            }
        }
    }
}

/// The views of a sequence of byte vectors.
pub open spec fn byte_views(v: Seq<Vec<u8>>) -> Seq<Seq<u8>> {
    v.map_values(|b: Vec<u8>| b@)
}

proof fn lemma_be_value_4(s: Seq<u8>)
    requires
        s.len() == 4,
    ensures
        be_value(s) == (s[0] as nat) * 0x100_0000 + (s[1] as nat) * 0x1_0000 + (s[2] as nat) * 0x100
            + (s[3] as nat),
{
    assert(s.drop_last().drop_last().drop_last().drop_last() =~= Seq::<u8>::empty());
    reveal_with_fuel(be_value, 5);
}

proof fn lemma_be_value_concat(a: Seq<u8>, b: Seq<u8>)
    ensures
        be_value(a + b) == be_value(a) * pow256(b.len()) + be_value(b),
    decreases b.len(),
{
    if b.len() == 0 {
        assert(a + b =~= a);
        assert(pow256(0) == 1);
        assert(be_value(a) * 1 == be_value(a)) by (nonlinear_arith);
    } else {
        assert(pow256(b.len()) == 256 * pow256((b.len() - 1) as nat));
        assert(be_value(b) == be_value(b.drop_last()) * 256 + (b.last() as nat));
        assert((a + b).drop_last() =~= a + b.drop_last());
        assert((a + b).last() == b.last());
        lemma_be_value_concat(a, b.drop_last());
        let x = be_value(a);
        let p = pow256((b.len() - 1) as nat);
        let y = be_value(b.drop_last());
        assert((x * p + y) * 256 + (b.last() as nat) == x * (256 * p) + (y * 256 + (b.last() as nat)))
            by (nonlinear_arith);
    }
}

#[verifier::spinoff_prover]
proof fn lemma_be32_value(n: nat)
    requires
        n < 0x1_0000_0000,
    ensures
        be_value(be32(n)) == n,
        be32(n).len() == 4,
{
    let b = be32(n);
    lemma_be_value_4(b);
    let b0 = (n / 0x100_0000) % 0x100;
    let b1 = (n / 0x1_0000) % 0x100;
    let b2 = (n / 0x100) % 0x100;
    let b3 = n % 0x100;
    assert(b[0] as nat == b0 && b[1] as nat == b1 && b[2] as nat == b2 && b[3] as nat == b3);
    assert(b0 * 0x100_0000 + b1 * 0x1_0000 + b2 * 0x100 + b3 == n) by (nonlinear_arith)
        requires
            n < 0x1_0000_0000,
            b0 == (n / 0x100_0000) % 0x100,
            b1 == (n / 0x1_0000) % 0x100,
            b2 == (n / 0x100) % 0x100,
            b3 == n % 0x100,
    ;
}

/// The prefix of a frame is read back as the payload's length.
proof fn lemma_be_width_value(n: nat, width: nat)
    requires
        width == 4 || width == 8,
        width == 4 ==> n < 0x1_0000_0000,
        width == 8 ==> n < 0x1_0000_0000_0000_0000,
    ensures
        be_width(n, width).len() == width,
        be_value(be_width(n, width)) == n,
{
    if width == 4 {
        lemma_be32_value(n);
    } else {
        let hi = (n / 0x1_0000_0000) % 0x1_0000_0000;
        let lo = n % 0x1_0000_0000;
        lemma_be32_value(hi);
        lemma_be32_value(lo);
        lemma_be_value_concat(be32(hi), be32(lo));
        lemma_pow256_values();
        assert(n / 0x1_0000_0000 < 0x1_0000_0000);
        assert(hi == n / 0x1_0000_0000);
        assert(n == hi * 0x1_0000_0000 + lo);
        assert(be_value(be32(hi) + be32(lo)) == hi * 0x1_0000_0000 + lo);
    }
}

fn push_bytes(out: &mut Vec<u8>, bytes: &[u8])
    ensures
        final(out)@ == old(out)@ + bytes@,
{
    let mut k: usize = 0;
    let ghost start = out@;
    while k < bytes.len()
        invariant
            k <= bytes@.len(),
            out@ == start + bytes@.take(k as int),
        decreases bytes@.len() - k,
    {
        out.push(bytes[k]);
        k = k + 1;
        assert(bytes@.take(k as int) =~= bytes@.take((k - 1) as int).push(bytes@[k - 1]));
    }
    assert(bytes@.take(k as int) =~= bytes@);
}

/// Frames one encoded record behind its 4-byte big-endian length, as the
/// `log` backend writes it.
/// A payload of 2^32 bytes or more gets its length modulo 2^32, as the
/// `as u32` cast of the writer gives it.
pub fn frame_u32(payload: &[u8]) -> (res: Vec<u8>)
    ensures
        res@ == frame32(payload@),
{
    let n = payload.len();
    let mut out: Vec<u8> = Vec::new();
    out.push(((n / 0x100_0000) % 0x100) as u8);
    out.push(((n / 0x1_0000) % 0x100) as u8);
    out.push(((n / 0x100) % 0x100) as u8);
    out.push((n % 0x100) as u8);
    assert(out@ =~= be32(n as nat));
    push_bytes(&mut out, payload);
    out
}

/// Frames one encoded record behind its 8-byte big-endian length, as the
/// `tracing` layer writes it.
#[verifier::spinoff_prover]
pub fn frame_u64(payload: &[u8]) -> (res: Vec<u8>)
    ensures
        res@ == frame64(payload@),
{
    let n = payload.len() as u64;
    let hi = n / 0x1_0000_0000;
    let lo = n % 0x1_0000_0000;
    assert(hi as nat == (payload@.len() / 0x1_0000_0000) % 0x1_0000_0000);
    assert(lo as nat == payload@.len() % 0x1_0000_0000);
    assert(be64(payload@.len()) == be32(hi as nat) + be32(lo as nat));
    let mut out: Vec<u8> = Vec::new();
    out.push(((hi / 0x100_0000) % 0x100) as u8);
    out.push(((hi / 0x1_0000) % 0x100) as u8);
    out.push(((hi / 0x100) % 0x100) as u8);
    out.push((hi % 0x100) as u8);
    out.push(((lo / 0x100_0000) % 0x100) as u8);
    out.push(((lo / 0x1_0000) % 0x100) as u8);
    out.push(((lo / 0x100) % 0x100) as u8);
    out.push((lo % 0x100) as u8);
    assert(out@ =~= be64(payload@.len()));
    push_bytes(&mut out, payload);
    out
}

fn read_frames(data: &[u8], width: usize, nums: usize) -> (res: Option<Vec<Vec<u8>>>)
    requires
        width == 4 || width == 8,
    ensures
        match res {
            Some(v) => frames(data@, width as nat, nums as nat) == Some(byte_views(v@)),
            None => frames(data@, width as nat, nums as nat) is None,
        },
{
    let mut out: Vec<Vec<u8>> = Vec::new();
    let mut i: usize = 0;
    let mut num: usize = 0;
    assert(data@.skip(0) =~= data@);
    assert(forall|r: Seq<Seq<u8>>| byte_views(out@) + r =~= r);
    while i < data.len() && num < nums
        invariant
            width == 4 || width == 8,
            i <= data@.len(),
            num <= nums,
            frames(data@, width as nat, nums as nat) == match frames(
                data@.skip(i as int),
                width as nat,
                (nums - num) as nat,
            ) {
                Some(rest) => Some(byte_views(out@) + rest),
                None => None::<Seq<Seq<u8>>>,
            },
        decreases data@.len() - i,
    {
        let ghost tail = data@.skip(i as int);
        if data.len() - i < width {
            return None;
        }
        let mut v: u128 = 0;
        let mut j: usize = 0;
        while j < width
            invariant
                j <= width,
                width == 4 || width == 8,
                i + width <= data.len(),
                tail == data@.skip(i as int),
                v == be_value(tail.take(j as int)),
                v < 0x1_0000_0000_0000_0000,
                j <= 4 ==> v < 0x1_0000_0000,
            decreases width - j,
        {
            assert(tail.take(j + 1).drop_last() =~= tail.take(j as int));
            assert(tail.take(j + 1).last() == data@[i + j]);
            proof {
                lemma_be_bound(tail.take(j as int));
                lemma_be_bound(tail.take(j + 1));
                lemma_pow256_values();
                lemma_pow256_mono(j as nat, 8);
                lemma_pow256_mono(j as nat + 1, 8);
                if j < 4 {
                    lemma_pow256_mono(j as nat, 3);
                    lemma_pow256_mono(j as nat + 1, 4);
                }
            }
            v = v * 256 + data[i + j] as u128;
            j = j + 1;
        }
        let remaining = data.len() - i - width;
        if v > remaining as u128 {
            return None;
        }
        let size = v as usize;
        assert(size == be_value(tail.take(width as int)));
        let mut payload: Vec<u8> = Vec::new();
        let mut k: usize = 0;
        while k < size
            invariant
                k <= size,
                i + width + size <= data.len(),
                payload@ == data@.subrange(i + width, i + width + k),
            decreases size - k,
        {
            payload.push(data[i + width + k]);
            k = k + 1;
            assert(payload@ =~= data@.subrange(i + width, i + width + k));
        }
        assert(tail.subrange(width as int, width + size) =~= payload@);
        assert(tail.skip(width + size) =~= data@.skip(i + width + size));
        let ghost prev = out@;
        out.push(payload);
        assert(byte_views(out@) =~= byte_views(prev) + seq![payload@]);
        i = i + width + size;
        num = num + 1;
        assert(byte_views(prev) + (seq![payload@] + frames(
            data@.skip(i as int),
            width as nat,
            (nums - num) as nat,
        )->0) =~= byte_views(out@) + frames(data@.skip(i as int), width as nat, (nums - num) as nat)->0);
    }
    assert(frames(data@.skip(i as int), width as nat, (nums - num) as nat) == Some(
        Seq::<Seq<u8>>::empty(),
    ));
    assert(byte_views(out@) + Seq::<Seq<u8>>::empty() =~= byte_views(out@));
    Some(out)
}

proof fn lemma_be_bound(s: Seq<u8>)
    ensures
        be_value(s) < pow256(s.len()),
    decreases s.len(),
{
    if s.len() > 0 {
        lemma_be_bound(s.drop_last());
    }
}

proof fn lemma_pow256_values()
    ensures
        pow256(3) == 0x100_0000,
        pow256(4) == 0x1_0000_0000,
        pow256(8) == 0x1_0000_0000_0000_0000,
{
    reveal_with_fuel(pow256, 9);
}

/// Powers of 256 grow with the exponent.
pub(crate) proof fn lemma_pow256_mono(a: nat, b: nat)
    requires
        a <= b,
    ensures
        pow256(a) <= pow256(b),
    decreases b,
{
    if a < b {
        lemma_pow256_mono(a, (b - 1) as nat);
    }
}

/// Splits a stream of 4-byte-prefixed frames, as the `log` backend
/// writes them, into the payloads of its first `nums` frames; `None`
/// when one of those frames is cut short.
pub fn parse_frames(data: &[u8], nums: usize) -> (res: Option<Vec<Vec<u8>>>)
    ensures
        match res {
            Some(v) => frames(data@, 4, nums as nat) == Some(byte_views(v@)),
            None => frames(data@, 4, nums as nat) is None,
        },
{
    read_frames(data, 4, nums)
}

/// Splits a stream of 8-byte-prefixed frames, as the `tracing` layer
/// writes them, into the payloads of its first `nums` frames; `None`
/// when one of those frames is cut short.
pub fn parse_frames64(data: &[u8], nums: usize) -> (res: Option<Vec<Vec<u8>>>)
    ensures
        match res {
            Some(v) => frames(data@, 8, nums as nat) == Some(byte_views(v@)),
            None => frames(data@, 8, nums as nat) is None,
        },
{
    read_frames(data, 8, nums)
}

/// Reading frames back gives what was framed: the frames of `payloads`,
/// written one after another with 4- or 8-byte prefixes, parse into
/// those payloads (as many as asked for), as long as every length fits
/// its prefix.
pub proof fn lemma_frames_roundtrip(payloads: Seq<Seq<u8>>, width: nat, nums: nat)
    requires
        width == 4 || width == 8,
        forall|j: int|
            0 <= j < payloads.len() ==> (width == 4 ==> #[trigger] payloads[j].len() < 0x1_0000_0000)
                && (width == 8 ==> payloads[j].len() < 0x1_0000_0000_0000_0000),
    ensures
        frames(concat_frames(payloads, width), width, nums) == Some(
            payloads.take(if nums < payloads.len() { nums as int } else { payloads.len() as int }),
        ),
    decreases payloads.len(),
{
    let data = concat_frames(payloads, width);
    if payloads.len() == 0 {
        assert(payloads.take(0) =~= Seq::<Seq<u8>>::empty());
    } else if nums == 0 {
        assert(payloads.take(0) =~= Seq::<Seq<u8>>::empty());
    } else {
        let p = payloads[0];
        let rest = concat_frames(payloads.drop_first(), width);
        assert(width == 4 ==> p.len() < 0x1_0000_0000);
        lemma_be_width_value(p.len(), width);
        let h = be_width(p.len(), width);
        assert(data == h + p + rest);
        assert(data.take(width as int) =~= h);
        assert(data.subrange(width as int, (width + p.len()) as int) =~= p);
        assert(data.skip((width + p.len()) as int) =~= rest);
        assert forall|j: int| 0 <= j < payloads.drop_first().len() implies (width == 4
            ==> #[trigger] payloads.drop_first()[j].len() < 0x1_0000_0000) && (width == 8
            ==> payloads.drop_first()[j].len() < 0x1_0000_0000_0000_0000) by {
            assert(payloads.drop_first()[j] == payloads[j + 1]);
        }
        lemma_frames_roundtrip(payloads.drop_first(), width, (nums - 1) as nat);
        let m = if nums < payloads.len() { nums as int } else { payloads.len() as int };
        assert(seq![p] + payloads.drop_first().take(m - 1) =~= payloads.take(m));
    }
}

/// What the writers emit is what the framing law speaks of: a 4-byte
/// frame is `be_width(len, 4) + payload`, an 8-byte frame
/// `be_width(len, 8) + payload`.
pub proof fn lemma_frame_shapes(payload: Seq<u8>)
    ensures
        frame32(payload) == be_width(payload.len(), 4) + payload,
        frame64(payload) == be_width(payload.len(), 8) + payload,
{
}

} // verus!
