//! Length-prefixed framing of message bodies. Each envelope goes on the
//! wire as the ASCII header `Content-Length: <n>` terminated by a blank
//! line, followed by exactly `n` body bytes. The encoder renders that frame
//! byte-exactly; the decoder accepts a canonical frame at the head of a
//! buffer, asks for more input while the frame is still incomplete, and
//! declares the connection poisoned on anything else — a framing error is
//! connection-fatal, unlike every handler-level failure.

use vstd::prelude::*;

verus! {

/// ASCII decimal rendering of a length, most significant digit first, no
/// leading zeroes.
pub open spec fn dec_digits(n: nat) -> Seq<u8>
    decreases n,
{
    if n < 10 {
        seq![(48 + n) as u8]
    } else {
        dec_digits(n / 10).push((48 + n % 10) as u8)
    }
}

/// The numeric value of an ASCII digit string.
pub open spec fn dec_value(s: Seq<u8>) -> nat
    decreases s.len(),
{
    if s.len() == 0 {
        0
    } else {
        (dec_value(s.drop_last()) * 10 + (s.last() - 48)) as nat
    }
}

/// ASCII decimal digit.
pub open spec fn is_digit(b: u8) -> bool {
    48 <= b <= 57
}

/// Every byte is an ASCII decimal digit.
pub open spec fn all_digits(s: Seq<u8>) -> bool {
    forall|i: int| 0 <= i < s.len() ==> is_digit(s[i])
}

/// The fixed header name, `Content-Length: ` in ASCII.
pub open spec fn header_prefix() -> Seq<u8> {
    seq![
        67u8, 111u8, 110u8, 116u8, 101u8, 110u8, 116u8, 45u8, 76u8, 101u8, 110u8, 103u8,
        116u8, 104u8, 58u8, 32u8,
    ]
}

/// The wire form of one message body.
pub open spec fn frame_bytes(body: Seq<u8>) -> Seq<u8> {
    header_prefix() + dec_digits(body.len()) + seq![13u8, 10u8, 13u8, 10u8] + body
}

proof fn lemma_dec_digits_are_digits(n: nat)
    ensures
        dec_digits(n).len() >= 1,
        all_digits(dec_digits(n)),
    decreases n,
{
    if n >= 10 {
        lemma_dec_digits_are_digits(n / 10);
        assert(dec_digits(n) == dec_digits(n / 10).push((48 + n % 10) as u8));
        assert forall|i: int| 0 <= i < dec_digits(n).len() implies is_digit(dec_digits(n)[i]) by {
            if i < dec_digits(n / 10).len() {
                assert(dec_digits(n)[i] == dec_digits(n / 10)[i]);
            }
        }
    }
}

proof fn lemma_dec_digits_value(n: nat)
    ensures
        dec_value(dec_digits(n)) == n,
    decreases n,
{
    if n < 10 {
        assert(dec_value(Seq::<u8>::empty()) == 0);
        assert(dec_digits(n).drop_last() =~= Seq::<u8>::empty());
        assert(dec_digits(n).last() == (48 + n) as u8);
    } else {
        lemma_dec_digits_value(n / 10);
        assert(dec_digits(n).drop_last() =~= dec_digits(n / 10));
        assert(dec_digits(n).last() == (48 + n % 10) as u8);
    }
}

proof fn lemma_dec_digits_first_nonzero(n: nat)
    requires
        n >= 1,
    ensures
        dec_digits(n)[0] != 48,
    decreases n,
{
    if n >= 10 {
        lemma_dec_digits_first_nonzero(n / 10);
        assert(dec_digits(n)[0] == dec_digits(n / 10)[0]);
    }
}

proof fn lemma_dec_value_prefix_le(s: Seq<u8>, i: int)
    requires
        all_digits(s),
        0 <= i <= s.len(),
    ensures
        dec_value(s.take(i)) <= dec_value(s),
    decreases s.len(),
{
    if i < s.len() {
        let t = s.drop_last();
        assert(s.take(i) =~= t.take(i));
        assert(all_digits(t)) by {
            assert forall|k: int| 0 <= k < t.len() implies is_digit(t[k]) by {
                assert(t[k] == s[k]);
            }
        }
        lemma_dec_value_prefix_le(t, i);
        assert(is_digit(s.last()));
    } else {
        assert(s.take(i) =~= s);
    }
}

/// The shape of a frame, broken out byte region by byte region.
proof fn lemma_frame_fields(b: Seq<u8>)
    ensures
        frame_bytes(b).len() == 20 + dec_digits(b.len()).len() + b.len(),
        dec_digits(b.len()).len() >= 1,
        all_digits(dec_digits(b.len())),
        dec_value(dec_digits(b.len())) == b.len(),
        b.len() >= 1 ==> dec_digits(b.len())[0] != 48,
        forall|i: int| 0 <= i < 16 ==> frame_bytes(b)[i] == header_prefix()[i],
        forall|i: int|
            0 <= i < dec_digits(b.len()).len() ==> frame_bytes(b)[16 + i] == dec_digits(
                b.len(),
            )[i],
        frame_bytes(b)[(16 + dec_digits(b.len()).len()) as int] == 13,
        frame_bytes(b)[(17 + dec_digits(b.len()).len()) as int] == 10,
        frame_bytes(b)[(18 + dec_digits(b.len()).len()) as int] == 13,
        frame_bytes(b)[(19 + dec_digits(b.len()).len()) as int] == 10,
        forall|i: int|
            0 <= i < b.len() ==> frame_bytes(b)[20 + dec_digits(b.len()).len() + i] == b[i],
{
    lemma_dec_digits_are_digits(b.len());
    lemma_dec_digits_value(b.len());
    if b.len() >= 1 {
        lemma_dec_digits_first_nonzero(b.len());
    }
}

proof fn lemma_digits_value_positive(s: Seq<u8>)
    requires
        s.len() >= 1,
        all_digits(s),
        s[0] != 48,
    ensures
        dec_value(s) >= 1,
    decreases s.len(),
{
    if s.len() == 1 {
        assert(is_digit(s[0]));
    } else {
        assert(s.drop_last()[0] == s[0]);
        lemma_digits_value_positive(s.drop_last());
    }
}

/// A canonical digit string is the rendering of its own value: the decoder
/// and the encoder agree on exactly one header per length.
proof fn lemma_canonical_digits(s: Seq<u8>)
    requires
        s.len() >= 1,
        all_digits(s),
        s.len() > 1 ==> s[0] != 48,
    ensures
        dec_digits(dec_value(s)) == s,
    decreases s.len(),
{
    if s.len() == 1 {
        assert(is_digit(s[0]));
        assert(s.drop_last() =~= Seq::<u8>::empty());
        assert(dec_value(Seq::<u8>::empty()) == 0);
        assert(s.last() == s[0]);
        assert(dec_value(s) == s[0] - 48);
        assert(dec_digits(dec_value(s)) =~= s);
    } else {
        let t = s.drop_last();
        assert(t[0] == s[0]);
        lemma_digits_value_positive(t);
        let v = dec_value(s);
        assert(is_digit(s.last()));
        assert(v == dec_value(t) * 10 + (s.last() - 48));
        assert(v / 10 == dec_value(t) && v % 10 == s.last() - 48) by (nonlinear_arith)
            requires
                v == dec_value(t) * 10 + (s.last() - 48),
                0 <= s.last() - 48 < 10,
        ;
        assert(v >= 10);
        lemma_canonical_digits(t);
        assert(dec_digits(v) == dec_digits(v / 10).push((48 + v % 10) as u8));
        assert(dec_digits(v) =~= s);
    }
}

/// Appends the decimal rendering of `n`.
fn push_decimal(n: usize, out: &mut Vec<u8>)
    ensures
        final(out)@ == old(out)@ + dec_digits(n as nat),
    decreases n,
{
    if n < 10 {
        out.push(48 + (n as u8));
        assert(out@ =~= old(out)@ + dec_digits(n as nat));
    } else {
        push_decimal(n / 10, out);
        out.push(48 + ((n % 10) as u8));
        assert(out@ =~= old(out)@ + dec_digits(n as nat));
    }
}

fn header_prefix_vec() -> (v: Vec<u8>)
    ensures
        v@ == header_prefix(),
{
    let mut v: Vec<u8> = Vec::new();
    v.push(67);
    v.push(111);
    v.push(110);
    v.push(116);
    v.push(101);
    v.push(110);
    v.push(116);
    v.push(45);
    v.push(76);
    v.push(101);
    v.push(110);
    v.push(103);
    v.push(116);
    v.push(104);
    v.push(58);
    v.push(32);
    assert(v@ =~= header_prefix());
    v
}

/// Renders one message body as its wire frame, byte-exactly.
pub fn encode_frame(body: &Vec<u8>) -> (out: Vec<u8>)
    ensures
        out@ == frame_bytes(body@),
{
    let mut out = header_prefix_vec();
    push_decimal(body.len(), &mut out);
    out.push(13);
    out.push(10);
    out.push(13);
    out.push(10);
    let ghost head = out@;
    let mut k: usize = 0;
    while k < body.len()
        invariant
            k <= body@.len(),
            out@ == head + body@.take(k as int),
        decreases body@.len() - k,
    {
        out.push(body[k]);
        assert(out@ =~= head + body@.take(k + 1));
        k = k + 1;
    }
    assert(body@.take(body@.len() as int) =~= body@);
    assert(out@ =~= frame_bytes(body@));
    out
}

/// A complete frame for body `b` sits at the head of `s`.
pub open spec fn frame_at_head(s: Seq<u8>, b: Seq<u8>) -> bool {
    frame_bytes(b).len() <= s.len() && s.take(frame_bytes(b).len() as int) == frame_bytes(b)
}

proof fn lemma_head_index(s: Seq<u8>, b: Seq<u8>, i: int)
    requires
        frame_at_head(s, b),
        0 <= i < frame_bytes(b).len(),
    ensures
        s[i] == frame_bytes(b)[i],
{
    assert(s.take(frame_bytes(b).len() as int)[i] == s[i]);
}

/// The parser's digit run cannot outrun the frame's digit field: the field
/// is terminated by a byte that is no digit.
proof fn lemma_run_within(s: Seq<u8>, b: Seq<u8>, j: int)
    requires
        frame_at_head(s, b),
        16 <= j <= s.len(),
        all_digits(s.subrange(16, j)),
    ensures
        j <= 16 + dec_digits(b.len()).len(),
{
    lemma_frame_fields(b);
    let dlen = dec_digits(b.len()).len() as int;
    if 16 + dlen < j {
        lemma_head_index(s, b, 16 + dlen);
        assert(s.subrange(16, j)[dlen] == s[16 + dlen]);
        assert(is_digit(s[16 + dlen]));
        assert(false);
    }
}

/// A digit run that ends at a non-digit byte ends exactly where the frame's
/// digit field does, and is that field.
proof fn lemma_run_exact(s: Seq<u8>, b: Seq<u8>, j: int)
    requires
        frame_at_head(s, b),
        16 <= j < s.len(),
        all_digits(s.subrange(16, j)),
        !is_digit(s[j]),
    ensures
        j == 16 + dec_digits(b.len()).len(),
        s.subrange(16, j) == dec_digits(b.len()),
{
    lemma_frame_fields(b);
    lemma_run_within(s, b, j);
    let dd = dec_digits(b.len());
    let dlen = dd.len() as int;
    if j < 16 + dlen {
        lemma_head_index(s, b, j);
        assert(frame_bytes(b)[16 + (j - 16)] == dd[j - 16]);
        assert(is_digit(dd[j - 16]));
        assert(false);
    }
    assert forall|k: int| 0 <= k < dlen implies s.subrange(16, j)[k] == dd[k] by {
        lemma_head_index(s, b, 16 + k);
    }
    assert(s.subrange(16, j) =~= dd);
}

/// Law: an encoded frame followed by any later bytes has itself at the
/// head. Together with `decode_frame`'s contract this is the round trip:
/// what `encode_frame` writes, `decode_frame` reads back exactly, and
/// consumes nothing of what follows.
pub proof fn lemma_encoded_frame_at_head(b: Seq<u8>, rest: Seq<u8>)
    ensures
        frame_at_head(frame_bytes(b) + rest, b),
{
    assert((frame_bytes(b) + rest).take(frame_bytes(b).len() as int) =~= frame_bytes(b));
}

/// What the decoder found at the head of the buffer.
#[derive(Debug)]
pub enum DecodeOutcome {
    /// A complete frame: its body, and how many bytes of the buffer it
    /// consumed.
    Frame { body: Vec<u8>, consumed: usize },
    /// The buffer holds the beginning of a frame but not all of it yet.
    Incomplete,
    /// The buffer cannot begin a canonical frame; the connection is beyond
    /// recovery and must be torn down with a parse error.
    Malformed,
}

/// Decodes the frame at the head of the buffer. A decoded frame is exact:
/// the consumed prefix of the buffer is precisely the wire form of the
/// returned body. And success is owed: whenever a complete frame sits at
/// the head of the buffer, it is the frame that comes back — decoding is a
/// two-sided inverse of `encode_frame`.
proof fn lemma_prefix_completable(s: Seq<u8>, b: Seq<u8>)
    requires
        s.len() <= frame_bytes(b).len(),
        forall|k: int| 0 <= k < s.len() ==> s[k] == frame_bytes(b)[k],
    ensures
        frame_at_head(s + frame_bytes(b).skip(s.len() as int), b),
{
    let fb = frame_bytes(b);
    let ext = fb.skip(s.len() as int);
    assert(s + ext =~= fb);
    assert((s + ext).take(fb.len() as int) =~= fb);
}

/// A buffer that holds only part of the fixed header name can still grow
/// into a frame: the rest of the smallest frame completes it.
proof fn lemma_header_prefix_completable(s: Seq<u8>)
    requires
        s.len() <= 16,
        s == header_prefix().take(s.len() as int),
    ensures
        exists|ext: Seq<u8>, b: Seq<u8>| frame_at_head(s + ext, b),
{
    let b = Seq::<u8>::empty();
    lemma_frame_fields(b);
    assert forall|k: int| 0 <= k < s.len() implies s[k] == frame_bytes(b)[k] by {
        assert(s[k] == header_prefix().take(s.len() as int)[k]);
        assert(frame_bytes(b)[k] == header_prefix()[k]);
    }
    assert(s.len() <= frame_bytes(b).len());
    lemma_prefix_completable(s, b);
}

/// A buffer that follows the frame shape as far as its bytes go — header,
/// a canonical digit run for `n`, then whatever of the terminator and body
/// is present — can still grow into a frame for some body of length `n`.
proof fn lemma_partial_frame_completable(s: Seq<u8>, j: int, n: nat)
    requires
        16 < j <= s.len(),
        s.take(16) == header_prefix(),
        all_digits(s.subrange(16, j)),
        dec_value(s.subrange(16, j)) == n,
        j > 17 ==> s[16] != 48,
        s.len() <= j + 4 + n,
        j < s.len() ==> s[j] == 13,
        j + 1 < s.len() ==> s[j + 1] == 10,
        j + 2 < s.len() ==> s[j + 2] == 13,
        j + 3 < s.len() ==> s[j + 3] == 10,
    ensures
        exists|ext: Seq<u8>, b: Seq<u8>| frame_at_head(s + ext, b),
{
    let digits = s.subrange(16, j);
    assert(digits[0] == s[16]);
    lemma_canonical_digits(digits);
    let tail = if s.len() > j + 4 {
        s.subrange(j + 4, s.len() as int)
    } else {
        Seq::<u8>::empty()
    };
    assert(tail.len() <= n);
    let b = tail + Seq::new((n - tail.len()) as nat, |x: int| 0u8);
    assert(b.len() == n);
    lemma_frame_fields(b);
    assert(dec_digits(b.len()) == digits);
    let fb = frame_bytes(b);
    assert(fb.len() == 20 + (j - 16) + n);
    assert forall|k: int| 0 <= k < s.len() implies s[k] == fb[k] by {
        if k < 16 {
            assert(s.take(16)[k] == s[k]);
            assert(fb[k] == header_prefix()[k]);
        } else if k < j {
            assert(digits[k - 16] == s[k]);
            assert(fb[16 + (k - 16)] == dec_digits(b.len())[k - 16]);
        } else if k == j {
            assert(fb[(16 + dec_digits(b.len()).len()) as int] == 13);
        } else if k == j + 1 {
            assert(fb[(17 + dec_digits(b.len()).len()) as int] == 10);
        } else if k == j + 2 {
            assert(fb[(18 + dec_digits(b.len()).len()) as int] == 13);
        } else if k == j + 3 {
            assert(fb[(19 + dec_digits(b.len()).len()) as int] == 10);
        } else {
            assert(tail[k - (j + 4)] == s[k]);
            assert(b[k - (j + 4)] == tail[k - (j + 4)]);
            assert(fb[20 + dec_digits(b.len()).len() + (k - (j + 4))] == b[k - (j + 4)]);
        }
    }
    assert(s.len() <= fb.len());
    lemma_prefix_completable(s, b);
}

#[verifier::rlimit(100)]
pub fn decode_frame(buf: &Vec<u8>) -> (r: DecodeOutcome)
    ensures
        (r matches DecodeOutcome::Frame { body, consumed } ==> {
            &&& consumed <= buf@.len()
            &&& buf@.take(consumed as int) == frame_bytes(body@)
        }),
        forall|b: Seq<u8>|
            frame_at_head(buf@, b) ==> (r matches DecodeOutcome::Frame { body, consumed }
                && body@ == b && consumed == frame_bytes(b).len()),
        // the connection is declared dead only when it is dead: no later
        // bytes can complete the buffer into a frame (for any body that a
        // buffer could hold at all)
        (r is Malformed ==> forall|ext: Seq<u8>, b: Seq<u8>|
            b.len() <= usize::MAX ==> !frame_at_head(buf@ + ext, b)),
        // more input is asked for only while more input can help
        (r is Incomplete ==> exists|ext: Seq<u8>, b: Seq<u8>| frame_at_head(buf@ + ext, b)),
{
    let total = buf.len();
    let p = header_prefix_vec();
    let mut i: usize = 0;
    while i < 16
        invariant
            i <= 16,
            p@ == header_prefix(),
            i <= buf@.len(),
            total == buf@.len(),
            buf@.take(i as int) == header_prefix().take(i as int),
        decreases 16 - i,
    {
        if i == buf.len() {
            proof {
                assert forall|b: Seq<u8>| !frame_at_head(buf@, b) by {
                    if frame_at_head(buf@, b) {
                        lemma_frame_fields(b);
                        assert(frame_bytes(b).len() >= 21);
                        assert(false);
                    }
                }
                assert(buf@ =~= buf@.take(i as int));
                lemma_header_prefix_completable(buf@);
            }
            return DecodeOutcome::Incomplete;
        }
        if buf[i] != p[i] {
            proof {
                assert forall|ext: Seq<u8>, b: Seq<u8>|
                    b.len() <= usize::MAX implies !frame_at_head(buf@ + ext, b) by {
                    if frame_at_head(buf@ + ext, b) {
                        let s = buf@ + ext;
                        lemma_frame_fields(b);
                        lemma_head_index(s, b, i as int);
                        assert(s[i as int] == buf@[i as int]);
                        assert(frame_bytes(b)[i as int] == header_prefix()[i as int]);
                        assert(false);
                    }
                }
                assert forall|b: Seq<u8>| !frame_at_head(buf@, b) by {
                    if frame_at_head(buf@, b) {
                        lemma_frame_fields(b);
                        assert(b.len() <= usize::MAX);
                        assert(buf@ + Seq::<u8>::empty() =~= buf@);
                        assert(!frame_at_head(buf@ + Seq::<u8>::empty(), b));
                        assert(false);
                    }
                }
            }
            return DecodeOutcome::Malformed;
        }
        assert(buf@.take(i + 1) =~= header_prefix().take(i + 1));
        i = i + 1;
    }
    assert(buf@.take(16) == header_prefix()) by {
        assert(header_prefix().take(16) =~= header_prefix());
    }
    let mut j: usize = 16;
    let mut n: usize = 0;
    while j < buf.len() && 48 <= buf[j] && buf[j] <= 57
        invariant
            16 <= j <= buf@.len(),
            16 <= buf@.len(),
            total == buf@.len(),
            buf@.take(16) == header_prefix(),
            all_digits(buf@.subrange(16, j as int)),
            n == dec_value(buf@.subrange(16, j as int)),
        decreases buf@.len() - j,
    {
        let d = (buf[j] - 48) as usize;
        if n > (usize::MAX - d) / 10 {
            proof {
                assert forall|ext: Seq<u8>, b: Seq<u8>|
                    b.len() <= usize::MAX implies !frame_at_head(buf@ + ext, b) by {
                    if frame_at_head(buf@ + ext, b) {
                        let s = buf@ + ext;
                        lemma_frame_fields(b);
                        let dd = dec_digits(b.len());
                        let s1 = s.subrange(16, j + 1);
                        assert(s1 =~= buf@.subrange(16, j + 1));
                        assert forall|k: int| 0 <= k < s1.len() implies is_digit(s1[k]) by {
                            if k < j - 16 {
                                assert(s1[k] == buf@.subrange(16, j as int)[k]);
                            } else {
                                assert(s1[k] == buf@[j as int]);
                            }
                        }
                        lemma_run_within(s, b, j + 1);
                        assert forall|k: int| 0 <= k < s1.len() implies s1[k] == dd.take(
                            j + 1 - 16,
                        )[k] by {
                            lemma_head_index(s, b, 16 + k);
                        }
                        assert(s1 =~= dd.take(j + 1 - 16));
                        lemma_dec_value_prefix_le(dd, j + 1 - 16);
                        assert(dec_value(dd) == b.len());
                        assert(s1.drop_last() =~= buf@.subrange(16, j as int));
                        assert(s1.last() == buf@[j as int]);
                        assert(dec_value(s1) == n * 10 + d);
                        assert(n * 10 + d > usize::MAX) by (nonlinear_arith)
                            requires
                                n > (usize::MAX - d) / 10,
                                0 <= d <= 9,
                        ;
                        assert(false);
                    }
                }
                assert forall|b: Seq<u8>| !frame_at_head(buf@, b) by {
                    if frame_at_head(buf@, b) {
                        lemma_frame_fields(b);
                        assert(b.len() <= usize::MAX);
                        assert(buf@ + Seq::<u8>::empty() =~= buf@);
                        assert(!frame_at_head(buf@ + Seq::<u8>::empty(), b));
                        assert(false);
                    }
                }
            }
            return DecodeOutcome::Malformed;
        }
        assert(n * 10 + d <= usize::MAX) by (nonlinear_arith)
            requires
                n <= (usize::MAX - d) / 10,
                0 <= d,
        ;
        n = n * 10 + d;
        proof {
            let s = buf@.subrange(16, j + 1);
            assert(s.drop_last() =~= buf@.subrange(16, j as int));
            assert(s.last() == buf@[j as int]);
        }
        j = j + 1;
    }
    if j > 17 && buf[16] == 48 {
        // a leading zero is not canonical, whatever follows
        proof {
            assert forall|ext: Seq<u8>, b: Seq<u8>|
                b.len() <= usize::MAX implies !frame_at_head(buf@ + ext, b) by {
                if frame_at_head(buf@ + ext, b) {
                    let s = buf@ + ext;
                    lemma_frame_fields(b);
                    let dd = dec_digits(b.len());
                    lemma_head_index(s, b, 16);
                    assert(s[16] == buf@[16]);
                    assert(buf@[16] == dd[0]);
                    assert(b.len() == 0);
                    assert(dd =~= seq![48u8]);
                    lemma_head_index(s, b, 17);
                    assert(s[17] == buf@[17]);
                    assert(buf@[17] == 13);
                    assert(buf@.subrange(16, j as int)[1] == buf@[17]);
                    assert(is_digit(buf@[17]));
                    assert(false);
                }
            }
            assert forall|b: Seq<u8>| !frame_at_head(buf@, b) by {
                if frame_at_head(buf@, b) {
                    lemma_frame_fields(b);
                    assert(b.len() <= usize::MAX);
                    assert(buf@ + Seq::<u8>::empty() =~= buf@);
                    assert(!frame_at_head(buf@ + Seq::<u8>::empty(), b));
                    assert(false);
                }
            }
        }
        return DecodeOutcome::Malformed;
    }
    if j == buf.len() {
        // the digit run may still continue in the next read
        proof {
            assert forall|b: Seq<u8>| !frame_at_head(buf@, b) by {
                if frame_at_head(buf@, b) {
                    lemma_frame_fields(b);
                    lemma_run_within(buf@, b, j as int);
                    assert(frame_bytes(b).len() > 16 + dec_digits(b.len()).len());
                    assert(false);
                }
            }
            if j == 16 {
                assert(buf@ =~= header_prefix().take(16));
                lemma_header_prefix_completable(buf@);
            } else {
                lemma_partial_frame_completable(buf@, j as int, n as nat);
            }
        }
        return DecodeOutcome::Incomplete;
    }
    if j == 16 {
        // no digits at all
        proof {
            assert forall|ext: Seq<u8>, b: Seq<u8>|
                b.len() <= usize::MAX implies !frame_at_head(buf@ + ext, b) by {
                if frame_at_head(buf@ + ext, b) {
                    let s = buf@ + ext;
                    lemma_frame_fields(b);
                    assert(s.subrange(16, 16) =~= buf@.subrange(16, 16));
                    assert(s[16] == buf@[16]);
                    lemma_run_exact(s, b, 16);
                    assert(false);
                }
            }
            assert forall|b: Seq<u8>| !frame_at_head(buf@, b) by {
                if frame_at_head(buf@, b) {
                    lemma_frame_fields(b);
                    assert(b.len() <= usize::MAX);
                    assert(buf@ + Seq::<u8>::empty() =~= buf@);
                    assert(!frame_at_head(buf@ + Seq::<u8>::empty(), b));
                    assert(false);
                }
            }
        }
        return DecodeOutcome::Malformed;
    }
    proof {
        assert forall|b: Seq<u8>|
            frame_at_head(buf@, b) implies j == 16 + dec_digits(b.len()).len() && buf@.subrange(
            16,
            j as int,
        ) == dec_digits(b.len()) by {
            lemma_run_exact(buf@, b, j as int);
        }
    }
    if buf[j] != 13 {
        proof {
            assert forall|ext: Seq<u8>, b: Seq<u8>|
                b.len() <= usize::MAX implies !frame_at_head(buf@ + ext, b) by {
                if frame_at_head(buf@ + ext, b) {
                    let s = buf@ + ext;
                    lemma_frame_fields(b);
                    assert(s.subrange(16, j as int) =~= buf@.subrange(16, j as int));
                    assert(s[j as int] == buf@[j as int]);
                    lemma_run_exact(s, b, j as int);
                    lemma_head_index(s, b, j as int);
                    assert(false);
                }
            }
            assert forall|b: Seq<u8>| !frame_at_head(buf@, b) by {
                if frame_at_head(buf@, b) {
                    lemma_frame_fields(b);
                    assert(b.len() <= usize::MAX);
                    assert(buf@ + Seq::<u8>::empty() =~= buf@);
                    assert(!frame_at_head(buf@ + Seq::<u8>::empty(), b));
                    assert(false);
                }
            }
        }
        return DecodeOutcome::Malformed;
    }
    if j + 1 == buf.len() {
        proof {
            assert forall|b: Seq<u8>| !frame_at_head(buf@, b) by {
                if frame_at_head(buf@, b) {
                    lemma_frame_fields(b);
                    assert(false);
                }
            }
            lemma_partial_frame_completable(buf@, j as int, n as nat);
        }
        return DecodeOutcome::Incomplete;
    }
    if buf[j + 1] != 10 {
        proof {
            assert forall|ext: Seq<u8>, b: Seq<u8>|
                b.len() <= usize::MAX implies !frame_at_head(buf@ + ext, b) by {
                if frame_at_head(buf@ + ext, b) {
                    let s = buf@ + ext;
                    lemma_frame_fields(b);
                    assert(s.subrange(16, j as int) =~= buf@.subrange(16, j as int));
                    assert(s[j as int] == buf@[j as int]);
                    lemma_run_exact(s, b, j as int);
                    lemma_head_index(s, b, j + 1);
                    assert(s[j + 1] == buf@[j + 1]);
                    assert(false);
                }
            }
            assert forall|b: Seq<u8>| !frame_at_head(buf@, b) by {
                if frame_at_head(buf@, b) {
                    lemma_frame_fields(b);
                    assert(b.len() <= usize::MAX);
                    assert(buf@ + Seq::<u8>::empty() =~= buf@);
                    assert(!frame_at_head(buf@ + Seq::<u8>::empty(), b));
                    assert(false);
                }
            }
        }
        return DecodeOutcome::Malformed;
    }
    if j + 2 == buf.len() {
        proof {
            assert forall|b: Seq<u8>| !frame_at_head(buf@, b) by {
                if frame_at_head(buf@, b) {
                    lemma_frame_fields(b);
                    assert(false);
                }
            }
            lemma_partial_frame_completable(buf@, j as int, n as nat);
        }
        return DecodeOutcome::Incomplete;
    }
    if buf[j + 2] != 13 {
        proof {
            assert forall|ext: Seq<u8>, b: Seq<u8>|
                b.len() <= usize::MAX implies !frame_at_head(buf@ + ext, b) by {
                if frame_at_head(buf@ + ext, b) {
                    let s = buf@ + ext;
                    lemma_frame_fields(b);
                    assert(s.subrange(16, j as int) =~= buf@.subrange(16, j as int));
                    assert(s[j as int] == buf@[j as int]);
                    lemma_run_exact(s, b, j as int);
                    lemma_head_index(s, b, j + 2);
                    assert(s[j + 2] == buf@[j + 2]);
                    assert(false);
                }
            }
            assert forall|b: Seq<u8>| !frame_at_head(buf@, b) by {
                if frame_at_head(buf@, b) {
                    lemma_frame_fields(b);
                    assert(b.len() <= usize::MAX);
                    assert(buf@ + Seq::<u8>::empty() =~= buf@);
                    assert(!frame_at_head(buf@ + Seq::<u8>::empty(), b));
                    assert(false);
                }
            }
        }
        return DecodeOutcome::Malformed;
    }
    if j + 3 == buf.len() {
        proof {
            assert forall|b: Seq<u8>| !frame_at_head(buf@, b) by {
                if frame_at_head(buf@, b) {
                    lemma_frame_fields(b);
                    assert(false);
                }
            }
            lemma_partial_frame_completable(buf@, j as int, n as nat);
        }
        return DecodeOutcome::Incomplete;
    }
    if buf[j + 3] != 10 {
        proof {
            assert forall|ext: Seq<u8>, b: Seq<u8>|
                b.len() <= usize::MAX implies !frame_at_head(buf@ + ext, b) by {
                if frame_at_head(buf@ + ext, b) {
                    let s = buf@ + ext;
                    lemma_frame_fields(b);
                    assert(s.subrange(16, j as int) =~= buf@.subrange(16, j as int));
                    assert(s[j as int] == buf@[j as int]);
                    lemma_run_exact(s, b, j as int);
                    lemma_head_index(s, b, j + 3);
                    assert(s[j + 3] == buf@[j + 3]);
                    assert(false);
                }
            }
            assert forall|b: Seq<u8>| !frame_at_head(buf@, b) by {
                if frame_at_head(buf@, b) {
                    lemma_frame_fields(b);
                    assert(b.len() <= usize::MAX);
                    assert(buf@ + Seq::<u8>::empty() =~= buf@);
                    assert(!frame_at_head(buf@ + Seq::<u8>::empty(), b));
                    assert(false);
                }
            }
        }
        return DecodeOutcome::Malformed;
    }
    let h = j + 4;
    let blen = buf.len();
    if blen - h < n {
        proof {
            assert forall|b: Seq<u8>| !frame_at_head(buf@, b) by {
                if frame_at_head(buf@, b) {
                    lemma_frame_fields(b);
                    assert(n == dec_value(dec_digits(b.len())));
                    assert(n == b.len());
                    assert(frame_bytes(b).len() == h + n);
                    assert(false);
                }
            }
            lemma_partial_frame_completable(buf@, j as int, n as nat);
        }
        return DecodeOutcome::Incomplete;
    }
    let end: usize = h + n;
    let mut body: Vec<u8> = Vec::new();
    let mut k: usize = 0;
    while k < n
        invariant
            k <= n,
            end == h + n,
            end <= buf@.len(),
            body@ == buf@.subrange(h as int, h + k),
        decreases n - k,
    {
        assert(h + k < buf@.len());
        body.push(buf[h + k]);
        assert(body@ =~= buf@.subrange(h as int, h + k + 1));
        k = k + 1;
    }
    let consumed = h + n;
    proof {
        let digits = buf@.subrange(16, j as int);
        lemma_canonical_digits(digits);
        assert(dec_digits(n as nat) == digits);
        assert(body@.len() == n);
        assert(buf@.take(consumed as int) =~= header_prefix() + dec_digits(body@.len())
            + seq![13u8, 10u8, 13u8, 10u8] + body@);
        assert forall|b: Seq<u8>| frame_at_head(buf@, b) implies body@ == b && consumed
            == frame_bytes(b).len() by {
            lemma_frame_fields(b);
            assert(n == dec_value(dec_digits(b.len())));
            assert(n == b.len());
            assert(frame_bytes(b).len() == h + n);
            assert forall|m: int| 0 <= m < n implies body@[m] == b[m] by {
                lemma_head_index(buf@, b, h + m);
                assert(body@[m] == buf@[h + m]);
            }
            assert(body@ =~= b);
        }
    }
    DecodeOutcome::Frame { body, consumed }
}


} // verus!
