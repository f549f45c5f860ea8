//! Standard base64 with padding, as ASCII bytes: a channel's binary schema
//! crosses the visualization websocket protocol as text.

use vstd::prelude::*;

verus! {

/// The base64 alphabet: the ASCII byte encoding one 6-bit value.
pub open spec fn spec_b64_digit(v: int) -> u8
    recommends
        0 <= v < 64,
{
    if v < 26 {
        (65 + v) as u8  // 'A' to 'Z'
    } else if v < 52 {
        (97 + (v - 26)) as u8  // 'a' to 'z'
    } else if v < 62 {
        (48 + (v - 52)) as u8  // '0' to '9'
    } else if v == 62 {
        43u8  // '+'
    } else {
        47u8  // '/'
    }
}

/// The four output bytes of one final group of one to three input bytes; a
/// short group is padded with `=`.
pub open spec fn spec_b64_group(chunk: Seq<u8>) -> Seq<u8>
    recommends
        1 <= chunk.len() <= 3,
{
    let b0 = chunk[0] as int;
    if chunk.len() == 1 {
        seq![spec_b64_digit(b0 / 4), spec_b64_digit((b0 % 4) * 16), 61u8, 61u8]
    } else {
        let b1 = chunk[1] as int;
        if chunk.len() == 2 {
            seq![
                spec_b64_digit(b0 / 4),
                spec_b64_digit((b0 % 4) * 16 + b1 / 16),
                spec_b64_digit((b1 % 16) * 4),
                61u8,
            ]
        } else {
            let b2 = chunk[2] as int;
            seq![
                spec_b64_digit(b0 / 4),
                spec_b64_digit((b0 % 4) * 16 + b1 / 16),
                spec_b64_digit((b1 % 16) * 4 + b2 / 64),
                spec_b64_digit(b2 % 64),
            ]
        }
    }
}

/// Standard base64 with padding: the input in groups of three bytes from the
/// front, each group as four alphabet bytes, the last group padded.
pub open spec fn spec_base64(data: Seq<u8>) -> Seq<u8>
    decreases data.len(),
{
    if data.len() == 0 {
        Seq::empty()
    } else if data.len() < 3 {
        spec_b64_group(data)
    } else {
        spec_b64_group(data.take(3)) + spec_base64(data.skip(3))
    }
}

/// The encoding splits at any group boundary: the first `i` input bytes
/// (a multiple of three) encode on their own, the rest encodes on its own.
proof fn lemma_base64_split(s: Seq<u8>, i: int)
    requires
        0 <= i <= s.len(),
        i % 3 == 0,
    ensures
        spec_base64(s) == spec_base64(s.take(i)) + spec_base64(s.skip(i)),
    decreases i,
{
    if i == 0 {
        assert(s.take(0) =~= Seq::empty());
        assert(s.skip(0) =~= s);
        assert(spec_base64(s.take(0)) + spec_base64(s) =~= spec_base64(s));
    } else {
        let rest = s.skip(3);
        lemma_base64_split(rest, i - 3);
        assert(rest.take(i - 3) =~= s.take(i).skip(3));
        assert(rest.skip(i - 3) =~= s.skip(i));
        assert(s.take(i).take(3) =~= s.take(3));
        if i == 3 {
            assert(s.take(i).skip(3) =~= Seq::empty());
            assert(spec_base64(s.take(i).skip(3)) + spec_base64(s.skip(i)) =~= spec_base64(
                s.skip(i),
            ));
        }
        assert(spec_base64(s.take(i)) == spec_b64_group(s.take(3)) + spec_base64(s.take(i).skip(3)));
        assert(spec_b64_group(s.take(3)) + (spec_base64(s.take(i).skip(3)) + spec_base64(s.skip(i)))
            =~= (spec_b64_group(s.take(3)) + spec_base64(s.take(i).skip(3))) + spec_base64(
            s.skip(i),
        ));
    }
}

/// The alphabet byte of one 6-bit value.
fn b64_digit(v: u8) -> (r: u8)
    requires
        v < 64,
    ensures
        r == spec_b64_digit(v as int),
{
    if v < 26 {
        65 + v
    } else if v < 52 {
        97 + (v - 26)
    } else if v < 62 {
        48 + (v - 52)
    } else if v == 62 {
        43
    } else {
        47
    }
}

/// Encodes bytes as standard base64 with padding, per [`spec_base64`]; the
/// result is ASCII.
pub fn base64_encode(data: &Vec<u8>) -> (r: Vec<u8>)
    ensures
        r@ == spec_base64(data@),
{
    let mut r: Vec<u8> = Vec::new();
    let n: usize = data.len();
    let mut i: usize = 0;
    while n - i >= 3
        invariant
            n == data@.len(),
            0 <= i <= n,
            i % 3 == 0,
            r@ == spec_base64(data@.take(i as int)),
        decreases n - i,
    {
        let b0 = data[i];
        let b1 = data[i + 1];
        let b2 = data[i + 2];
        r.push(b64_digit(b0 / 4));
        r.push(b64_digit((b0 % 4) * 16 + b1 / 16));
        r.push(b64_digit((b1 % 16) * 4 + b2 / 64));
        r.push(b64_digit(b2 % 64));
        proof {
            let s = data@.take(i as int + 3);
            lemma_base64_split(s, i as int);
            assert(s.take(i as int) =~= data@.take(i as int));
            let group = s.skip(i as int);
            assert(group =~= data@.subrange(i as int, i as int + 3));
            assert(group.take(3) =~= group);
            assert(group.skip(3) =~= Seq::<u8>::empty());
            assert(spec_base64(Seq::<u8>::empty()) =~= Seq::<u8>::empty());
            assert(group.len() == 3);
            assert(spec_base64(group) == spec_b64_group(group.take(3)) + spec_base64(group.skip(3)));
            assert(spec_b64_group(group) + spec_base64(Seq::<u8>::empty()) =~= spec_b64_group(
                group,
            ));
            assert(spec_base64(group) =~= spec_b64_group(group));
            assert(r@ =~= spec_base64(data@.take(i as int)) + spec_b64_group(group));
        }
        i = i + 3;
    }
    if i < n {
        let b0 = data[i];
        proof {
            lemma_base64_split(data@, i as int);
        }
        if n - i == 1 {
            r.push(b64_digit(b0 / 4));
            r.push(b64_digit((b0 % 4) * 16));
            r.push(61);
            r.push(61);
            proof {
                assert(r@ =~= spec_base64(data@.take(i as int)) + spec_b64_group(
                    data@.skip(i as int),
                ));
            }
        } else {
            let b1 = data[i + 1];
            r.push(b64_digit(b0 / 4));
            r.push(b64_digit((b0 % 4) * 16 + b1 / 16));
            r.push(b64_digit((b1 % 16) * 4));
            r.push(61);
            proof {
                assert(r@ =~= spec_base64(data@.take(i as int)) + spec_b64_group(
                    data@.skip(i as int),
                ));
            }
        }
    } else {
        proof {
            assert(data@.take(i as int) =~= data@);
        }
    }
    r
}

} // verus!
