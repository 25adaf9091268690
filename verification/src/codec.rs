//! The value codec: writes a state value to a self-contained byte payload and
//! reads it back. The payload is what the coordinator stores for a state
//! identifier; reading is total over arbitrary bytes and fails cleanly on
//! anything the writer could not have produced.

use vstd::bytes::{
    spec_u32_from_le_bytes, spec_u32_to_le_bytes, spec_u64_from_le_bytes, spec_u64_to_le_bytes,
    u32_from_le_bytes, u32_to_le_bytes, u64_from_le_bytes, u64_to_le_bytes,
};
use vstd::prelude::*;
use vstd::slice::slice_subrange;

use crate::value::{serializable, Value, ValueView};

verus! {

/// Why a codec operation failed: the value cannot be serialized, or the bytes
/// are not a payload the writer produces.
#[derive(Clone, Copy, PartialEq, Eq, Debug, Structural)]
pub enum CodecError {
    Unserializable,
    Malformed,
}

/// Relies on `char::from_u32`: it inverts `char as u32`, and returns `Some`
/// exactly on Unicode scalar values.
pub assume_specification[ char::from_u32 ](v: u32) -> (r: Option<char>)
    ensures
        r matches Some(c) ==> c as u32 == v,
        r is Some <==> vstd::utf8::is_scalar(v),
;

/// Relies on `String::push`: it appends the one character to the string.
pub assume_specification[ String::push ](s: &mut String, c: char)
    ensures
        final(s)@ == old(s)@.push(c),
;

/// Each character as its scalar value in four little-endian bytes, in order.
pub open spec fn encode_chars(s: Seq<char>) -> Seq<u8>
    decreases s.len(),
{
    if s.len() == 0 {
        Seq::empty()
    } else {
        spec_u32_to_le_bytes(s[0] as u32) + encode_chars(s.drop_first())
    }
}

/// The payload of a serializable value: a tag byte, then the fixed-width or
/// length-prefixed body of the variant.
pub open spec fn encode(v: ValueView) -> Seq<u8>
    recommends
        serializable(v),
{
    match v {
        ValueView::Null => seq![0u8],
        ValueView::Undefined => seq![1u8],
        ValueView::Bool(b) => seq![
            if b {
                3u8
            } else {
                2u8
            },
        ],
        ValueView::Int(i) => {
            let sign: u8 = if i < 0 {
                1
            } else {
                0
            };
            let m: u64 = if i < 0 {
                (-(i as int)) as u64
            } else {
                i as u64
            };
            seq![4u8, sign] + spec_u64_to_le_bytes(m)
        },
        ValueView::Text(s) => seq![5u8] + spec_u64_to_le_bytes(s.len() as u64) + encode_chars(s),
        ValueView::Unserializable => Seq::empty(),
    }
}

/// Reads exactly `n` characters from `b`, which must hold nothing else.
pub open spec fn decode_chars(b: Seq<u8>, n: nat) -> Option<Seq<char>>
    decreases n,
{
    if n == 0 {
        if b.len() == 0 {
            Some(Seq::empty())
        } else {
            None
        }
    } else if b.len() < 4 {
        None
    } else {
        let w = spec_u32_from_le_bytes(b.take(4));
        if vstd::utf8::is_scalar(w) {
            match decode_chars(b.skip(4), (n - 1) as nat) {
                Some(s) => Some(seq![w as char] + s),
                None => None,
            }
        } else {
            None
        }
    }
}

/// The value a payload holds, or `None` where the bytes are not a payload the
/// writer produces.
pub open spec fn decode(b: Seq<u8>) -> Option<ValueView> {
    if b.len() == 0 {
        None
    } else if b[0] == 0 {
        if b.len() == 1 {
            Some(ValueView::Null)
        } else {
            None
        }
    } else if b[0] == 1 {
        if b.len() == 1 {
            Some(ValueView::Undefined)
        } else {
            None
        }
    } else if b[0] == 2 {
        if b.len() == 1 {
            Some(ValueView::Bool(false))
        } else {
            None
        }
    } else if b[0] == 3 {
        if b.len() == 1 {
            Some(ValueView::Bool(true))
        } else {
            None
        }
    } else if b[0] == 4 {
        if b.len() == 10 {
            let sign = b[1];
            let m = spec_u64_from_le_bytes(b.subrange(2, 10));
            if sign == 0 && m <= i64::MAX as u64 {
                Some(ValueView::Int(m as i64))
            } else if sign == 1 && 1 <= m && m <= 0x8000000000000000u64 {
                Some(ValueView::Int((-(m as int)) as i64))
            } else {
                None
            }
        } else {
            None
        }
    } else if b[0] == 5 {
        if b.len() >= 9 {
            let n = spec_u64_from_le_bytes(b.subrange(1, 9));
            match decode_chars(b.skip(9), n as nat) {
                Some(s) => Some(ValueView::Text(s)),
                None => None,
            }
        } else {
            None
        }
    } else {
        None
    }
}

proof fn lemma_encode_chars_len(s: Seq<char>)
    ensures
        encode_chars(s).len() == 4 * s.len(),
    decreases s.len(),
{
    vstd::bytes::lemma_auto_spec_u32_to_from_le_bytes();
    if s.len() > 0 {
        lemma_encode_chars_len(s.drop_first());
    }
}

proof fn lemma_encode_chars_snoc(s: Seq<char>, c: char)
    ensures
        encode_chars(s.push(c)) == encode_chars(s) + spec_u32_to_le_bytes(c as u32),
    decreases s.len(),
{
    vstd::bytes::lemma_auto_spec_u32_to_from_le_bytes();
    if s.len() == 0 {
        assert(s.push(c)[0] == c);
        assert(s.push(c).drop_first() =~= Seq::<char>::empty());
        assert(encode_chars(Seq::<char>::empty()) =~= Seq::<u8>::empty());
        assert(encode_chars(s.push(c)) == spec_u32_to_le_bytes(s.push(c)[0] as u32) + encode_chars(
            s.push(c).drop_first(),
        ));
        assert(encode_chars(s.push(c)) =~= encode_chars(s) + spec_u32_to_le_bytes(c as u32));
    } else {
        assert(s.push(c)[0] == s[0]);
        assert(s.push(c).drop_first() =~= s.drop_first().push(c));
        lemma_encode_chars_snoc(s.drop_first(), c);
        assert(encode_chars(s.push(c)) =~= encode_chars(s) + spec_u32_to_le_bytes(c as u32));
    }
}

proof fn lemma_chars_round_trip(s: Seq<char>)
    ensures
        decode_chars(encode_chars(s), s.len()) == Some(s),
    decreases s.len(),
{
    vstd::bytes::lemma_auto_spec_u32_to_from_le_bytes();
    if s.len() > 0 {
        let w = s[0] as u32;
        vstd::utf8::char_is_scalar(s[0]);
        let e = encode_chars(s);
        assert(e.take(4) =~= spec_u32_to_le_bytes(w));
        assert(spec_u32_from_le_bytes(e.take(4)) == w);
        vstd::utf8::char_u32_cast(s[0], w);
        assert(e.skip(4) =~= encode_chars(s.drop_first()));
        lemma_chars_round_trip(s.drop_first());
        assert(seq![w as char] + s.drop_first() =~= s);
    }
}

/// Reading back what was written returns the value unchanged: the codec loses
/// nothing on any serializable value.
pub proof fn lemma_codec_round_trip(v: ValueView)
    requires
        serializable(v),
    ensures
        decode(encode(v)) == Some(v),
{
    vstd::bytes::lemma_auto_spec_u64_to_from_le_bytes();
    match v {
        ValueView::Int(i) => {
            let sign: u8 = if i < 0 {
                1
            } else {
                0
            };
            let m: u64 = if i < 0 {
                (-(i as int)) as u64
            } else {
                i as u64
            };
            let e = encode(v);
            assert(e.subrange(2, 10) =~= spec_u64_to_le_bytes(m));
            assert(spec_u64_from_le_bytes(e.subrange(2, 10)) == m);
        },
        ValueView::Text(s) => {
            let e = encode(v);
            lemma_encode_chars_len(s);
            assert(e.subrange(1, 9) =~= spec_u64_to_le_bytes(s.len() as u64));
            assert(spec_u64_from_le_bytes(e.subrange(1, 9)) == s.len() as u64);
            assert(e.skip(9) =~= encode_chars(s));
            lemma_chars_round_trip(s);
        },
        _ => {},
    }
}

/// Writes `v` to a payload: exactly the bytes [`encode`] describes, and an
/// error exactly on unserializable values.
pub fn write(v: &Value) -> (r: Result<Vec<u8>, CodecError>)
    ensures
        serializable(v@) ==> (r matches Ok(b) && b@ == encode(v@)),
        !serializable(v@) ==> r == Err::<Vec<u8>, CodecError>(CodecError::Unserializable),
{
    match v {
        Value::Null => {
            let mut out: Vec<u8> = Vec::new();
            out.push(0u8);
            proof {
                assert(out@ =~= encode(v@));
            }
            Ok(out)
        },
        Value::Undefined => {
            let mut out: Vec<u8> = Vec::new();
            out.push(1u8);
            proof {
                assert(out@ =~= encode(v@));
            }
            Ok(out)
        },
        Value::Bool(bv) => {
            let mut out: Vec<u8> = Vec::new();
            out.push(if *bv { 3u8 } else { 2u8 });
            proof {
                assert(out@ =~= encode(v@));
            }
            Ok(out)
        },
        Value::Int(i) => {
            let mut out: Vec<u8> = Vec::new();
            out.push(4u8);
            let sign: u8 = if *i < 0 { 1 } else { 0 };
            let m: u64 = if *i < 0 { (-((*i) as i128)) as u64 } else { (*i) as u64 };
            out.push(sign);
            let mut mb = u64_to_le_bytes(m);
            out.append(&mut mb);
            proof {
                assert(out@ =~= encode(v@));
            }
            Ok(out)
        },
        Value::Text(s) => {
            let mut out: Vec<u8> = Vec::new();
            out.push(5u8);
            let l = s.as_str().unicode_len();
            let mut lb = u64_to_le_bytes(l as u64);
            out.append(&mut lb);
            let mut i: usize = 0;
            while i < l
                invariant
                    i <= l,
                    l == s@.len(),
                    out@ == seq![5u8] + spec_u64_to_le_bytes(l as u64) + encode_chars(
                        s@.take(i as int),
                    ),
                decreases l - i,
            {
                let c = s.as_str().get_char(i);
                let mut cb = u32_to_le_bytes(c as u32);
                out.append(&mut cb);
                proof {
                    lemma_encode_chars_snoc(s@.take(i as int), s@[i as int]);
                    assert(s@.take(i + 1) =~= s@.take(i as int).push(s@[i as int]));
                    assert(out@ =~= seq![5u8] + spec_u64_to_le_bytes(l as u64) + encode_chars(
                        s@.take(i + 1),
                    ));
                }
                i += 1;
            }
            proof {
                assert(s@.take(l as int) =~= s@);
                assert(out@ =~= encode(v@));
            }
            Ok(out)
        },
        Value::Unserializable => Err(CodecError::Unserializable),
    }
}

/// Reads a payload back: returns exactly the value [`decode`] describes, and
/// an error exactly where `decode` refuses the bytes.
#[verifier::loop_isolation(false)]
pub fn read(b: &Vec<u8>) -> (r: Result<Value, CodecError>)
    ensures
        r matches Ok(w) ==> decode(b@) == Some(w@),
        r is Err ==> decode(b@) is None,
{
    let n = b.len();
    if n == 0 {
        return Err(CodecError::Malformed);
    }
    let tag = b[0];
    if tag == 0 {
        if n == 1 {
            Ok(Value::Null)
        } else {
            Err(CodecError::Malformed)
        }
    } else if tag == 1 {
        if n == 1 {
            Ok(Value::Undefined)
        } else {
            Err(CodecError::Malformed)
        }
    } else if tag == 2 {
        if n == 1 {
            Ok(Value::Bool(false))
        } else {
            Err(CodecError::Malformed)
        }
    } else if tag == 3 {
        if n == 1 {
            Ok(Value::Bool(true))
        } else {
            Err(CodecError::Malformed)
        }
    } else if tag == 4 {
        if n != 10 {
            return Err(CodecError::Malformed);
        }
        let sign = b[1];
        let m = u64_from_le_bytes(slice_subrange(b.as_slice(), 2, 10));
        if sign == 0 && m <= 0x7fffffffffffffffu64 {
            Ok(Value::Int(m as i64))
        } else if sign == 1 && 1 <= m && m <= 0x8000000000000000u64 {
            Ok(Value::Int((-(m as i128)) as i64))
        } else {
            Err(CodecError::Malformed)
        }
    } else if tag == 5 {
        if n < 9 {
            return Err(CodecError::Malformed);
        }
        let len64 = u64_from_le_bytes(slice_subrange(b.as_slice(), 1, 9));
        let body = n - 9;
        if body % 4 != 0 || len64 != (body / 4) as u64 {
            proof {
                if decode_chars(b@.skip(9), len64 as nat) is Some {
                    lemma_decode_chars_len(b@.skip(9), len64 as nat);
                }
            }
            return Err(CodecError::Malformed);
        }
        let len = body / 4;
        let mut out = String::new();
        let mut i: usize = 0;
        while i < len
            invariant
                i <= len,
                n == b@.len(),
                n == 9 + 4 * len,
                out@.len() == i,
                decode_chars(b@.skip(9), len as nat) == (match decode_chars(
                    b@.skip(9 + 4 * i),
                    (len - i) as nat,
                ) {
                    Some(rest) => Some(out@ + rest),
                    None => None::<Seq<char>>,
                }),
            decreases len - i,
        {
            let w = u32_from_le_bytes(slice_subrange(b.as_slice(), 9 + 4 * i, 9 + 4 * i + 4));
            proof {
                assert(b@.skip(9 + 4 * i).take(4) =~= b@.subrange(
                    9 + 4 * i as int,
                    9 + 4 * i as int + 4,
                ));
            }
            match char::from_u32(w) {
                Some(c) => {
                    proof {
                        vstd::utf8::char_u32_cast(c, w);
                        assert(b@.skip(9 + 4 * i).skip(4) =~= b@.skip(9 + 4 * (i + 1)));
                    }
                    out.push(c);
                    proof {
                        let rest0 = decode_chars(b@.skip(9 + 4 * (i + 1) as int), (len - i
                            - 1) as nat);
                        if rest0 is Some {
                            assert(out@ + rest0->Some_0 =~= (out@.drop_last() + (seq![c]
                                + rest0->Some_0)));
                        }
                    }
                    i += 1;
                },
                None => {
                    proof {
                        assert(!vstd::utf8::is_scalar(w));
                        assert(decode_chars(b@.skip(9 + 4 * i as int), (len - i) as nat) is None);
                        assert(decode_chars(b@.skip(9), len as nat) is None);
                    }
                    return Err(CodecError::Malformed);
                },
            }
        }
        proof {
            assert(b@.skip(9 + 4 * len as int).len() == 0);
            assert(decode_chars(b@.skip(9 + 4 * len as int), 0) == Some(Seq::<char>::empty()));
            assert(out@ + Seq::<char>::empty() =~= out@);
        }
        Ok(Value::Text(out))
    } else {
        Err(CodecError::Malformed)
    }
}

proof fn lemma_decode_chars_len(b: Seq<u8>, n: nat)
    requires
        decode_chars(b, n) is Some,
    ensures
        b.len() == 4 * n,
        decode_chars(b, n)->Some_0.len() == n,
    decreases n,
{
    if n > 0 {
        lemma_decode_chars_len(b.skip(4), (n - 1) as nat);
    }
}

} // verus!
