//! Strings in the stream: zero-terminated byte strings, capped and uncapped,
//! and fixed-size fields, together with the string types that hold them.
use vstd::prelude::*;
use vstd::utf8::*;
use arrayvec::ArrayString;
use crate::error::{DemError, ParseFail};
use crate::bits::{Bits, BitStream, Step, eof, uval, sp_bytes, step_matches, step_matches_with};

verus! {

broadcast use {encode_utf8_decode_utf8, decode_utf8_encode_utf8};

/// The number of bytes of the UTF-8 encoding of `s`.
pub open spec fn utf8_len(s: Seq<char>) -> nat {
    encode_utf8(s).len()
}

/// The index of the first zero byte of `s`, or its length when it has none.
pub open spec fn first_zero(s: Seq<u8>) -> nat
    decreases s.len(),
{
    if s.len() == 0 {
        0
    } else if s[0] == 0 {
        0
    } else {
        1 + first_zero(s.drop_first())
    }
}

/// Bytes up to a zero byte, each byte taken as the char of the same code,
/// appended to `acc`.
pub open spec fn sp_nts_from(b: Bits, acc: Seq<char>) -> Step<Seq<char>>
    decreases b.len(),
{
    if b.len() < 8 {
        eof()
    } else {
        let v = uval(b, 8) as u8;
        if v == 0 {
            Step::Done(acc, b.skip(8))
        } else {
            sp_nts_from(b.skip(8), acc.push(v as char))
        }
    }
}

/// A zero-terminated string.
pub open spec fn sp_nts(b: Bits) -> Step<Seq<char>> {
    sp_nts_from(b, seq![])
}

/// A zero-terminated string read into a buffer of `cap` bytes, with at most
/// `left` more bytes to read: a string that reaches `cap` bytes without its
/// zero is an error, and a char that no longer fits the buffer has no answer.
pub open spec fn sp_nts_cap_from(b: Bits, acc: Seq<char>, left: nat, cap: nat) -> Step<Seq<char>>
    decreases left,
{
    if left == 0 {
        Step::Failed(DemError::StringTooLong)
    } else if b.len() < 8 {
        eof()
    } else {
        let v = uval(b, 8) as u8;
        if v == 0 {
            Step::Done(acc, b.skip(8))
        } else if utf8_len(acc.push(v as char)) > cap {
            Step::Abort
        } else {
            sp_nts_cap_from(b.skip(8), acc.push(v as char), (left - 1) as nat, cap)
        }
    }
}

/// A zero-terminated string of at most `cap` bytes.
pub open spec fn sp_nts_cap(b: Bits, cap: nat) -> Step<Seq<char>> {
    sp_nts_cap_from(b, seq![], cap, cap)
}

/// A field of `size` bytes holding UTF-8 text up to its first zero byte.
pub open spec fn sp_fixed_str(b: Bits, size: nat) -> Step<Seq<char>> {
    sp_bytes(b, size).and_then(
        |bytes: Seq<u8>, r: Bits|
            {
                let text = bytes.take(first_zero(bytes) as int);
                if valid_utf8(text) {
                    Step::Done(decode_utf8(text), r)
                } else {
                    Step::Failed(DemError::InvalidUtf8)
                }
            },
    )
}

/// A field of `size` bytes that must be UTF-8 as a whole.
pub open spec fn sp_fixed_str_notrim(b: Bits, size: nat) -> Step<Seq<char>> {
    sp_bytes(b, size).and_then(
        |bytes: Seq<u8>, r: Bits|
            if valid_utf8(bytes) {
                Step::Done(decode_utf8(bytes), r)
            } else {
                Step::Failed(DemError::InvalidUtf8)
            },
    )
}

/// A zero-terminated string consumes at least its terminator.
pub proof fn lemma_sp_nts_from_shrinks(b: Bits, acc: Seq<char>)
    ensures
        sp_nts_from(b, acc) matches Step::Done(_, rest) ==> rest.len() + 8 <= b.len(),
    decreases b.len(),
{
    if b.len() >= 8 {
        let v = uval(b, 8) as u8;
        if v != 0 {
            lemma_sp_nts_from_shrinks(b.skip(8), acc.push(v as char));
        }
    }
}

pub proof fn lemma_encode_utf8_push(s: Seq<char>, c: char)
    ensures
        encode_utf8(s.push(c)) == encode_utf8(s) + encode_scalar(c as u32),
    decreases s.len(),
{
    if s.len() == 0 {
        assert(s.push(c).drop_first() =~= Seq::<char>::empty());
        assert(encode_utf8(Seq::<char>::empty()) =~= Seq::<u8>::empty());
        assert(encode_utf8(s.push(c)) =~= encode_scalar(c as u32));
    } else {
        lemma_encode_utf8_push(s.drop_first(), c);
        assert(s.push(c).drop_first() =~= s.drop_first().push(c));
        assert(encode_utf8(s.push(c)) =~= encode_utf8(s) + encode_scalar(c as u32));
    }
}

/// The UTF-8 length of a string grows by one for a byte below 128 taken as a
/// char, and by two for any other byte.
pub proof fn lemma_utf8_len_push_byte(s: Seq<char>, b: u8)
    ensures
        utf8_len(s.push(b as char)) == utf8_len(s) + if b < 128 { 1nat } else { 2nat },
{
    lemma_encode_utf8_push(s, b as char);
    assert((b as char) as u32 == b as u32);
}

pub proof fn lemma_first_zero(s: Seq<u8>, z: int)
    requires
        0 <= z <= s.len(),
        forall|j: int| 0 <= j < z ==> s[j] != 0,
        z == s.len() || s[z] == 0,
    ensures
        first_zero(s) == z,
    decreases s.len(),
{
    if s.len() > 0 && z > 0 {
        assert(forall|j: int| 0 <= j < z - 1 ==> s.drop_first()[j] == s[j + 1]);
        lemma_first_zero(s.drop_first(), z - 1);
    }
}

/// Chars below 128 encode as their own codes, one byte each.
pub proof fn lemma_encode_ascii(s: Seq<char>, b: Seq<u8>)
    requires
        s.len() == b.len(),
        forall|i: int| 0 <= i < s.len() ==> (s[i] as u32) < 128 && (s[i] as u32) == b[i] as u32,
    ensures
        encode_utf8(s) == b,
    decreases s.len(),
{
    if s.len() > 0 {
        lemma_encode_ascii(s.drop_first(), b.drop_first());
        let c = s[0] as u32;
        assert(encode_scalar(c) =~= seq![b[0]]) by {
            assert(c & 0x7f == c) by (bit_vector) requires c < 128;
        }
        assert(encode_utf8(s) =~= b);
    } else {
        assert(encode_utf8(s) =~= b);
    }
}

#[verifier::external_type_specification]
#[verifier::external_body]
pub struct ExArrayString<const CAP: usize>(ArrayString<CAP>);

/// `ArrayString::clone`: a copy of the value; the type is `Copy` and its
/// clone returns `*self`.
pub assume_specification<const CAP: usize>[ <ArrayString<CAP> as Clone>::clone ](
    s: &ArrayString<CAP>,
) -> (res: ArrayString<CAP>)
    ensures
        res == *s,
;

/// The chars held by an `ArrayString<8>`.
pub uninterp spec fn astr8_chars(s: ArrayString<8>) -> Seq<char>;

/// The chars held by an `ArrayString<256>`.
pub uninterp spec fn astr256_chars(s: ArrayString<256>) -> Seq<char>;

/// The chars held by an `ArrayString<260>`.
pub uninterp spec fn astr260_chars(s: ArrayString<260>) -> Seq<char>;

/// `String::push`: appends the char.
#[verifier::external_body]
fn string_push(s: &mut String, c: char)
    ensures
        final(s)@ == old(s)@.push(c),
{
    s.push(c)
}

/// `String::len`: the number of bytes of the UTF-8 encoding.
#[verifier::external_body]
pub(crate) fn string_len(s: &String) -> (r: usize)
    ensures
        r == utf8_len(s@),
{
    s.len()
}

/// `std::str::from_utf8`: the text that the bytes encode, `None` where they
/// are not UTF-8.
#[verifier::external_body]
pub(crate) fn str_from_utf8(v: &[u8]) -> (res: Option<&str>)
    ensures
        res is Some <==> valid_utf8(v@),
        res matches Some(s) ==> s@ == decode_utf8(v@),
{
    std::str::from_utf8(v).ok()
}

/// `ArrayString::<8>::from_byte_string`: the text that the eight bytes
/// encode, `None` where they are not UTF-8.
#[verifier::external_body]
fn astr8_from_byte_string(b: &[u8; 8]) -> (res: Option<ArrayString<8>>)
    ensures
        res is Some <==> valid_utf8(b@),
        res matches Some(a) ==> astr8_chars(a) == decode_utf8(b@),
{
    ArrayString::<8>::from_byte_string(b).ok()
}

/// `ArrayString::<8>::as_str`: the text held.
#[verifier::external_body]
fn astr8_as_str(a: &ArrayString<8>) -> (res: &str)
    ensures
        res@ == astr8_chars(*a),
{
    a.as_str()
}

/// `ArrayString::<256>::len`: the number of UTF-8 bytes held.
#[verifier::external_body]
pub(crate) fn astr256_len(a: &ArrayString<256>) -> (r: usize)
    ensures
        r == utf8_len(astr256_chars(*a)),
{
    a.len()
}

/// `ArrayString::<260>::len`: the number of UTF-8 bytes held.
#[verifier::external_body]
pub(crate) fn astr260_len(a: &ArrayString<260>) -> (r: usize)
    ensures
        r == utf8_len(astr260_chars(*a)),
{
    a.len()
}

/// `ArrayString::<256>::from`: the text, `None` where its UTF-8 encoding is
/// longer than 256 bytes.
#[verifier::external_body]
fn astr256_from(s: &str) -> (res: Option<ArrayString<256>>)
    ensures
        res is Some <==> utf8_len(s@) <= 256,
        res matches Some(a) ==> astr256_chars(a) == s@,
{
    ArrayString::<256>::from(s).ok()
}

/// `ArrayString::<260>::from`: the text, `None` where its UTF-8 encoding is
/// longer than 260 bytes.
#[verifier::external_body]
fn astr260_from(s: &str) -> (res: Option<ArrayString<260>>)
    ensures
        res is Some <==> utf8_len(s@) <= 260,
        res matches Some(a) ==> astr260_chars(a) == s@,
{
    ArrayString::<260>::from(s).ok()
}

/// Whether an eight-byte stamp spells `HL2DEMO` and a zero byte.
pub fn stamp_is_hl2demo(stamp: &ArrayString<8>) -> (r: bool)
    ensures
        r == (astr8_chars(*stamp) == seq!['H', 'L', '2', 'D', 'E', 'M', 'O', '\0']),
{
    let s = astr8_as_str(stamp);
    let b = s.as_bytes();
    let ghost lit = seq!['H', 'L', '2', 'D', 'E', 'M', 'O', '\0'];
    let ghost lit_bytes = seq![72u8, 76u8, 50u8, 68u8, 69u8, 77u8, 79u8, 0u8];
    proof {
        assert forall|i: int| 0 <= i < lit.len() implies (lit[i] as u32) < 128 && (lit[i] as u32)
            == lit_bytes[i] as u32 by {
            assert(0 <= i < 8);
        }
        lemma_encode_ascii(lit, lit_bytes);
    }
    let r = b.len() == 8 && b[0] == 72 && b[1] == 76 && b[2] == 50 && b[3] == 68 && b[4] == 69
        && b[5] == 77 && b[6] == 79 && b[7] == 0;
    proof {
        if r {
            assert(b@ =~= lit_bytes);
            assert(decode_utf8(encode_utf8(s@)) == s@);
            assert(decode_utf8(encode_utf8(lit)) == lit);
        } else {
            if s@ == lit {
                assert(b@ =~= lit_bytes);
            }
        }
    }
    r
}

impl BitStream {
    /// `read_nts`: bytes up to a zero byte, each byte taken as the char of the
    /// same code.
    pub fn read_nts(&mut self) -> (res: Result<String, ParseFail>)
        ensures
            step_matches(res, old(self)@, final(self)@, sp_nts(old(self)@)),
    {
        let mut s = String::new();
        loop
            invariant
                sp_nts_from(self@, s@) == sp_nts(old(self)@),
                self@.len() <= old(self)@.len(),
            decreases self@.len(),
        {
            let byte = self.read_u8(8)?;
            if byte == 0 {
                return Ok(s);
            }
            string_push(&mut s, byte as char);
        }
    }

    /// A zero-terminated string in a buffer of `cap` bytes.
    pub fn read_nts_capped(&mut self, cap: usize) -> (res: Result<String, ParseFail>)
        ensures
            step_matches(res, old(self)@, final(self)@, sp_nts_cap(old(self)@, cap as nat)),
            res matches Ok(s) ==> utf8_len(s@) <= cap,
            res == Err::<String, ParseFail>(ParseFail::Error(DemError::StringTooLong)) ==> final(self)@
                == old(self)@.skip(8 * cap as int),
    {
        let mut s = String::new();
        let mut i: usize = 0;
        proof {
            assert(encode_utf8(Seq::<char>::empty()) =~= Seq::<u8>::empty());
            assert(old(self)@.skip(0) =~= old(self)@);
        }
        while i < cap
            invariant
                i <= cap,
                sp_nts_cap_from(self@, s@, (cap - i) as nat, cap as nat) == sp_nts_cap(old(self)@, cap as nat),
                utf8_len(s@) <= cap,
                self@.len() <= old(self)@.len(),
                old(self)@.len() >= 8 * i,
                self@ == old(self)@.skip(8 * i as int),
            decreases cap - i,
        {
            let byte = self.read_u8(8)?;
            assert(old(self)@.skip(8 * i as int).skip(8) =~= old(self)@.skip(8 * (i + 1) as int));
            if byte == 0 {
                return Ok(s);
            }
            let cur = s.as_str().len();
            let w: usize = if byte < 128 { 1 } else { 2 };
            proof {
                lemma_utf8_len_push_byte(s@, byte);
            }
            if w > cap - cur {
                return Err(ParseFail::Abort);
            }
            string_push(&mut s, byte as char);
            i = i + 1;
        }
        Err(ParseFail::Error(DemError::StringTooLong))
    }

    /// `read_nts_arraystring::<256>`.
    pub fn read_nts_arraystring256(&mut self) -> (res: Result<ArrayString<256>, ParseFail>)
        ensures
            step_matches_with(res, old(self)@, final(self)@, sp_nts_cap(old(self)@, 256), |a: ArrayString<256>| astr256_chars(a)),
            res matches Ok(a) ==> utf8_len(astr256_chars(a)) <= 256,
            res == Err::<ArrayString<256>, ParseFail>(ParseFail::Error(DemError::StringTooLong)) ==> final(self)@
                == old(self)@.skip(8 * 256int),
    {
        let s = self.read_nts_capped(256)?;
        match astr256_from(s.as_str()) {
            Some(a) => Ok(a),
            None => Err(ParseFail::Abort),
        }
    }

    /// `read_nts_arraystring::<260>`.
    pub fn read_nts_arraystring260(&mut self) -> (res: Result<ArrayString<260>, ParseFail>)
        ensures
            step_matches_with(res, old(self)@, final(self)@, sp_nts_cap(old(self)@, 260), |a: ArrayString<260>| astr260_chars(a)),
            res matches Ok(a) ==> utf8_len(astr260_chars(a)) <= 260,
            res == Err::<ArrayString<260>, ParseFail>(ParseFail::Error(DemError::StringTooLong)) ==> final(self)@
                == old(self)@.skip(8 * 260int),
    {
        let s = self.read_nts_capped(260)?;
        match astr260_from(s.as_str()) {
            Some(a) => Ok(a),
            None => Err(ParseFail::Abort),
        }
    }

    /// `read_fixed_arraystr::<260>`: 260 bytes whose text ends at the first
    /// zero byte.
    pub fn read_fixed_arraystr260(&mut self) -> (res: Result<ArrayString<260>, ParseFail>)
        ensures
            step_matches_with(res, old(self)@, final(self)@, sp_fixed_str(old(self)@, 260), |a: ArrayString<260>| astr260_chars(a)),
    {
        let mut bytes = self.read_to_vec(260)?;
        let ghost all = bytes@;
        assert(bytes.deep_view() =~= bytes@);
        let mut z: usize = 0;
        while z < bytes.len() && bytes[z] != 0
            invariant
                z <= bytes.len(),
                bytes@ == all,
                forall|j: int| 0 <= j < z ==> all[j] != 0,
            decreases bytes.len() - z,
        {
            z = z + 1;
        }
        proof {
            lemma_first_zero(all, z as int);
        }
        bytes.truncate(z);
        match str_from_utf8(bytes.as_slice()) {
            None => Err(ParseFail::Error(DemError::InvalidUtf8)),
            Some(text) => {
                proof {
                    assert(encode_utf8(decode_utf8(bytes@)) == bytes@);
                }
                match astr260_from(text) {
                    Some(a) => Ok(a),
                    None => Err(ParseFail::Abort),
                }
            },
        }
    }

    /// `read_fixed_arraystr_notrim::<8>`: eight bytes that must be UTF-8.
    pub fn read_fixed_arraystr_notrim8(&mut self) -> (res: Result<ArrayString<8>, ParseFail>)
        ensures
            step_matches_with(res, old(self)@, final(self)@, sp_fixed_str_notrim(old(self)@, 8), |a: ArrayString<8>| astr8_chars(a)),
    {
        let v = self.read_to_vec(8)?;
        assert(v.deep_view() =~= v@);
        let arr: [u8; 8] = [v[0], v[1], v[2], v[3], v[4], v[5], v[6], v[7]];
        assert(arr@ =~= v@);
        match astr8_from_byte_string(&arr) {
            Some(a) => Ok(a),
            None => Err(ParseFail::Error(DemError::InvalidUtf8)),
        }
    }
}

} // verus!
