use vstd::prelude::*;
use arrayvec::ArrayString;
use crate::error::ParseFail;
use crate::bits::{Bits, BitStream, Step, sp_bit, sp_skip, sp_u16, sp_u32, sp_u8, step_matches};
use crate::text::{astr256_chars, astr256_len, sp_nts_cap, utf8_len};

verus! {

/// The creation of a string table.
#[derive(Debug, Clone, PartialEq)]
pub struct SSvcCreateStringTable {
    pub name: ArrayString<256>,
    pub max_entries: u16,
    pub num_entries: u16,
    pub user_data_size: Option<u16>,
    pub user_data_size_bits: Option<u8>,
    pub flags: StringTableFlags,
}

/// The flags of a new string table.
#[derive(Debug, Clone, Copy, PartialEq, Eq, Structural)]
pub struct StringTableFlags {
    pub data_compressed: bool,
    pub dictionary_maybe_enabled: bool,
}

impl DeepView for StringTableFlags {
    type V = StringTableFlags;

    open spec fn deep_view(&self) -> StringTableFlags {
        *self
    }
}

pub struct SpecSvcCreateStringTable {
    pub name: Seq<char>,
    pub max_entries: u16,
    pub num_entries: u16,
    pub user_data_size: Option<u16>,
    pub user_data_size_bits: Option<u8>,
    pub flags: StringTableFlags,
}

impl DeepView for SSvcCreateStringTable {
    type V = SpecSvcCreateStringTable;

    open spec fn deep_view(&self) -> SpecSvcCreateStringTable {
        SpecSvcCreateStringTable {
            name: astr256_chars(self.name),
            max_entries: self.max_entries,
            num_entries: self.num_entries,
            user_data_size: self.user_data_size,
            user_data_size_bits: self.user_data_size_bits,
            flags: self.flags,
        }
    }
}

/// The base-2 logarithm of `n`, rounded down (0 for 0 and 1).
pub open spec fn log2(n: nat) -> nat
    decreases n,
{
    if n < 2 {
        0
    } else {
        1 + log2(n / 2)
    }
}

/// The user data sizes: a presence bit, then 12 and 4 bits when it is set.
pub open spec fn sp_user_data(b: Bits) -> Step<(Option<u16>, Option<u8>)> {
    sp_bit(b).and_then(|present: bool, b1: Bits|
        if present {
            sp_u16(b1, 12).and_then(|size: u16, b2: Bits|
            sp_u8(b2, 4).and_then(|size_bits: u8, b3: Bits|
                Step::Done((Some(size), Some(size_bits)), b3)))
        } else {
            Step::Done((None, None), b1)
        })
}

/// The flags: the compression bit, then beyond the old engine the dictionary bit.
pub open spec fn sp_table_flags(b: Bits, oe: bool) -> Step<StringTableFlags> {
    sp_bit(b).and_then(|data_compressed: bool, b1: Bits|
        if oe {
            Step::Done(StringTableFlags { data_compressed, dictionary_maybe_enabled: false }, b1)
        } else {
            sp_bit(b1).and_then(|dictionary_maybe_enabled: bool, b2: Bits|
                Step::Done(StringTableFlags { data_compressed, dictionary_maybe_enabled }, b2))
        })
}

/// The name (at most 256 bytes), the capacity, the entry count in
/// `log2(capacity) + 1` bits, the data length in 20 bits, the user data sizes,
/// the flags, then the data, which is passed over.  A zero capacity has no
/// logarithm.
pub open spec fn sp_create_string_table(b: Bits, oe: bool) -> Step<(SpecSvcCreateStringTable, u64)> {
    sp_nts_cap(b, 256).and_then(|name: Seq<char>, b1: Bits|
    sp_u16(b1, 16).and_then(|max_entries: u16, b2: Bits|
        if max_entries == 0 {
            Step::Abort
        } else {
            let lg = log2(max_entries as nat);
            sp_u16(b2, lg + 1).and_then(|num_entries: u16, b3: Bits|
            sp_u32(b3, 20).and_then(|length: u32, b4: Bits|
            sp_user_data(b4).and_then(|ud: (Option<u16>, Option<u8>), b5: Bits|
            sp_table_flags(b5, oe).and_then(|flags: StringTableFlags, b6: Bits|
            sp_skip(b6, length as nat).and_then(|u: (), b7: Bits|
                {
                    let extrabits: nat = (if ud.0 is Some { 16nat } else { 0nat }) + if oe { 0nat } else { 1nat };
                    Step::Done(
                        (
                            SpecSvcCreateStringTable {
                                name,
                                max_entries,
                                num_entries,
                                user_data_size: ud.0,
                                user_data_size_bits: ud.1,
                                flags,
                            },
                            ((utf8_len(name) + 1) * 8 + 16 + (lg + 1) + 20 + 1 + 1 + extrabits + length) as u64,
                        ),
                        b7,
                    )
                })))))
        }))
}

/// A value below `2^k` has a logarithm below `k`.
pub proof fn lemma_log2_below(n: nat, k: nat)
    requires
        n < vstd::arithmetic::power2::pow2(k),
        k >= 1,
    ensures
        log2(n) < k,
    decreases k,
{
    if n >= 2 {
        vstd::arithmetic::power2::lemma_pow2_unfold(k);
        if k == 1 {
            vstd::arithmetic::power2::lemma2_to64();
        } else {
            lemma_log2_below(n / 2, (k - 1) as nat);
        }
    }
}

/// `u16::ilog2`: the base-2 logarithm of a positive value, rounded down.
fn ilog2_u16(n: u16) -> (r: u32)
    requires
        n > 0,
    ensures
        r == log2(n as nat),
        r <= 15,
{
    proof {
        vstd::arithmetic::power2::lemma2_to64();
        lemma_log2_below(n as nat, 16);
    }
    let mut x = n;
    let mut r: u32 = 0;
    while x >= 2
        invariant
            1 <= x <= n,
            r + log2(x as nat) == log2(n as nat),
            log2(n as nat) <= 15,
        decreases x,
    {
        x = x / 2;
        r = r + 1;
    }
    r
}

impl SSvcCreateStringTable {
    pub fn bitread(reader: &mut BitStream, oe: bool) -> (res: Result<(SSvcCreateStringTable, u64), ParseFail>)
        ensures
            step_matches(res, old(reader)@, final(reader)@, sp_create_string_table(old(reader)@, oe)),
    {
        let name = reader.read_nts_arraystring256()?;
        let max_entries = reader.read_u16(16)?;
        if max_entries == 0 {
            return Err(ParseFail::Abort);
        }
        let lg = ilog2_u16(max_entries);
        let num_entries = reader.read_u16(lg + 1)?;
        let length = reader.read_u32(20)?;

        let mut extrabits: u64 = 0;
        let (user_data_size, user_data_size_bits) = if reader.read_bit()? {
            extrabits = extrabits + 16;
            let size = reader.read_u16(12)?;
            let size_bits = reader.read_u8(4)?;
            (Some(size), Some(size_bits))
        } else {
            (None, None)
        };

        let flags = {
            let data_compressed = reader.read_bit()?;
            let dictionary_maybe_enabled = if !oe {
                extrabits = extrabits + 1;
                reader.read_bit()?
            } else {
                false
            };
            StringTableFlags { data_compressed, dictionary_maybe_enabled }
        };

        reader.skip(length)?;

        let len = astr256_len(&name) as u64;
        Ok((
            SSvcCreateStringTable {
                name,
                max_entries,
                num_entries,
                user_data_size,
                user_data_size_bits,
                flags,
            },
            (len + 1) * 8 + 16 + (lg as u64 + 1) + 20 + 1 + 1 + extrabits + length as u64,
        ))
    }
}

} // verus!
