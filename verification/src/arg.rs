//! The operand data model.
//!
//! Each REIL instruction carries up to three operand slots. A slot holds a
//! type tag, an operand width, an integer value (meaningful only for
//! constants and locations) and a fixed-capacity, zero-terminated name
//! buffer (meaningful only for slots that are present at all). The
//! accessors here are total: a slot whose tag marks it absent reports
//! absence rather than whatever bytes happen to sit in the record.

use vstd::prelude::*;
use vstd::utf8::decode_utf8;
use vstd::utf8::valid_utf8;

verus! {

/// The type tag of an operand slot, one variant per engine constant.
/// `ANone` marks an absent slot.
#[derive(Clone, Copy, Debug, PartialEq, Eq, Structural)]
pub enum ReilType {
    ANone,
    AReg,
    ATemp,
    AConst,
    ALoc,
}

/// The width of an operand, one variant per engine constant.
#[derive(Clone, Copy, Debug, PartialEq, Eq, Structural)]
pub enum ReilSize {
    U1,
    U8,
    U16,
    U32,
    U64,
}

/// One operand slot of a REIL instruction, recorded as plain values: the
/// engine's record is copied into this form field by field, so the slot
/// stays readable after the engine reclaims its own storage.
#[derive(Clone, Copy, Debug)]
pub struct ReilArg {
    /// The type tag; `ANone` marks the slot as absent.
    pub ty: ReilType,
    /// The operand width.
    pub width: ReilSize,
    /// The integer value; meaningful only when `ty` is `AConst` or `ALoc`.
    pub value: u64,
    /// The name bytes, zero-terminated unless all fifteen are in use;
    /// meaningful only when the slot is present.
    pub name_buf: [u8; 15],
}

/// Whether a slot of this type carries an integer value. Registers and
/// temporaries are identified by name, not by a numeric value.
pub open spec fn has_value(ty: ReilType) -> bool {
    ty is AConst || ty is ALoc
}

/// How many bytes stand before the first zero byte (all of them when no
/// byte is zero).
pub open spec fn nul_prefix_len(s: Seq<u8>) -> int
    decreases s.len(),
{
    if s.len() == 0 || s[0] == 0 {
        0
    } else {
        1 + nul_prefix_len(s.drop_first())
    }
}

/// The bytes before the first zero byte.
pub open spec fn nul_prefix(s: Seq<u8>) -> Seq<u8> {
    s.take(nul_prefix_len(s))
}

/// `nul_prefix_len` is the unique index bounded by the length whose
/// preceding bytes are all nonzero and which either ends the sequence or
/// lands on a zero byte.
proof fn lemma_nul_prefix_len_at(s: Seq<u8>, i: int)
    requires
        0 <= i <= s.len(),
        forall|j: int| 0 <= j < i ==> s[j] != 0,
        i == s.len() || s[i] == 0,
    ensures
        nul_prefix_len(s) == i,
    decreases s.len(),
{
    if i == 0 {
    } else {
        assert(s[0] != 0);
        lemma_nul_prefix_len_at(s.drop_first(), i - 1);
    }
}

/// The characters named by a slot: absent for an absent slot, and absent
/// when the bytes before the first zero are not valid UTF-8; otherwise the
/// decoding of those bytes.
pub open spec fn name_chars(a: ReilArg) -> Option<Seq<char>> {
    if a.ty is ANone {
        Option::None
    } else if valid_utf8(nul_prefix(a.name_buf@)) {
        Option::Some(decode_utf8(nul_prefix(a.name_buf@)))
    } else {
        Option::None
    }
}

/// Relies on the standard library's `String::from_utf8`: it returns a
/// string holding exactly the given bytes when they are valid UTF-8, and
/// an error otherwise.
#[verifier::external_body]
fn utf8_to_string(bytes: Vec<u8>) -> (r: Option<String>)
    ensures
        r is Some <==> valid_utf8(bytes@),
        r matches Some(s) ==> s@ == decode_utf8(bytes@),
{
    String::from_utf8(bytes).ok()
}

impl ReilArg {
    /// The slot's type tag.
    pub fn arg_type(&self) -> (r: ReilType)
        ensures
            r == self.ty,
    {
        self.ty
    }

    /// The slot's operand width.
    pub fn size(&self) -> (r: ReilSize)
        ensures
            r == self.width,
    {
        self.width
    }

    /// The slot's integer value: present exactly for constants and
    /// locations, absent for every other type tag.
    pub fn val(&self) -> (r: Option<u64>)
        ensures
            has_value(self.ty) ==> r == Some(self.value),
            !has_value(self.ty) ==> r is None,
    {
        match self.ty {
            ReilType::AConst => Some(self.value),
            ReilType::ALoc => Some(self.value),
            _ => None,
        }
    }

    /// The slot's name: absent for an absent slot; otherwise the text
    /// decoded from the name bytes up to (and excluding) the first zero
    /// byte, or absent when those bytes are not valid text.
    pub fn name(&self) -> (r: Option<String>)
        ensures
            r is Some <==> name_chars(*self) is Some,
            r matches Some(s) ==> Option::Some(s@) == name_chars(*self),
    {
        if self.ty == ReilType::ANone {
            return None;
        }
        let mut bytes: Vec<u8> = Vec::new();
        let mut i: usize = 0;
        while i < 15 && self.name_buf[i] != 0
            invariant
                i <= 15,
                bytes@ == self.name_buf@.take(i as int),
                forall|j: int| 0 <= j < i ==> self.name_buf@[j] != 0,
            decreases 15 - i,
        {
            bytes.push(self.name_buf[i]);
            assert(bytes@ =~= self.name_buf@.take(i + 1));
            i = i + 1;
        }
        proof {
            lemma_nul_prefix_len_at(self.name_buf@, i as int);
        }
        utf8_to_string(bytes)
    }
}

} // verus!
