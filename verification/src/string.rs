//! The string bridge between the host and the foreign engine.
//!
//! The engine's native text representation is UTF-32: a length-prefixed
//! buffer of 32-bit code units, null-terminated where an entry point asks for
//! that. The host's native representation is UTF-8. Every string that
//! crosses the boundary goes through exactly one conversion, and the fallible
//! direction reports the index of the first invalid code unit instead of
//! falling back to a lossy result.
//!
//! The conversions themselves are carried out by the `widestring` crate; the
//! contracts here state their outcome unit by unit, over the sequence specs
//! below, and the round-trip law [`lemma_encode_decode_roundtrip`] is proved
//! from those statements.

use vstd::prelude::*;
use vstd::utf8::{decode_utf8, is_scalar, partial_valid_utf8, valid_utf8};

verus! {

/// True when every 32-bit unit is a Unicode scalar value, so the buffer
/// decodes without loss.
pub open spec fn utf32_valid(units: Seq<u32>) -> bool {
    forall|i: int| 0 <= i < units.len() ==> is_scalar(#[trigger] units[i])
}

/// The characters a valid UTF-32 buffer holds: one per unit.
pub open spec fn decoded_utf32(units: Seq<u32>) -> Seq<char> {
    units.map_values(|u: u32| u as char)
}

/// The characters of a lossy decode: a unit that is no scalar value becomes
/// the replacement character.
pub open spec fn lossy_decoded_utf32(units: Seq<u32>) -> Seq<char> {
    units.map_values(|u: u32| if is_scalar(u) { u as char } else { '\u{FFFD}' })
}

/// The UTF-32 units of a host string: one per character.
pub open spec fn encoded_utf32(text: Seq<char>) -> Seq<u32> {
    text.map_values(|c: char| c as u32)
}

/// Relies on widestring's `U32Str::to_string`: each 32-bit unit becomes the
/// character with that code point, and the first unit that is no Unicode
/// scalar value is reported by its zero-based index.
#[verifier::external_body]
fn utf32_units_to_string(units: &[u32]) -> (r: Result<String, usize>)
    ensures
        match r {
            Ok(s) => utf32_valid(units@) && s@ == decoded_utf32(units@),
            Err(i) => i < units@.len() && !is_scalar(units@[i as int]) && forall|j: int|
                0 <= j < i ==> is_scalar(#[trigger] units@[j]),
        },
{
    widestring::U32Str::from_slice(units).to_string().map_err(|e| e.index())
}

/// Relies on widestring's `U32Str::to_string_lossy`: each 32-bit unit becomes
/// the character with that code point, or the replacement character where
/// there is none.
#[verifier::external_body]
fn utf32_units_to_string_lossy(units: &[u32]) -> (r: String)
    ensures
        r@ == lossy_decoded_utf32(units@),
{
    widestring::U32Str::from_slice(units).to_string_lossy()
}

/// Relies on widestring's `U32String::from_str`: the buffer holds one 32-bit
/// unit per character of the input, each the character's code point.
#[verifier::external_body]
fn str_to_utf32_units(s: &str) -> (r: Vec<u32>)
    ensures
        r@ == encoded_utf32(s@),
{
    widestring::U32String::from_str(s).into_vec()
}

/// Relies on std's `str::from_utf8`: succeeds exactly on valid UTF-8, giving
/// a view of the same bytes; on failure it reports the length of the longest
/// valid prefix (the documented meaning of `Utf8Error::valid_up_to`).
#[verifier::external_body]
fn bytes_to_str(bytes: &[u8]) -> (r: Result<&str, usize>)
    ensures
        match r {
            Ok(s) => valid_utf8(bytes@) && s@ == decode_utf8(bytes@),
            Err(i) => {
                &&& !valid_utf8(bytes@)
                &&& partial_valid_utf8(bytes@, i as int)
                &&& forall|j: int| i < j <= bytes@.len() ==> !partial_valid_utf8(bytes@, j)
            },
        },
{
    std::str::from_utf8(bytes).map_err(|e| e.valid_up_to())
}

/// A UTF-32 string buffer compatible with the engine's string type.
///
/// Holds the code units length-prefixed (the vector knows its length); the
/// null terminator that some foreign entry points want is appended on demand
/// by [`SfStr::to_nul_terminated`].
#[derive(Debug)]
pub struct SfStr {
    units: Vec<u32>,
}

/// The first invalid code unit found while translating UTF-32 to UTF-8.
#[derive(Clone, Copy, PartialEq, Eq, Structural, Debug)]
pub struct SfStrConvError {
    index: usize,
}

impl SfStrConvError {
    /// The zero-based position of the offending unit.
    pub closed spec fn error_index(self) -> int {
        self.index as int
    }

    /// Returns the index in the string where the conversion error occurred.
    pub fn index(&self) -> (r: usize)
        ensures
            r == self.error_index(),
    {
        self.index
    }

    /// Returns the underlying vector of values which generated the error.
    ///
    /// Conversion errors here always come from borrowed units, never from a
    /// consumed buffer, so there is no vector to give back.
    pub fn into_vec(self) -> (r: Option<Vec<u32>>)
        ensures
            r is None,
    {
        None
    }
}

impl SfStr {
    /// The code units this buffer holds, without any terminator.
    pub closed spec fn units(self) -> Seq<u32> {
        self.units@
    }

    /// A buffer holding exactly the given units.
    pub fn from_units(units: Vec<u32>) -> (r: SfStr)
        ensures
            r.units() == units@,
    {
        SfStr { units }
    }

    /// Encodes a host string: one 32-bit unit per character. Always succeeds
    /// on a host string, whose characters are scalar values by construction.
    pub fn from_rust_str(s: &str) -> (r: SfStr)
        ensures
            r.units() == encoded_utf32(s@),
    {
        SfStr { units: str_to_utf32_units(s) }
    }

    /// How many code units the buffer holds.
    pub fn len(&self) -> (r: usize)
        ensures
            r == self.units().len(),
    {
        self.units.len()
    }

    /// The code units, for foreign entry points that take a length-prefixed
    /// buffer.
    pub fn as_units(&self) -> (r: &[u32])
        ensures
            r@ == self.units(),
    {
        self.units.as_slice()
    }

    /// The code units with a null terminator appended, for foreign entry
    /// points that take a null-terminated buffer.
    pub fn to_nul_terminated(&self) -> (r: Vec<u32>)
        ensures
            r@ == self.units().push(0u32),
    {
        let mut out: Vec<u32> = Vec::new();
        let mut i: usize = 0;
        while i < self.units.len()
            invariant
                0 <= i <= self.units().len(),
                out@ == self.units().take(i as int),
            decreases self.units().len() - i,
        {
            out.push(self.units[i]);
            i = i + 1;
        }
        out.push(0);
        proof {
            assert(out@ =~= self.units().push(0u32));
        }
        out
    }

    /// Convert to a UTF-8 `String` from the host's standard library.
    ///
    /// Only for buffers already known valid; the fallible form is
    /// [`SfStr::try_to_rust_string`].
    pub fn to_rust_string(&self) -> (r: String)
        requires
            utf32_valid(self.units()),
        ensures
            r@ == decoded_utf32(self.units()),
    {
        match utf32_units_to_string(self.units.as_slice()) {
            Ok(s) => s,
            Err(_) => vstd::pervasive::unreached(),
        }
    }

    /// Convert to a UTF-8 `String` from the host's standard library.
    ///
    /// Succeeds exactly when every unit is a Unicode scalar value; fails with
    /// the zero-based index of the first unit that is not.
    pub fn try_to_rust_string(&self) -> (r: Result<String, SfStrConvError>)
        ensures
            match r {
                Ok(s) => utf32_valid(self.units()) && s@ == decoded_utf32(self.units()),
                Err(e) => {
                    &&& !utf32_valid(self.units())
                    &&& 0 <= e.error_index() < self.units().len()
                    &&& !is_scalar(self.units()[e.error_index()])
                    &&& forall|j: int|
                        0 <= j < e.error_index() ==> is_scalar(#[trigger] self.units()[j])
                },
            },
    {
        match utf32_units_to_string(self.units.as_slice()) {
            Ok(s) => Ok(s),
            Err(index) => Err(SfStrConvError { index }),
        }
    }

    /// Lossy conversion to a UTF-8 `String`: never fails, invalid units map
    /// to the replacement character.
    pub fn to_rust_string_lossy(&self) -> (r: String)
        ensures
            r@ == lossy_decoded_utf32(self.units()),
    {
        utf32_units_to_string_lossy(self.units.as_slice())
    }
}

/// Round-trip: encoding a host string gives a valid UTF-32 buffer, and
/// decoding that buffer gives the host string back, character for character.
/// The lossy decode agrees, since no unit of a valid buffer is replaced.
pub proof fn lemma_encode_decode_roundtrip(text: Seq<char>)
    ensures
        utf32_valid(encoded_utf32(text)),
        decoded_utf32(encoded_utf32(text)) == text,
        lossy_decoded_utf32(encoded_utf32(text)) == text,
{
    let units = encoded_utf32(text);
    assert forall|i: int| 0 <= i < units.len() implies is_scalar(#[trigger] units[i]) by {
        vstd::utf8::char_is_scalar(text[i]);
    }
    assert forall|i: int| 0 <= i < units.len() implies decoded_utf32(units)[i] == text[i] by {
        vstd::utf8::char_u32_cast(text[i], units[i]);
    }
    assert(decoded_utf32(units) =~= text);
    assert forall|i: int| 0 <= i < units.len()
        implies lossy_decoded_utf32(units)[i] == text[i] by {
        vstd::utf8::char_u32_cast(text[i], units[i]);
    }
    assert(lossy_decoded_utf32(units) =~= text);
}

/// A valid buffer decodes the same with and without the lossy fallback.
pub proof fn lemma_lossy_decode_of_valid(units: Seq<u32>)
    requires
        utf32_valid(units),
    ensures
        lossy_decoded_utf32(units) == decoded_utf32(units),
{
    assert(lossy_decoded_utf32(units) =~= decoded_utf32(units));
}

/// The image of a byte string the engine owns (the foreign side's standard
/// byte-string type), read back into host values.
#[derive(Debug)]
pub struct CppString {
    bytes: Vec<u8>,
}

/// The bytes were not valid UTF-8; the longest valid prefix has the
/// reported length.
#[derive(Clone, Copy, PartialEq, Eq, Structural, Debug)]
pub struct CppStringUtf8Error {
    valid_up_to: usize,
}

impl CppStringUtf8Error {
    /// The length of the longest prefix that still decoded.
    pub closed spec fn prefix_len(self) -> int {
        self.valid_up_to as int
    }

    /// The length of the longest prefix that still decoded.
    pub fn valid_up_to(&self) -> (r: usize)
        ensures
            r == self.prefix_len(),
    {
        self.valid_up_to
    }
}

impl CppString {
    /// The bytes the foreign string holds.
    pub closed spec fn bytes(self) -> Seq<u8> {
        self.bytes@
    }

    /// A foreign byte string holding exactly the given bytes.
    pub fn from_bytes(bytes: Vec<u8>) -> (r: CppString)
        ensures
            r.bytes() == bytes@,
    {
        CppString { bytes }
    }

    /// The raw bytes, as the foreign getter pair (data, length) hands them
    /// out.
    pub fn data(&self) -> (r: &[u8])
        ensures
            r@ == self.bytes(),
    {
        self.bytes.as_slice()
    }

    /// Attempt to get `&str` out of this `CppString`, as long as it's valid
    /// UTF-8. Succeeds exactly when the bytes are valid UTF-8.
    pub fn to_str(&self) -> (r: Result<&str, CppStringUtf8Error>)
        ensures
            match r {
                Ok(s) => valid_utf8(self.bytes()) && s@ == decode_utf8(self.bytes()),
                Err(e) => {
                    &&& !valid_utf8(self.bytes())
                    &&& partial_valid_utf8(self.bytes(), e.prefix_len())
                    &&& forall|j: int|
                        e.prefix_len() < j <= self.bytes().len()
                            ==> !partial_valid_utf8(self.bytes(), j)
                },
            },
    {
        match bytes_to_str(self.bytes.as_slice()) {
            Ok(s) => Ok(s),
            Err(valid_up_to) => Err(CppStringUtf8Error { valid_up_to }),
        }
    }
}

impl PartialEq for CppString {
    /// Two foreign byte strings are equal when they hold the same bytes.
    fn eq(&self, other: &Self) -> (r: bool) {
        let mut i: usize = 0;
        if self.bytes.len() != other.bytes.len() {
            return false;
        }
        while i < self.bytes.len()
            invariant
                0 <= i <= self.bytes().len(),
                self.bytes().len() == other.bytes().len(),
                forall|j: int| 0 <= j < i ==> self.bytes()[j] == other.bytes()[j],
            decreases self.bytes().len() - i,
        {
            if self.bytes[i] != other.bytes[i] {
                return false;
            }
            i = i + 1;
        }
        proof {
            assert(self.bytes() =~= other.bytes());
        }
        true
    }
}

impl vstd::std_specs::cmp::PartialEqSpecImpl for CppString {
    open spec fn obeys_eq_spec() -> bool {
        true
    }

    open spec fn eq_spec(&self, other: &CppString) -> bool {
        self.bytes() == other.bytes()
    }
}

/// The image of the foreign side's vector of byte strings: indexable, owned
/// as one block by whichever handle produced it.
#[derive(Debug)]
pub struct CppStringVector {
    items: Vec<CppString>,
}

impl CppStringVector {
    /// The byte strings the vector holds, by their bytes.
    pub closed spec fn items(self) -> Seq<Seq<u8>> {
        self.items@.map_values(|s: CppString| s.bytes())
    }

    /// A vector holding exactly the given strings.
    pub fn from_items(items: Vec<CppString>) -> (r: CppStringVector)
        ensures
            r.items() == items@.map_values(|s: CppString| s.bytes()),
    {
        CppStringVector { items }
    }

    /// How many strings the vector holds.
    pub fn len(&self) -> (r: usize)
        ensures
            r == self.items().len(),
    {
        self.items.len()
    }

    /// The string at `index`.
    pub fn get(&self, index: usize) -> (r: &CppString)
        requires
            index < self.items().len(),
        ensures
            r.bytes() == self.items()[index as int],
    {
        &self.items[index]
    }

    /// A cursor over the vector's strings, starting at the front.
    pub fn iter<'a>(&'a self) -> (r: CppStringVectorIter<'a>)
        ensures
            r.items() == self.items(),
            r.cursor() == 0,
    {
        CppStringVectorIter { vec: self, cursor: 0 }
    }
}

/// An in-order cursor over a foreign string vector: the strings the
/// engine's per-index getter yields, front to back, one call at a time.
pub struct CppStringVectorIter<'a> {
    vec: &'a CppStringVector,
    cursor: usize,
}

impl<'a> CppStringVectorIter<'a> {
    /// The strings walked over, by their bytes.
    pub closed spec fn items(self) -> Seq<Seq<u8>> {
        self.vec.items()
    }

    /// How many strings have been handed out so far.
    pub closed spec fn cursor(self) -> int {
        self.cursor as int
    }

    /// The next string, front to back; nothing once every string has been
    /// handed out, and the cursor then stays put.
    pub fn next(&mut self) -> (r: Option<&'a CppString>)
        ensures
            final(self).items() == old(self).items(),
            old(self).cursor() >= old(self).items().len() ==> r is None && final(self).cursor()
                == old(self).cursor(),
            old(self).cursor() < old(self).items().len() ==> {
                &&& r is Some
                &&& r->Some_0.bytes() == old(self).items()[old(self).cursor()]
                &&& final(self).cursor() == old(self).cursor() + 1
            },
    {
        if self.cursor >= self.vec.len() {
            return None;
        }
        let item = self.vec.get(self.cursor);
        self.cursor = self.cursor + 1;
        Some(item)
    }
}

} // verus!
