use vstd::prelude::*;
use vstd::utf8::*;
use std::string::FromUtf16Error;

verus! {

/// Every code unit is in the ASCII range.
pub open spec fn all_ascii_units(units: Seq<u16>) -> bool {
    forall|i: int| 0 <= i < units.len() ==> #[trigger] units[i] <= 0x7F
}

/// Index of the first NUL code unit, or the length when there is none.
pub open spec fn first_nul(units: Seq<u16>) -> int
    decreases units.len(),
{
    if units.len() == 0 {
        0
    } else if units[0] == 0 {
        0
    } else {
        1 + first_nul(units.drop_first())
    }
}

/// The code units before the first NUL.
pub open spec fn before_nul(units: Seq<u16>) -> Seq<u16> {
    units.take(first_nul(units))
}

/// Each code unit narrowed to its low byte.
pub open spec fn narrow(units: Seq<u16>) -> Seq<u8> {
    Seq::new(units.len(), |i: int| units[i] as u8)
}

/// Each byte widened to a code unit.
pub open spec fn widen(bytes: Seq<u8>) -> Seq<u16> {
    Seq::new(bytes.len(), |i: int| bytes[i] as u16)
}

/// `n` is the index of the first NUL of `units` (or its length).
pub open spec fn is_first_nul(units: Seq<u16>, n: int) -> bool {
    &&& 0 <= n <= units.len()
    &&& forall|i: int| 0 <= i < n ==> #[trigger] units[i] != 0
    &&& n < units.len() ==> units[n] == 0
}

/// `first_nul` is the index that `is_first_nul` describes.
pub proof fn lemma_first_nul(units: Seq<u16>, n: int)
    requires
        is_first_nul(units, n),
    ensures
        first_nul(units) == n,
    decreases units.len(),
{
    if units.len() == 0 {
    } else if units[0] == 0 {
    } else {
        let rest = units.drop_first();
        assert(is_first_nul(rest, n - 1)) by {
            assert forall|i: int| 0 <= i < n - 1 implies #[trigger] rest[i] != 0 by {
                assert(units[i + 1] != 0);
            }
        }
        lemma_first_nul(rest, n - 1);
    }
}

/// `first_nul` lies within the units, after no NUL and at one (or the end).
pub proof fn lemma_first_nul_bounds(units: Seq<u16>)
    ensures
        is_first_nul(units, first_nul(units)),
    decreases units.len(),
{
    if units.len() > 0 && units[0] != 0 {
        let rest = units.drop_first();
        lemma_first_nul_bounds(rest);
        assert forall|i: int| 0 <= i < first_nul(units) implies #[trigger] units[i] != 0 by {
            if i > 0 {
                assert(units[i] == rest[i - 1]);
            }
        }
    }
}

/// Widens each byte to a UTF-16 code unit.
pub fn u8_to_u16_neon(input: &[u8]) -> (out: Vec<u16>)
    ensures
        out@ == widen(input@),
{
    let len = input.len();
    let mut out: Vec<u16> = Vec::with_capacity(len);
    let mut i: usize = 0;
    while i < len
        invariant
            len == input@.len(),
            i <= len,
            out@.len() == i,
            forall|j: int| 0 <= j < i ==> #[trigger] out@[j] == input@[j] as u16,
        decreases len - i,
    {
        out.push(input[i] as u16);
        i += 1;
    }
    assert(out@ =~= widen(input@));
    out
}

/// Narrows the code units before the first NUL to bytes, or `None` when one
/// of them lies outside the ASCII range.
fn utf16_to_utf8_ascii(input: &[u16]) -> (res: Option<Vec<u8>>)
    ensures
        res is Some <==> all_ascii_units(before_nul(input@)),
        res matches Some(v) ==> v@ == narrow(before_nul(input@)),
{
    let total = input.len();
    let mut len: usize = 0;
    while len < total && input[len] != 0
        invariant
            total == input@.len(),
            len <= total,
            forall|i: int| 0 <= i < len ==> #[trigger] input@[i] != 0,
        decreases total - len,
    {
        len += 1;
    }
    proof {
        lemma_first_nul(input@, len as int);
    }
    let ghost prefix = before_nul(input@);
    let mut out: Vec<u8> = Vec::with_capacity(len);
    let mut j: usize = 0;
    while j < len
        invariant
            total == input@.len(),
            len <= total,
            prefix == input@.take(len as int),
            prefix == before_nul(input@),
            j <= len,
            out@.len() == j,
            forall|k: int| 0 <= k < j ==> #[trigger] out@[k] == input@[k] as u8,
            forall|k: int| 0 <= k < j ==> #[trigger] input@[k] <= 0x7F,
        decreases len - j,
    {
        let c = input[j];
        if c > 0x7F {
            assert(!all_ascii_units(prefix)) by {
                assert(prefix[j as int] == c);
            }
            return None;
        }
        out.push(c as u8);
        j += 1;
    }
    assert(out@ =~= narrow(prefix));
    assert(all_ascii_units(prefix)) by {
        assert forall|k: int| 0 <= k < prefix.len() implies #[trigger] prefix[k] <= 0x7F by {
            assert(prefix[k] == input@[k]);
        }
    }
    Some(out)
}


/* UTF-16 */

pub open spec fn is_high_surrogate(u: u16) -> bool {
    0xD800 <= u <= 0xDBFF
}

pub open spec fn is_low_surrogate(u: u16) -> bool {
    0xDC00 <= u <= 0xDFFF
}

/// The scalar that a high and a low surrogate encode together.
pub open spec fn surrogate_pair_char(hi: u16, lo: u16) -> char {
    (0x10000 + (hi - 0xD800) * 0x400 + (lo - 0xDC00)) as char
}

/// UTF-16 decoding: `None` when some surrogate is not part of a
/// high-low pair.
pub open spec fn decode_utf16(units: Seq<u16>) -> Option<Seq<char>>
    decreases units.len(),
{
    if units.len() == 0 {
        Some(Seq::empty())
    } else if !is_high_surrogate(units[0]) && !is_low_surrogate(units[0]) {
        match decode_utf16(units.drop_first()) {
            Some(rest) => Some(seq![units[0] as char] + rest),
            None => None,
        }
    } else if is_high_surrogate(units[0]) && units.len() >= 2 && is_low_surrogate(units[1]) {
        match decode_utf16(units.skip(2)) {
            Some(rest) => Some(seq![surrogate_pair_char(units[0], units[1])] + rest),
            None => None,
        }
    } else {
        None
    }
}

/// UTF-16 decoding where each unpaired surrogate becomes U+FFFD.
pub open spec fn decode_utf16_lossy(units: Seq<u16>) -> Seq<char>
    decreases units.len(),
{
    if units.len() == 0 {
        Seq::empty()
    } else if !is_high_surrogate(units[0]) && !is_low_surrogate(units[0]) {
        seq![units[0] as char] + decode_utf16_lossy(units.drop_first())
    } else if is_high_surrogate(units[0]) && units.len() >= 2 && is_low_surrogate(units[1]) {
        seq![surrogate_pair_char(units[0], units[1])] + decode_utf16_lossy(units.skip(2))
    } else {
        seq!['\u{FFFD}'] + decode_utf16_lossy(units.drop_first())
    }
}

/// What `utf16_to_utf8` gives for `units`: the ASCII prefix before the
/// first NUL when every unit is ASCII, else the UTF-8 encoding of the
/// decoded text, if it decodes.
pub open spec fn utf16_to_utf8_spec(units: Seq<u16>) -> Option<Seq<u8>> {
    if all_ascii_units(units) {
        Some(narrow(before_nul(units)))
    } else {
        match decode_utf16(units) {
            Some(chars) => Some(encode_utf8(chars)),
            None => None,
        }
    }
}

/// The error of `String::from_utf16`.
#[verifier::external_type_specification]
#[verifier::external_body]
pub struct ExFromUtf16Error(std::string::FromUtf16Error);

/// Calls `String::from_utf16`, which decodes UTF-16 and fails on invalid
/// data (an unpaired surrogate).
#[verifier::external_body]
fn string_from_utf16(units: &[u16]) -> (res: Result<String, FromUtf16Error>)
    ensures
        res is Ok <==> decode_utf16(units@) is Some,
        res matches Ok(s) ==> s@ == decode_utf16(units@).unwrap(),
{
    String::from_utf16(units)
}

/// Calls `String::from_utf16_lossy`, which decodes UTF-16 and puts U+FFFD in
/// place of each unpaired surrogate.
#[verifier::external_body]
fn string_from_utf16_lossy(units: &[u16]) -> (res: String)
    ensures
        res@ == decode_utf16_lossy(units@),
{
    String::from_utf16_lossy(units)
}

/// Calls `String::into_bytes`, which hands back the UTF-8 bytes of the string.
#[verifier::external_body]
fn string_into_bytes(s: String) -> (res: Vec<u8>)
    ensures
        res@ == encode_utf8(s@),
{
    s.into_bytes()
}

/// Converts UTF-16 code units to UTF-8 bytes. Text made of ASCII alone takes
/// a fast path that stops at the first NUL; other text is decoded in full and
/// gives `None` when it is not valid UTF-16.
pub fn utf16_to_utf8(input: &[u16]) -> (res: Option<Vec<u8>>)
    ensures
        res is Some <==> utf16_to_utf8_spec(input@) is Some,
        res matches Some(v) ==> v@ == utf16_to_utf8_spec(input@).unwrap(),
{
    let mut all_ascii = true;
    let mut i: usize = 0;
    while i < input.len()
        invariant
            i <= input@.len(),
            all_ascii <==> (forall|k: int| 0 <= k < i ==> #[trigger] input@[k] <= 0x7F),
        decreases input@.len() - i,
    {
        if input[i] > 0x7F {
            all_ascii = false;
        }
        i += 1;
    }
    if all_ascii {
        assert(all_ascii_units(before_nul(input@))) by {
            let p = before_nul(input@);
            lemma_first_nul_bounds(input@);
            assert forall|k: int| 0 <= k < p.len() implies #[trigger] p[k] <= 0x7F by {
                assert(p[k] == input@[k]);
            }
        }
        utf16_to_utf8_ascii(input)
    } else {
        match string_from_utf16(input) {
            Ok(s) => Some(string_into_bytes(s)),
            Err(_) => None,
        }
    }
}

/// Each ASCII code unit read as a `char`.
pub open spec fn ascii_chars(units: Seq<u16>) -> Seq<char> {
    Seq::new(units.len(), |i: int| units[i] as char)
}

proof fn lemma_decode_ascii(units: Seq<u16>)
    requires
        all_ascii_units(units),
    ensures
        decode_utf16(units) == Some(ascii_chars(units)),
        decode_utf16_lossy(units) == ascii_chars(units),
    decreases units.len(),
{
    if units.len() > 0 {
        let rest = units.drop_first();
        assert(units[0] <= 0x7F);
        assert(all_ascii_units(rest)) by {
            assert forall|i: int| 0 <= i < rest.len() implies #[trigger] rest[i] <= 0x7F by {
                assert(rest[i] == units[i + 1]);
            }
        }
        lemma_decode_ascii(rest);
        assert(seq![units[0] as char] + ascii_chars(rest) =~= ascii_chars(units));
    } else {
        assert(ascii_chars(units) =~= Seq::<char>::empty());
    }
}

proof fn lemma_encode_ascii(units: Seq<u16>)
    requires
        all_ascii_units(units),
    ensures
        encode_utf8(ascii_chars(units)) == narrow(units),
{
    let cs = ascii_chars(units);
    assert(is_ascii_chars(cs)) by {
        assert forall|i: int| 0 <= i < cs.len() implies '\0' <= #[trigger] cs[i] <= '\u{7f}' by {
            assert(units[i] <= 0x7F);
        }
    }
    is_ascii_chars_encode_utf8(cs);
    assert forall|i: int| 0 <= i < cs.len() implies #[trigger] encode_utf8(cs)[i] == narrow(units)[i] by {
        assert(cs[i] as u8 == encode_utf8(cs)[i]);
        assert(units[i] <= 0x7F);
    }
    assert(encode_utf8(cs) =~= narrow(units));
}

/// Law: the ASCII fast path is a faithful shortcut. For text without a NUL,
/// `utf16_to_utf8` gives the UTF-8 encoding of the UTF-16 decoding, and
/// `None` exactly when the text does not decode.
pub proof fn law_utf16_to_utf8_is_transcoding(units: Seq<u16>)
    requires
        forall|i: int| 0 <= i < units.len() ==> #[trigger] units[i] != 0,
    ensures
        utf16_to_utf8_spec(units) == (match decode_utf16(units) {
            Some(chars) => Some(encode_utf8(chars)),
            None => None,
        }),
{
    if all_ascii_units(units) {
        lemma_first_nul(units, units.len() as int);
        assert(before_nul(units) =~= units);
        lemma_decode_ascii(units);
        lemma_encode_ascii(units);
    }
}

/// Law: bytes of ASCII text without NUL, widened by `u8_to_u16_neon`, come
/// back unchanged from `utf16_to_utf8`.
pub proof fn law_ascii_round_trip(bytes: Seq<u8>)
    requires
        forall|i: int| 0 <= i < bytes.len() ==> 0 < #[trigger] bytes[i] <= 0x7F,
    ensures
        utf16_to_utf8_spec(widen(bytes)) == Some(bytes),
{
    let units = widen(bytes);
    assert(is_first_nul(units, units.len() as int));
    lemma_first_nul(units, units.len() as int);
    assert(before_nul(units) =~= units);
    assert(narrow(units) =~= bytes);
}

/// Law: where the strict decoding succeeds, the lossy decoding gives the
/// same text.
pub proof fn law_lossy_agrees_with_strict(units: Seq<u16>)
    requires
        decode_utf16(units) is Some,
    ensures
        decode_utf16_lossy(units) == decode_utf16(units).unwrap(),
    decreases units.len(),
{
    if units.len() > 0 {
        if !is_high_surrogate(units[0]) && !is_low_surrogate(units[0]) {
            law_lossy_agrees_with_strict(units.drop_first());
        } else {
            law_lossy_agrees_with_strict(units.skip(2));
        }
    }
}

/// The body of a managed string: its length in UTF-16 code units, followed
/// by the units themselves.
pub struct SystemString {
    pub len: i32,
    pub string: Vec<u16>,
}

/// A managed string object of the runtime.
pub type Il2CppString = SystemString;

/// The bytes the runtime's string constructor is handed for `text`: its
/// UTF-8 bytes followed by a NUL, or `None` when a byte of the text is NUL
/// already (where the constructor from text panics).
pub fn c_string_bytes(text: &str) -> (res: Option<Vec<u8>>)
    ensures
        res is Some <==> !encode_utf8(text@).contains(0u8),
        res matches Some(v) ==> v@ == encode_utf8(text@).push(0u8),
{
    let bytes = text.as_bytes();
    let mut out: Vec<u8> = Vec::new();
    let mut i: usize = 0;
    while i < bytes.len()
        invariant
            bytes@ == encode_utf8(text@),
            i <= bytes@.len(),
            out@ == bytes@.take(i as int),
            forall|k: int| 0 <= k < i ==> #[trigger] bytes@[k] != 0,
        decreases bytes@.len() - i,
    {
        if bytes[i] == 0 {
            assert(bytes@[i as int] == 0u8);
            return None;
        }
        out.push(bytes[i]);
        i += 1;
        assert(out@ =~= bytes@.take(i as int));
    }
    assert(bytes@.take(i as int) =~= bytes@);
    assert(!bytes@.contains(0u8)) by {
        if bytes@.contains(0u8) {
            let k = choose|k: int| 0 <= k < bytes@.len() && bytes@[k] == 0u8;
            assert(bytes@[k] != 0);
        }
    }
    out.push(0);
    Some(out)
}

impl SystemString {
    /// The length is not negative and the buffer holds that many units.
    pub open spec fn wf(&self) -> bool {
        0 <= self.len <= self.string@.len()
    }

    /// The code units of the string.
    pub open spec fn units(&self) -> Seq<u16> {
        self.string@.take(self.len as int)
    }

    fn unit_slice(&self) -> (res: &[u16])
        requires
            self.wf(),
        ensures
            res@ == self.units(),
    {
        vstd::slice::slice_subrange(self.string.as_slice(), 0, self.len as usize)
    }

    /// Decodes the string strictly.
    pub fn get_string(&self) -> (res: Result<String, FromUtf16Error>)
        requires
            self.wf(),
        ensures
            res is Ok <==> decode_utf16(self.units()) is Some,
            res matches Ok(s) ==> s@ == decode_utf16(self.units()).unwrap(),
    {
        if self.len == 0 {
            Ok(String::new())
        } else {
            string_from_utf16(self.unit_slice())
        }
    }

    /// Decodes the string, with U+FFFD in place of each unpaired surrogate.
    pub fn to_string(&self) -> (res: String)
        requires
            self.wf(),
        ensures
            res@ == decode_utf16_lossy(self.units()),
    {
        if self.len == 0 {
            String::new()
        } else {
            string_from_utf16_lossy(self.unit_slice())
        }
    }

    /// Law: for a string that decodes and holds no NUL, `to_vec` gives the
    /// UTF-8 bytes of the text `to_string` gives.
    pub proof fn law_to_vec_encodes_to_string(&self)
        requires
            self.wf(),
            decode_utf16(self.units()) is Some,
            forall|i: int| 0 <= i < self.units().len() ==> #[trigger] self.units()[i] != 0,
        ensures
            utf16_to_utf8_spec(self.units()) == Some(encode_utf8(decode_utf16_lossy(self.units()))),
    {
        law_utf16_to_utf8_is_transcoding(self.units());
        law_lossy_agrees_with_strict(self.units());
    }

    /// The UTF-8 bytes of the string, as `utf16_to_utf8` gives them.
    pub fn to_vec(&self) -> (res: Vec<u8>)
        requires
            self.wf(),
            utf16_to_utf8_spec(self.units()) is Some,
        ensures
            res@ == utf16_to_utf8_spec(self.units()).unwrap(),
    {
        if self.len == 0 {
            let res: Vec<u8> = Vec::new();
            assert(self.units() =~= Seq::<u16>::empty());
            assert(all_ascii_units(self.units()));
            assert(before_nul(self.units()) =~= Seq::<u16>::empty());
            assert(res@ =~= narrow(before_nul(self.units())));
            res
        } else {
            match utf16_to_utf8(self.unit_slice()) {
                Some(v) => v,
                None => {
                    assert(false);
                    Vec::new()
                },
            }
        }
    }
}

} // verus!
