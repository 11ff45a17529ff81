//! Secret names: non-empty, at most 128 bytes, an ASCII upper-case letter
//! followed by upper-case letters, digits and underscores.
use vstd::prelude::*;
use vstd::string::*;
use vstd::utf8::{encode_scalar, encode_utf8, is_ascii_chars, is_ascii_chars_encode_utf8};

verus! {

/// The longest name accepted, in bytes.
pub const MAX_NAME_LEN: usize = 128;

/// Why a text is not a secret name.
#[derive(Debug, Clone, Copy, PartialEq, Eq, Structural)]
pub enum SecretNameError {
    Empty,
    TooLong { len: usize },
    InvalidFirstByte { byte: u8 },
    InvalidByte { byte: u8, index: usize },
}

/// A byte that may open a name: `A` to `Z`.
pub open spec fn is_head_byte(b: u8) -> bool {
    65 <= b <= 90
}

/// A byte that may follow the first: `A` to `Z`, `0` to `9`, `_`.
pub open spec fn is_tail_byte(b: u8) -> bool {
    is_head_byte(b) || (48 <= b <= 57) || b == 95
}

/// `i` is the first position after the opening byte that holds a byte
/// not allowed there.
pub open spec fn is_first_bad_byte(bytes: Seq<u8>, i: int) -> bool {
    &&& 1 <= i < bytes.len()
    &&& !is_tail_byte(bytes[i])
    &&& forall|j: int| 1 <= j < i ==> is_tail_byte(#[trigger] bytes[j])
}

/// The verdict on the bytes of a candidate name, in the order the checks
/// are made: emptiness, length, first byte, then the first bad later byte.
pub open spec fn name_verdict(bytes: Seq<u8>) -> Result<(), SecretNameError> {
    if bytes.len() == 0 {
        Err(SecretNameError::Empty)
    } else if bytes.len() > MAX_NAME_LEN {
        Err(SecretNameError::TooLong { len: bytes.len() as usize })
    } else if !is_head_byte(bytes[0]) {
        Err(SecretNameError::InvalidFirstByte { byte: bytes[0] })
    } else if exists|i: int| #[trigger] is_first_bad_byte(bytes, i) {
        let i = choose|i: int| #[trigger] is_first_bad_byte(bytes, i);
        Err(SecretNameError::InvalidByte { byte: bytes[i], index: i as usize })
    } else {
        Ok(())
    }
}

/// A text is a secret name when its UTF-8 bytes pass every check.
pub open spec fn is_secret_name(text: Seq<char>) -> bool {
    name_verdict(encode_utf8(text)) is Ok
}

/// Checks a candidate name, reporting the first rule it breaks.
pub fn validate(secret_name: &str) -> (result: Result<(), SecretNameError>)
    ensures
        result == name_verdict(secret_name.spec_bytes()),
{
    let bytes = secret_name.as_bytes();
    let len = bytes.len();
    if len == 0 {
        return Err(SecretNameError::Empty);
    }
    if len > MAX_NAME_LEN {
        return Err(SecretNameError::TooLong { len: secret_name.len() });
    }
    let first = bytes[0];
    if !(first >= 65 && first <= 90) {
        return Err(SecretNameError::InvalidFirstByte { byte: first });
    }
    let mut i: usize = 1;
    while i < len
        invariant
            1 <= i <= len,
            len == bytes@.len(),
            bytes@ == secret_name.spec_bytes(),
            len <= MAX_NAME_LEN,
            is_head_byte(bytes@[0]),
            forall|j: int| 1 <= j < i ==> is_tail_byte(#[trigger] bytes@[j]),
        decreases len - i,
    {
        let byte = bytes[i];
        let ok = (byte >= 65 && byte <= 90) || (byte >= 48 && byte <= 57) || byte == 95;
        if !ok {
            proof {
                let b = bytes@;
                assert(is_first_bad_byte(b, i as int));
                assert forall|k: int| #[trigger] is_first_bad_byte(b, k) implies k == i as int by {
                    if k < i as int {
                        assert(is_tail_byte(b[k]));
                    } else if k > i as int {
                        assert(is_tail_byte(b[i as int]));
                    }
                }
            }
            return Err(SecretNameError::InvalidByte { byte, index: i });
        }
        i = i + 1;
    }
    proof {
        assert(!exists|k: int| #[trigger] is_first_bad_byte(bytes@, k));
    }
    Ok(())
}

/// The checks reject exactly the texts outside the grammar: a name is
/// accepted iff it has 1 to 128 bytes, opens with `A`-`Z`, and goes on with
/// `A`-`Z`, `0`-`9` and `_` only.
pub proof fn accepted_names_are_the_grammar(bytes: Seq<u8>)
    ensures
        name_verdict(bytes) is Ok <==> {
            &&& 1 <= bytes.len() <= MAX_NAME_LEN
            &&& is_head_byte(bytes[0])
            &&& forall|i: int| 1 <= i < bytes.len() ==> is_tail_byte(#[trigger] bytes[i])
        },
{
    if 1 <= bytes.len() <= MAX_NAME_LEN && is_head_byte(bytes[0]) && !(forall|i: int|
        1 <= i < bytes.len() ==> is_tail_byte(#[trigger] bytes[i])) {
        let k = choose|i: int| 1 <= i < bytes.len() && !is_tail_byte(#[trigger] bytes[i]);
        first_bad_byte_exists(bytes, k);
    }
}

/// Every upper-case ASCII letter, `A` (65) through `Z` (90), is accepted in
/// every position: a text of 1 to 128 such bytes is a name.
pub proof fn upper_case_letters_are_accepted_everywhere(bytes: Seq<u8>)
    requires
        1 <= bytes.len() <= 128,
        forall|i: int| 0 <= i < bytes.len() ==> 65 <= #[trigger] bytes[i] <= 90,
    ensures
        name_verdict(bytes) == Ok::<(), SecretNameError>(()),
{
    accepted_names_are_the_grammar(bytes);
}

/// The verdict in plain byte ranges: a text is accepted exactly when it has
/// 1 to 128 bytes, its first is in `A`..=`Z` (65..=90), and every later one
/// is in `A`..=`Z`, `0`..=`9` (48..=57) or is `_` (95). A rejected text names
/// a rule it breaks: empty, over 128 bytes with its length, a first byte
/// outside `A`..=`Z`, or a later byte outside the allowed ranges at its
/// position, with every byte between the first and it allowed.
pub proof fn verdict_in_byte_ranges(bytes: Seq<u8>)
    ensures
        name_verdict(bytes) is Ok <==> {
            &&& 1 <= bytes.len() <= 128
            &&& 65 <= bytes[0] <= 90
            &&& forall|i: int|
                1 <= i < bytes.len() ==> (65 <= #[trigger] bytes[i] <= 90 || 48 <= bytes[i] <= 57 || bytes[i] == 95)
        },
        name_verdict(bytes) == Err::<(), SecretNameError>(SecretNameError::Empty) <==> bytes.len() == 0,
        bytes.len() > 128 ==> name_verdict(bytes) == Err::<(), SecretNameError>(
            SecretNameError::TooLong { len: bytes.len() as usize },
        ),
        1 <= bytes.len() <= 128 && !(65 <= bytes[0] <= 90) ==> name_verdict(bytes) == Err::<(), SecretNameError>(
            SecretNameError::InvalidFirstByte { byte: bytes[0] },
        ),
        name_verdict(bytes) matches Err(SecretNameError::InvalidByte { byte, index }) ==> {
            &&& 1 <= index < bytes.len() <= 128
            &&& 65 <= bytes[0] <= 90
            &&& byte == bytes[index as int]
            &&& !(65 <= byte <= 90 || 48 <= byte <= 57 || byte == 95)
            &&& forall|j: int|
                1 <= j < index ==> (65 <= #[trigger] bytes[j] <= 90 || 48 <= bytes[j] <= 57 || bytes[j] == 95)
        },
{
    accepted_names_are_the_grammar(bytes);
    match name_verdict(bytes) {
        Err(SecretNameError::InvalidByte { byte, index }) => {
            let i = choose|i: int| #[trigger] is_first_bad_byte(bytes, i);
            assert(is_first_bad_byte(bytes, i));
            assert forall|j: int| 1 <= j < index implies (65 <= #[trigger] bytes[j] <= 90 || 48 <= bytes[j] <= 57
                || bytes[j] == 95) by {
                assert(is_tail_byte(bytes[j]));
            }
        },
        _ => {},
    }
}

/// Below a bad byte at `k` lies a first bad byte.
proof fn first_bad_byte_exists(bytes: Seq<u8>, k: int)
    requires
        1 <= k < bytes.len(),
        !is_tail_byte(bytes[k]),
    ensures
        exists|i: int| #[trigger] is_first_bad_byte(bytes, i),
    decreases k,
{
    if forall|j: int| 1 <= j < k ==> is_tail_byte(#[trigger] bytes[j]) {
        assert(is_first_bad_byte(bytes, k));
    } else {
        let j = choose|j: int| 1 <= j < k && !is_tail_byte(#[trigger] bytes[j]);
        first_bad_byte_exists(bytes, j);
    }
}

/// A scalar whose encoding opens with a byte below 128 is itself below 128.
proof fn small_leading_byte_means_ascii(v: u32)
    requires
        encode_scalar(v)[0] < 128,
    ensures
        v <= 0x7F,
{
    if v > 0x7F {
        let y2 = ((v >> 6u32) & 0x1Fu32) as u8;
        let y3 = ((v >> 12u32) & 0x0Fu32) as u8;
        let y4 = ((v >> 18u32) & 0x7u32) as u8;
        assert((0xC0u8 | y2) >= 128 && (0xE0u8 | y3) >= 128 && (0xF0u8 | y4) >= 128) by (bit_vector);
    }
}

/// A text whose UTF-8 bytes are all below 128 is ASCII.
proof fn ascii_bytes_mean_ascii_text(text: Seq<char>)
    requires
        forall|i: int| 0 <= i < encode_utf8(text).len() ==> #[trigger] encode_utf8(text)[i] < 128,
    ensures
        is_ascii_chars(text),
    decreases text.len(),
{
    if text.len() > 0 {
        let head = encode_scalar(text[0] as u32);
        let rest = text.drop_first();
        assert(encode_utf8(text) == head + encode_utf8(rest));
        assert(head.len() >= 1);
        assert(encode_utf8(text)[0] == head[0]);
        small_leading_byte_means_ascii(text[0] as u32);
        assert forall|i: int| 0 <= i < encode_utf8(rest).len() implies #[trigger] encode_utf8(rest)[i] < 128 by {
            assert(encode_utf8(text)[i + head.len()] == encode_utf8(rest)[i]);
        }
        ascii_bytes_mean_ascii_text(rest);
        assert forall|i: int| 0 <= i < text.len() implies '\0' <= #[trigger] text[i] <= '\u{7f}' by {
            if i > 0 {
                assert(text[i] == rest[i - 1]);
            } else {
                let c = text[0];
                assert((c as u32) <= 0x7F);
                let u = c as u32;
                vstd::utf8::char_u32_cast(c, u);
                assert(u as char == c);
                assert(c <= '\u{7f}');
            }
        }
    }
}

/// Secret names are ASCII: each byte is one character, so byte lengths and
/// byte positions in errors are character lengths and positions.
pub proof fn secret_names_are_ascii(text: Seq<char>)
    requires
        is_secret_name(text),
    ensures
        is_ascii_chars(text),
        encode_utf8(text).len() == text.len(),
        forall|i: int| 0 <= i < text.len() ==> #[trigger] encode_utf8(text)[i] == text[i] as u8,
{
    let bytes = encode_utf8(text);
    accepted_names_are_the_grammar(bytes);
    assert forall|i: int| 0 <= i < bytes.len() implies #[trigger] bytes[i] < 128 by {
        if i > 0 {
            assert(is_tail_byte(bytes[i]));
        }
    }
    ascii_bytes_mean_ascii_text(text);
    is_ascii_chars_encode_utf8(text);
}

/// A validated secret name.
#[derive(Debug, Eq, Hash, PartialOrd, Ord)]
pub struct SecretName(String);

impl View for SecretName {
    type V = Seq<char>;

    closed spec fn view(&self) -> Seq<char> {
        self.0@
    }
}

impl SecretName {
    #[verifier::type_invariant]
    closed spec fn well_formed(self) -> bool {
        is_secret_name(self.0@)
    }

    /// The name's text.
    pub fn as_ref(&self) -> (text: &str)
        ensures
            text@ == self@,
            is_secret_name(text@),
    {
        proof {
            use_type_invariant(self);
        }
        self.0.as_str()
    }

    /// The name's text, owned (what `Display` prints).
    pub fn to_string(&self) -> (text: String)
        ensures
            text@ == self@,
            is_secret_name(text@),
    {
        proof {
            use_type_invariant(self);
        }
        self.0.clone()
    }
}

impl PartialEq for SecretName {
    fn eq(&self, other: &Self) -> (same: bool) {
        self.0 == other.0
    }
}

impl vstd::std_specs::cmp::PartialEqSpecImpl for SecretName {
    open spec fn obeys_eq_spec() -> bool {
        true
    }

    open spec fn eq_spec(&self, other: &Self) -> bool {
        self@ == other@
    }
}

impl Clone for SecretName {
    fn clone(&self) -> (copy: Self)
        ensures
            copy@ == self@,
    {
        proof {
            use_type_invariant(self);
        }
        SecretName(self.0.clone())
    }
}

impl TryFrom<&str> for SecretName {
    type Error = SecretNameError;

    fn try_from(value: &str) -> (result: Result<Self, Self::Error>)
        ensures
            match result {
                Ok(name) => name_verdict(value.spec_bytes()) is Ok && name@ == value@,
                Err(e) => name_verdict(value.spec_bytes()) == Err::<(), SecretNameError>(e),
            },
    {
        match validate(value) {
            Ok(()) => Ok(SecretName(value.to_owned())),
            Err(e) => Err(e),
        }
    }
}

impl vstd::std_specs::convert::TryFromSpecImpl<&str> for SecretName {
    open spec fn obeys_try_from_spec() -> bool {
        false
    }

    open spec fn try_from_spec(v: &str) -> Result<Self, SecretNameError> {
        match name_verdict(v.spec_bytes()) {
            Ok(()) => Ok(choose|name: SecretName| name@ == v@),
            Err(e) => Err(e),
        }
    }
}

impl TryFrom<String> for SecretName {
    type Error = SecretNameError;

    fn try_from(value: String) -> (result: Result<Self, Self::Error>)
        ensures
            match result {
                Ok(name) => name_verdict(encode_utf8(value@)) is Ok && name@ == value@,
                Err(e) => name_verdict(encode_utf8(value@)) == Err::<(), SecretNameError>(e),
            },
    {
        match validate(value.as_str()) {
            Ok(()) => Ok(SecretName(value)),
            Err(e) => Err(e),
        }
    }
}

impl vstd::std_specs::convert::TryFromSpecImpl<String> for SecretName {
    open spec fn obeys_try_from_spec() -> bool {
        true
    }

    closed spec fn try_from_spec(v: String) -> Result<Self, SecretNameError> {
        match name_verdict(encode_utf8(v@)) {
            Ok(()) => Ok(SecretName(v)),
            Err(e) => Err(e),
        }
    }
}

} // verus!
