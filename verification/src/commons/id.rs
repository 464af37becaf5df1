use vstd::prelude::*;

verus! {

/// The `version` and `variant` bits of a random (version 4, RFC 4122) UUID.
pub open spec fn is_random_uuid(v: u128) -> bool {
    v & 0x0000_0000_0000_F000_C000_0000_0000_0000u128 == 0x0000_0000_0000_4000_8000_0000_0000_0000u128
}

/// The lower-case hexadecimal digit of a value below 16.
pub open spec fn hex_digit(d: u128) -> char {
    if d < 10 {
        (('0' as u8) + d) as char
    } else {
        (('a' as u8) + (d - 10)) as char
    }
}

/// The 32 lower-case hexadecimal digits of a 128-bit value, most significant first.
pub open spec fn hex32(v: u128) -> Seq<char> {
    Seq::new(32, |i: int| hex_digit((v >> ((124 - 4 * i) as u128)) & 0xF))
}

/// The hyphenated form of a UUID: its 32 hexadecimal digits grouped 8-4-4-4-12.
pub open spec fn hyphenated(v: u128) -> Seq<char> {
    let h = hex32(v);
    h.subrange(0, 8) + seq!['-'] + h.subrange(8, 12) + seq!['-'] + h.subrange(12, 16)
        + seq!['-'] + h.subrange(16, 20) + seq!['-'] + h.subrange(20, 32)
}

/// The value of a hexadecimal digit, in either case.
pub open spec fn hex_value(c: char) -> Option<int> {
    if '0' <= c && c <= '9' {
        Some(c as int - '0' as int)
    } else if 'a' <= c && c <= 'f' {
        Some(c as int - 'a' as int + 10)
    } else if 'A' <= c && c <= 'F' {
        Some(c as int - 'A' as int + 10)
    } else {
        None
    }
}

/// Whether every character is a hexadecimal digit.
pub open spec fn all_hex(s: Seq<char>) -> bool {
    forall|i: int| 0 <= i < s.len() ==> (#[trigger] hex_value(s[i])) is Some
}

/// The number that hexadecimal digits denote, most significant first.
pub open spec fn hex_number(s: Seq<char>) -> int
    decreases s.len(),
{
    if s.len() == 0 {
        0
    } else {
        hex_number(s.drop_last()) * 16 + hex_value(s.last())->Some_0
    }
}

/// Whether a 36-character text has its hyphens where the 8-4-4-4-12 groups
/// of a hyphenated UUID end.
pub open spec fn hyphens_in_place(s: Seq<char>) -> bool {
    s.len() == 36 && s[8] == '-' && s[13] == '-' && s[18] == '-' && s[23] == '-'
}

/// The 32 characters of a hyphenated UUID text between its hyphens.
pub open spec fn without_hyphens(s: Seq<char>) -> Seq<char> {
    s.subrange(0, 8) + s.subrange(9, 13) + s.subrange(14, 18) + s.subrange(19, 23) + s.subrange(24, 36)
}

/// A letter in lower case; any other character as it is.
pub open spec fn ascii_lower(c: char) -> char {
    if 'A' <= c && c <= 'Z' {
        (c as int + 32) as char
    } else {
        c
    }
}

/// Whether the text starts with `urn:uuid:`, the letters in either case.
pub open spec fn has_urn_prefix(s: Seq<char>) -> bool {
    &&& s.len() >= 9
    &&& forall|i: int| 0 <= i < 9 ==> ascii_lower(#[trigger] s[i]) == seq!['u', 'r', 'n', ':', 'u', 'u', 'i', 'd', ':'][i]
}

/// The 32 digit positions of a UUID text in one of the four layouts that
/// `uuid::Uuid::parse_str` reads: simple (32 digits), hyphenated (36),
/// braced (`{` hyphenated `}`, 38) and URN (`urn:uuid:` hyphenated, 45).
pub open spec fn uuid_digits(s: Seq<char>) -> Option<Seq<char>> {
    if s.len() == 32 {
        Some(s)
    } else if hyphens_in_place(s) {
        Some(without_hyphens(s))
    } else if s.len() == 38 && s[0] == '{' && s[37] == '}' && hyphens_in_place(s.subrange(1, 37)) {
        Some(without_hyphens(s.subrange(1, 37)))
    } else if s.len() == 45 && has_urn_prefix(s) && hyphens_in_place(s.subrange(9, 45)) {
        Some(without_hyphens(s.subrange(9, 45)))
    } else {
        None
    }
}

/// What `uuid::Uuid::parse_str` yields for a text: the UUID's big-endian
/// 128-bit value when the text has one of the four layouts with hexadecimal
/// digits in its digit positions, else nothing.
pub open spec fn uuid_text_value(s: Seq<char>) -> Option<u128> {
    match uuid_digits(s) {
        Some(d) => if all_hex(d) {
            Some(hex_number(d) as u128)
        } else {
            None
        },
        None => None,
    }
}

#[verifier::external_type_specification]
#[verifier::external_body]
pub struct ExUuidError(uuid::Error);

/// Calls `uuid::Uuid::new_v4` and returns the UUID as its big-endian `u128`.
/// Claimed: the version nibble is 4 and the variant bits are `10`, as the
/// source sets them with a mask over a random `u128`. The other bits are
/// random, and nothing is claimed of them.
#[verifier::external_body]
fn uuid_new_v4() -> (v: u128)
    ensures
        is_random_uuid(v),
{
    uuid::Uuid::new_v4().as_u128()
}

/// Calls `uuid::Uuid::parse_str` and returns the UUID as its big-endian
/// `u128`. Claimed: the call succeeds exactly on the texts that
/// `uuid_text_value` reads, with the value that it gives (the source decodes
/// the 32 digits, in either case, of the simple, hyphenated, braced or URN
/// layout, picked by the text's length in bytes; a text in any of them is
/// ASCII, so its length in bytes is its length in characters).
#[verifier::external_body]
fn uuid_parse(s: &str) -> (r: Result<u128, uuid::Error>)
    ensures
        match r {
            Ok(v) => uuid_text_value(s@) == Some(v),
            Err(_) => uuid_text_value(s@) is None,
        },
{
    match uuid::Uuid::parse_str(s) {
        Ok(u) => Ok(u.as_u128()),
        Err(e) => Err(e),
    }
}

/// Calls `to_string` on `uuid::Uuid::from_u128(v)`. Claimed: the text is the
/// lower-case hyphenated form (the source's `Display` writes the hyphenated
/// lower-case hex digits of the big-endian bytes).
#[verifier::external_body]
fn uuid_to_string(v: u128) -> (s: String)
    ensures
        s@ == hyphenated(v),
{
    uuid::Uuid::from_u128(v).to_string()
}

proof fn lemma_hex_digit_value(d: u128)
    requires
        d < 16,
    ensures
        hex_value(hex_digit(d)) == Some(d as int),
{
}

proof fn lemma_nibble_step(v: u128, s: u128)
    requires
        s <= 124,
    ensures
        (v >> ((s + 4) as u128)) * 16 + ((v >> s) & 0xF) == v >> s,
        (v >> s) & 0xF < 16,
{
    assert((v >> ((s + 4) as u128)) * 16 + ((v >> s) & 0xF) == v >> s) by (bit_vector)
        requires
            s <= 124,
    ;
    assert((v >> s) & 0xF < 16) by (bit_vector);
}

/// The first `k` digits of `hex32(v)` denote the top `4 * k` bits of `v`.
proof fn lemma_hex32_prefix(v: u128, k: int)
    requires
        0 <= k <= 32,
    ensures
        all_hex(hex32(v).subrange(0, k)),
        hex_number(hex32(v).subrange(0, k)) == (v >> ((128 - 4 * k) as u128)),
    decreases k,
{
    let h = hex32(v);
    if k == 0 {
        assert(v >> 128u128 == 0) by (bit_vector);
    } else {
        lemma_hex32_prefix(v, k - 1);
        let s = (124 - 4 * (k - 1)) as u128;
        lemma_nibble_step(v, s);
        lemma_hex_digit_value((v >> s) & 0xF);
        assert(h.subrange(0, k).drop_last() =~= h.subrange(0, k - 1));
        assert(((128 - 4 * (k - 1)) as u128) == ((s + 4) as u128));
        assert forall|i: int| 0 <= i < k implies (#[trigger] hex_value(h.subrange(0, k)[i])) is Some by {
            if i < k - 1 {
                assert(h.subrange(0, k)[i] == h.subrange(0, k - 1)[i]);
            }
        }
    }
}

/// The hyphenated form of a value reads back as that value.
pub proof fn lemma_hyphenated_reads_back(v: u128)
    ensures
        uuid_text_value(hyphenated(v)) == Some(v),
{
    let h = hex32(v);
    let t = hyphenated(v);
    assert(t.len() == 36);
    assert(t[8] == '-' && t[13] == '-' && t[18] == '-' && t[23] == '-');
    assert(without_hyphens(t) =~= h);
    lemma_hex32_prefix(v, 32);
    assert(h.subrange(0, 32) =~= h);
    assert(v >> 0u128 == v) by (bit_vector);
}

/// An identifier of a user, a fragment, an event or a task: a UUID held as
/// its 128-bit big-endian value.
#[derive(Debug, Clone, Copy, PartialEq, Eq, Structural)]
pub struct Id {
    pub value: u128,
}

/// Why a text is not an identifier.
#[derive(Debug, Clone, Copy, PartialEq, Eq, Structural)]
pub enum IdError {
    InvalidUuid,
}

/// The identifier that a text denotes, or the error for a text that is not a UUID.
pub open spec fn spec_parse_id(s: Seq<char>) -> Result<Id, IdError> {
    match uuid_text_value(s) {
        Some(v) => Ok(Id { value: v }),
        None => Err(IdError::InvalidUuid),
    }
}

impl Id {
    /// A fresh random (version 4) identifier.
    pub fn new() -> (id: Id)
        ensures
            is_random_uuid(id.value),
    {
        Id { value: uuid_new_v4() }
    }

    /// The identifier with the given 128-bit value.
    pub fn from_u128(value: u128) -> (id: Id)
        ensures
            id.value == value,
    {
        Id { value }
    }

    /// The 128-bit value of the identifier.
    pub fn as_u128(&self) -> (v: u128)
        ensures
            v == self.value,
    {
        self.value
    }

    /// Parses a UUID text (hyphenated, simple, braced or URN form).
    pub fn from_str(s: &str) -> (r: Result<Id, IdError>)
        ensures
            r == spec_parse_id(s@),
    {
        match uuid_parse(s) {
            Ok(v) => Ok(Id { value: v }),
            Err(_) => Err(IdError::InvalidUuid),
        }
    }

    /// The same as `from_str`.
    pub fn try_from(s: &str) -> (r: Result<Id, IdError>)
        ensures
            r == spec_parse_id(s@),
    {
        Id::from_str(s)
    }

    /// The hyphenated lower-case form of the identifier; parsing it gives the
    /// identifier back.
    pub fn to_string(&self) -> (s: String)
        ensures
            s@ == hyphenated(self.value),
            spec_parse_id(s@) == Ok::<Id, IdError>(*self),
    {
        proof {
            lemma_hyphenated_reads_back(self.value);
        }
        uuid_to_string(self.value)
    }
}

impl Default for Id {
    /// A fresh random identifier, as `Id::new`.
    fn default() -> (id: Id)
        ensures
            is_random_uuid(id.value),
    {
        Id::new()
    }
}

/// A source of fresh identifiers.
pub trait IdGenerator {
    fn new_id(&self) -> Id;
}

/// The identifier source that draws random UUIDs.
pub struct StdIdGenerator;

impl IdGenerator for StdIdGenerator {
    fn new_id(&self) -> (id: Id)
        ensures
            is_random_uuid(id.value),
    {
        Id::new()
    }
}

} // verus!
