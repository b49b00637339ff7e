use vstd::prelude::*;
use vstd::arithmetic::power2::pow2;

verus! {

/// A user identifier: a 128-bit ULID. Its top 48 bits are the Unix time of
/// creation in milliseconds, the other 80 bits are random.
#[derive(Debug, Clone, Copy, PartialEq, Eq, Structural)]
pub struct UserId {
    pub bits: u128,
}

/// The 32 symbols of Crockford's base 32, in the order of their values.
pub open spec fn crockford_alphabet() -> Seq<char> {
    seq![
        '0', '1', '2', '3', '4', '5', '6', '7', '8', '9',
        'A', 'B', 'C', 'D', 'E', 'F', 'G', 'H', 'J', 'K',
        'M', 'N', 'P', 'Q', 'R', 'S', 'T', 'V', 'W', 'X', 'Y', 'Z',
    ]
}

/// The canonical text of a ULID: 26 Crockford base-32 digits, most
/// significant first, each digit standing for 5 bits of the value.
pub open spec fn ulid_text(bits: u128) -> Seq<char> {
    Seq::new(
        26,
        |i: int| crockford_alphabet()[((bits as int) / (pow2((5 * (25 - i)) as nat) as int)) % 32],
    )
}

/// The text of a ULID has 26 characters, each a Crockford base-32 digit.
pub proof fn lemma_ulid_text_shape(bits: u128)
    ensures
        ulid_text(bits).len() == 26,
        forall|i: int| 0 <= i < 26 ==> crockford_alphabet().contains(#[trigger] ulid_text(bits)[i]),
{
    assert forall|i: int| 0 <= i < 26 implies crockford_alphabet().contains(
        #[trigger] ulid_text(bits)[i],
    ) by {
        let d = ((bits as int) / (pow2((5 * (25 - i)) as nat) as int)) % 32;
        assert(0 <= d < 32);
        assert(crockford_alphabet().len() == 32);
        assert(ulid_text(bits)[i] == crockford_alphabet()[d]);
    }
}

/// The creation time of a ULID, in milliseconds since the Unix epoch.
pub open spec fn ulid_timestamp(bits: u128) -> u64 {
    (bits >> 80u128) as u64
}

/// `ulid::Ulid::new`: a fresh ULID from the clock and a random source.
/// Nothing is claimed of the value, which depends on the time and on chance.
#[verifier::external_body]
fn ulid_generate() -> (bits: u128) {
    ulid::Ulid::new().0
}

/// `ulid::Ulid::timestamp_ms`: the top 48 bits, that is the value shifted
/// right by the 80 random bits.
#[verifier::external_body]
fn ulid_timestamp_ms(bits: u128) -> (ms: u64)
    ensures
        ms == ulid_timestamp(bits),
{
    ulid::Ulid(bits).timestamp_ms()
}

/// `ulid::Ulid::is_nil`: true exactly for the all-zero ULID.
#[verifier::external_body]
fn ulid_is_nil(bits: u128) -> (nil: bool)
    ensures
        nil == (bits == 0),
{
    ulid::Ulid(bits).is_nil()
}

/// `ulid::Ulid::to_string`: the 26-character Crockford base-32 text of the
/// value, as the crate's documentation and `base32::encode` give it.
#[verifier::external_body]
fn ulid_to_string(bits: u128) -> (text: String)
    ensures
        text@ == ulid_text(bits),
{
    ulid::Ulid(bits).to_string()
}

impl UserId {
    /// A fresh identifier for the current time.
    pub fn generate() -> (id: UserId) {
        UserId { bits: ulid_generate() }
    }

    /// The nil identifier, all bits zero.
    pub fn nil() -> (id: UserId)
        ensures
            id.bits == 0,
    {
        UserId { bits: 0 }
    }

    /// The identifier's creation time in milliseconds since the Unix epoch.
    pub fn timestamp_ms(&self) -> (ms: u64)
        ensures
            ms == ulid_timestamp(self.bits),
            ms < 0x1_0000_0000_0000u64,
    {
        let ms = ulid_timestamp_ms(self.bits);
        let b = self.bits;
        assert((b >> 80u128) < 0x1_0000_0000_0000u128) by (bit_vector);
        ms
    }

    /// Whether this is the nil identifier.
    pub fn is_nil(&self) -> (nil: bool)
        ensures
            nil == (self.bits == 0),
    {
        ulid_is_nil(self.bits)
    }

    /// The canonical 26-character text of the identifier.
    pub fn to_text(&self) -> (text: String)
        ensures
            text@ == ulid_text(self.bits),
    {
        ulid_to_string(self.bits)
    }
}

} // verus!
