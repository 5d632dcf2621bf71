//! Fixed-size digests and their textual form.

use vstd::prelude::*;

verus! {

/// Whether two arrays of 32 bytes hold the same bytes.
pub(crate) fn same_bytes(a: &[u8; 32], b: &[u8; 32]) -> (same: bool)
    ensures
        same == (a@ == b@),
{
    let mut i: usize = 0;
    while i < 32
        invariant
            i <= 32,
            forall|j: int| 0 <= j < i ==> a@[j] == b@[j],
        decreases 32 - i,
    {
        if a[i] != b[i] {
            return false;
        }
        i = i + 1;
    }
    assert(a@ =~= b@);
    true
}

/// A digest of 32 bytes.
#[derive(Debug, Clone, Copy, Eq)]
pub struct Hash32 {
    bytes: [u8; 32],
}

impl View for Hash32 {
    type V = Seq<u8>;

    closed spec fn view(&self) -> Seq<u8> {
        self.bytes@
    }
}

impl PartialEq for Hash32 {
    fn eq(&self, other: &Self) -> (same: bool) {
        same_bytes(&self.bytes, &other.bytes)
    }
}

impl vstd::std_specs::cmp::PartialEqSpecImpl for Hash32 {
    open spec fn obeys_eq_spec() -> bool {
        true
    }

    open spec fn eq_spec(&self, other: &Self) -> bool {
        self@ == other@
    }
}

impl Hash32 {
    /// A digest with the given bytes.
    pub fn from_array(bytes: [u8; 32]) -> (hash: Self)
        ensures
            hash@ == bytes@,
    {
        Hash32 { bytes }
    }

    /// The bytes of this digest.
    pub fn into_array(self) -> (bytes: [u8; 32])
        ensures
            bytes@ == self@,
    {
        self.bytes
    }

    /// The bytes of this digest, borrowed.
    pub fn as_slice(&self) -> (bytes: &[u8])
        ensures
            bytes@ == self@,
            bytes@.len() == 32,
    {
        self.bytes.as_slice()
    }

    /// The digest in lower-case hexadecimal, two digits for each byte.
    pub fn to_hex(&self) -> (text: String)
        ensures
            text@ == hex(self@),
    {
        hash_to_string(&self.bytes)
    }
}

/// Every digest has 32 bytes.
pub broadcast proof fn hash_is_32_bytes(hash: Hash32)
    ensures
        #[trigger] hash@.len() == 32,
{
}

/// The lower-case hexadecimal digit for a number below sixteen.
pub open spec fn hex_digit(d: int) -> char {
    if d < 10 {
        ('0' as u32 + d) as char
    } else {
        ('a' as u32 + (d - 10)) as char
    }
}

/// Lower-case hexadecimal, two digits for each byte, the high half first.
pub open spec fn hex(bytes: Seq<u8>) -> Seq<char> {
    Seq::new(
        2 * bytes.len(),
        |i: int|
            if i % 2 == 0 {
                hex_digit(bytes[i / 2] as int / 16)
            } else {
                hex_digit(bytes[i / 2] as int % 16)
            },
    )
}

/// Calls `to_string` of `tari_template_lib::types::Hash32`, which its `from_array` makes of `bytes`.
/// Trusted: the text is the bytes in order, each as two lower-case hexadecimal digits.
#[verifier::external_body]
fn hash_to_string(bytes: &[u8; 32]) -> (text: String)
    ensures
        text@ == hex(bytes@),
{
    tari_template_lib::types::Hash32::from_array(*bytes).to_string()
}

/// The number that a lower-case hexadecimal digit stands for.
pub open spec fn hex_value(digit: char) -> int {
    if digit as u32 <= '9' as u32 {
        digit as u32 - '0' as u32
    } else {
        digit as u32 - 'a' as u32 + 10
    }
}

/// The bytes can be read back from their hexadecimal form: two digits for each, in order, and none
/// but `0` to `9` and `a` to `f`.
pub proof fn hex_reads_back(bytes: Seq<u8>)
    ensures
        hex(bytes).len() == 2 * bytes.len(),
        forall|i: int|
            0 <= i < bytes.len() ==> #[trigger] bytes[i] == 16 * hex_value(hex(bytes)[2 * i])
                + hex_value(hex(bytes)[2 * i + 1]),
        forall|i: int|
            0 <= i < hex(bytes).len() ==> {
                let code = (#[trigger] hex(bytes)[i]) as u32;
                '0' as u32 <= code <= '9' as u32 || 'a' as u32 <= code <= 'f' as u32
            },
{
    assert forall|i: int| 0 <= i < bytes.len() implies #[trigger] bytes[i] == 16 * hex_value(
        hex(bytes)[2 * i],
    ) + hex_value(hex(bytes)[2 * i + 1]) by {
        assert((2 * i) / 2 == i && (2 * i) % 2 == 0);
        assert((2 * i + 1) / 2 == i && (2 * i + 1) % 2 == 1);
    }
}

/// Two digests compare equal exactly when they have the same bytes.
pub proof fn digests_compare_by_their_bytes(hash: Hash32, other: Hash32)
    ensures
        vstd::std_specs::cmp::PartialEqSpec::eq_spec(&hash, &other) <==> hash@ == other@,
{
}

}
