//! Opaque session identifiers and their transport in request metadata.

use vstd::prelude::*;

verus! {

/// The metadata slot that carries the session identifier on every request.
pub const REMOTE_ID_HEADER: &'static str = "remote_id";

/// Number of characters of a hyphenated UUID.
pub const REMOTE_ID_LEN: usize = 36;

/// An opaque identifier of a server-side session. Equality is equality of
/// the underlying text.
#[derive(Clone, Debug, PartialEq, Eq, Hash)]
pub struct RemoteId {
    pub id: String,
}

impl View for RemoteId {
    type V = Seq<char>;

    open spec fn view(&self) -> Seq<char> {
        self.id@
    }
}

/// Whether `s` has the shape of a hyphenated UUID: 36 characters, hyphens at
/// positions 8, 13, 18 and 23, lowercase hexadecimal digits elsewhere.
pub open spec fn uuid_shaped(s: Seq<char>) -> bool {
    &&& s.len() == REMOTE_ID_LEN
    &&& forall|i: int|
        0 <= i < s.len() ==> if i == 8 || i == 13 || i == 18 || i == 23 {
            #[trigger] s[i] == '-'
        } else {
            ('0' <= s[i] <= '9') || ('a' <= s[i] <= 'f')
        }
}

/// Whether `s` is the text of a random (version 4, RFC 4122 variant) UUID:
/// the version digit is `4` and the variant digit one of `8`, `9`, `a`, `b`.
pub open spec fn uuid_v4_shaped(s: Seq<char>) -> bool {
    &&& uuid_shaped(s)
    &&& s[14] == '4'
    &&& (s[19] == '8' || s[19] == '9' || s[19] == 'a' || s[19] == 'b')
}

/// Relies on `getrandom::getrandom`: it fills the buffer from the operating
/// system's random source or reports an error.
#[verifier::external_body]
fn random_bytes() -> (r: Option<Vec<u8>>)
    ensures
        r matches Some(b) ==> b@.len() == 16,
{
    let mut bytes = [0u8; 16];
    getrandom::getrandom(&mut bytes).ok()?;
    Some(bytes.to_vec())
}

/// Relies on `uuid::Builder` (`from_bytes`, `set_variant(RFC4122)`,
/// `set_version(Random)`, `build`) and the `Display` of the hyphenated form:
/// 32 lowercase hexadecimal digits in groups of 8, 4, 4, 4 and 12, the
/// version nibble set to 4 and the top bits of byte 8 to `10`.
#[verifier::external_body]
fn uuid_v4_text(bytes: &Vec<u8>) -> (r: String)
    requires
        bytes@.len() == 16,
    ensures
        uuid_v4_shaped(r@),
{
    let mut b = [0u8; 16];
    b.copy_from_slice(bytes);
    uuid::Builder::from_bytes(b)
        .set_variant(uuid::Variant::RFC4122)
        .set_version(uuid::Version::Random)
        .build()
        .to_hyphenated_ref()
        .to_string()
}

impl RemoteId {
    /// Mints a new random identifier; `None` when the operating system
    /// supplies no random bytes.
    pub fn new() -> (r: Option<RemoteId>)
        ensures
            r matches Some(id) ==> uuid_v4_shaped(id@) && id@.len() == REMOTE_ID_LEN,
    {
        let bytes = random_bytes()?;
        Some(RemoteId { id: uuid_v4_text(&bytes) })
    }

    /// Wraps an identifier received from a peer.
    pub fn from_text(s: &str) -> (r: RemoteId)
        ensures
            r@ == s@,
    {
        RemoteId { id: s.to_string() }
    }

    /// The identifier as text.
    pub fn as_str(&self) -> (r: &str)
        ensures
            r@ == self@,
    {
        self.id.as_str()
    }
}

} // verus!
