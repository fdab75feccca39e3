//! The identity of an API key: its fingerprint, its masked form, and how the
//! credential of a provider is resolved to them.

use crate::text::{chars_of, concat, same_text, trim, trimmed};
use sha2::{Digest, Sha256};
use vstd::prelude::*;
use vstd::string::*;
use vstd::utf8::*;

verus! {

/// An application whose requests can pass through the proxy, by its name.
#[derive(Clone, Debug)]
pub struct AppType {
    pub name: String,
}

impl AppType {
    pub fn as_str(&self) -> (r: &str)
        ensures
            r@ == self.name@,
    {
        self.name.as_str()
    }
}

/// Whether one of the known applications has a given name.
pub open spec fn is_known_app(known: Seq<AppType>, name: Seq<char>) -> bool {
    exists|i: int| 0 <= i < known.len() && (#[trigger] known[i]).name@ == name
}

/// The known application with a given name.
pub fn parse_app_type(known: &Vec<AppType>, value: &str) -> (r: Option<AppType>)
    ensures
        r is Some <==> is_known_app(known@, value@),
        r matches Some(t) ==> t.name@ == value@ && known@.contains(t),
{
    let mut i: usize = 0;
    while i < known.len()
        invariant
            i <= known@.len(),
            forall|j: int| 0 <= j < i ==> (#[trigger] known@[j]).name@ != value@,
        decreases known@.len() - i,
    {
        if same_text(known[i].as_str(), value) {
            let found: AppType = AppType { name: known[i].name.clone() };
            assert(found == known@[i as int]);
            return Some(found);
        }
        i = i + 1;
    }
    None
}

/// The namespace of an application's credentials. It is the same on every
/// device, unlike the identifier under which a provider is stored.
pub fn credential_namespace(app_type: &AppType) -> (r: &str)
    ensures
        r@ == app_type.name@,
{
    app_type.as_str()
}

/// The SHA-256 digest of some bytes.
pub uninterp spec fn sha256(data: Seq<u8>) -> Seq<u8>;

/// Hashes bytes with `Sha256::digest`.
///
/// Believed: the digest depends on the bytes alone and has 32 bytes. That two
/// inputs have different digests is not said.
#[verifier::external_body]
fn sha256_digest(data: &Vec<u8>) -> (r: Vec<u8>)
    ensures
        r@ == sha256(data@),
        r@.len() == 32,
{
    Sha256::digest(data).to_vec()
}

/// What is hashed for a key: the namespace, a zero byte, and the key as it is.
pub open spec fn fingerprint_input(namespace: Seq<char>, api_key: Seq<char>) -> Seq<u8> {
    encode_utf8(namespace).push(0) + encode_utf8(api_key)
}

pub open spec fn hex_digit(n: int) -> char {
    if n < 10 {
        ('0' as int + n) as char
    } else {
        ('a' as int + n - 10) as char
    }
}

/// Bytes in lower-case hexadecimal notation, two digits for each.
pub open spec fn hex_text(bytes: Seq<u8>) -> Seq<char> {
    Seq::new(
        2 * bytes.len(),
        |i: int|
            hex_digit(
                if i % 2 == 0 {
                    bytes[i / 2] as int / 16
                } else {
                    bytes[i / 2] as int % 16
                },
            ),
    )
}

/// The fingerprint of a key in a namespace.
pub open spec fn fingerprint(namespace: Seq<char>, api_key: Seq<char>) -> Seq<char> {
    hex_text(sha256(fingerprint_input(namespace, api_key)))
}

pub open spec fn is_lower_hex(c: char) -> bool {
    '0' <= c <= '9' || 'a' <= c <= 'f'
}

fn hex_digit_text(n: u8) -> (r: &'static str)
    requires
        n < 16,
    ensures
        r@ == seq![hex_digit(n as int)],
{
    proof {
        reveal_strlit("0");
        reveal_strlit("1");
        reveal_strlit("2");
        reveal_strlit("3");
        reveal_strlit("4");
        reveal_strlit("5");
        reveal_strlit("6");
        reveal_strlit("7");
        reveal_strlit("8");
        reveal_strlit("9");
        reveal_strlit("a");
        reveal_strlit("b");
        reveal_strlit("c");
        reveal_strlit("d");
        reveal_strlit("e");
        reveal_strlit("f");
    }
    match n {
        0 => "0",
        1 => "1",
        2 => "2",
        3 => "3",
        4 => "4",
        5 => "5",
        6 => "6",
        7 => "7",
        8 => "8",
        9 => "9",
        10 => "a",
        11 => "b",
        12 => "c",
        13 => "d",
        14 => "e",
        _ => "f",
    }
}

/// The fingerprint of an API key: the SHA-256 digest of the namespace, a zero
/// byte and the key, in 64 lower-case hexadecimal digits. The case of the key
/// counts.
pub fn credential_fingerprint(namespace: &str, api_key: &str) -> (r: String)
    ensures
        r@ == fingerprint(namespace@, api_key@),
        r@.len() == 64,
        forall|i: int| 0 <= i < 64 ==> is_lower_hex(#[trigger] r@[i]),
{
    let mut input: Vec<u8> = namespace.as_bytes_vec();
    input.push(0);
    let mut key: Vec<u8> = api_key.as_bytes_vec();
    input.append(&mut key);
    assert(input@ == fingerprint_input(namespace@, api_key@));
    let digest: Vec<u8> = sha256_digest(&input);
    let mut hex: String = String::new();
    let mut i: usize = 0;
    while i < digest.len()
        invariant
            i <= digest@.len(),
            hex@ == hex_text(digest@.take(i as int)),
        decreases digest@.len() - i,
    {
        let byte: u8 = digest[i];
        hex.append(hex_digit_text(byte / 16));
        hex.append(hex_digit_text(byte % 16));
        proof {
            let t = digest@.take(i + 1);
            assert(hex@ =~= hex_text(t));
        }
        i = i + 1;
    }
    assert(digest@.take(digest@.len() as int) =~= digest@);
    hex
}

/// The masked form of a key: its first three and last four characters around
/// four asterisks, or asterisks alone where the key has at most eight.
pub open spec fn masked(api_key: Seq<char>) -> Seq<char> {
    if api_key.len() <= 8 {
        "****"@
    } else {
        api_key.take(3) + "****"@ + api_key.skip(api_key.len() - 4)
    }
}

/// Masks an API key for display.
pub fn mask_credential(api_key: &str) -> (r: String)
    ensures
        r@ == masked(api_key@),
{
    let n: usize = chars_of(api_key).len();
    if n <= 8 {
        return "****".to_owned();
    }
    let mut shown: String = concat(api_key.substring_char(0, 3), "****");
    shown.append(api_key.substring_char(n - 4, n));
    shown
}

/// The credential that an application's adapter extracts from a provider.
#[derive(Clone, Debug)]
pub struct AuthInfo {
    pub api_key: String,
}

/// What is known of a provider's credential.
#[derive(Clone, Debug)]
pub struct Provider {
    /// The provider authenticates with a managed account.
    pub uses_managed_account_auth: bool,
    /// The proxy puts an OAuth token into each request.
    pub uses_proxy_injected_oauth: bool,
    pub is_codex_oauth: bool,
    pub is_xai_oauth: bool,
    /// What the application's adapter extracts; nothing where the application
    /// has no adapter or the adapter finds no credential.
    pub auth: Option<AuthInfo>,
}

/// What the credential of a provider resolves to.
#[derive(Clone, Debug, PartialEq)]
pub enum CredentialResolution {
    /// A static API key, by its fingerprint and its masked form.
    StaticKey { fingerprint: String, masked_key: String },
    /// No static key, so no limit can be tied to it.
    Unsupported,
}

/// A [`CredentialResolution`] with its texts as sequences of characters.
pub enum CredentialView {
    StaticKey { fingerprint: Seq<char>, masked_key: Seq<char> },
    Unsupported,
}

impl View for CredentialResolution {
    type V = CredentialView;

    open spec fn view(&self) -> CredentialView {
        match self {
            CredentialResolution::StaticKey { fingerprint, masked_key } => {
                CredentialView::StaticKey { fingerprint: fingerprint@, masked_key: masked_key@ }
            },
            CredentialResolution::Unsupported => CredentialView::Unsupported,
        }
    }
}

impl Provider {
    /// Whether the token of the provider is issued anew rather than fixed.
    pub open spec fn has_dynamic_token(self) -> bool {
        self.uses_managed_account_auth || self.uses_proxy_injected_oauth || self.is_codex_oauth
            || self.is_xai_oauth
    }

    /// The static key of the provider, without white space around it.
    pub open spec fn static_key(self) -> Option<Seq<char>> {
        match self.auth {
            Some(auth) => if !self.has_dynamic_token() && trimmed(auth.api_key@).len() > 0 {
                Some(trimmed(auth.api_key@))
            } else {
                None
            },
            None => None,
        }
    }
}

/// The identity of a provider's credential in an application.
pub open spec fn resolved(provider: Provider, namespace: Seq<char>) -> CredentialView {
    match provider.static_key() {
        Some(key) => CredentialView::StaticKey {
            fingerprint: fingerprint(namespace, key),
            masked_key: masked(key),
        },
        None => CredentialView::Unsupported,
    }
}

/// Resolves the credential of a provider.
pub fn resolve_credential(provider: &Provider, app_type: &AppType) -> (r: CredentialResolution)
    ensures
        r@ == resolved(*provider, app_type.name@),
{
    if provider.uses_managed_account_auth || provider.uses_proxy_injected_oauth
        || provider.is_codex_oauth || provider.is_xai_oauth {
        return CredentialResolution::Unsupported;
    }
    match &provider.auth {
        None => CredentialResolution::Unsupported,
        Some(auth) => {
            let key: &str = trim(auth.api_key.as_str());
            if key.is_empty() {
                return CredentialResolution::Unsupported;
            }
            CredentialResolution::StaticKey {
                fingerprint: credential_fingerprint(credential_namespace(app_type), key),
                masked_key: mask_credential(key),
            }
        },
    }
}

proof fn lemma_nonzero_scalar_bytes(s: u32)
    requires
        is_scalar(s),
        s != 0,
    ensures
        forall|i: int|
            0 <= i < encode_scalar(s).len() ==> #[trigger] encode_scalar(s)[i] != 0u8,
{
    assert(0 < s <= 0x7f ==> (s & 0x7f) as u8 != 0) by (bit_vector);
    assert(0xc0u8 | ((s >> 6) & 0x1f) as u8 != 0) by (bit_vector);
    assert(0xe0u8 | ((s >> 12) & 0xf) as u8 != 0) by (bit_vector);
    assert(0xf0u8 | ((s >> 18) & 0x7) as u8 != 0) by (bit_vector);
    assert(0x80u8 | (s & 0x3f) as u8 != 0) by (bit_vector);
    assert(0x80u8 | ((s >> 6) & 0x3f) as u8 != 0) by (bit_vector);
    assert(0x80u8 | ((s >> 12) & 0x3f) as u8 != 0) by (bit_vector);
}

proof fn lemma_nonzero_char(c: char)
    requires
        c != '\0',
    ensures
        is_scalar(c as u32),
        c as u32 != 0,
{
}

proof fn lemma_no_zero_bytes(s: Seq<char>)
    requires
        !s.contains('\0'),
    ensures
        forall|i: int| 0 <= i < encode_utf8(s).len() ==> #[trigger] encode_utf8(s)[i] != 0u8,
    decreases s.len(),
{
    if s.len() > 0 {
        assert(s[0] != '\0');
        lemma_nonzero_char(s[0]);
        lemma_nonzero_scalar_bytes(s[0] as u32);
        assert(forall|i: int| 0 <= i < s.len() - 1 ==> #[trigger] s.drop_first()[i] == s[i + 1]);
        assert(!s.drop_first().contains('\0'));
        lemma_no_zero_bytes(s.drop_first());
        let head = encode_scalar(s[0] as u32);
        let tail = encode_utf8(s.drop_first());
        assert forall|i: int| 0 <= i < encode_utf8(s).len() implies #[trigger] encode_utf8(s)[i]
            != 0u8 by {
            if i < head.len() {
                assert(encode_utf8(s)[i] == head[i]);
            } else {
                assert(encode_utf8(s)[i] == tail[i - head.len()]);
            }
        }
    }
}

/// What is hashed tells apart every two pairs of namespace and key, as long as
/// no namespace holds a zero character: keys that differ in anything, their case
/// and their namespace too, are hashed as different bytes.
pub proof fn law_fingerprint_input_unambiguous(
    namespace1: Seq<char>,
    key1: Seq<char>,
    namespace2: Seq<char>,
    key2: Seq<char>,
)
    requires
        !namespace1.contains('\0'),
        !namespace2.contains('\0'),
        fingerprint_input(namespace1, key1) == fingerprint_input(namespace2, key2),
    ensures
        namespace1 == namespace2,
        key1 == key2,
{
    let n1 = encode_utf8(namespace1);
    let n2 = encode_utf8(namespace2);
    let k1 = encode_utf8(key1);
    let k2 = encode_utf8(key2);
    let whole = fingerprint_input(namespace1, key1);
    lemma_no_zero_bytes(namespace1);
    lemma_no_zero_bytes(namespace2);
    assert(whole[n1.len() as int] == 0);
    assert(fingerprint_input(namespace2, key2)[n2.len() as int] == 0);
    if n1.len() < n2.len() {
        assert(fingerprint_input(namespace2, key2)[n1.len() as int] == n2[n1.len() as int]);
    }
    if n2.len() < n1.len() {
        assert(whole[n2.len() as int] == n1[n2.len() as int]);
    }
    assert(n1 =~= whole.take(n1.len() as int));
    assert(n2 =~= fingerprint_input(namespace2, key2).take(n2.len() as int));
    assert(k1 =~= whole.skip(n1.len() as int + 1));
    assert(k2 =~= fingerprint_input(namespace2, key2).skip(n2.len() as int + 1));
    encode_utf8_decode_utf8(namespace1);
    encode_utf8_decode_utf8(namespace2);
    encode_utf8_decode_utf8(key1);
    encode_utf8_decode_utf8(key2);
}

/// The identity of a key is the same wherever it is stored: two providers with
/// the same static key in applications of one name resolve alike.
pub proof fn law_same_key_same_identity(
    provider1: Provider,
    app1: AppType,
    provider2: Provider,
    app2: AppType,
)
    requires
        provider1.static_key() == provider2.static_key(),
        app1.name@ == app2.name@,
    ensures
        resolved(provider1, app1.name@) == resolved(provider2, app2.name@),
{
}

/// The masked form shows at most seven characters of a key: what stands between
/// the first three and the last four does not matter to it.
pub proof fn law_mask_hides_the_middle(key1: Seq<char>, key2: Seq<char>)
    requires
        key1.len() > 8,
        key2.len() > 8,
        key1.take(3) == key2.take(3),
        key1.skip(key1.len() - 4) == key2.skip(key2.len() - 4),
    ensures
        masked(key1) == masked(key2),
        masked(key1).len() == 11,
{
    reveal_strlit("****");
}

} // verus!
