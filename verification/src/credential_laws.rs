//! What the identity of a key is made of, said of its characters.

use crate::credential::{
    fingerprint, is_known_app, masked, resolved, sha256, AppType, CredentialView, Provider,
};
use crate::text::trimmed;
use vstd::prelude::*;
use vstd::utf8::*;

verus! {

/// A key of more than eight characters is shown by its first three and its last four,
/// with four asterisks between them; of a shorter one nothing is shown.
pub proof fn law_mask_shows_the_ends(key: Seq<char>, i: int)
    ensures
        key.len() <= 8 ==> masked(key).len() == 4 && (0 <= i < 4 ==> masked(key)[i] == '*'),
        key.len() > 8 ==> {
            &&& masked(key).len() == 11
            &&& 0 <= i < 3 ==> masked(key)[i] == key[i]
            &&& 3 <= i < 7 ==> masked(key)[i] == '*'
            &&& 7 <= i < 11 ==> masked(key)[i] == key[key.len() - 11 + i]
        },
{
    reveal_strlit("****");
}

/// The number that a lower-case hexadecimal digit denotes.
pub open spec fn hex_value(c: char) -> int {
    if '0' <= c <= '9' {
        c as int - '0' as int
    } else if 'a' <= c <= 'f' {
        c as int - 'a' as int + 10
    } else {
        -1
    }
}

/// A fingerprint reads as the SHA-256 digest of the namespace, a zero byte and the key:
/// each two of its digits denote one byte, the higher half first.
pub proof fn law_fingerprint_reads_as_the_digest(namespace: Seq<char>, key: Seq<char>, i: int)
    ensures
        ({
            let digest = sha256(encode_utf8(namespace) + seq![0u8] + encode_utf8(key));
            let shown = fingerprint(namespace, key);
            &&& shown.len() == 2 * digest.len()
            &&& 0 <= i < digest.len() ==> 0 <= hex_value(shown[2 * i]) < 16 && 0 <= hex_value(
                shown[2 * i + 1],
            ) < 16 && 16 * hex_value(shown[2 * i]) + hex_value(shown[2 * i + 1]) == digest[i]
        }),
{
    assert(encode_utf8(namespace).push(0) + encode_utf8(key) =~= encode_utf8(namespace) + seq![0u8]
        + encode_utf8(key));
    let digest = sha256(encode_utf8(namespace) + seq![0u8] + encode_utf8(key));
    if 0 <= i < digest.len() {
        let shown = fingerprint(namespace, key);
        assert((2 * i) % 2 == 0 && (2 * i) / 2 == i);
        assert((2 * i + 1) % 2 == 1 && (2 * i + 1) / 2 == i);
        let high = digest[i] as int / 16;
        let low = digest[i] as int % 16;
        assert(0 <= high < 16 && 0 <= low < 16);
        assert(hex_value(shown[2 * i]) == high);
        assert(hex_value(shown[2 * i + 1]) == low);
    }
}

/// A provider has a static key exactly where its credential is neither a managed
/// account nor a token that is issued anew, and is not blank. The identity is that of
/// the key without the white space around it, in the application of the provider.
pub proof fn law_static_keys(provider: Provider, app_type: Seq<char>)
    ensures
        provider.uses_managed_account_auth ==> resolved(provider, app_type) is Unsupported,
        provider.uses_proxy_injected_oauth ==> resolved(provider, app_type) is Unsupported,
        provider.is_codex_oauth ==> resolved(provider, app_type) is Unsupported,
        provider.is_xai_oauth ==> resolved(provider, app_type) is Unsupported,
        provider.auth is None ==> resolved(provider, app_type) is Unsupported,
        !provider.uses_managed_account_auth && !provider.uses_proxy_injected_oauth
            && !provider.is_codex_oauth && !provider.is_xai_oauth ==> (
        provider.auth matches Some(auth) ==> (trimmed(auth.api_key@).len() == 0 ==> resolved(
            provider,
            app_type,
        ) is Unsupported) && (trimmed(auth.api_key@).len() > 0 ==> resolved(provider, app_type)
            == (CredentialView::StaticKey {
            fingerprint: fingerprint(app_type, trimmed(auth.api_key@)),
            masked_key: masked(trimmed(auth.api_key@)),
        }))),
{
}

/// An application is known exactly where one of the known ones has its name, letter for
/// letter.
pub proof fn law_known_applications(known: Seq<AppType>, app: AppType, name: Seq<char>)
    ensures
        !is_known_app(Seq::empty(), name),
        is_known_app(known.push(app), name) <==> is_known_app(known, name) || app.name@ == name,
{
    let more = known.push(app);
    if is_known_app(known, name) {
        let i = choose|i: int| 0 <= i < known.len() && (#[trigger] known[i]).name@ == name;
        assert(more[i].name@ == name);
    }
    if app.name@ == name {
        assert(more[known.len() as int].name@ == name);
    }
    if is_known_app(more, name) {
        let i = choose|i: int| 0 <= i < more.len() && (#[trigger] more[i]).name@ == name;
        if i < known.len() {
            assert(known[i].name@ == name);
        }
    }
}

} // verus!
