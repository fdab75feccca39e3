use usage_limit::credential::{
    credential_fingerprint, credential_namespace, mask_credential, parse_app_type,
    resolve_credential, AppType, AuthInfo, CredentialResolution, Provider,
};

fn provider(key: Option<&str>) -> Provider {
    Provider {
        uses_managed_account_auth: false,
        uses_proxy_injected_oauth: false,
        is_codex_oauth: false,
        is_xai_oauth: false,
        auth: key.map(|k| AuthInfo { api_key: k.to_string() }),
    }
}

fn app(name: &str) -> AppType {
    AppType { name: name.to_string() }
}

#[test]
fn same_key_and_namespace_pair_across_databases() {
    let left = credential_fingerprint("anthropic", "sk-test-same-key");
    let right = credential_fingerprint("anthropic", "sk-test-same-key");
    assert_eq!(left, right);
    assert_eq!(left.len(), 64);
    assert_eq!(left, "3d87caced0beb9bdd51692a69601d2f66463a120f90b3e3622f10597b2581f87");
}

#[test]
fn fingerprint_preserves_case_and_namespace() {
    assert_ne!(
        credential_fingerprint("anthropic", "sk-test-Key"),
        credential_fingerprint("anthropic", "sk-test-key")
    );
    assert_ne!(
        credential_fingerprint("anthropic", "sk-test-key"),
        credential_fingerprint("openai", "sk-test-key")
    );
    assert_ne!(credential_fingerprint("ab", "c"), credential_fingerprint("a", "bc"));
}

#[test]
fn a_mask_shows_both_ends_of_a_long_key() {
    assert_eq!(mask_credential("sk-1234567890ABCD"), "sk-****ABCD");
    assert_eq!(mask_credential("123456789"), "123****6789");
    assert_eq!(mask_credential("12345678"), "****");
    assert_eq!(mask_credential(""), "****");
    assert_eq!(mask_credential("密钥一二三四五六七"), "密钥一****四五六七");
}

#[test]
fn a_static_key_is_an_identity() {
    match resolve_credential(&provider(Some("  sk-test-ABCD\n")), &app("codex")) {
        CredentialResolution::StaticKey { fingerprint, masked_key } => {
            assert_eq!(
                fingerprint,
                "3770423f1ed6755883848796987f5a5a37dc60306750d84a0670c2e09e148346"
            );
            assert_eq!(masked_key, "sk-****ABCD");
        }
        other => panic!("unexpected: {:?}", other),
    }
    assert_eq!(credential_namespace(&app("gemini")), "gemini");
}

#[test]
fn without_a_static_key_there_is_no_identity() {
    let unsupported = |p: &Provider| {
        matches!(resolve_credential(p, &app("codex")), CredentialResolution::Unsupported)
    };
    assert!(unsupported(&provider(None)));
    assert!(unsupported(&provider(Some(" \t "))));
    let mut p = provider(Some("sk-test-ABCD"));
    assert!(!unsupported(&p));
    p.uses_managed_account_auth = true;
    assert!(unsupported(&p));
    p.uses_managed_account_auth = false;
    p.uses_proxy_injected_oauth = true;
    assert!(unsupported(&p));
    p.uses_proxy_injected_oauth = false;
    p.is_codex_oauth = true;
    assert!(unsupported(&p));
    p.is_codex_oauth = false;
    p.is_xai_oauth = true;
    assert!(unsupported(&p));
}

#[test]
fn only_known_applications_parse() {
    let known = vec![app("codex"), app("gemini")];
    assert_eq!(parse_app_type(&known, "gemini").unwrap().as_str(), "gemini");
    assert!(parse_app_type(&known, "Gemini").is_none());
    assert!(parse_app_type(&known, "").is_none());
}
