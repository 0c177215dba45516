use token_gate::invalid_public_key;

// 25 allowed lowercase letters followed by 19 allowed uppercase letters:
// 44 characters, none of them `O`, `I`, `l` or `0`.
const IDENT_44: &str = "abcdefghijkmnopqrstuvwxyzABCDEFGHJKLMNPQRSTU";

#[test]
fn accepts_44_char_alphanumeric_identity() {
    assert_eq!(IDENT_44.len(), 44);
    assert!(!invalid_public_key(&Some(IDENT_44.to_string())));
}

#[test]
fn accepts_32_char_identity() {
    let ident: String = IDENT_44.chars().take(32).collect();
    assert!(!invalid_public_key(&Some(ident)));
}

#[test]
fn rejects_absent_identity() {
    assert!(invalid_public_key(&None));
}

#[test]
fn rejects_non_alphanumeric_identity() {
    let ident = "ALL\u{dc}PPERCASE_WITH_32_CHARSxxxx".to_string();
    assert!(invalid_public_key(&Some(ident)));
}

#[test]
fn rejects_20_char_identity_as_too_short() {
    let ident: String = IDENT_44.chars().take(20).collect();
    assert_eq!(ident.len(), 20);
    assert!(invalid_public_key(&Some(ident)));
}

#[test]
fn rejects_31_char_identity() {
    let ident: String = IDENT_44.chars().take(31).collect();
    assert!(invalid_public_key(&Some(ident)));
}

#[test]
fn rejects_45_char_identity() {
    let mut ident = IDENT_44.to_string();
    ident.push('a');
    assert!(invalid_public_key(&Some(ident)));
}

#[test]
fn rejects_each_confusable_character() {
    for confusable in ['O', 'I', 'l', '0'] {
        let mut ident: String = IDENT_44.chars().take(43).collect();
        ident.push(confusable);
        assert!(
            invalid_public_key(&Some(ident)),
            "{confusable} should be rejected"
        );
    }
}

#[test]
fn rejects_embedded_underscore() {
    let mut ident: String = IDENT_44.chars().take(43).collect();
    ident.push('_');
    assert!(invalid_public_key(&Some(ident)));
}
