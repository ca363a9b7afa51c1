use elrond_wasm::payable::{process_payable, MethodPayableMetadata};

fn token(s: &str) -> Option<Option<String>> {
    Some(Some(s.to_string()))
}

#[test]
fn no_attribute_is_not_payable() {
    let p = process_payable(&None);
    assert!(matches!(p, MethodPayableMetadata::NotPayable));
    assert!(!p.is_payable());
    assert!(p.abi_strings().is_empty());
}

#[test]
fn attribute_without_token_is_egld() {
    let p = process_payable(&Some(None));
    assert!(matches!(p, MethodPayableMetadata::Egld));
    assert!(p.is_payable());
    assert_eq!(p.abi_strings(), vec!["EGLD".to_string()]);
}

#[test]
fn egld_token() {
    let p = process_payable(&token("EGLD"));
    assert!(matches!(p, MethodPayableMetadata::Egld));
}

#[test]
fn any_token() {
    let p = process_payable(&token("*"));
    assert!(matches!(p, MethodPayableMetadata::AnyToken));
    assert!(p.is_payable());
    assert_eq!(p.abi_strings(), vec!["*".to_string()]);
}

#[test]
fn single_esdt_token() {
    let p = process_payable(&token("MYTOKEN-123456"));
    match &p {
        MethodPayableMetadata::SingleEsdtToken(s) => assert_eq!(s, "MYTOKEN-123456"),
        other => panic!("unexpected {:?}", other),
    }
    assert!(p.is_payable());
    assert_eq!(p.abi_strings(), vec!["MYTOKEN-123456".to_string()]);
}

#[test]
fn token_names_are_case_sensitive() {
    let p = process_payable(&token("egld"));
    assert!(matches!(p, MethodPayableMetadata::SingleEsdtToken(_)));
}

#[test]
fn no_metadata_is_payable_without_abi_tokens() {
    let p = MethodPayableMetadata::NoMetadata;
    assert!(p.is_payable());
    assert!(p.abi_strings().is_empty());
}

#[test]
fn clone_keeps_token() {
    let p = MethodPayableMetadata::SingleEsdtToken("T".to_string());
    match p.clone() {
        MethodPayableMetadata::SingleEsdtToken(s) => assert_eq!(s, "T"),
        other => panic!("unexpected {:?}", other),
    }
}
