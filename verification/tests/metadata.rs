use elrond_wasm::metadata::{
    check_metadata, extract_metadata, is_reserved, process_visibility, Conflict, MetadataError,
    MethodAttributes, MethodKind, MethodMetadata, Visibility,
};
use elrond_wasm::payable::MethodPayableMetadata;

fn attrs(name: &str) -> MethodAttributes {
    MethodAttributes {
        name: name.to_string(),
        is_init: false,
        endpoint: None,
        view: None,
        payable: None,
        callback: false,
        callback_raw: false,
        legacy_event: None,
        event: None,
        storage_get: None,
        storage_set: None,
        storage_mapper: None,
        storage_get_mut: None,
        storage_is_empty: None,
        storage_clear: None,
        module: None,
        has_default: false,
    }
}

fn reserved() -> Vec<String> {
    vec!["getCaller".to_string(), "finish".to_string()]
}

fn some(s: &str) -> Option<String> {
    Some(s.to_string())
}

fn endpoint_name(m: &MethodMetadata) -> Option<String> {
    m.endpoint_name().cloned()
}

fn invalid(r: Result<MethodMetadata, MetadataError>) -> (MethodKind, Conflict) {
    match r {
        Err(MetadataError::Invalid(k, c)) => (k, c),
        other => panic!("unexpected {:?}", other),
    }
}

#[test]
fn reserved_names() {
    let r = reserved();
    assert!(is_reserved(&r, &"finish".to_string()));
    assert!(!is_reserved(&r, &"Finish".to_string()));
    assert!(!is_reserved(&Vec::new(), &"finish".to_string()));
}

#[test]
fn init_visibility() {
    let v = process_visibility(true, &None, &None, &"setup".to_string(), &reserved()).unwrap();
    match v {
        Visibility::Endpoint(n) => assert_eq!(n, "init"),
        other => panic!("unexpected {:?}", other),
    }
}

#[test]
fn init_with_endpoint_or_view_is_refused() {
    let r = process_visibility(true, &Some(None), &None, &"setup".to_string(), &reserved());
    assert!(matches!(r, Err(MetadataError::InitWithEndpoint)));
    let r = process_visibility(true, &None, &Some(None), &"setup".to_string(), &reserved());
    assert!(matches!(r, Err(MetadataError::InitWithView)));
}

#[test]
fn endpoint_visibility_takes_attribute_name_or_method_name() {
    let v = process_visibility(false, &Some(some("doIt")), &None, &"do_it".to_string(), &reserved());
    assert!(matches!(v, Ok(Visibility::Endpoint(ref n)) if n == "doIt"));
    let v = process_visibility(false, &Some(None), &None, &"do_it".to_string(), &reserved());
    assert!(matches!(v, Ok(Visibility::Endpoint(ref n)) if n == "do_it"));
    let v = process_visibility(false, &None, &Some(None), &"get_x".to_string(), &reserved());
    assert!(matches!(v, Ok(Visibility::Endpoint(ref n)) if n == "get_x"));
    let v = process_visibility(false, &None, &None, &"helper".to_string(), &reserved());
    assert!(matches!(v, Ok(Visibility::Private)));
}

#[test]
fn endpoint_visibility_errors() {
    let r = process_visibility(false, &Some(None), &Some(None), &"f".to_string(), &reserved());
    assert!(matches!(r, Err(MetadataError::EndpointWithView)));
    let r = process_visibility(false, &Some(None), &None, &"init".to_string(), &reserved());
    assert!(matches!(r, Err(MetadataError::EndpointNamedInit)));
    let r = process_visibility(false, &Some(some("finish")), &None, &"f".to_string(), &reserved());
    assert!(matches!(r, Err(MetadataError::EndpointNameReserved(ref n)) if n == "finish"));
    let r = process_visibility(false, &None, &Some(some("init")), &"f".to_string(), &reserved());
    assert!(matches!(r, Err(MetadataError::ViewNamedInit)));
    let r = process_visibility(false, &None, &Some(None), &"getCaller".to_string(), &reserved());
    assert!(matches!(r, Err(MetadataError::ViewNameReserved(ref n)) if n == "getCaller"));
}

#[test]
fn regular_endpoint() {
    let mut a = attrs("deposit");
    a.endpoint = Some(None);
    a.payable = Some(Some("EGLD".to_string()));
    a.has_default = true;
    let m = check_metadata(&a, &reserved()).unwrap();
    assert_eq!(endpoint_name(&m), Some("deposit".to_string()));
    assert!(m.has_implementation());
    assert!(matches!(m.payable_metadata(), MethodPayableMetadata::Egld));
    let m2 = extract_metadata(&a, &reserved());
    assert!(matches!(m2, MethodMetadata::Regular { .. }));
}

#[test]
fn regular_private_method() {
    let mut a = attrs("helper");
    a.has_default = true;
    let m = check_metadata(&a, &reserved()).unwrap();
    assert_eq!(endpoint_name(&m), None);
    assert!(m.has_implementation());
    assert!(matches!(m.payable_metadata(), MethodPayableMetadata::NotPayable));
}

#[test]
fn regular_without_implementation_is_refused() {
    let a = attrs("helper");
    let r = check_metadata(&a, &reserved());
    assert!(matches!(r, Err(MetadataError::RegularWithoutImplementation(ref n)) if n == "helper"));
}

#[test]
fn empty_payable_token_is_refused() {
    let mut a = attrs("f");
    a.payable = Some(Some(String::new()));
    a.has_default = true;
    assert!(matches!(check_metadata(&a, &reserved()), Err(MetadataError::EmptyPayableToken)));
}

#[test]
fn visibility_errors_come_first() {
    let mut a = attrs("f");
    a.is_init = true;
    a.endpoint = Some(None);
    a.payable = Some(Some(String::new()));
    assert!(matches!(check_metadata(&a, &reserved()), Err(MetadataError::InitWithEndpoint)));
}

#[test]
fn events() {
    let mut a = attrs("transfer_event");
    a.legacy_event = Some(vec![1, 2, 3]);
    let m = check_metadata(&a, &reserved()).unwrap();
    assert!(matches!(m, MethodMetadata::LegacyEvent { ref identifier } if identifier == &vec![1u8, 2, 3]));
    assert!(!m.has_implementation());
    assert!(matches!(m.payable_metadata(), MethodPayableMetadata::NoMetadata));

    let mut a = attrs("transfer_event");
    a.event = Some("transfer".to_string());
    let m = check_metadata(&a, &reserved()).unwrap();
    assert!(matches!(m, MethodMetadata::Event { ref identifier } if identifier == "transfer"));
    assert_eq!(endpoint_name(&m), None);
}

#[test]
fn event_conflicts() {
    let base = || {
        let mut a = attrs("e");
        a.event = Some("e".to_string());
        a
    };
    let mut a = base();
    a.payable = Some(None);
    assert_eq!(invalid(check_metadata(&a, &reserved())), (MethodKind::Event, Conflict::Payable));
    let mut a = base();
    a.endpoint = Some(None);
    assert_eq!(invalid(check_metadata(&a, &reserved())), (MethodKind::Event, Conflict::Endpoint));
    let mut a = base();
    a.callback_raw = true;
    assert_eq!(invalid(check_metadata(&a, &reserved())), (MethodKind::Event, Conflict::Callback));
    let mut a = base();
    a.storage_get = some("k");
    assert_eq!(invalid(check_metadata(&a, &reserved())), (MethodKind::Event, Conflict::StorageGetter));
    let mut a = base();
    a.storage_set = some("k");
    assert_eq!(invalid(check_metadata(&a, &reserved())), (MethodKind::Event, Conflict::StorageSetter));
    let mut a = base();
    a.storage_mapper = some("k");
    assert_eq!(invalid(check_metadata(&a, &reserved())), (MethodKind::Event, Conflict::StorageMapper));
    let mut a = base();
    a.storage_get_mut = some("k");
    assert_eq!(invalid(check_metadata(&a, &reserved())), (MethodKind::Event, Conflict::StorageGetMut));
    let mut a = base();
    a.module = some("m");
    assert_eq!(invalid(check_metadata(&a, &reserved())), (MethodKind::Event, Conflict::Module));
    let mut a = base();
    a.has_default = true;
    assert_eq!(
        invalid(check_metadata(&a, &reserved())),
        (MethodKind::Event, Conflict::ImplementationProvided)
    );
    let mut a = base();
    a.legacy_event = Some(vec![9]);
    a.payable = Some(None);
    assert_eq!(invalid(check_metadata(&a, &reserved())), (MethodKind::Event, Conflict::Payable));
}

#[test]
fn callbacks() {
    let mut a = attrs("cb");
    a.callback = true;
    a.has_default = true;
    let m = check_metadata(&a, &reserved()).unwrap();
    assert!(matches!(m, MethodMetadata::Callback));
    assert!(m.has_implementation());
    assert!(matches!(m.payable_metadata(), MethodPayableMetadata::AnyToken));

    let mut a = attrs("cb");
    a.callback_raw = true;
    a.has_default = true;
    let m = check_metadata(&a, &reserved()).unwrap();
    assert!(matches!(m, MethodMetadata::CallbackRaw));
    assert!(matches!(m.payable_metadata(), MethodPayableMetadata::AnyToken));
}

#[test]
fn callback_conflicts() {
    let base = || {
        let mut a = attrs("cb");
        a.callback = true;
        a.has_default = true;
        a
    };
    let mut a = base();
    a.payable = Some(Some("*".to_string()));
    assert_eq!(invalid(check_metadata(&a, &reserved())), (MethodKind::Callback, Conflict::Payable));
    let mut a = base();
    a.view = Some(None);
    assert_eq!(invalid(check_metadata(&a, &reserved())), (MethodKind::Callback, Conflict::Endpoint));
    let mut a = base();
    a.storage_get_mut = some("k");
    assert_eq!(
        invalid(check_metadata(&a, &reserved())),
        (MethodKind::Callback, Conflict::StorageGetMut)
    );
    let mut a = base();
    a.module = some("m");
    assert_eq!(invalid(check_metadata(&a, &reserved())), (MethodKind::Callback, Conflict::Module));
    let mut a = base();
    a.has_default = false;
    assert_eq!(
        invalid(check_metadata(&a, &reserved())),
        (MethodKind::Callback, Conflict::ImplementationMissing)
    );
    let mut a = base();
    a.callback_raw = true;
    assert_eq!(
        invalid(check_metadata(&a, &reserved())),
        (MethodKind::Callback, Conflict::BothCallbackKinds)
    );
}

#[test]
fn storage_accessors() {
    let cases: Vec<(fn(&mut MethodAttributes), MethodKind)> = vec![
        (|a| a.storage_get = Some("key".to_string()), MethodKind::StorageGetter),
        (|a| a.storage_set = Some("key".to_string()), MethodKind::StorageSetter),
        (|a| a.storage_mapper = Some("key".to_string()), MethodKind::StorageMapper),
        (|a| a.storage_get_mut = Some("key".to_string()), MethodKind::StorageGetMut),
        (|a| a.storage_is_empty = Some("key".to_string()), MethodKind::StorageIsEmpty),
        (|a| a.storage_clear = Some("key".to_string()), MethodKind::StorageClear),
    ];
    for (set, kind) in cases {
        let mut a = attrs("get_key");
        set(&mut a);
        a.view = Some(None);
        let m = check_metadata(&a, &reserved()).unwrap();
        let (identifier, matches_kind) = match &m {
            MethodMetadata::StorageGetter { identifier, .. } => (identifier, kind == MethodKind::StorageGetter),
            MethodMetadata::StorageSetter { identifier, .. } => (identifier, kind == MethodKind::StorageSetter),
            MethodMetadata::StorageMapper { identifier, .. } => (identifier, kind == MethodKind::StorageMapper),
            MethodMetadata::StorageGetMut { identifier, .. } => (identifier, kind == MethodKind::StorageGetMut),
            MethodMetadata::StorageIsEmpty { identifier, .. } => {
                (identifier, kind == MethodKind::StorageIsEmpty)
            },
            MethodMetadata::StorageClear { identifier, .. } => (identifier, kind == MethodKind::StorageClear),
            other => panic!("unexpected {:?}", other),
        };
        assert!(matches_kind);
        assert_eq!(identifier, "key");
        assert_eq!(endpoint_name(&m), Some("get_key".to_string()));
        assert!(!m.has_implementation());
        if kind == MethodKind::StorageMapper {
            assert!(matches!(m.payable_metadata(), MethodPayableMetadata::NoMetadata));
        } else {
            assert!(matches!(m.payable_metadata(), MethodPayableMetadata::NotPayable));
        }

        let mut b = attrs("get_key");
        set(&mut b);
        b.payable = Some(None);
        assert_eq!(invalid(check_metadata(&b, &reserved())), (kind, Conflict::Payable));
        let mut b = attrs("get_key");
        set(&mut b);
        b.has_default = true;
        assert_eq!(invalid(check_metadata(&b, &reserved())), (kind, Conflict::ImplementationProvided));
        let mut b = attrs("get_key");
        set(&mut b);
        b.module = Some("m".to_string());
        assert_eq!(invalid(check_metadata(&b, &reserved())), (kind, Conflict::Module));
    }
}

#[test]
fn modules() {
    let mut a = attrs("sub");
    a.module = some("crate::SubImpl");
    a.payable = Some(None);
    let m = check_metadata(&a, &reserved()).unwrap();
    assert!(matches!(m, MethodMetadata::Module { ref impl_path } if impl_path == "crate::SubImpl"));
    assert!(!m.has_implementation());
    assert!(matches!(m.payable_metadata(), MethodPayableMetadata::NoMetadata));
    a.has_default = true;
    assert_eq!(
        invalid(check_metadata(&a, &reserved())),
        (MethodKind::Module, Conflict::ImplementationProvided)
    );
}

#[test]
fn init_storage_getter_is_init_endpoint() {
    let mut a = attrs("get_x");
    a.is_init = true;
    a.storage_get = some("x");
    let m = check_metadata(&a, &reserved()).unwrap();
    assert_eq!(endpoint_name(&m), Some("init".to_string()));
}

#[test]
fn init_may_take_a_reserved_method_name() {
    let mut a = attrs("finish");
    a.is_init = true;
    a.has_default = true;
    let m = check_metadata(&a, &reserved()).unwrap();
    assert_eq!(endpoint_name(&m), Some("init".to_string()));
}
