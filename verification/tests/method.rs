use elrond_wasm::metadata::{MethodMetadata, Visibility};
use elrond_wasm::method::{ArgLoading, ArgMetadata, Method, MethodArg};
use elrond_wasm::payable::MethodPayableMetadata;

fn arg(name: &str, metadata: ArgMetadata) -> MethodArg {
    MethodArg { pat: name.to_string(), ty: "u64".to_string(), metadata }
}

fn method(args: Vec<MethodArg>) -> Method {
    Method {
        docs: vec!["Does something.".to_string()],
        metadata: MethodMetadata::Regular {
            visibility: Visibility::Endpoint("f".to_string()),
            payable: MethodPayableMetadata::NotPayable,
        },
        name: "f".to_string(),
        method_args: args,
        payment_arg: None,
        token_arg: None,
        output_names: Vec::new(),
    }
}

#[test]
fn no_arguments() {
    let m = method(Vec::new());
    assert!(!m.has_variable_nr_args());
    match m.arg_loading() {
        ArgLoading::Fixed { arg_indices, num_args } => {
            assert!(arg_indices.is_empty());
            assert_eq!(num_args, 0);
        },
        other => panic!("unexpected {:?}", other),
    }
}

#[test]
fn fixed_arguments_skip_payment() {
    let m = method(vec![
        arg("a", ArgMetadata::Single),
        arg("payment", ArgMetadata::Payment),
        arg("b", ArgMetadata::Single),
        arg("token", ArgMetadata::PaymentToken),
        arg("c", ArgMetadata::Single),
    ]);
    assert!(!m.has_variable_nr_args());
    match m.arg_loading() {
        ArgLoading::Fixed { arg_indices, num_args } => {
            assert_eq!(arg_indices, vec![Some(0), None, Some(1), None, Some(2)]);
            assert_eq!(num_args, 3);
        },
        other => panic!("unexpected {:?}", other),
    }
}

#[test]
fn variable_arguments() {
    let m = method(vec![
        arg("payment", ArgMetadata::Payment),
        arg("a", ArgMetadata::Single),
        arg("rest", ArgMetadata::VarArgs),
    ]);
    assert!(m.has_variable_nr_args());
    match m.arg_loading() {
        ArgLoading::Variable { loaded } => assert_eq!(loaded, vec![false, true, true]),
        other => panic!("unexpected {:?}", other),
    }
}
