use newsboy::linker::Linker;

fn contract() -> Vec<String> {
    vec![
        "wasi:logging/logging".to_string(),
        "wasi:http/outgoing-handler".to_string(),
        "newsboy:plugface/host".to_string(),
    ]
}

fn linked() -> Linker {
    let mut linker = Linker::new();
    for name in contract() {
        linker.register(name);
    }
    linker
}

#[test]
fn new_linker_has_no_bindings() {
    let linker = Linker::new();
    assert!(!linker.is_bound(&"wasi:logging/logging".to_string()));
}

#[test]
fn register_binds_the_name() {
    let mut linker = Linker::new();
    let name = "wasi:logging/logging".to_string();
    assert!(!linker.is_bound(&name));
    linker.register(name.clone());
    assert!(linker.is_bound(&name));
}

#[test]
fn register_is_idempotent() {
    let mut linker = Linker::new();
    let name = "wasi:logging/logging".to_string();
    linker.register(name.clone());
    linker.register(name.clone());
    assert!(linker.is_bound(&name));
    assert!(!linker.is_bound(&"wasi:http/outgoing-handler".to_string()));
    assert!(linker.require_all(&vec![name]).is_ok());
}

#[test]
fn satisfied_contract_passes_startup() {
    let linker = linked();
    assert!(linker.require_all(&contract()).is_ok());
}

#[test]
fn missing_capability_fails_fast_and_names_it() {
    let mut linker = Linker::new();
    linker.register("wasi:logging/logging".to_string());
    let err = linker.require_all(&contract()).expect_err("a capability is missing");
    assert_eq!(err.missing, "wasi:http/outgoing-handler");
}

#[test]
fn empty_contract_is_always_satisfied() {
    let linker = Linker::new();
    assert!(linker.require_all(&Vec::new()).is_ok());
}
