use domexception::DOMErrorName;
use domexception::DOMException;
use domexception::strcmp::str_eq;

fn all_variants() -> Vec<DOMErrorName> {
    vec![
        DOMErrorName::IndexSize,
        DOMErrorName::HierarchyRequest,
        DOMErrorName::WrongDocument,
        DOMErrorName::InvalidCharacter,
        DOMErrorName::NoModificationAllowed,
        DOMErrorName::NotFound,
        DOMErrorName::NotSupported,
        DOMErrorName::InUseAttribute,
        DOMErrorName::InvalidState,
        DOMErrorName::Syntax,
        DOMErrorName::InvalidModification,
        DOMErrorName::Namespace,
        DOMErrorName::InvalidAccess,
        DOMErrorName::Security,
        DOMErrorName::Network,
        DOMErrorName::Abort,
        DOMErrorName::TypeMismatch,
        DOMErrorName::URLMismatch,
        DOMErrorName::QuotaExceeded,
        DOMErrorName::Timeout,
        DOMErrorName::InvalidNodeType,
        DOMErrorName::DataClone,
        DOMErrorName::NotReadable,
        DOMErrorName::Operation,
    ]
}

#[test]
fn frozen_prefix_codes_are_dense_and_increasing() {
    let frozen = &all_variants()[..22];
    for (i, v) in frozen.iter().enumerate() {
        assert_eq!(DOMException::new(*v).Code(), (i + 1) as u16);
    }
}

#[test]
fn frozen_prefix_fixed_codes() {
    assert_eq!(DOMException::new(DOMErrorName::IndexSize).Code(), 1);
    assert_eq!(DOMException::new(DOMErrorName::HierarchyRequest).Code(), 2);
    assert_eq!(DOMException::new(DOMErrorName::Security).Code(), 14);
    assert_eq!(DOMException::new(DOMErrorName::Timeout).Code(), 20);
    assert_eq!(DOMException::new(DOMErrorName::DataClone).Code(), 22);
}

#[test]
fn post_freeze_names_have_no_code() {
    assert_eq!(DOMException::new(DOMErrorName::NotReadable).Code(), 0);
    assert_eq!(DOMException::new(DOMErrorName::Operation).Code(), 0);
}

#[test]
fn labels_round_trip_through_parse() {
    for v in all_variants() {
        let (_, label) = DOMException::get_error_data_by_code(v);
        assert_eq!(DOMErrorName::from(label.as_str()), Some(v));
    }
}

#[test]
fn created_from_name_holds_label_and_default_message() {
    let e = DOMException::new(DOMErrorName::Timeout);
    assert_eq!(e.Name(), "TimeoutError");
    assert_eq!(e.Message(), "The operation timed out.");
    let e = DOMException::new(DOMErrorName::NotReadable);
    assert_eq!(e.Name(), "NotReadableError");
    assert_eq!(e.Message(), "The I/O read operation failed.");
}

#[test]
fn unrecognized_name_passes_through() {
    let e = DOMException::Constructor("x".to_string(), "NotARealError".to_string());
    assert_eq!(e.Code(), 0);
    assert_eq!(e.Name(), "NotARealError");
    assert_eq!(e.Message(), "x");
}

#[test]
fn code_follows_name_not_construction() {
    let e = DOMException::Constructor("custom msg".to_string(), "SecurityError".to_string());
    assert_eq!(e.Code(), 14);
    assert_eq!(e.Message(), "custom msg");
}

#[test]
fn stringifier_formats_name_colon_message() {
    let e = DOMException::Constructor(
        "The operation timed out.".to_string(),
        "TimeoutError".to_string(),
    );
    assert_eq!(e.stringifier(), "TimeoutError: The operation timed out.");
}

#[test]
fn default_value_is_error_with_empty_message() {
    let e = DOMException::default();
    assert_eq!(e.Name(), "Error");
    assert_eq!(e.Message(), "");
    assert_eq!(e.Code(), 0);
}

#[test]
fn parse_rejects_near_misses() {
    assert_eq!(DOMErrorName::from(""), None);
    assert_eq!(DOMErrorName::from("Error"), None);
    assert_eq!(DOMErrorName::from("IndexSize"), None);
    assert_eq!(DOMErrorName::from("indexsizeerror"), None);
    assert_eq!(DOMErrorName::from("TimeoutError "), None);
    assert_eq!(DOMErrorName::from("SecurityErrorX"), None);
}

#[test]
fn str_eq_matches_exact_text_only() {
    assert!(str_eq("DataCloneError", "DataCloneError"));
    assert!(!str_eq("DataCloneError", "DataCloneErro"));
    assert!(!str_eq("", "a"));
    assert!(str_eq("", ""));
}
