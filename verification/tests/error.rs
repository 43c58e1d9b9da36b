use ifcfg::error::label;
use ifcfg::{IfCfgError, InterfacesError};

fn json_error() -> serde_json::Error {
    match serde_json::from_str::<serde_json::Value>("{\"name\": ") {
        Err(err) => err,
        Ok(_) => panic!("the text is no JSON"),
    }
}

#[test]
fn label_puts_the_detail_in_brackets() {
    assert_eq!(label("Generic", "broken"), "Generic(broken)");
    assert_eq!(label("IOError", ""), "IOError()");
    assert_eq!(label("", "x"), "(x)");
}

#[test]
fn generic_error_as_text() {
    assert_eq!(IfCfgError::Generic("no adapters").to_string(), "Generic(no adapters)");
}

#[test]
fn interfaces_error_as_text() {
    let err = IfCfgError::InterfacesError(InterfacesError { detail: "Errno(permission denied)".to_string() });
    assert_eq!(err.to_string(), "InterfacesError(Errno(permission denied))");
}

#[test]
fn io_error_as_text() {
    let inner = std::io::Error::new(std::io::ErrorKind::Other, "query failed");
    let expected = format!("IOError({})", inner);
    assert_eq!(IfCfgError::IOError(inner).to_string(), expected);
    assert_eq!(expected, "IOError(query failed)");
}

#[test]
fn json_error_as_text() {
    let expected = format!("SerdeJsonError({})", json_error());
    assert_eq!(IfCfgError::SerdeJsonError(json_error()).to_string(), expected);
    assert!(expected.ends_with(" at line 1 column 9)"));
}

#[test]
fn io_error_becomes_an_io_variant() {
    let err = IfCfgError::from(std::io::Error::from_raw_os_error(5));
    assert!(matches!(err, IfCfgError::IOError(ref inner) if inner.raw_os_error() == Some(5)));
}

#[test]
fn json_error_becomes_a_json_variant() {
    let err = IfCfgError::from(json_error());
    assert!(matches!(err, IfCfgError::SerdeJsonError(ref inner) if inner.is_eof()));
}

#[test]
fn interfaces_error_becomes_an_interfaces_variant() {
    let err = IfCfgError::from(InterfacesError { detail: "NotSupported(ioctl)".to_string() });
    assert!(matches!(err, IfCfgError::InterfacesError(ref inner) if inner.detail == "NotSupported(ioctl)"));
}
