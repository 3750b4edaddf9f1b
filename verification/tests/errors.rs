use combadge::error::Error;
use combadge::post::{decode_error, unsupported};

#[test]
fn each_error_describes_itself() {
    let s = |t: &str| t.to_string();
    assert_eq!(Error::CallbackFailed { error: s("x") }.message(), "callback failed");
    assert_eq!(Error::ClientUnavailable.message(), "client unavailable");
    assert_eq!(
        Error::CreationFailed { type_label: s("MessageChannel"), error: s("no") }.message(),
        "failed to create MessageChannel: no"
    );
    assert_eq!(
        Error::DeserializeFailed { type_label: s("i32"), error: s("bad") }.message(),
        "failed to deserialize type i32: bad"
    );
    assert_eq!(Error::PostFailed { error: s("closed") }.message(), "failed to post message: closed");
    assert_eq!(
        Error::ReceiveFailed { error: s("lost") }.message(),
        "failed to receive message: lost"
    );
    assert_eq!(
        Error::SerializeFailed { type_label: s("Callback"), error: s("empty") }.message(),
        "failed to serialize type Callback: empty"
    );
    assert_eq!(Error::UnknownProcedure { name: s("mul") }.message(), "unknown procedure mul");
    assert_eq!(
        Error::UnsupportedType { name: s("T") }.message(),
        "unsupported type T (types need to either be Into<JsValue> and From<JsValue> or [de]serializable with serde)"
    );
}

#[test]
fn empty_texts_are_kept_empty() {
    assert_eq!(Error::UnknownProcedure { name: String::new() }.message(), "unknown procedure ");
    assert_eq!(
        Error::CreationFailed { type_label: String::new(), error: String::new() }.message(),
        "failed to create : "
    );
}

#[test]
fn marshalling_errors_are_built_from_their_parts() {
    assert_eq!(
        decode_error("i32".to_string(), "payload is not a number"),
        Error::DeserializeFailed {
            type_label: "i32".to_string(),
            error: "payload is not a number".to_string(),
        }
    );
    assert_eq!(unsupported("T".to_string()), Error::UnsupportedType { name: "T".to_string() });
}
