use vstd::prelude::*;

verus! {

/// What an `Error` says, with each text as a sequence of characters.
pub enum ErrorView {
    CallbackFailed { error: Seq<char> },
    ClientUnavailable,
    CreationFailed { type_label: Seq<char>, error: Seq<char> },
    DeserializeFailed { type_label: Seq<char>, error: Seq<char> },
    PostFailed { error: Seq<char> },
    ReceiveFailed { error: Seq<char> },
    SerializeFailed { type_label: Seq<char>, error: Seq<char> },
    UnknownProcedure { name: Seq<char> },
    UnsupportedType { name: Seq<char> },
}

/// Everything that can go wrong while a call is marshalled, sent, received or
/// dispatched.
#[derive(Debug, PartialEq, Eq)]
pub enum Error {
    /// A callback has neither a local function nor a remote conduit to call.
    CallbackFailed { error: String },
    /// The state of a client or server was already in use.
    ClientUnavailable,
    /// A channel or another resource could not be set up.
    CreationFailed { type_label: String, error: String },
    /// A payload does not hold a value of the type asked for.
    DeserializeFailed { type_label: String, error: String },
    /// The channel refused a message.
    PostFailed { error: String },
    /// The channel failed while a reply was awaited.
    ReceiveFailed { error: String },
    /// A value could not be turned into a payload.
    SerializeFailed { type_label: String, error: String },
    /// No operation of that name is registered.
    UnknownProcedure { name: String },
    /// The type has neither a native nor a structural encoding.
    UnsupportedType { name: String },
}

impl View for Error {
    type V = ErrorView;

    open spec fn view(&self) -> ErrorView {
        match self {
            Error::CallbackFailed { error } => ErrorView::CallbackFailed { error: error@ },
            Error::ClientUnavailable => ErrorView::ClientUnavailable,
            Error::CreationFailed { type_label, error } => ErrorView::CreationFailed {
                type_label: type_label@,
                error: error@,
            },
            Error::DeserializeFailed { type_label, error } => ErrorView::DeserializeFailed {
                type_label: type_label@,
                error: error@,
            },
            Error::PostFailed { error } => ErrorView::PostFailed { error: error@ },
            Error::ReceiveFailed { error } => ErrorView::ReceiveFailed { error: error@ },
            Error::SerializeFailed { type_label, error } => ErrorView::SerializeFailed {
                type_label: type_label@,
                error: error@,
            },
            Error::UnknownProcedure { name } => ErrorView::UnknownProcedure { name: name@ },
            Error::UnsupportedType { name } => ErrorView::UnsupportedType { name: name@ },
        }
    }
}

/// The sentence that describes an error, as a sequence of characters.
pub open spec fn describe(e: ErrorView) -> Seq<char> {
    match e {
        ErrorView::CallbackFailed { error } => "callback failed"@,
        ErrorView::ClientUnavailable => "client unavailable"@,
        ErrorView::CreationFailed { type_label, error } => "failed to create "@ + type_label
            + ": "@ + error,
        ErrorView::DeserializeFailed { type_label, error } => "failed to deserialize type "@
            + type_label + ": "@ + error,
        ErrorView::PostFailed { error } => "failed to post message: "@ + error,
        ErrorView::ReceiveFailed { error } => "failed to receive message: "@ + error,
        ErrorView::SerializeFailed { type_label, error } => "failed to serialize type "@
            + type_label + ": "@ + error,
        ErrorView::UnknownProcedure { name } => "unknown procedure "@ + name,
        ErrorView::UnsupportedType { name } => "unsupported type "@ + name
            + " (types need to either be Into<JsValue> and From<JsValue> or [de]serializable with serde)"@,
    }
}

/// `head` and then `tail`, in one string.
fn join(head: &str, tail: &String) -> (text: String)
    ensures
        text@ == head@ + tail@,
{
    let mut text = head.to_owned();
    text.append(tail.as_str());
    text
}

/// `head`, `label`, a colon and `detail`, in one string.
fn join_labelled(head: &str, label: &String, detail: &String) -> (text: String)
    ensures
        text@ == head@ + label@ + ": "@ + detail@,
{
    let mut text = join(head, label);
    text.append(": ");
    text.append(detail.as_str());
    text
}

impl Error {
    /// The sentence that describes this error.
    pub fn message(&self) -> (text: String)
        ensures
            text@ == describe(self@),
    {
        match self {
            Error::CallbackFailed { error } => "callback failed".to_owned(),
            Error::ClientUnavailable => "client unavailable".to_owned(),
            Error::CreationFailed { type_label, error } => join_labelled(
                "failed to create ",
                type_label,
                error,
            ),
            Error::DeserializeFailed { type_label, error } => join_labelled(
                "failed to deserialize type ",
                type_label,
                error,
            ),
            Error::PostFailed { error } => join("failed to post message: ", error),
            Error::ReceiveFailed { error } => join("failed to receive message: ", error),
            Error::SerializeFailed { type_label, error } => join_labelled(
                "failed to serialize type ",
                type_label,
                error,
            ),
            Error::UnknownProcedure { name } => join("unknown procedure ", name),
            Error::UnsupportedType { name } => {
                let mut text = join("unsupported type ", name);
                text.append(" (types need to either be Into<JsValue> and From<JsValue> or [de]serializable with serde)");
                text
            },
        }
    }
}

} // verus!
