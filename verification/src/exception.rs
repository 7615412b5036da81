//! The immutable exception value: a `(name, message)` record whose legacy
//! numeric code is derived on demand from the stored name text.

use vstd::prelude::*;
use crate::error_name::{DOMErrorName, code_of_name, default_message, label};

verus! {

/// The mathematical content of a `DOMException`: the character sequences of
/// its two stored fields.
pub struct DOMExceptionView {
    pub name: Seq<char>,
    pub message: Seq<char>,
}

/// An immutable error value carrying a text name and a descriptive message.
/// The name is stored as free text, never as a typed variant: it may hold a
/// label no registry entry matches, and the legacy numeric code is re-derived
/// from the text on every query. Neither field can change after construction.
pub struct DOMException {
    message: String,
    name: String,
}

impl View for DOMException {
    type V = DOMExceptionView;

    closed spec fn view(&self) -> DOMExceptionView {
        DOMExceptionView { name: self.name@, message: self.message@ }
    }
}

impl DOMException {
    /// The registry entry of a symbolic name: its canonical default message
    /// and its canonical text label.
    pub fn get_error_data_by_code(code: DOMErrorName) -> (r: (String, String))
        ensures
            r.0@ == default_message(code),
            r.1@ == label(code),
    {
        let (message, name): (&str, &str) = match code {
            DOMErrorName::IndexSize => (
                "The index is not in the allowed range.",
                "IndexSizeError",
            ),
            DOMErrorName::HierarchyRequest => (
                "The operation would yield an incorrect node tree.",
                "HierarchyRequestError",
            ),
            DOMErrorName::WrongDocument => (
                "The object is in the wrong document.",
                "WrongDocumentError",
            ),
            DOMErrorName::InvalidCharacter => (
                "The string contains invalid characters.",
                "InvalidCharacterError",
            ),
            DOMErrorName::NoModificationAllowed => (
                "The object can not be modified.",
                "NoModificationAllowedError",
            ),
            DOMErrorName::NotFound => (
                "The object can not be found here.",
                "NotFoundError",
            ),
            DOMErrorName::NotSupported => (
                "The operation is not supported.",
                "NotSupportedError",
            ),
            DOMErrorName::InUseAttribute => (
                "The attribute already in use.",
                "InUseAttributeError",
            ),
            DOMErrorName::InvalidState => (
                "The object is in an invalid state.",
                "InvalidStateError",
            ),
            DOMErrorName::Syntax => (
                "The string did not match the expected pattern.",
                "SyntaxError",
            ),
            DOMErrorName::InvalidModification => (
                "The object can not be modified in this way.",
                "InvalidModificationError",
            ),
            DOMErrorName::Namespace => (
                "The operation is not allowed by Namespaces in XML.",
                "NamespaceError",
            ),
            DOMErrorName::InvalidAccess => (
                "The object does not support the operation or argument.",
                "InvalidAccessError",
            ),
            DOMErrorName::Security => (
                "The operation is insecure.",
                "SecurityError",
            ),
            DOMErrorName::Network => (
                "A network error occurred.",
                "NetworkError",
            ),
            DOMErrorName::Abort => (
                "The operation was aborted.",
                "AbortError",
            ),
            DOMErrorName::TypeMismatch => (
                "The given type does not match any expected type.",
                "TypeMismatchError",
            ),
            DOMErrorName::URLMismatch => (
                "The given URL does not match another URL.",
                "URLMismatchError",
            ),
            DOMErrorName::QuotaExceeded => (
                "The quota has been exceeded.",
                "QuotaExceededError",
            ),
            DOMErrorName::Timeout => (
                "The operation timed out.",
                "TimeoutError",
            ),
            DOMErrorName::InvalidNodeType => (
                "The supplied node is incorrect or has an incorrect ancestor for this operation.",
                "InvalidNodeTypeError",
            ),
            DOMErrorName::DataClone => (
                "The object can not be cloned.",
                "DataCloneError",
            ),
            DOMErrorName::NotReadable => (
                "The I/O read operation failed.",
                "NotReadableError",
            ),
            DOMErrorName::Operation => (
                "The operation failed for an operation-specific reason.",
                "OperationError",
            ),
        };
        (String::from_str(message), String::from_str(name))
    }

    fn new_inherited(message_: String, name_: String) -> (r: DOMException)
        ensures
            r@.message == message_@,
            r@.name == name_@,
    {
        DOMException { message: message_, name: name_ }
    }

    /// Builds the value raised for a symbolic error name: the canonical
    /// label becomes the stored name and the canonical default message
    /// becomes the stored message.
    pub fn new(code: DOMErrorName) -> (r: DOMException)
        ensures
            r@.name == label(code),
            r@.message == default_message(code),
    {
        let (message, name) = DOMException::get_error_data_by_code(code);
        DOMException::new_inherited(message, name)
    }

    /// Builds a value from caller-supplied text, stored verbatim and
    /// unvalidated: the name need not match any recognized label, and an
    /// unrecognized one simply yields the sentinel code 0.
    #[allow(non_snake_case)]
    pub fn Constructor(message: String, name: String) -> (r: DOMException)
        ensures
            r@.message == message@,
            r@.name == name@,
    {
        DOMException::new_inherited(message, name)
    }

    /// Renders the value as `name: message` for diagnostic display.
    pub fn stringifier(&self) -> (r: String)
        ensures
            r@ == self@.name + ": "@ + self@.message,
    {
        let mut r = self.name.clone();
        r.append(": ");
        r.append(self.message.as_str());
        r
    }

    /// The legacy numeric code: derived purely from the stored name text,
    /// never from how the value was constructed. The stored text must parse
    /// to a recognized variant and that variant must lie within the frozen
    /// prefix; every other name yields the sentinel 0.
    #[allow(non_snake_case)]
    pub fn Code(&self) -> (c: u16)
        ensures
            c == code_of_name(self@.name),
    {
        match DOMErrorName::from(self.name.as_str()) {
            Some(code) => code.code_value(),
            None => 0,
        }
    }

    /// The stored name text, verbatim.
    #[allow(non_snake_case)]
    pub fn Name(&self) -> (r: String)
        ensures
            r@ == self@.name,
    {
        self.name.clone()
    }

    /// The stored message text, verbatim.
    #[allow(non_snake_case)]
    pub fn Message(&self) -> (r: String)
        ensures
            r@ == self@.message,
    {
        self.message.clone()
    }
}

impl Default for DOMException {
    /// The default-constructed value: the unrecognized name `Error` with an
    /// empty message, so its legacy code is the sentinel 0.
    fn default() -> (r: DOMException)
        ensures
            r@.name == "Error"@,
            r@.message == Seq::<char>::empty(),
    {
        DOMException::Constructor(String::new(), String::from_str("Error"))
    }
}

} // verus!
