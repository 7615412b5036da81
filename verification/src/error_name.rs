//! The closed enumeration of recognized error names, the registry mapping
//! each name to its canonical text label, and the frozen prefix of legacy
//! numeric codes.

use vstd::prelude::*;
use crate::strcmp::str_eq;

verus! {

/// The closed set of symbolic error names. The variants are listed in
/// definition order; that order is fixed forever, because the position of a
/// variant doubles as its legacy numeric code for every variant up to and
/// including `DataClone` (the frozen prefix). Variants after `DataClone`
/// were added after the legacy code space was frozen and never receive a
/// code of their own.
#[derive(Clone, Copy, Debug, PartialEq, Eq, Structural)]
pub enum DOMErrorName {
    IndexSize,
    HierarchyRequest,
    WrongDocument,
    InvalidCharacter,
    NoModificationAllowed,
    NotFound,
    NotSupported,
    InUseAttribute,
    InvalidState,
    Syntax,
    InvalidModification,
    Namespace,
    InvalidAccess,
    Security,
    Network,
    Abort,
    TypeMismatch,
    URLMismatch,
    QuotaExceeded,
    Timeout,
    InvalidNodeType,
    DataClone,
    NotReadable,
    Operation,
}

/// The 1-based position of a variant in definition order.
pub open spec fn ordinal(v: DOMErrorName) -> u16 {
    match v {
        DOMErrorName::IndexSize => 1,
        DOMErrorName::HierarchyRequest => 2,
        DOMErrorName::WrongDocument => 3,
        DOMErrorName::InvalidCharacter => 4,
        DOMErrorName::NoModificationAllowed => 5,
        DOMErrorName::NotFound => 6,
        DOMErrorName::NotSupported => 7,
        DOMErrorName::InUseAttribute => 8,
        DOMErrorName::InvalidState => 9,
        DOMErrorName::Syntax => 10,
        DOMErrorName::InvalidModification => 11,
        DOMErrorName::Namespace => 12,
        DOMErrorName::InvalidAccess => 13,
        DOMErrorName::Security => 14,
        DOMErrorName::Network => 15,
        DOMErrorName::Abort => 16,
        DOMErrorName::TypeMismatch => 17,
        DOMErrorName::URLMismatch => 18,
        DOMErrorName::QuotaExceeded => 19,
        DOMErrorName::Timeout => 20,
        DOMErrorName::InvalidNodeType => 21,
        DOMErrorName::DataClone => 22,
        DOMErrorName::NotReadable => 23,
        DOMErrorName::Operation => 24,
    }
}

/// Whether a variant lies in the historically frozen prefix: the variants
/// from the first through `DataClone`, the only ones that carry a legacy
/// numeric code.
pub open spec fn in_frozen_prefix(v: DOMErrorName) -> bool {
    ordinal(v) <= ordinal(DOMErrorName::DataClone)
}

/// The legacy numeric code of a variant: its ordinal within the frozen
/// prefix, and the sentinel 0 for every variant added after the freeze.
pub open spec fn legacy_code(v: DOMErrorName) -> u16 {
    if in_frozen_prefix(v) {
        ordinal(v)
    } else {
        0
    }
}

/// The canonical text label of a variant: the variant's name with the
/// `Error` suffix, exactly as external callers spell it.
pub open spec fn label(v: DOMErrorName) -> Seq<char> {
    match v {
        DOMErrorName::IndexSize => "IndexSizeError"@,
        DOMErrorName::HierarchyRequest => "HierarchyRequestError"@,
        DOMErrorName::WrongDocument => "WrongDocumentError"@,
        DOMErrorName::InvalidCharacter => "InvalidCharacterError"@,
        DOMErrorName::NoModificationAllowed => "NoModificationAllowedError"@,
        DOMErrorName::NotFound => "NotFoundError"@,
        DOMErrorName::NotSupported => "NotSupportedError"@,
        DOMErrorName::InUseAttribute => "InUseAttributeError"@,
        DOMErrorName::InvalidState => "InvalidStateError"@,
        DOMErrorName::Syntax => "SyntaxError"@,
        DOMErrorName::InvalidModification => "InvalidModificationError"@,
        DOMErrorName::Namespace => "NamespaceError"@,
        DOMErrorName::InvalidAccess => "InvalidAccessError"@,
        DOMErrorName::Security => "SecurityError"@,
        DOMErrorName::Network => "NetworkError"@,
        DOMErrorName::Abort => "AbortError"@,
        DOMErrorName::TypeMismatch => "TypeMismatchError"@,
        DOMErrorName::URLMismatch => "URLMismatchError"@,
        DOMErrorName::QuotaExceeded => "QuotaExceededError"@,
        DOMErrorName::Timeout => "TimeoutError"@,
        DOMErrorName::InvalidNodeType => "InvalidNodeTypeError"@,
        DOMErrorName::DataClone => "DataCloneError"@,
        DOMErrorName::NotReadable => "NotReadableError"@,
        DOMErrorName::Operation => "OperationError"@,
    }
}

/// The canonical default message of a variant, supplied when a value is
/// raised from a symbolic name rather than from caller-chosen text.
pub open spec fn default_message(v: DOMErrorName) -> Seq<char> {
    match v {
        DOMErrorName::IndexSize => "The index is not in the allowed range."@,
        DOMErrorName::HierarchyRequest => "The operation would yield an incorrect node tree."@,
        DOMErrorName::WrongDocument => "The object is in the wrong document."@,
        DOMErrorName::InvalidCharacter => "The string contains invalid characters."@,
        DOMErrorName::NoModificationAllowed => "The object can not be modified."@,
        DOMErrorName::NotFound => "The object can not be found here."@,
        DOMErrorName::NotSupported => "The operation is not supported."@,
        DOMErrorName::InUseAttribute => "The attribute already in use."@,
        DOMErrorName::InvalidState => "The object is in an invalid state."@,
        DOMErrorName::Syntax => "The string did not match the expected pattern."@,
        DOMErrorName::InvalidModification => "The object can not be modified in this way."@,
        DOMErrorName::Namespace => "The operation is not allowed by Namespaces in XML."@,
        DOMErrorName::InvalidAccess => "The object does not support the operation or argument."@,
        DOMErrorName::Security => "The operation is insecure."@,
        DOMErrorName::Network => "A network error occurred."@,
        DOMErrorName::Abort => "The operation was aborted."@,
        DOMErrorName::TypeMismatch => "The given type does not match any expected type."@,
        DOMErrorName::URLMismatch => "The given URL does not match another URL."@,
        DOMErrorName::QuotaExceeded => "The quota has been exceeded."@,
        DOMErrorName::Timeout => "The operation timed out."@,
        DOMErrorName::InvalidNodeType => "The supplied node is incorrect or has an incorrect ancestor for this operation."@,
        DOMErrorName::DataClone => "The object can not be cloned."@,
        DOMErrorName::NotReadable => "The I/O read operation failed."@,
        DOMErrorName::Operation => "The operation failed for an operation-specific reason."@,
    }
}

/// Reverse lookup from a text label to the variant it names: an exact match
/// against the fixed table of canonical labels, with no normalization and no
/// fuzzy matching. Anything else, including case variants, the empty string,
/// and labels without the `Error` suffix, parses to `None`.
pub open spec fn parse_label(s: Seq<char>) -> Option<DOMErrorName> {
    if s == "IndexSizeError"@ {
        Some(DOMErrorName::IndexSize)
    } else if s == "HierarchyRequestError"@ {
        Some(DOMErrorName::HierarchyRequest)
    } else if s == "WrongDocumentError"@ {
        Some(DOMErrorName::WrongDocument)
    } else if s == "InvalidCharacterError"@ {
        Some(DOMErrorName::InvalidCharacter)
    } else if s == "NoModificationAllowedError"@ {
        Some(DOMErrorName::NoModificationAllowed)
    } else if s == "NotFoundError"@ {
        Some(DOMErrorName::NotFound)
    } else if s == "NotSupportedError"@ {
        Some(DOMErrorName::NotSupported)
    } else if s == "InUseAttributeError"@ {
        Some(DOMErrorName::InUseAttribute)
    } else if s == "InvalidStateError"@ {
        Some(DOMErrorName::InvalidState)
    } else if s == "SyntaxError"@ {
        Some(DOMErrorName::Syntax)
    } else if s == "InvalidModificationError"@ {
        Some(DOMErrorName::InvalidModification)
    } else if s == "NamespaceError"@ {
        Some(DOMErrorName::Namespace)
    } else if s == "InvalidAccessError"@ {
        Some(DOMErrorName::InvalidAccess)
    } else if s == "SecurityError"@ {
        Some(DOMErrorName::Security)
    } else if s == "NetworkError"@ {
        Some(DOMErrorName::Network)
    } else if s == "AbortError"@ {
        Some(DOMErrorName::Abort)
    } else if s == "TypeMismatchError"@ {
        Some(DOMErrorName::TypeMismatch)
    } else if s == "URLMismatchError"@ {
        Some(DOMErrorName::URLMismatch)
    } else if s == "QuotaExceededError"@ {
        Some(DOMErrorName::QuotaExceeded)
    } else if s == "TimeoutError"@ {
        Some(DOMErrorName::Timeout)
    } else if s == "InvalidNodeTypeError"@ {
        Some(DOMErrorName::InvalidNodeType)
    } else if s == "DataCloneError"@ {
        Some(DOMErrorName::DataClone)
    } else if s == "NotReadableError"@ {
        Some(DOMErrorName::NotReadable)
    } else if s == "OperationError"@ {
        Some(DOMErrorName::Operation)
    } else {
        None
    }
}

/// The legacy numeric code carried by a piece of free name text: the code of
/// the variant the text parses to, provided that variant lies in the frozen
/// prefix; the sentinel 0 for a recognized name outside the prefix and for
/// unrecognized text alike.
pub open spec fn code_of_name(name: Seq<char>) -> u16 {
    match parse_label(name) {
        Some(v) => if in_frozen_prefix(v) {
            ordinal(v)
        } else {
            0
        },
        None => 0,
    }
}

/// Round trip: every variant's canonical label parses back to exactly that
/// variant, so the rendered label and the symbolic name can never drift
/// apart.
pub proof fn lemma_parse_label_round_trip(v: DOMErrorName)
    ensures
        parse_label(label(v)) == Some(v),
{
    reveal_strlit("IndexSizeError");
    reveal_strlit("HierarchyRequestError");
    reveal_strlit("WrongDocumentError");
    reveal_strlit("InvalidCharacterError");
    reveal_strlit("NoModificationAllowedError");
    reveal_strlit("NotFoundError");
    reveal_strlit("NotSupportedError");
    reveal_strlit("InUseAttributeError");
    reveal_strlit("InvalidStateError");
    reveal_strlit("SyntaxError");
    reveal_strlit("InvalidModificationError");
    reveal_strlit("NamespaceError");
    reveal_strlit("InvalidAccessError");
    reveal_strlit("SecurityError");
    reveal_strlit("NetworkError");
    reveal_strlit("AbortError");
    reveal_strlit("TypeMismatchError");
    reveal_strlit("URLMismatchError");
    reveal_strlit("QuotaExceededError");
    reveal_strlit("TimeoutError");
    reveal_strlit("InvalidNodeTypeError");
    reveal_strlit("DataCloneError");
    reveal_strlit("NotReadableError");
    reveal_strlit("OperationError");
    assert(("IndexSizeError"@).len() == 14 && ("IndexSizeError"@)[0] == 'I');
    assert(("HierarchyRequestError"@).len() == 21 && ("HierarchyRequestError"@)[0] == 'H');
    assert(("WrongDocumentError"@).len() == 18 && ("WrongDocumentError"@)[0] == 'W');
    assert(("InvalidCharacterError"@).len() == 21 && ("InvalidCharacterError"@)[0] == 'I');
    assert(("NoModificationAllowedError"@).len() == 26 && ("NoModificationAllowedError"@)[0] == 'N');
    assert(("NotFoundError"@).len() == 13 && ("NotFoundError"@)[0] == 'N');
    assert(("NotSupportedError"@).len() == 17 && ("NotSupportedError"@)[0] == 'N');
    assert(("InUseAttributeError"@).len() == 19 && ("InUseAttributeError"@)[0] == 'I');
    assert(("InvalidStateError"@).len() == 17 && ("InvalidStateError"@)[0] == 'I');
    assert(("SyntaxError"@).len() == 11 && ("SyntaxError"@)[0] == 'S');
    assert(("InvalidModificationError"@).len() == 24 && ("InvalidModificationError"@)[0] == 'I');
    assert(("NamespaceError"@).len() == 14 && ("NamespaceError"@)[0] == 'N');
    assert(("InvalidAccessError"@).len() == 18 && ("InvalidAccessError"@)[0] == 'I');
    assert(("SecurityError"@).len() == 13 && ("SecurityError"@)[0] == 'S');
    assert(("NetworkError"@).len() == 12 && ("NetworkError"@)[0] == 'N');
    assert(("AbortError"@).len() == 10 && ("AbortError"@)[0] == 'A');
    assert(("TypeMismatchError"@).len() == 17 && ("TypeMismatchError"@)[0] == 'T');
    assert(("URLMismatchError"@).len() == 16 && ("URLMismatchError"@)[0] == 'U');
    assert(("QuotaExceededError"@).len() == 18 && ("QuotaExceededError"@)[0] == 'Q');
    assert(("TimeoutError"@).len() == 12 && ("TimeoutError"@)[0] == 'T');
    assert(("InvalidNodeTypeError"@).len() == 20 && ("InvalidNodeTypeError"@)[0] == 'I');
    assert(("DataCloneError"@).len() == 14 && ("DataCloneError"@)[0] == 'D');
    assert(("NotReadableError"@).len() == 16 && ("NotReadableError"@)[0] == 'N');
    assert(("OperationError"@).len() == 14 && ("OperationError"@)[0] == 'O');
}

/// The code carried by a variant's canonical label: within the frozen
/// prefix it is the variant's fixed positive code, and for every variant
/// after the freeze it is the sentinel 0, even though the label is a
/// legitimate, recognized name.
pub proof fn lemma_code_of_label(v: DOMErrorName)
    ensures
        code_of_name(label(v)) == legacy_code(v),
        in_frozen_prefix(v) ==> 1 <= code_of_name(label(v)) <= ordinal(DOMErrorName::DataClone),
        !in_frozen_prefix(v) ==> code_of_name(label(v)) == 0,
{
    lemma_parse_label_round_trip(v);
}

/// Within the frozen prefix the legacy codes are strictly increasing in
/// definition order, so no two variants repeat a code and no code is ever
/// renumbered by reordering.
pub proof fn lemma_frozen_codes_strictly_increasing(u: DOMErrorName, w: DOMErrorName)
    requires
        in_frozen_prefix(u),
        in_frozen_prefix(w),
        ordinal(u) < ordinal(w),
    ensures
        legacy_code(u) < legacy_code(w),
{
}

/// Within the frozen prefix the legacy codes leave no gaps: every value
/// from 1 through the boundary variant's code is the code of some variant.
pub proof fn lemma_frozen_codes_no_gaps(c: u16)
    requires
        1 <= c <= ordinal(DOMErrorName::DataClone),
    ensures
        exists|v: DOMErrorName| in_frozen_prefix(v) && legacy_code(v) == c,
{
    if c == 1 {
        assert(in_frozen_prefix(DOMErrorName::IndexSize) && legacy_code(DOMErrorName::IndexSize) == c);
    } else if c == 2 {
        assert(in_frozen_prefix(DOMErrorName::HierarchyRequest) && legacy_code(DOMErrorName::HierarchyRequest) == c);
    } else if c == 3 {
        assert(in_frozen_prefix(DOMErrorName::WrongDocument) && legacy_code(DOMErrorName::WrongDocument) == c);
    } else if c == 4 {
        assert(in_frozen_prefix(DOMErrorName::InvalidCharacter) && legacy_code(DOMErrorName::InvalidCharacter) == c);
    } else if c == 5 {
        assert(in_frozen_prefix(DOMErrorName::NoModificationAllowed) && legacy_code(DOMErrorName::NoModificationAllowed) == c);
    } else if c == 6 {
        assert(in_frozen_prefix(DOMErrorName::NotFound) && legacy_code(DOMErrorName::NotFound) == c);
    } else if c == 7 {
        assert(in_frozen_prefix(DOMErrorName::NotSupported) && legacy_code(DOMErrorName::NotSupported) == c);
    } else if c == 8 {
        assert(in_frozen_prefix(DOMErrorName::InUseAttribute) && legacy_code(DOMErrorName::InUseAttribute) == c);
    } else if c == 9 {
        assert(in_frozen_prefix(DOMErrorName::InvalidState) && legacy_code(DOMErrorName::InvalidState) == c);
    } else if c == 10 {
        assert(in_frozen_prefix(DOMErrorName::Syntax) && legacy_code(DOMErrorName::Syntax) == c);
    } else if c == 11 {
        assert(in_frozen_prefix(DOMErrorName::InvalidModification) && legacy_code(DOMErrorName::InvalidModification) == c);
    } else if c == 12 {
        assert(in_frozen_prefix(DOMErrorName::Namespace) && legacy_code(DOMErrorName::Namespace) == c);
    } else if c == 13 {
        assert(in_frozen_prefix(DOMErrorName::InvalidAccess) && legacy_code(DOMErrorName::InvalidAccess) == c);
    } else if c == 14 {
        assert(in_frozen_prefix(DOMErrorName::Security) && legacy_code(DOMErrorName::Security) == c);
    } else if c == 15 {
        assert(in_frozen_prefix(DOMErrorName::Network) && legacy_code(DOMErrorName::Network) == c);
    } else if c == 16 {
        assert(in_frozen_prefix(DOMErrorName::Abort) && legacy_code(DOMErrorName::Abort) == c);
    } else if c == 17 {
        assert(in_frozen_prefix(DOMErrorName::TypeMismatch) && legacy_code(DOMErrorName::TypeMismatch) == c);
    } else if c == 18 {
        assert(in_frozen_prefix(DOMErrorName::URLMismatch) && legacy_code(DOMErrorName::URLMismatch) == c);
    } else if c == 19 {
        assert(in_frozen_prefix(DOMErrorName::QuotaExceeded) && legacy_code(DOMErrorName::QuotaExceeded) == c);
    } else if c == 20 {
        assert(in_frozen_prefix(DOMErrorName::Timeout) && legacy_code(DOMErrorName::Timeout) == c);
    } else if c == 21 {
        assert(in_frozen_prefix(DOMErrorName::InvalidNodeType) && legacy_code(DOMErrorName::InvalidNodeType) == c);
    } else {
        assert(in_frozen_prefix(DOMErrorName::DataClone) && legacy_code(DOMErrorName::DataClone) == c);
    }
}

impl DOMErrorName {
    /// Parses a text label against the fixed table of canonical labels.
    pub fn from(s: &str) -> (r: Option<DOMErrorName>)
        ensures
            r == parse_label(s@),
    {
        if str_eq(s, "IndexSizeError") {
            Some(DOMErrorName::IndexSize)
        } else if str_eq(s, "HierarchyRequestError") {
            Some(DOMErrorName::HierarchyRequest)
        } else if str_eq(s, "WrongDocumentError") {
            Some(DOMErrorName::WrongDocument)
        } else if str_eq(s, "InvalidCharacterError") {
            Some(DOMErrorName::InvalidCharacter)
        } else if str_eq(s, "NoModificationAllowedError") {
            Some(DOMErrorName::NoModificationAllowed)
        } else if str_eq(s, "NotFoundError") {
            Some(DOMErrorName::NotFound)
        } else if str_eq(s, "NotSupportedError") {
            Some(DOMErrorName::NotSupported)
        } else if str_eq(s, "InUseAttributeError") {
            Some(DOMErrorName::InUseAttribute)
        } else if str_eq(s, "InvalidStateError") {
            Some(DOMErrorName::InvalidState)
        } else if str_eq(s, "SyntaxError") {
            Some(DOMErrorName::Syntax)
        } else if str_eq(s, "InvalidModificationError") {
            Some(DOMErrorName::InvalidModification)
        } else if str_eq(s, "NamespaceError") {
            Some(DOMErrorName::Namespace)
        } else if str_eq(s, "InvalidAccessError") {
            Some(DOMErrorName::InvalidAccess)
        } else if str_eq(s, "SecurityError") {
            Some(DOMErrorName::Security)
        } else if str_eq(s, "NetworkError") {
            Some(DOMErrorName::Network)
        } else if str_eq(s, "AbortError") {
            Some(DOMErrorName::Abort)
        } else if str_eq(s, "TypeMismatchError") {
            Some(DOMErrorName::TypeMismatch)
        } else if str_eq(s, "URLMismatchError") {
            Some(DOMErrorName::URLMismatch)
        } else if str_eq(s, "QuotaExceededError") {
            Some(DOMErrorName::QuotaExceeded)
        } else if str_eq(s, "TimeoutError") {
            Some(DOMErrorName::Timeout)
        } else if str_eq(s, "InvalidNodeTypeError") {
            Some(DOMErrorName::InvalidNodeType)
        } else if str_eq(s, "DataCloneError") {
            Some(DOMErrorName::DataClone)
        } else if str_eq(s, "NotReadableError") {
            Some(DOMErrorName::NotReadable)
        } else if str_eq(s, "OperationError") {
            Some(DOMErrorName::Operation)
        } else {
            None
        }
    }

    /// The legacy numeric code of this variant: its position in definition
    /// order within the frozen prefix, or the sentinel 0 after the freeze.
    pub fn code_value(self) -> (c: u16)
        ensures
            c == legacy_code(self),
    {
        match self {
            DOMErrorName::IndexSize => 1,
            DOMErrorName::HierarchyRequest => 2,
            DOMErrorName::WrongDocument => 3,
            DOMErrorName::InvalidCharacter => 4,
            DOMErrorName::NoModificationAllowed => 5,
            DOMErrorName::NotFound => 6,
            DOMErrorName::NotSupported => 7,
            DOMErrorName::InUseAttribute => 8,
            DOMErrorName::InvalidState => 9,
            DOMErrorName::Syntax => 10,
            DOMErrorName::InvalidModification => 11,
            DOMErrorName::Namespace => 12,
            DOMErrorName::InvalidAccess => 13,
            DOMErrorName::Security => 14,
            DOMErrorName::Network => 15,
            DOMErrorName::Abort => 16,
            DOMErrorName::TypeMismatch => 17,
            DOMErrorName::URLMismatch => 18,
            DOMErrorName::QuotaExceeded => 19,
            DOMErrorName::Timeout => 20,
            DOMErrorName::InvalidNodeType => 21,
            DOMErrorName::DataClone => 22,
            DOMErrorName::NotReadable => 0,
            DOMErrorName::Operation => 0,
        }
    }
}

} // verus!
