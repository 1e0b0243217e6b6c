//! The request and response vocabulary of the line protocol, and its codec
//! to and from the JSON value model. A message is an object whose `type`
//! entry names the operation and whose `data` entry holds its fields.
use crate::json::{field_of, find_field, JsonValue};
use crate::text::str_eq;
use vstd::prelude::*;

verus! {

/// One operation asked of the daemon.
#[derive(Debug, Clone, PartialEq)]
pub enum Request {
    Type { text: String },
    TypeSecure { text: String },
    Click { x: i32, y: i32 },
    Focus { element_id: String },
    ListDesktops,
    ClipboardGet,
    ClipboardSet { content: String },
    ClipboardHistory { limit: Option<usize> },
    GetTaskHistory { limit: Option<usize> },
    FindElement { name: Option<String>, role: Option<String> },
    ClickElement { name: String, button: Option<String> },
    DoubleClickElement { name: String },
    TypeIntoElement { name: String, text: String, secure: Option<bool> },
    FocusElement { name: String },
    GetFocusedElement,
    KeyPress { key: String },
    KeyCombo { combo: String },
    KeySequence { keys: Vec<String> },
    ClickAt { x: i32, y: i32, button: Option<String> },
    Drag { from_x: i32, from_y: i32, to_x: i32, to_y: i32 },
    Screenshot { region: Option<String>, include_cursor: Option<bool> },
    DetectCompositor,
    GetCapabilities,
}

/// The operation a request names, without its fields.
#[derive(Debug, Clone, Copy, PartialEq, Eq, Structural)]
pub enum RequestKind {
    Type,
    TypeSecure,
    Click,
    Focus,
    ListDesktops,
    ClipboardGet,
    ClipboardSet,
    ClipboardHistory,
    GetTaskHistory,
    FindElement,
    ClickElement,
    DoubleClickElement,
    TypeIntoElement,
    FocusElement,
    GetFocusedElement,
    KeyPress,
    KeyCombo,
    KeySequence,
    ClickAt,
    Drag,
    Screenshot,
    DetectCompositor,
    GetCapabilities,
}

/// Why a line could not be read as a request.
#[derive(Debug, Clone, Copy, PartialEq, Eq, Structural)]
pub enum ProtocolError {
    /// The message is not a JSON object.
    NotAnObject,
    /// The object has no string `type` entry.
    MissingTag,
    /// The `type` entry names no known operation.
    UnknownTag,
    /// The `data` entry is missing, or lacks or mistypes a field the operation needs.
    InvalidData,
}

/// The kind of a request.
pub open spec fn kind_of(q: Request) -> RequestKind {
    match q {
        Request::Type { .. } => RequestKind::Type,
        Request::TypeSecure { .. } => RequestKind::TypeSecure,
        Request::Click { .. } => RequestKind::Click,
        Request::Focus { .. } => RequestKind::Focus,
        Request::ListDesktops => RequestKind::ListDesktops,
        Request::ClipboardGet => RequestKind::ClipboardGet,
        Request::ClipboardSet { .. } => RequestKind::ClipboardSet,
        Request::ClipboardHistory { .. } => RequestKind::ClipboardHistory,
        Request::GetTaskHistory { .. } => RequestKind::GetTaskHistory,
        Request::FindElement { .. } => RequestKind::FindElement,
        Request::ClickElement { .. } => RequestKind::ClickElement,
        Request::DoubleClickElement { .. } => RequestKind::DoubleClickElement,
        Request::TypeIntoElement { .. } => RequestKind::TypeIntoElement,
        Request::FocusElement { .. } => RequestKind::FocusElement,
        Request::GetFocusedElement => RequestKind::GetFocusedElement,
        Request::KeyPress { .. } => RequestKind::KeyPress,
        Request::KeyCombo { .. } => RequestKind::KeyCombo,
        Request::KeySequence { .. } => RequestKind::KeySequence,
        Request::ClickAt { .. } => RequestKind::ClickAt,
        Request::Drag { .. } => RequestKind::Drag,
        Request::Screenshot { .. } => RequestKind::Screenshot,
        Request::DetectCompositor => RequestKind::DetectCompositor,
        Request::GetCapabilities => RequestKind::GetCapabilities,
    }
}

/// The wire name of a kind.
pub open spec fn kind_name(k: RequestKind) -> Seq<char> {
    match k {
        RequestKind::Type => "Type"@,
        RequestKind::TypeSecure => "TypeSecure"@,
        RequestKind::Click => "Click"@,
        RequestKind::Focus => "Focus"@,
        RequestKind::ListDesktops => "ListDesktops"@,
        RequestKind::ClipboardGet => "ClipboardGet"@,
        RequestKind::ClipboardSet => "ClipboardSet"@,
        RequestKind::ClipboardHistory => "ClipboardHistory"@,
        RequestKind::GetTaskHistory => "GetTaskHistory"@,
        RequestKind::FindElement => "FindElement"@,
        RequestKind::ClickElement => "ClickElement"@,
        RequestKind::DoubleClickElement => "DoubleClickElement"@,
        RequestKind::TypeIntoElement => "TypeIntoElement"@,
        RequestKind::FocusElement => "FocusElement"@,
        RequestKind::GetFocusedElement => "GetFocusedElement"@,
        RequestKind::KeyPress => "KeyPress"@,
        RequestKind::KeyCombo => "KeyCombo"@,
        RequestKind::KeySequence => "KeySequence"@,
        RequestKind::ClickAt => "ClickAt"@,
        RequestKind::Drag => "Drag"@,
        RequestKind::Screenshot => "Screenshot"@,
        RequestKind::DetectCompositor => "DetectCompositor"@,
        RequestKind::GetCapabilities => "GetCapabilities"@,
    }
}

/// The kind that a wire name denotes.
pub open spec fn kind_of_name(s: Seq<char>) -> Option<RequestKind> {
    if s == "Type"@ {
        Some(RequestKind::Type)
    } else if s == "TypeSecure"@ {
        Some(RequestKind::TypeSecure)
    } else if s == "Click"@ {
        Some(RequestKind::Click)
    } else if s == "Focus"@ {
        Some(RequestKind::Focus)
    } else if s == "ListDesktops"@ {
        Some(RequestKind::ListDesktops)
    } else if s == "ClipboardGet"@ {
        Some(RequestKind::ClipboardGet)
    } else if s == "ClipboardSet"@ {
        Some(RequestKind::ClipboardSet)
    } else if s == "ClipboardHistory"@ {
        Some(RequestKind::ClipboardHistory)
    } else if s == "GetTaskHistory"@ {
        Some(RequestKind::GetTaskHistory)
    } else if s == "FindElement"@ {
        Some(RequestKind::FindElement)
    } else if s == "ClickElement"@ {
        Some(RequestKind::ClickElement)
    } else if s == "DoubleClickElement"@ {
        Some(RequestKind::DoubleClickElement)
    } else if s == "TypeIntoElement"@ {
        Some(RequestKind::TypeIntoElement)
    } else if s == "FocusElement"@ {
        Some(RequestKind::FocusElement)
    } else if s == "GetFocusedElement"@ {
        Some(RequestKind::GetFocusedElement)
    } else if s == "KeyPress"@ {
        Some(RequestKind::KeyPress)
    } else if s == "KeyCombo"@ {
        Some(RequestKind::KeyCombo)
    } else if s == "KeySequence"@ {
        Some(RequestKind::KeySequence)
    } else if s == "ClickAt"@ {
        Some(RequestKind::ClickAt)
    } else if s == "Drag"@ {
        Some(RequestKind::Drag)
    } else if s == "Screenshot"@ {
        Some(RequestKind::Screenshot)
    } else if s == "DetectCompositor"@ {
        Some(RequestKind::DetectCompositor)
    } else if s == "GetCapabilities"@ {
        Some(RequestKind::GetCapabilities)
    } else {
        None
    }
}

/// Whether the kind carries a `data` object.
pub open spec fn has_data(k: RequestKind) -> bool {
    match k {
        RequestKind::ListDesktops | RequestKind::ClipboardGet | RequestKind::GetFocusedElement | RequestKind::DetectCompositor | RequestKind::GetCapabilities => false,
        _ => true,
    }
}

/// Entry `name` holds the string `s`.
pub open spec fn str_entry(d: Seq<(String, JsonValue)>, name: Seq<char>, s: String) -> bool {
    field_of(d, name) == Some(JsonValue::Str(s))
}

/// Entry `name` holds the integer `x`.
pub open spec fn i32_entry(d: Seq<(String, JsonValue)>, name: Seq<char>, x: i32) -> bool {
    field_of(d, name) == Some(JsonValue::Int(x as i128))
}

/// Entry `name` is missing or null.
pub open spec fn absent_entry(d: Seq<(String, JsonValue)>, name: Seq<char>) -> bool {
    field_of(d, name) is None || field_of(d, name) == Some(JsonValue::Null)
}

pub open spec fn opt_str_entry(d: Seq<(String, JsonValue)>, name: Seq<char>, o: Option<String>) -> bool {
    match o {
        Some(s) => str_entry(d, name, s),
        None => absent_entry(d, name),
    }
}

pub open spec fn opt_usize_entry(d: Seq<(String, JsonValue)>, name: Seq<char>, o: Option<usize>) -> bool {
    match o {
        Some(n) => field_of(d, name) == Some(JsonValue::Int(n as i128)),
        None => absent_entry(d, name),
    }
}

pub open spec fn opt_bool_entry(d: Seq<(String, JsonValue)>, name: Seq<char>, o: Option<bool>) -> bool {
    match o {
        Some(b) => field_of(d, name) == Some(JsonValue::Bool(b)),
        None => absent_entry(d, name),
    }
}

/// Entry `name` is an array of exactly the strings `keys`.
pub open spec fn strs_entry(d: Seq<(String, JsonValue)>, name: Seq<char>, keys: Seq<String>) -> bool {
    match field_of(d, name) {
        Some(JsonValue::Array(items)) => items@.len() == keys.len() && forall|i: int|
            0 <= i < keys.len() ==> #[trigger] items@[i] == JsonValue::Str(keys[i]),
        _ => false,
    }
}

/// The fields of `q` stand in the data object `d`.
pub open spec fn fields_ok(d: Seq<(String, JsonValue)>, q: Request) -> bool {
    match q {
        Request::Type { text } => str_entry(d, "text"@, text),
        Request::TypeSecure { text } => str_entry(d, "text"@, text),
        Request::Click { x, y } => i32_entry(d, "x"@, x) && i32_entry(d, "y"@, y),
        Request::Focus { element_id } => str_entry(d, "element_id"@, element_id),
        Request::ListDesktops => true,
        Request::ClipboardGet => true,
        Request::ClipboardSet { content } => str_entry(d, "content"@, content),
        Request::ClipboardHistory { limit } => opt_usize_entry(d, "limit"@, limit),
        Request::GetTaskHistory { limit } => opt_usize_entry(d, "limit"@, limit),
        Request::FindElement { name, role } => opt_str_entry(d, "name"@, name) && opt_str_entry(d, "role"@, role),
        Request::ClickElement { name, button } => str_entry(d, "name"@, name) && opt_str_entry(d, "button"@, button),
        Request::DoubleClickElement { name } => str_entry(d, "name"@, name),
        Request::TypeIntoElement { name, text, secure } => str_entry(d, "name"@, name) && str_entry(d, "text"@, text) && opt_bool_entry(d, "secure"@, secure),
        Request::FocusElement { name } => str_entry(d, "name"@, name),
        Request::GetFocusedElement => true,
        Request::KeyPress { key } => str_entry(d, "key"@, key),
        Request::KeyCombo { combo } => str_entry(d, "combo"@, combo),
        Request::KeySequence { keys } => strs_entry(d, "keys"@, keys@),
        Request::ClickAt { x, y, button } => i32_entry(d, "x"@, x) && i32_entry(d, "y"@, y) && opt_str_entry(d, "button"@, button),
        Request::Drag { from_x, from_y, to_x, to_y } => i32_entry(d, "from_x"@, from_x) && i32_entry(d, "from_y"@, from_y) && i32_entry(d, "to_x"@, to_x) && i32_entry(d, "to_y"@, to_y),
        Request::Screenshot { region, include_cursor } => opt_str_entry(d, "region"@, region) && opt_bool_entry(d, "include_cursor"@, include_cursor),
        Request::DetectCompositor => true,
        Request::GetCapabilities => true,
    }
}

/// The fields of the `data` entry, when it is an object.
pub open spec fn data_of(fs: Seq<(String, JsonValue)>) -> Option<Seq<(String, JsonValue)>> {
    match field_of(fs, "data"@) {
        Some(JsonValue::Object(d)) => Some(d@),
        _ => None,
    }
}

/// The kind named by the `type` entry of `v`, if `v` is an object with a string tag.
pub open spec fn tag_of(v: JsonValue) -> Option<Seq<char>> {
    match v {
        JsonValue::Object(fs) => match field_of(fs@, "type"@) {
            Some(JsonValue::Str(t)) => Some(t@),
            _ => None,
        },
        _ => None,
    }
}

/// `v` is a well-formed message for the request `q`.
pub open spec fn encodes(v: JsonValue, q: Request) -> bool {
    match v {
        JsonValue::Object(fs) => match field_of(fs@, "type"@) {
            Some(JsonValue::Str(t)) => kind_of_name(t@) == Some(kind_of(q)) && (has_data(kind_of(q))
                ==> match data_of(fs@) {
                Some(d) => fields_ok(d, q),
                None => false,
            }),
            _ => false,
        },
        _ => false,
    }
}

/// Two requests carry the same operation and the same field values.
pub open spec fn same_request(a: Request, b: Request) -> bool {
    match (a, b) {
        (Request::KeySequence { keys: ka }, Request::KeySequence { keys: kb }) => ka@ == kb@,
        _ => a == b,
    }
}

/// Each wire name denotes its own kind.
pub proof fn lemma_kind_name(k: RequestKind)
    ensures
        kind_of_name(kind_name(k)) == Some(k),
{
    reveal_strlit("Type");
    reveal_strlit("TypeSecure");
    reveal_strlit("Click");
    reveal_strlit("Focus");
    reveal_strlit("ListDesktops");
    reveal_strlit("ClipboardGet");
    reveal_strlit("ClipboardSet");
    reveal_strlit("ClipboardHistory");
    reveal_strlit("GetTaskHistory");
    reveal_strlit("FindElement");
    reveal_strlit("ClickElement");
    reveal_strlit("DoubleClickElement");
    reveal_strlit("TypeIntoElement");
    reveal_strlit("FocusElement");
    reveal_strlit("GetFocusedElement");
    reveal_strlit("KeyPress");
    reveal_strlit("KeyCombo");
    reveal_strlit("KeySequence");
    reveal_strlit("ClickAt");
    reveal_strlit("Drag");
    reveal_strlit("Screenshot");
    reveal_strlit("DetectCompositor");
    reveal_strlit("GetCapabilities");
    assert("Type"@.len() != "TypeSecure"@.len());
    assert("Type"@.len() != "Click"@.len());
    assert("Type"@.len() != "Focus"@.len());
    assert("Type"@.len() != "ListDesktops"@.len());
    assert("Type"@.len() != "ClipboardGet"@.len());
    assert("Type"@.len() != "ClipboardSet"@.len());
    assert("Type"@.len() != "ClipboardHistory"@.len());
    assert("Type"@.len() != "GetTaskHistory"@.len());
    assert("Type"@.len() != "FindElement"@.len());
    assert("Type"@.len() != "ClickElement"@.len());
    assert("Type"@.len() != "DoubleClickElement"@.len());
    assert("Type"@.len() != "TypeIntoElement"@.len());
    assert("Type"@.len() != "FocusElement"@.len());
    assert("Type"@.len() != "GetFocusedElement"@.len());
    assert("Type"@.len() != "KeyPress"@.len());
    assert("Type"@.len() != "KeyCombo"@.len());
    assert("Type"@.len() != "KeySequence"@.len());
    assert("Type"@.len() != "ClickAt"@.len());
    assert("Type"@[0] != "Drag"@[0]);
    assert("Type"@.len() != "Screenshot"@.len());
    assert("Type"@.len() != "DetectCompositor"@.len());
    assert("Type"@.len() != "GetCapabilities"@.len());
    assert("TypeSecure"@.len() != "Click"@.len());
    assert("TypeSecure"@.len() != "Focus"@.len());
    assert("TypeSecure"@.len() != "ListDesktops"@.len());
    assert("TypeSecure"@.len() != "ClipboardGet"@.len());
    assert("TypeSecure"@.len() != "ClipboardSet"@.len());
    assert("TypeSecure"@.len() != "ClipboardHistory"@.len());
    assert("TypeSecure"@.len() != "GetTaskHistory"@.len());
    assert("TypeSecure"@.len() != "FindElement"@.len());
    assert("TypeSecure"@.len() != "ClickElement"@.len());
    assert("TypeSecure"@.len() != "DoubleClickElement"@.len());
    assert("TypeSecure"@.len() != "TypeIntoElement"@.len());
    assert("TypeSecure"@.len() != "FocusElement"@.len());
    assert("TypeSecure"@.len() != "GetFocusedElement"@.len());
    assert("TypeSecure"@.len() != "KeyPress"@.len());
    assert("TypeSecure"@.len() != "KeyCombo"@.len());
    assert("TypeSecure"@.len() != "KeySequence"@.len());
    assert("TypeSecure"@.len() != "ClickAt"@.len());
    assert("TypeSecure"@.len() != "Drag"@.len());
    assert("TypeSecure"@[0] != "Screenshot"@[0]);
    assert("TypeSecure"@.len() != "DetectCompositor"@.len());
    assert("TypeSecure"@.len() != "GetCapabilities"@.len());
    assert("Click"@[0] != "Focus"@[0]);
    assert("Click"@.len() != "ListDesktops"@.len());
    assert("Click"@.len() != "ClipboardGet"@.len());
    assert("Click"@.len() != "ClipboardSet"@.len());
    assert("Click"@.len() != "ClipboardHistory"@.len());
    assert("Click"@.len() != "GetTaskHistory"@.len());
    assert("Click"@.len() != "FindElement"@.len());
    assert("Click"@.len() != "ClickElement"@.len());
    assert("Click"@.len() != "DoubleClickElement"@.len());
    assert("Click"@.len() != "TypeIntoElement"@.len());
    assert("Click"@.len() != "FocusElement"@.len());
    assert("Click"@.len() != "GetFocusedElement"@.len());
    assert("Click"@.len() != "KeyPress"@.len());
    assert("Click"@.len() != "KeyCombo"@.len());
    assert("Click"@.len() != "KeySequence"@.len());
    assert("Click"@.len() != "ClickAt"@.len());
    assert("Click"@.len() != "Drag"@.len());
    assert("Click"@.len() != "Screenshot"@.len());
    assert("Click"@.len() != "DetectCompositor"@.len());
    assert("Click"@.len() != "GetCapabilities"@.len());
    assert("Focus"@.len() != "ListDesktops"@.len());
    assert("Focus"@.len() != "ClipboardGet"@.len());
    assert("Focus"@.len() != "ClipboardSet"@.len());
    assert("Focus"@.len() != "ClipboardHistory"@.len());
    assert("Focus"@.len() != "GetTaskHistory"@.len());
    assert("Focus"@.len() != "FindElement"@.len());
    assert("Focus"@.len() != "ClickElement"@.len());
    assert("Focus"@.len() != "DoubleClickElement"@.len());
    assert("Focus"@.len() != "TypeIntoElement"@.len());
    assert("Focus"@.len() != "FocusElement"@.len());
    assert("Focus"@.len() != "GetFocusedElement"@.len());
    assert("Focus"@.len() != "KeyPress"@.len());
    assert("Focus"@.len() != "KeyCombo"@.len());
    assert("Focus"@.len() != "KeySequence"@.len());
    assert("Focus"@.len() != "ClickAt"@.len());
    assert("Focus"@.len() != "Drag"@.len());
    assert("Focus"@.len() != "Screenshot"@.len());
    assert("Focus"@.len() != "DetectCompositor"@.len());
    assert("Focus"@.len() != "GetCapabilities"@.len());
    assert("ListDesktops"@[0] != "ClipboardGet"@[0]);
    assert("ListDesktops"@[0] != "ClipboardSet"@[0]);
    assert("ListDesktops"@.len() != "ClipboardHistory"@.len());
    assert("ListDesktops"@.len() != "GetTaskHistory"@.len());
    assert("ListDesktops"@.len() != "FindElement"@.len());
    assert("ListDesktops"@[0] != "ClickElement"@[0]);
    assert("ListDesktops"@.len() != "DoubleClickElement"@.len());
    assert("ListDesktops"@.len() != "TypeIntoElement"@.len());
    assert("ListDesktops"@[0] != "FocusElement"@[0]);
    assert("ListDesktops"@.len() != "GetFocusedElement"@.len());
    assert("ListDesktops"@.len() != "KeyPress"@.len());
    assert("ListDesktops"@.len() != "KeyCombo"@.len());
    assert("ListDesktops"@.len() != "KeySequence"@.len());
    assert("ListDesktops"@.len() != "ClickAt"@.len());
    assert("ListDesktops"@.len() != "Drag"@.len());
    assert("ListDesktops"@.len() != "Screenshot"@.len());
    assert("ListDesktops"@.len() != "DetectCompositor"@.len());
    assert("ListDesktops"@.len() != "GetCapabilities"@.len());
    assert("ClipboardGet"@[9] != "ClipboardSet"@[9]);
    assert("ClipboardGet"@.len() != "ClipboardHistory"@.len());
    assert("ClipboardGet"@.len() != "GetTaskHistory"@.len());
    assert("ClipboardGet"@.len() != "FindElement"@.len());
    assert("ClipboardGet"@[3] != "ClickElement"@[3]);
    assert("ClipboardGet"@.len() != "DoubleClickElement"@.len());
    assert("ClipboardGet"@.len() != "TypeIntoElement"@.len());
    assert("ClipboardGet"@[0] != "FocusElement"@[0]);
    assert("ClipboardGet"@.len() != "GetFocusedElement"@.len());
    assert("ClipboardGet"@.len() != "KeyPress"@.len());
    assert("ClipboardGet"@.len() != "KeyCombo"@.len());
    assert("ClipboardGet"@.len() != "KeySequence"@.len());
    assert("ClipboardGet"@.len() != "ClickAt"@.len());
    assert("ClipboardGet"@.len() != "Drag"@.len());
    assert("ClipboardGet"@.len() != "Screenshot"@.len());
    assert("ClipboardGet"@.len() != "DetectCompositor"@.len());
    assert("ClipboardGet"@.len() != "GetCapabilities"@.len());
    assert("ClipboardSet"@.len() != "ClipboardHistory"@.len());
    assert("ClipboardSet"@.len() != "GetTaskHistory"@.len());
    assert("ClipboardSet"@.len() != "FindElement"@.len());
    assert("ClipboardSet"@[3] != "ClickElement"@[3]);
    assert("ClipboardSet"@.len() != "DoubleClickElement"@.len());
    assert("ClipboardSet"@.len() != "TypeIntoElement"@.len());
    assert("ClipboardSet"@[0] != "FocusElement"@[0]);
    assert("ClipboardSet"@.len() != "GetFocusedElement"@.len());
    assert("ClipboardSet"@.len() != "KeyPress"@.len());
    assert("ClipboardSet"@.len() != "KeyCombo"@.len());
    assert("ClipboardSet"@.len() != "KeySequence"@.len());
    assert("ClipboardSet"@.len() != "ClickAt"@.len());
    assert("ClipboardSet"@.len() != "Drag"@.len());
    assert("ClipboardSet"@.len() != "Screenshot"@.len());
    assert("ClipboardSet"@.len() != "DetectCompositor"@.len());
    assert("ClipboardSet"@.len() != "GetCapabilities"@.len());
    assert("ClipboardHistory"@.len() != "GetTaskHistory"@.len());
    assert("ClipboardHistory"@.len() != "FindElement"@.len());
    assert("ClipboardHistory"@.len() != "ClickElement"@.len());
    assert("ClipboardHistory"@.len() != "DoubleClickElement"@.len());
    assert("ClipboardHistory"@.len() != "TypeIntoElement"@.len());
    assert("ClipboardHistory"@.len() != "FocusElement"@.len());
    assert("ClipboardHistory"@.len() != "GetFocusedElement"@.len());
    assert("ClipboardHistory"@.len() != "KeyPress"@.len());
    assert("ClipboardHistory"@.len() != "KeyCombo"@.len());
    assert("ClipboardHistory"@.len() != "KeySequence"@.len());
    assert("ClipboardHistory"@.len() != "ClickAt"@.len());
    assert("ClipboardHistory"@.len() != "Drag"@.len());
    assert("ClipboardHistory"@.len() != "Screenshot"@.len());
    assert("ClipboardHistory"@[0] != "DetectCompositor"@[0]);
    assert("ClipboardHistory"@.len() != "GetCapabilities"@.len());
    assert("GetTaskHistory"@.len() != "FindElement"@.len());
    assert("GetTaskHistory"@.len() != "ClickElement"@.len());
    assert("GetTaskHistory"@.len() != "DoubleClickElement"@.len());
    assert("GetTaskHistory"@.len() != "TypeIntoElement"@.len());
    assert("GetTaskHistory"@.len() != "FocusElement"@.len());
    assert("GetTaskHistory"@.len() != "GetFocusedElement"@.len());
    assert("GetTaskHistory"@.len() != "KeyPress"@.len());
    assert("GetTaskHistory"@.len() != "KeyCombo"@.len());
    assert("GetTaskHistory"@.len() != "KeySequence"@.len());
    assert("GetTaskHistory"@.len() != "ClickAt"@.len());
    assert("GetTaskHistory"@.len() != "Drag"@.len());
    assert("GetTaskHistory"@.len() != "Screenshot"@.len());
    assert("GetTaskHistory"@.len() != "DetectCompositor"@.len());
    assert("GetTaskHistory"@.len() != "GetCapabilities"@.len());
    assert("FindElement"@.len() != "ClickElement"@.len());
    assert("FindElement"@.len() != "DoubleClickElement"@.len());
    assert("FindElement"@.len() != "TypeIntoElement"@.len());
    assert("FindElement"@.len() != "FocusElement"@.len());
    assert("FindElement"@.len() != "GetFocusedElement"@.len());
    assert("FindElement"@.len() != "KeyPress"@.len());
    assert("FindElement"@.len() != "KeyCombo"@.len());
    assert("FindElement"@[0] != "KeySequence"@[0]);
    assert("FindElement"@.len() != "ClickAt"@.len());
    assert("FindElement"@.len() != "Drag"@.len());
    assert("FindElement"@.len() != "Screenshot"@.len());
    assert("FindElement"@.len() != "DetectCompositor"@.len());
    assert("FindElement"@.len() != "GetCapabilities"@.len());
    assert("ClickElement"@.len() != "DoubleClickElement"@.len());
    assert("ClickElement"@.len() != "TypeIntoElement"@.len());
    assert("ClickElement"@[0] != "FocusElement"@[0]);
    assert("ClickElement"@.len() != "GetFocusedElement"@.len());
    assert("ClickElement"@.len() != "KeyPress"@.len());
    assert("ClickElement"@.len() != "KeyCombo"@.len());
    assert("ClickElement"@.len() != "KeySequence"@.len());
    assert("ClickElement"@.len() != "ClickAt"@.len());
    assert("ClickElement"@.len() != "Drag"@.len());
    assert("ClickElement"@.len() != "Screenshot"@.len());
    assert("ClickElement"@.len() != "DetectCompositor"@.len());
    assert("ClickElement"@.len() != "GetCapabilities"@.len());
    assert("DoubleClickElement"@.len() != "TypeIntoElement"@.len());
    assert("DoubleClickElement"@.len() != "FocusElement"@.len());
    assert("DoubleClickElement"@.len() != "GetFocusedElement"@.len());
    assert("DoubleClickElement"@.len() != "KeyPress"@.len());
    assert("DoubleClickElement"@.len() != "KeyCombo"@.len());
    assert("DoubleClickElement"@.len() != "KeySequence"@.len());
    assert("DoubleClickElement"@.len() != "ClickAt"@.len());
    assert("DoubleClickElement"@.len() != "Drag"@.len());
    assert("DoubleClickElement"@.len() != "Screenshot"@.len());
    assert("DoubleClickElement"@.len() != "DetectCompositor"@.len());
    assert("DoubleClickElement"@.len() != "GetCapabilities"@.len());
    assert("TypeIntoElement"@.len() != "FocusElement"@.len());
    assert("TypeIntoElement"@.len() != "GetFocusedElement"@.len());
    assert("TypeIntoElement"@.len() != "KeyPress"@.len());
    assert("TypeIntoElement"@.len() != "KeyCombo"@.len());
    assert("TypeIntoElement"@.len() != "KeySequence"@.len());
    assert("TypeIntoElement"@.len() != "ClickAt"@.len());
    assert("TypeIntoElement"@.len() != "Drag"@.len());
    assert("TypeIntoElement"@.len() != "Screenshot"@.len());
    assert("TypeIntoElement"@.len() != "DetectCompositor"@.len());
    assert("TypeIntoElement"@[0] != "GetCapabilities"@[0]);
    assert("FocusElement"@.len() != "GetFocusedElement"@.len());
    assert("FocusElement"@.len() != "KeyPress"@.len());
    assert("FocusElement"@.len() != "KeyCombo"@.len());
    assert("FocusElement"@.len() != "KeySequence"@.len());
    assert("FocusElement"@.len() != "ClickAt"@.len());
    assert("FocusElement"@.len() != "Drag"@.len());
    assert("FocusElement"@.len() != "Screenshot"@.len());
    assert("FocusElement"@.len() != "DetectCompositor"@.len());
    assert("FocusElement"@.len() != "GetCapabilities"@.len());
    assert("GetFocusedElement"@.len() != "KeyPress"@.len());
    assert("GetFocusedElement"@.len() != "KeyCombo"@.len());
    assert("GetFocusedElement"@.len() != "KeySequence"@.len());
    assert("GetFocusedElement"@.len() != "ClickAt"@.len());
    assert("GetFocusedElement"@.len() != "Drag"@.len());
    assert("GetFocusedElement"@.len() != "Screenshot"@.len());
    assert("GetFocusedElement"@.len() != "DetectCompositor"@.len());
    assert("GetFocusedElement"@.len() != "GetCapabilities"@.len());
    assert("KeyPress"@[3] != "KeyCombo"@[3]);
    assert("KeyPress"@.len() != "KeySequence"@.len());
    assert("KeyPress"@.len() != "ClickAt"@.len());
    assert("KeyPress"@.len() != "Drag"@.len());
    assert("KeyPress"@.len() != "Screenshot"@.len());
    assert("KeyPress"@.len() != "DetectCompositor"@.len());
    assert("KeyPress"@.len() != "GetCapabilities"@.len());
    assert("KeyCombo"@.len() != "KeySequence"@.len());
    assert("KeyCombo"@.len() != "ClickAt"@.len());
    assert("KeyCombo"@.len() != "Drag"@.len());
    assert("KeyCombo"@.len() != "Screenshot"@.len());
    assert("KeyCombo"@.len() != "DetectCompositor"@.len());
    assert("KeyCombo"@.len() != "GetCapabilities"@.len());
    assert("KeySequence"@.len() != "ClickAt"@.len());
    assert("KeySequence"@.len() != "Drag"@.len());
    assert("KeySequence"@.len() != "Screenshot"@.len());
    assert("KeySequence"@.len() != "DetectCompositor"@.len());
    assert("KeySequence"@.len() != "GetCapabilities"@.len());
    assert("ClickAt"@.len() != "Drag"@.len());
    assert("ClickAt"@.len() != "Screenshot"@.len());
    assert("ClickAt"@.len() != "DetectCompositor"@.len());
    assert("ClickAt"@.len() != "GetCapabilities"@.len());
    assert("Drag"@.len() != "Screenshot"@.len());
    assert("Drag"@.len() != "DetectCompositor"@.len());
    assert("Drag"@.len() != "GetCapabilities"@.len());
    assert("Screenshot"@.len() != "DetectCompositor"@.len());
    assert("Screenshot"@.len() != "GetCapabilities"@.len());
    assert("DetectCompositor"@.len() != "GetCapabilities"@.len());
}

proof fn lemma_entry_names()
    ensures
        "type"@ != "data"@,
        "from_x"@ != "from_y"@,
        "from_x"@ != "to_x"@,
        "from_x"@ != "to_y"@,
        "from_y"@ != "to_x"@,
        "from_y"@ != "to_y"@,
        "name"@ != "button"@,
        "name"@ != "role"@,
        "name"@ != "secure"@,
        "name"@ != "text"@,
        "region"@ != "include_cursor"@,
        "text"@ != "secure"@,
        "to_x"@ != "to_y"@,
        "x"@ != "button"@,
        "x"@ != "y"@,
        "y"@ != "button"@,
{
    reveal_strlit("button");
    reveal_strlit("combo");
    reveal_strlit("content");
    reveal_strlit("data");
    reveal_strlit("element_id");
    reveal_strlit("from_x");
    reveal_strlit("from_y");
    reveal_strlit("include_cursor");
    reveal_strlit("key");
    reveal_strlit("keys");
    reveal_strlit("limit");
    reveal_strlit("name");
    reveal_strlit("region");
    reveal_strlit("role");
    reveal_strlit("secure");
    reveal_strlit("text");
    reveal_strlit("to_x");
    reveal_strlit("to_y");
    reveal_strlit("type");
    reveal_strlit("x");
    reveal_strlit("y");
    assert("type"@[0] != "data"@[0]);
    assert("from_x"@[5] != "from_y"@[5]);
    assert("from_x"@.len() != "to_x"@.len());
    assert("from_x"@.len() != "to_y"@.len());
    assert("from_y"@.len() != "to_x"@.len());
    assert("from_y"@.len() != "to_y"@.len());
    assert("name"@.len() != "button"@.len());
    assert("name"@[0] != "role"@[0]);
    assert("name"@.len() != "secure"@.len());
    assert("name"@[0] != "text"@[0]);
    assert("region"@.len() != "include_cursor"@.len());
    assert("text"@.len() != "secure"@.len());
    assert("to_x"@[3] != "to_y"@[3]);
    assert("x"@.len() != "button"@.len());
    assert("x"@[0] != "y"@[0]);
    assert("y"@.len() != "button"@.len());
}

/// The wire name of a kind, as a string.
pub fn kind_name_string(k: RequestKind) -> (r: String)
    ensures
        r@ == kind_name(k),
{
    match k {
        RequestKind::Type => String::from_str("Type"),
        RequestKind::TypeSecure => String::from_str("TypeSecure"),
        RequestKind::Click => String::from_str("Click"),
        RequestKind::Focus => String::from_str("Focus"),
        RequestKind::ListDesktops => String::from_str("ListDesktops"),
        RequestKind::ClipboardGet => String::from_str("ClipboardGet"),
        RequestKind::ClipboardSet => String::from_str("ClipboardSet"),
        RequestKind::ClipboardHistory => String::from_str("ClipboardHistory"),
        RequestKind::GetTaskHistory => String::from_str("GetTaskHistory"),
        RequestKind::FindElement => String::from_str("FindElement"),
        RequestKind::ClickElement => String::from_str("ClickElement"),
        RequestKind::DoubleClickElement => String::from_str("DoubleClickElement"),
        RequestKind::TypeIntoElement => String::from_str("TypeIntoElement"),
        RequestKind::FocusElement => String::from_str("FocusElement"),
        RequestKind::GetFocusedElement => String::from_str("GetFocusedElement"),
        RequestKind::KeyPress => String::from_str("KeyPress"),
        RequestKind::KeyCombo => String::from_str("KeyCombo"),
        RequestKind::KeySequence => String::from_str("KeySequence"),
        RequestKind::ClickAt => String::from_str("ClickAt"),
        RequestKind::Drag => String::from_str("Drag"),
        RequestKind::Screenshot => String::from_str("Screenshot"),
        RequestKind::DetectCompositor => String::from_str("DetectCompositor"),
        RequestKind::GetCapabilities => String::from_str("GetCapabilities"),
    }
}

/// The kind that a wire name denotes, if any.
pub fn kind_from_name(t: &str) -> (r: Option<RequestKind>)
    ensures
        r == kind_of_name(t@),
{
    if str_eq(t, "Type") {
        Some(RequestKind::Type)
    } else if str_eq(t, "TypeSecure") {
        Some(RequestKind::TypeSecure)
    } else if str_eq(t, "Click") {
        Some(RequestKind::Click)
    } else if str_eq(t, "Focus") {
        Some(RequestKind::Focus)
    } else if str_eq(t, "ListDesktops") {
        Some(RequestKind::ListDesktops)
    } else if str_eq(t, "ClipboardGet") {
        Some(RequestKind::ClipboardGet)
    } else if str_eq(t, "ClipboardSet") {
        Some(RequestKind::ClipboardSet)
    } else if str_eq(t, "ClipboardHistory") {
        Some(RequestKind::ClipboardHistory)
    } else if str_eq(t, "GetTaskHistory") {
        Some(RequestKind::GetTaskHistory)
    } else if str_eq(t, "FindElement") {
        Some(RequestKind::FindElement)
    } else if str_eq(t, "ClickElement") {
        Some(RequestKind::ClickElement)
    } else if str_eq(t, "DoubleClickElement") {
        Some(RequestKind::DoubleClickElement)
    } else if str_eq(t, "TypeIntoElement") {
        Some(RequestKind::TypeIntoElement)
    } else if str_eq(t, "FocusElement") {
        Some(RequestKind::FocusElement)
    } else if str_eq(t, "GetFocusedElement") {
        Some(RequestKind::GetFocusedElement)
    } else if str_eq(t, "KeyPress") {
        Some(RequestKind::KeyPress)
    } else if str_eq(t, "KeyCombo") {
        Some(RequestKind::KeyCombo)
    } else if str_eq(t, "KeySequence") {
        Some(RequestKind::KeySequence)
    } else if str_eq(t, "ClickAt") {
        Some(RequestKind::ClickAt)
    } else if str_eq(t, "Drag") {
        Some(RequestKind::Drag)
    } else if str_eq(t, "Screenshot") {
        Some(RequestKind::Screenshot)
    } else if str_eq(t, "DetectCompositor") {
        Some(RequestKind::DetectCompositor)
    } else if str_eq(t, "GetCapabilities") {
        Some(RequestKind::GetCapabilities)
    } else {
        None
    }
}

fn put_str(d: &mut Vec<(String, JsonValue)>, name: &str, s: &String)
    ensures
        final(d)@ == old(d)@.push((final(d)@.last().0, JsonValue::Str(*s))),
        final(d)@.last().0@ == name@,
{
    d.push((String::from_str(name), JsonValue::Str(s.clone())));
}

fn put_i32(d: &mut Vec<(String, JsonValue)>, name: &str, x: i32)
    ensures
        final(d)@ == old(d)@.push((final(d)@.last().0, JsonValue::Int(x as i128))),
        final(d)@.last().0@ == name@,
{
    d.push((String::from_str(name), JsonValue::Int(x as i128)));
}

fn put_opt_str(d: &mut Vec<(String, JsonValue)>, name: &str, o: &Option<String>)
    ensures
        final(d)@ == old(d)@.push((final(d)@.last().0, final(d)@.last().1)),
        final(d)@.last().0@ == name@,
        final(d)@.last().1 == match o {
            Some(s) => JsonValue::Str(*s),
            None => JsonValue::Null,
        },
{
    let v = match o {
        Some(s) => JsonValue::Str(s.clone()),
        None => JsonValue::Null,
    };
    d.push((String::from_str(name), v));
}

fn put_opt_usize(d: &mut Vec<(String, JsonValue)>, name: &str, o: Option<usize>)
    ensures
        final(d)@ == old(d)@.push((final(d)@.last().0, final(d)@.last().1)),
        final(d)@.last().0@ == name@,
        final(d)@.last().1 == match o {
            Some(n) => JsonValue::Int(n as i128),
            None => JsonValue::Null,
        },
{
    let v = match o {
        Some(n) => JsonValue::Int(n as i128),
        None => JsonValue::Null,
    };
    d.push((String::from_str(name), v));
}

fn put_opt_bool(d: &mut Vec<(String, JsonValue)>, name: &str, o: Option<bool>)
    ensures
        final(d)@ == old(d)@.push((final(d)@.last().0, final(d)@.last().1)),
        final(d)@.last().0@ == name@,
        final(d)@.last().1 == match o {
            Some(b) => JsonValue::Bool(b),
            None => JsonValue::Null,
        },
{
    let v = match o {
        Some(b) => JsonValue::Bool(b),
        None => JsonValue::Null,
    };
    d.push((String::from_str(name), v));
}

fn put_strs(d: &mut Vec<(String, JsonValue)>, name: &str, keys: &Vec<String>)
    ensures
        final(d)@ == old(d)@.push((final(d)@.last().0, final(d)@.last().1)),
        final(d)@.last().0@ == name@,
        match final(d)@.last().1 {
            JsonValue::Array(items) => items@.len() == keys@.len() && forall|i: int|
                0 <= i < keys@.len() ==> #[trigger] items@[i] == JsonValue::Str(keys@[i]),
            _ => false,
        },
{
    let mut items: Vec<JsonValue> = Vec::new();
    let mut i: usize = 0;
    while i < keys.len()
        invariant
            i <= keys@.len(),
            items@.len() == i,
            forall|j: int| 0 <= j < i ==> #[trigger] items@[j] == JsonValue::Str(keys@[j]),
        decreases keys@.len() - i,
    {
        items.push(JsonValue::Str(keys[i].clone()));
        i = i + 1;
    }
    d.push((String::from_str(name), JsonValue::Array(items)));
}

fn get_str(d: &Vec<(String, JsonValue)>, name: &str) -> (r: Option<String>)
    ensures
        match field_of(d@, name@) {
            Some(JsonValue::Str(s)) => r == Some(s),
            _ => r is None,
        },
{
    match find_field(d, name) {
        Some(i) => match &d[i].1 {
            JsonValue::Str(s) => Some(s.clone()),
            _ => None,
        },
        None => None,
    }
}

fn get_i32(d: &Vec<(String, JsonValue)>, name: &str) -> (r: Option<i32>)
    ensures
        match field_of(d@, name@) {
            Some(JsonValue::Int(n)) => if i32::MIN <= n <= i32::MAX {
                r == Some(n as i32)
            } else {
                r is None
            },
            _ => r is None,
        },
{
    match find_field(d, name) {
        Some(i) => match &d[i].1 {
            JsonValue::Int(n) => if i32::MIN as i128 <= *n && *n <= i32::MAX as i128 {
                Some(*n as i32)
            } else {
                None
            },
            _ => None,
        },
        None => None,
    }
}

fn get_opt_str(d: &Vec<(String, JsonValue)>, name: &str) -> (r: Option<Option<String>>)
    ensures
        match field_of(d@, name@) {
            None | Some(JsonValue::Null) => r == Some(None::<String>),
            Some(JsonValue::Str(s)) => r == Some(Some(s)),
            _ => r is None,
        },
{
    match find_field(d, name) {
        Some(i) => match &d[i].1 {
            JsonValue::Null => Some(None),
            JsonValue::Str(s) => Some(Some(s.clone())),
            _ => None,
        },
        None => Some(None),
    }
}

fn get_opt_usize(d: &Vec<(String, JsonValue)>, name: &str) -> (r: Option<Option<usize>>)
    ensures
        match field_of(d@, name@) {
            None | Some(JsonValue::Null) => r == Some(None::<usize>),
            Some(JsonValue::Int(n)) => if 0 <= n <= usize::MAX {
                r == Some(Some(n as usize))
            } else {
                r is None
            },
            _ => r is None,
        },
{
    match find_field(d, name) {
        Some(i) => match &d[i].1 {
            JsonValue::Null => Some(None),
            JsonValue::Int(n) => if 0 <= *n && *n <= usize::MAX as i128 {
                Some(Some(*n as usize))
            } else {
                None
            },
            _ => None,
        },
        None => Some(None),
    }
}

fn get_opt_bool(d: &Vec<(String, JsonValue)>, name: &str) -> (r: Option<Option<bool>>)
    ensures
        match field_of(d@, name@) {
            None | Some(JsonValue::Null) => r == Some(None::<bool>),
            Some(JsonValue::Bool(b)) => r == Some(Some(b)),
            _ => r is None,
        },
{
    match find_field(d, name) {
        Some(i) => match &d[i].1 {
            JsonValue::Null => Some(None),
            JsonValue::Bool(b) => Some(Some(*b)),
            _ => None,
        },
        None => Some(None),
    }
}

fn get_strs(d: &Vec<(String, JsonValue)>, name: &str) -> (r: Option<Vec<String>>)
    ensures
        match r {
            Some(keys) => strs_entry(d@, name@, keys@),
            None => forall|keys: Seq<String>| !strs_entry(d@, name@, keys),
        },
{
    match find_field(d, name) {
        Some(i) => match &d[i].1 {
            JsonValue::Array(items) => {
                let mut keys: Vec<String> = Vec::new();
                let mut j: usize = 0;
                while j < items.len()
                    invariant
                        field_of(d@, name@) == Some(JsonValue::Array(*items)),
                        j <= items@.len(),
                        keys@.len() == j,
                        forall|k: int| 0 <= k < j ==> #[trigger] items@[k] == JsonValue::Str(keys@[k]),
                    decreases items@.len() - j,
                {
                    match &items[j] {
                        JsonValue::Str(s) => keys.push(s.clone()),
                        _ => {
                            assert forall|ks: Seq<String>| !strs_entry(d@, name@, ks) by {
                                if strs_entry(d@, name@, ks) && ks.len() == items@.len() {
                                    assert(items@[j as int] == JsonValue::Str(ks[j as int]));
                                }
                            }
                            return None;
                        },
                    }
                    j = j + 1;
                }
                Some(keys)
            },
            _ => None,
        },
        None => None,
    }
}

impl Request {
    /// The kind of this request.
    pub fn kind(&self) -> (k: RequestKind)
        ensures
            k == kind_of(*self),
    {
        match self {
            Request::Type { .. } => RequestKind::Type,
            Request::TypeSecure { .. } => RequestKind::TypeSecure,
            Request::Click { .. } => RequestKind::Click,
            Request::Focus { .. } => RequestKind::Focus,
            Request::ListDesktops => RequestKind::ListDesktops,
            Request::ClipboardGet => RequestKind::ClipboardGet,
            Request::ClipboardSet { .. } => RequestKind::ClipboardSet,
            Request::ClipboardHistory { .. } => RequestKind::ClipboardHistory,
            Request::GetTaskHistory { .. } => RequestKind::GetTaskHistory,
            Request::FindElement { .. } => RequestKind::FindElement,
            Request::ClickElement { .. } => RequestKind::ClickElement,
            Request::DoubleClickElement { .. } => RequestKind::DoubleClickElement,
            Request::TypeIntoElement { .. } => RequestKind::TypeIntoElement,
            Request::FocusElement { .. } => RequestKind::FocusElement,
            Request::GetFocusedElement => RequestKind::GetFocusedElement,
            Request::KeyPress { .. } => RequestKind::KeyPress,
            Request::KeyCombo { .. } => RequestKind::KeyCombo,
            Request::KeySequence { .. } => RequestKind::KeySequence,
            Request::ClickAt { .. } => RequestKind::ClickAt,
            Request::Drag { .. } => RequestKind::Drag,
            Request::Screenshot { .. } => RequestKind::Screenshot,
            Request::DetectCompositor => RequestKind::DetectCompositor,
            Request::GetCapabilities => RequestKind::GetCapabilities,
        }
    }

    /// Encodes this request as a message object: `type` first, then `data`
    /// when the operation has fields.
    pub fn to_json(&self) -> (v: JsonValue)
        ensures
            encodes(v, *self),
            match v {
                JsonValue::Object(fs) => fs@.len() == (if has_data(kind_of(*self)) { 2int } else { 1int })
                    && fs@[0].0@ == "type"@ && fs@[0].1 == JsonValue::Str(fs@[0].1->Str_0)
                    && fs@[0].1->Str_0@ == kind_name(kind_of(*self)),
                _ => false,
            },
    {
        proof {
            lemma_kind_name(kind_of(*self));
            lemma_entry_names();
        }
        let k = self.kind();
        let mut fs: Vec<(String, JsonValue)> = Vec::new();
        fs.push((String::from_str("type"), JsonValue::Str(kind_name_string(k))));
        let mut d: Vec<(String, JsonValue)> = Vec::new();
        match self {
            Request::Type { text } => {
                put_str(&mut d, "text", text);
            },
            Request::TypeSecure { text } => {
                put_str(&mut d, "text", text);
            },
            Request::Click { x, y } => {
                put_i32(&mut d, "x", *x);
                put_i32(&mut d, "y", *y);
            },
            Request::Focus { element_id } => {
                put_str(&mut d, "element_id", element_id);
            },
            Request::ListDesktops => {},
            Request::ClipboardGet => {},
            Request::ClipboardSet { content } => {
                put_str(&mut d, "content", content);
            },
            Request::ClipboardHistory { limit } => {
                put_opt_usize(&mut d, "limit", *limit);
            },
            Request::GetTaskHistory { limit } => {
                put_opt_usize(&mut d, "limit", *limit);
            },
            Request::FindElement { name, role } => {
                put_opt_str(&mut d, "name", name);
                put_opt_str(&mut d, "role", role);
            },
            Request::ClickElement { name, button } => {
                put_str(&mut d, "name", name);
                put_opt_str(&mut d, "button", button);
            },
            Request::DoubleClickElement { name } => {
                put_str(&mut d, "name", name);
            },
            Request::TypeIntoElement { name, text, secure } => {
                put_str(&mut d, "name", name);
                put_str(&mut d, "text", text);
                put_opt_bool(&mut d, "secure", *secure);
            },
            Request::FocusElement { name } => {
                put_str(&mut d, "name", name);
            },
            Request::GetFocusedElement => {},
            Request::KeyPress { key } => {
                put_str(&mut d, "key", key);
            },
            Request::KeyCombo { combo } => {
                put_str(&mut d, "combo", combo);
            },
            Request::KeySequence { keys } => {
                put_strs(&mut d, "keys", keys);
            },
            Request::ClickAt { x, y, button } => {
                put_i32(&mut d, "x", *x);
                put_i32(&mut d, "y", *y);
                put_opt_str(&mut d, "button", button);
            },
            Request::Drag { from_x, from_y, to_x, to_y } => {
                put_i32(&mut d, "from_x", *from_x);
                put_i32(&mut d, "from_y", *from_y);
                put_i32(&mut d, "to_x", *to_x);
                put_i32(&mut d, "to_y", *to_y);
            },
            Request::Screenshot { region, include_cursor } => {
                put_opt_str(&mut d, "region", region);
                put_opt_bool(&mut d, "include_cursor", *include_cursor);
            },
            Request::DetectCompositor => {},
            Request::GetCapabilities => {},
        }
        if has_data_kind(k) {
            fs.push((String::from_str("data"), JsonValue::Object(d)));
        }
        let v = JsonValue::Object(fs);
        proof {
            reveal_with_fuel(field_of, 5);
            assert(fs@[0].0@ == "type"@);
            assert(field_of(fs@, "type"@) == Some(fs@[0].1));
            if has_data(k) {
                assert(fs@.drop_first()[0] == fs@[1]);
                assert(fs@.drop_first().drop_first().len() == 0);
                assert(field_of(fs@, "data"@) == Some(fs@[1].1));
            }
        }
        v
    }

    /// Decodes a message object. It succeeds exactly when the message is a
    /// well-formed encoding of some request, and then returns that request.
    pub fn from_json(v: &JsonValue) -> (r: Result<Request, ProtocolError>)
        ensures
            r is Ok <==> exists|q: Request| encodes(*v, q),
            r matches Ok(q) ==> encodes(*v, q),
            r == Err::<Request, ProtocolError>(ProtocolError::NotAnObject) <==> !(v is Object),
            r == Err::<Request, ProtocolError>(ProtocolError::MissingTag) <==> (v is Object && tag_of(*v) is None),
            r == Err::<Request, ProtocolError>(ProtocolError::UnknownTag) <==> (tag_of(*v) matches Some(t) && kind_of_name(t) is None),
    {
        let fs = match v {
            JsonValue::Object(fs) => fs,
            _ => return Err(ProtocolError::NotAnObject),
        };
        let t = match find_field(fs, "type") {
            Some(i) => match &fs[i].1 {
                JsonValue::Str(t) => t,
                _ => return Err(ProtocolError::MissingTag),
            },
            None => return Err(ProtocolError::MissingTag),
        };
        let k = match kind_from_name(t.as_str()) {
            Some(k) => k,
            None => return Err(ProtocolError::UnknownTag),
        };
        match k {
            RequestKind::ListDesktops => {
                let q = Request::ListDesktops;
                assert(encodes(*v, q));
                return Ok(q);
            },
            RequestKind::ClipboardGet => {
                let q = Request::ClipboardGet;
                assert(encodes(*v, q));
                return Ok(q);
            },
            RequestKind::GetFocusedElement => {
                let q = Request::GetFocusedElement;
                assert(encodes(*v, q));
                return Ok(q);
            },
            RequestKind::DetectCompositor => {
                let q = Request::DetectCompositor;
                assert(encodes(*v, q));
                return Ok(q);
            },
            RequestKind::GetCapabilities => {
                let q = Request::GetCapabilities;
                assert(encodes(*v, q));
                return Ok(q);
            },
            _ => {},
        }
        let d = match find_field(fs, "data") {
            Some(i) => match &fs[i].1 {
                JsonValue::Object(d) => d,
                _ => return Err(ProtocolError::InvalidData),
            },
            None => return Err(ProtocolError::InvalidData),
        };
        assert(data_of(fs@) == Some(d@));
        match k {
            RequestKind::Type => {
                let text = match get_str(d, "text") {
                    Some(x) => x,
                    None => return Err(ProtocolError::InvalidData),
                };
                let q = Request::Type { text };
                assert(encodes(*v, q));
                Ok(q)
            },
            RequestKind::TypeSecure => {
                let text = match get_str(d, "text") {
                    Some(x) => x,
                    None => return Err(ProtocolError::InvalidData),
                };
                let q = Request::TypeSecure { text };
                assert(encodes(*v, q));
                Ok(q)
            },
            RequestKind::Click => {
                let x = match get_i32(d, "x") {
                    Some(x) => x,
                    None => return Err(ProtocolError::InvalidData),
                };
                let y = match get_i32(d, "y") {
                    Some(x) => x,
                    None => return Err(ProtocolError::InvalidData),
                };
                let q = Request::Click { x, y };
                assert(encodes(*v, q));
                Ok(q)
            },
            RequestKind::Focus => {
                let element_id = match get_str(d, "element_id") {
                    Some(x) => x,
                    None => return Err(ProtocolError::InvalidData),
                };
                let q = Request::Focus { element_id };
                assert(encodes(*v, q));
                Ok(q)
            },
            RequestKind::ClipboardSet => {
                let content = match get_str(d, "content") {
                    Some(x) => x,
                    None => return Err(ProtocolError::InvalidData),
                };
                let q = Request::ClipboardSet { content };
                assert(encodes(*v, q));
                Ok(q)
            },
            RequestKind::ClipboardHistory => {
                let limit = match get_opt_usize(d, "limit") {
                    Some(x) => x,
                    None => return Err(ProtocolError::InvalidData),
                };
                let q = Request::ClipboardHistory { limit };
                assert(encodes(*v, q));
                Ok(q)
            },
            RequestKind::GetTaskHistory => {
                let limit = match get_opt_usize(d, "limit") {
                    Some(x) => x,
                    None => return Err(ProtocolError::InvalidData),
                };
                let q = Request::GetTaskHistory { limit };
                assert(encodes(*v, q));
                Ok(q)
            },
            RequestKind::FindElement => {
                let name = match get_opt_str(d, "name") {
                    Some(x) => x,
                    None => return Err(ProtocolError::InvalidData),
                };
                let role = match get_opt_str(d, "role") {
                    Some(x) => x,
                    None => return Err(ProtocolError::InvalidData),
                };
                let q = Request::FindElement { name, role };
                assert(encodes(*v, q));
                Ok(q)
            },
            RequestKind::ClickElement => {
                let name = match get_str(d, "name") {
                    Some(x) => x,
                    None => return Err(ProtocolError::InvalidData),
                };
                let button = match get_opt_str(d, "button") {
                    Some(x) => x,
                    None => return Err(ProtocolError::InvalidData),
                };
                let q = Request::ClickElement { name, button };
                assert(encodes(*v, q));
                Ok(q)
            },
            RequestKind::DoubleClickElement => {
                let name = match get_str(d, "name") {
                    Some(x) => x,
                    None => return Err(ProtocolError::InvalidData),
                };
                let q = Request::DoubleClickElement { name };
                assert(encodes(*v, q));
                Ok(q)
            },
            RequestKind::TypeIntoElement => {
                let name = match get_str(d, "name") {
                    Some(x) => x,
                    None => return Err(ProtocolError::InvalidData),
                };
                let text = match get_str(d, "text") {
                    Some(x) => x,
                    None => return Err(ProtocolError::InvalidData),
                };
                let secure = match get_opt_bool(d, "secure") {
                    Some(x) => x,
                    None => return Err(ProtocolError::InvalidData),
                };
                let q = Request::TypeIntoElement { name, text, secure };
                assert(encodes(*v, q));
                Ok(q)
            },
            RequestKind::FocusElement => {
                let name = match get_str(d, "name") {
                    Some(x) => x,
                    None => return Err(ProtocolError::InvalidData),
                };
                let q = Request::FocusElement { name };
                assert(encodes(*v, q));
                Ok(q)
            },
            RequestKind::KeyPress => {
                let key = match get_str(d, "key") {
                    Some(x) => x,
                    None => return Err(ProtocolError::InvalidData),
                };
                let q = Request::KeyPress { key };
                assert(encodes(*v, q));
                Ok(q)
            },
            RequestKind::KeyCombo => {
                let combo = match get_str(d, "combo") {
                    Some(x) => x,
                    None => return Err(ProtocolError::InvalidData),
                };
                let q = Request::KeyCombo { combo };
                assert(encodes(*v, q));
                Ok(q)
            },
            RequestKind::KeySequence => {
                let keys = match get_strs(d, "keys") {
                    Some(x) => x,
                    None => return Err(ProtocolError::InvalidData),
                };
                let q = Request::KeySequence { keys };
                assert(encodes(*v, q));
                Ok(q)
            },
            RequestKind::ClickAt => {
                let x = match get_i32(d, "x") {
                    Some(x) => x,
                    None => return Err(ProtocolError::InvalidData),
                };
                let y = match get_i32(d, "y") {
                    Some(x) => x,
                    None => return Err(ProtocolError::InvalidData),
                };
                let button = match get_opt_str(d, "button") {
                    Some(x) => x,
                    None => return Err(ProtocolError::InvalidData),
                };
                let q = Request::ClickAt { x, y, button };
                assert(encodes(*v, q));
                Ok(q)
            },
            RequestKind::Drag => {
                let from_x = match get_i32(d, "from_x") {
                    Some(x) => x,
                    None => return Err(ProtocolError::InvalidData),
                };
                let from_y = match get_i32(d, "from_y") {
                    Some(x) => x,
                    None => return Err(ProtocolError::InvalidData),
                };
                let to_x = match get_i32(d, "to_x") {
                    Some(x) => x,
                    None => return Err(ProtocolError::InvalidData),
                };
                let to_y = match get_i32(d, "to_y") {
                    Some(x) => x,
                    None => return Err(ProtocolError::InvalidData),
                };
                let q = Request::Drag { from_x, from_y, to_x, to_y };
                assert(encodes(*v, q));
                Ok(q)
            },
            RequestKind::Screenshot => {
                let region = match get_opt_str(d, "region") {
                    Some(x) => x,
                    None => return Err(ProtocolError::InvalidData),
                };
                let include_cursor = match get_opt_bool(d, "include_cursor") {
                    Some(x) => x,
                    None => return Err(ProtocolError::InvalidData),
                };
                let q = Request::Screenshot { region, include_cursor };
                assert(encodes(*v, q));
                Ok(q)
            },
            _ => Err(ProtocolError::InvalidData),
        }
    }
}

/// Whether a kind carries a `data` object.
pub fn has_data_kind(k: RequestKind) -> (r: bool)
    ensures
        r == has_data(k),
{
    match k {
        RequestKind::ListDesktops | RequestKind::ClipboardGet | RequestKind::GetFocusedElement | RequestKind::DetectCompositor | RequestKind::GetCapabilities => false,
        _ => true,
    }
}

/// Decoding the encoding of a request gives that request back: the encoding
/// is well formed for it, and for no request with other operation or fields.
pub proof fn lemma_round_trip(q: Request, v: JsonValue)
    requires
        encodes(v, q),
    ensures
        exists|p: Request| encodes(v, p),
        forall|p: Request| encodes(v, p) ==> same_request(p, q),
{
    assert(encodes(v, q));
    assert forall|p: Request| encodes(v, p) implies same_request(p, q) by {
        lemma_same_fields(v, p, q);
    }
}

proof fn lemma_same_fields(v: JsonValue, p: Request, q: Request)
    requires
        encodes(v, p),
        encodes(v, q),
    ensures
        same_request(p, q),
{
    match (p, q) {
        (Request::KeySequence { keys: ka }, Request::KeySequence { keys: kb }) => {
            let d = data_of(v->Object_0@).unwrap();
            let items = field_of(d, "keys"@).unwrap()->Array_0;
            assert forall|i: int| 0 <= i < ka@.len() implies ka@[i] == kb@[i] by {
                assert(items@[i] == JsonValue::Str(ka@[i]));
                assert(items@[i] == JsonValue::Str(kb@[i]));
            }
            assert(ka@ == kb@);
        },
        _ => {},
    }
}

} // verus!

verus! {

/// The daemon's answer to one request.
#[derive(Debug, PartialEq)]
pub enum Response {
    Success { message: String },
    Error { error: String },
    Data { data: JsonValue },
}

/// `v` is the object `{"type": tag, "data": payload}`.
pub open spec fn tagged(v: JsonValue, tag: Seq<char>, payload: JsonValue) -> bool {
    match v {
        JsonValue::Object(fs) => fs@.len() == 2 && fs@[0].0@ == "type"@ && fs@[0].1 == JsonValue::Str(
            fs@[0].1->Str_0,
        ) && fs@[0].1->Str_0@ == tag && fs@[1].0@ == "data"@ && fs@[1].1 == payload,
        _ => false,
    }
}

/// `v` is the object `{key: Str(s)}`.
pub open spec fn single_text(v: JsonValue, key: Seq<char>, s: Seq<char>) -> bool {
    match v {
        JsonValue::Object(fs) => fs@.len() == 1 && fs@[0].0@ == key && fs@[0].1 == JsonValue::Str(
            fs@[0].1->Str_0,
        ) && fs@[0].1->Str_0@ == s,
        _ => false,
    }
}

fn single_entry(key: &str, value: JsonValue) -> (r: JsonValue)
    ensures
        r is Object && r->Object_0@.len() == 1 && r->Object_0@[0].0@ == key@ && r->Object_0@[0].1 == value,
{
    let mut fs: Vec<(String, JsonValue)> = Vec::new();
    fs.push((String::from_str(key), value));
    JsonValue::Object(fs)
}

impl Response {
    /// Encodes the response as `{"type": ..., "data": ...}`: `Success` carries
    /// `{"message": ...}`, `Error` carries `{"error": ...}`, `Data` its payload.
    pub fn to_json(self) -> (v: JsonValue)
        ensures
            match self {
                Response::Success { message } => exists|p: JsonValue| tagged(v, "Success"@, p) && single_text(p, "message"@, message@),
                Response::Error { error } => exists|p: JsonValue| tagged(v, "Error"@, p) && single_text(p, "error"@, error@),
                Response::Data { data } => tagged(v, "Data"@, data),
            },
    {
        let (tag, payload) = match self {
            Response::Success { message } => (String::from_str("Success"), single_entry("message", JsonValue::Str(message))),
            Response::Error { error } => (String::from_str("Error"), single_entry("error", JsonValue::Str(error))),
            Response::Data { data } => (String::from_str("Data"), data),
        };
        let ghost p = payload;
        let mut fs: Vec<(String, JsonValue)> = Vec::new();
        fs.push((String::from_str("type"), JsonValue::Str(tag)));
        fs.push((String::from_str("data"), payload));
        let v = JsonValue::Object(fs);
        assert(tagged(v, tag@, p));
        v
    }
}

} // verus!
