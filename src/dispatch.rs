//! The request dispatcher. A read-only query is answered at once from the
//! registry and the clipboard history. An operation on the desktop is handed
//! back to the caller, who runs it through the fallback executor; `finish`
//! then turns the executor's last step into the response. Text typed
//! securely never appears in a response or in the clipboard history.
use crate::clipboard::{recorded, ClipboardClient, ClipboardEntry};
use crate::detection::{compositor_name, WaylandClient};
use crate::fallback::{ClickButton, InputMethod, Step};
use crate::json::JsonValue;
use crate::keys::{combo_parses, key_from, key_of, modifier_of, split_tokens, Key, KeyCombo};
use crate::text::lower_of;
use crate::protocol::Request;
use crate::protocol::Response;
use crate::text::{decimal_text, push_decimal_i64, push_decimal_u64, push_str, str_eq};
use vstd::prelude::*;

verus! {

/// The area a screenshot covers.
#[derive(Debug, Clone, Copy, PartialEq, Eq, Structural)]
pub enum ScreenshotRegion {
    Fullscreen,
    Window,
    Selection { x: i32, y: i32, width: i32, height: i32 },
}

/// What a screenshot is to show.
#[derive(Debug, Clone, Copy, PartialEq, Eq, Structural)]
pub struct ScreenshotOptions {
    pub region: ScreenshotRegion,
    pub include_cursor: bool,
}

impl Default for ScreenshotOptions {
    fn default() -> (r: Self)
        ensures
            r.region == ScreenshotRegion::Fullscreen,
            !r.include_cursor,
    {
        ScreenshotOptions { region: ScreenshotRegion::Fullscreen, include_cursor: false }
    }
}

/// An operation on the desktop, to be run through the input methods.
#[derive(Debug, Clone)]
pub enum Operation {
    TypeText { text: String, secure: bool },
    Click { x: i32, y: i32, button: ClickButton },
    Focus { element_id: String },
    ClickElement { name: String, button: ClickButton },
    DoubleClickElement { name: String },
    TypeIntoElement { name: String, text: String, secure: bool },
    FocusElement { name: String },
    KeyPress { key: Key, name: String },
    KeyCombo { combo: KeyCombo, text: String },
    KeySequence { keys: Vec<Key> },
    Drag { from_x: i32, from_y: i32, to_x: i32, to_y: i32 },
    Screenshot { options: ScreenshotOptions },
    SetClipboard { content: String },
}

/// What the dispatcher decided for one request.
#[derive(Debug)]
pub enum Dispatch {
    /// Send this response.
    Reply(Response),
    /// Run this operation, then send what `finish` makes of the outcome.
    Perform(Operation),
}

/// The entries kept by default for a history query.
pub const DEFAULT_HISTORY_LIMIT: usize = 10;

/// The button that a request names; left when none is named.
pub open spec fn button_of(b: Option<Seq<char>>) -> Option<ClickButton> {
    match b {
        None => Some(ClickButton::Left),
        Some(s) => if s == "left"@ {
            Some(ClickButton::Left)
        } else if s == "right"@ {
            Some(ClickButton::Right)
        } else if s == "middle"@ {
            Some(ClickButton::Middle)
        } else {
            None
        },
    }
}

/// The region that a request names; the full screen when none is named.
pub open spec fn region_of(r: Option<Seq<char>>) -> Option<ScreenshotRegion> {
    match r {
        None => Some(ScreenshotRegion::Fullscreen),
        Some(s) => if s == "fullscreen"@ {
            Some(ScreenshotRegion::Fullscreen)
        } else if s == "window"@ {
            Some(ScreenshotRegion::Window)
        } else {
            None
        },
    }
}

pub open spec fn opt_view(o: Option<String>) -> Option<Seq<char>> {
    match o {
        Some(s) => Some(s@),
        None => None,
    }
}

pub open spec fn button_name(b: ClickButton) -> Seq<char> {
    match b {
        ClickButton::Left => "left"@,
        ClickButton::Right => "right"@,
        ClickButton::Middle => "middle"@,
    }
}

pub open spec fn method_name(m: InputMethod) -> Seq<char> {
    match m {
        InputMethod::Portal => "Portal"@,
        InputMethod::CompositorIPC => "CompositorIPC"@,
        InputMethod::Libei => "Libei"@,
        InputMethod::Ydotool => "Ydotool"@,
        InputMethod::XTest => "XTest"@,
    }
}

/// `(x, y)` as text.
pub open spec fn point_text(x: i32, y: i32) -> Seq<char> {
    "("@ + decimal_text(x as int) + ", "@ + decimal_text(y as int) + ")"@
}

/// The message of a successful operation. Secure text is never part of it.
pub open spec fn success_message(op: Operation) -> Seq<char> {
    match op {
        Operation::TypeText { text, secure } => if secure {
            "Typed securely"@
        } else {
            "Typed: "@ + text@
        },
        Operation::Click { x, y, button } => "Clicked at "@ + point_text(x, y) + " with "@ + button_name(button),
        Operation::Focus { element_id } => "Focused: "@ + element_id@,
        Operation::ClickElement { name, .. } => "Clicked element: "@ + name@,
        Operation::DoubleClickElement { name } => "Double-clicked element: "@ + name@,
        Operation::TypeIntoElement { name, .. } => "Typed into element: "@ + name@,
        Operation::FocusElement { name } => "Focused element: "@ + name@,
        Operation::KeyPress { name, .. } => "Pressed key: "@ + name@,
        Operation::KeyCombo { text, .. } => "Pressed key combo: "@ + text@,
        Operation::KeySequence { keys } => "Pressed "@ + decimal_text(keys@.len() as int) + " keys"@,
        Operation::Drag { from_x, from_y, to_x, to_y } => "Dragged from "@ + point_text(from_x, from_y) + " to "@
            + point_text(to_x, to_y),
        Operation::Screenshot { .. } => "Screenshot taken"@,
        Operation::SetClipboard { .. } => "Clipboard set"@,
    }
}

/// The names of the methods tried, separated by commas.
pub open spec fn methods_text(ms: Seq<InputMethod>) -> Seq<char>
    decreases ms.len(),
{
    if ms.len() == 0 {
        Seq::empty()
    } else if ms.len() == 1 {
        method_name(ms[0])
    } else {
        methods_text(ms.drop_last()) + ", "@ + method_name(ms.last())
    }
}

/// The error when every method failed.
pub open spec fn exhausted_message(tried: Seq<InputMethod>) -> Seq<char> {
    "All input methods failed (tried: "@ + methods_text(tried) + ")"@
}

/// The error when the operation was cancelled or timed out.
pub open spec fn aborted_message() -> Seq<char> {
    "Operation cancelled or timed out"@
}

/// `v` is the object `{key: []}`.
pub open spec fn empty_list_payload(v: JsonValue, key: Seq<char>) -> bool {
    v is Object && v->Object_0@.len() == 1 && v->Object_0@[0].0@ == key && v->Object_0@[0].1 is Array
        && v->Object_0@[0].1->Array_0@.len() == 0
}

/// `v` is the object `{key: null}`.
pub open spec fn null_payload(v: JsonValue, key: Seq<char>) -> bool {
    v is Object && v->Object_0@.len() == 1 && v->Object_0@[0].0@ == key && v->Object_0@[0].1 == JsonValue::Null
}

/// Entry `i` of the object `v` is `key: Str(s)`.
pub open spec fn text_at(v: JsonValue, i: int, key: Seq<char>, s: Seq<char>) -> bool {
    v is Object && 0 <= i < v->Object_0@.len() && v->Object_0@[i].0@ == key && v->Object_0@[i].1 is Str
        && v->Object_0@[i].1->Str_0@ == s
}

/// Entry `i` of the object `v` is `key: Bool(b)`.
pub open spec fn bool_at(v: JsonValue, i: int, key: Seq<char>, b: bool) -> bool {
    v is Object && 0 <= i < v->Object_0@.len() && v->Object_0@[i].0@ == key && v->Object_0@[i].1
        == JsonValue::Bool(b)
}

/// `v` is `{"history": [...]}` with the texts of `entries`, in order.
pub open spec fn history_payload(v: JsonValue, entries: Seq<ClipboardEntry>) -> bool {
    v is Object && v->Object_0@.len() == 1 && v->Object_0@[0].0@ == "history"@ && v->Object_0@[0].1 is Array && {
        let items = v->Object_0@[0].1->Array_0@;
        items.len() == entries.len() && forall|i: int|
            0 <= i < items.len() ==> (#[trigger] items[i]) is Str && items[i]->Str_0 == entries[i].text
    }
}

/// The response is `Data` with a payload meeting `p`.
pub open spec fn data_reply(r: Dispatch) -> Option<JsonValue> {
    match r {
        Dispatch::Reply(Response::Data { data }) => Some(data),
        _ => None,
    }
}

/// The response is an `Error`.
pub open spec fn error_reply(r: Dispatch) -> bool {
    r matches Dispatch::Reply(Response::Error { .. })
}

/// The number of history entries a query with `limit` returns.
pub open spec fn history_count(limit: Option<usize>, len: nat) -> int {
    let l = match limit {
        Some(l) => l as int,
        None => DEFAULT_HISTORY_LIMIT as int,
    };
    if l < len {
        l
    } else {
        len as int
    }
}

fn push_method(out: &mut String, m: InputMethod)
    ensures
        final(out)@ == old(out)@ + method_name(m),
{
    let s = match m {
        InputMethod::Portal => "Portal",
        InputMethod::CompositorIPC => "CompositorIPC",
        InputMethod::Libei => "Libei",
        InputMethod::Ydotool => "Ydotool",
        InputMethod::XTest => "XTest",
    };
    push_str(out, s);
}

fn push_button(out: &mut String, b: ClickButton)
    ensures
        final(out)@ == old(out)@ + button_name(b),
{
    let s = match b {
        ClickButton::Left => "left",
        ClickButton::Right => "right",
        ClickButton::Middle => "middle",
    };
    push_str(out, s);
}

fn push_point(out: &mut String, x: i32, y: i32)
    ensures
        final(out)@ == old(out)@ + point_text(x, y),
{
    push_str(out, "(");
    push_decimal_i64(out, x as i64);
    push_str(out, ", ");
    push_decimal_i64(out, y as i64);
    push_str(out, ")");
    assert(final(out)@ =~= old(out)@ + point_text(x, y));
}

/// The message of a successful operation.
pub fn success_text(op: &Operation) -> (r: String)
    ensures
        r@ == success_message(*op),
{
    let mut m = String::new();
    match op {
        Operation::TypeText { text, secure } => {
            if *secure {
                push_str(&mut m, "Typed securely");
            } else {
                push_str(&mut m, "Typed: ");
                push_str(&mut m, text.as_str());
            }
        },
        Operation::Click { x, y, button } => {
            push_str(&mut m, "Clicked at ");
            push_point(&mut m, *x, *y);
            push_str(&mut m, " with ");
            push_button(&mut m, *button);
        },
        Operation::Focus { element_id } => {
            push_str(&mut m, "Focused: ");
            push_str(&mut m, element_id.as_str());
        },
        Operation::ClickElement { name, .. } => {
            push_str(&mut m, "Clicked element: ");
            push_str(&mut m, name.as_str());
        },
        Operation::DoubleClickElement { name } => {
            push_str(&mut m, "Double-clicked element: ");
            push_str(&mut m, name.as_str());
        },
        Operation::TypeIntoElement { name, .. } => {
            push_str(&mut m, "Typed into element: ");
            push_str(&mut m, name.as_str());
        },
        Operation::FocusElement { name } => {
            push_str(&mut m, "Focused element: ");
            push_str(&mut m, name.as_str());
        },
        Operation::KeyPress { name, .. } => {
            push_str(&mut m, "Pressed key: ");
            push_str(&mut m, name.as_str());
        },
        Operation::KeyCombo { text, .. } => {
            push_str(&mut m, "Pressed key combo: ");
            push_str(&mut m, text.as_str());
        },
        Operation::KeySequence { keys } => {
            push_str(&mut m, "Pressed ");
            push_decimal_u64(&mut m, keys.len() as u64);
            push_str(&mut m, " keys");
        },
        Operation::Drag { from_x, from_y, to_x, to_y } => {
            push_str(&mut m, "Dragged from ");
            push_point(&mut m, *from_x, *from_y);
            push_str(&mut m, " to ");
            push_point(&mut m, *to_x, *to_y);
        },
        Operation::Screenshot { .. } => {
            push_str(&mut m, "Screenshot taken");
        },
        Operation::SetClipboard { .. } => {
            push_str(&mut m, "Clipboard set");
        },
    }
    assert(m@ =~= success_message(*op));
    m
}

/// The names of the methods tried, separated by commas.
pub fn methods_list(tried: &[InputMethod]) -> (r: String)
    ensures
        r@ == methods_text(tried@),
{
    let mut out = String::new();
    let mut i: usize = 0;
    assert(tried@.take(0) =~= Seq::<InputMethod>::empty());
    while i < tried.len()
        invariant
            i <= tried@.len(),
            out@ == methods_text(tried@.take(i as int)),
        decreases tried@.len() - i,
    {
        assert(tried@.take(i + 1).drop_last() =~= tried@.take(i as int));
        if i > 0 {
            push_str(&mut out, ", ");
        }
        push_method(&mut out, tried[i]);
        assert(out@ =~= methods_text(tried@.take(i + 1)));
        i = i + 1;
    }
    assert(tried@.take(tried@.len() as int) =~= tried@);
    out
}

/// The response to an operation, from the executor's last step: the success
/// message, or an error that names every method tried, or the cancellation.
pub fn finish(op: &Operation, step: Step, tried: &[InputMethod]) -> (r: Response)
    requires
        !(step is Attempt),
    ensures
        match step {
            Step::Done(_) => r matches Response::Success { message } && message@ == success_message(*op),
            Step::Exhausted => r matches Response::Error { error } && error@ == exhausted_message(tried@),
            _ => r matches Response::Error { error } && error@ == aborted_message(),
        },
{
    match step {
        Step::Done(_) => Response::Success { message: success_text(op) },
        Step::Exhausted => {
            let mut e = String::from_str("All input methods failed (tried: ");
            push_str(&mut e, methods_list(tried).as_str());
            push_str(&mut e, ")");
            assert(e@ =~= exhausted_message(tried@));
            Response::Error { error: e }
        },
        _ => Response::Error { error: String::from_str("Operation cancelled or timed out") },
    }
}

fn entry(fs: &mut Vec<(String, JsonValue)>, key: &str, v: JsonValue)
    ensures
        final(fs)@.len() == old(fs)@.len() + 1,
        forall|i: int| 0 <= i < old(fs)@.len() ==> final(fs)@[i] == old(fs)@[i],
        final(fs)@.last().0@ == key@,
        final(fs)@.last().1 == v,
{
    fs.push((String::from_str(key), v));
}

fn empty_list(key: &str) -> (r: JsonValue)
    ensures
        empty_list_payload(r, key@),
{
    let mut fs: Vec<(String, JsonValue)> = Vec::new();
    entry(&mut fs, key, JsonValue::Array(Vec::new()));
    JsonValue::Object(fs)
}

fn null_entry(key: &str) -> (r: JsonValue)
    ensures
        null_payload(r, key@),
{
    let mut fs: Vec<(String, JsonValue)> = Vec::new();
    entry(&mut fs, key, JsonValue::Null);
    JsonValue::Object(fs)
}

fn parse_button(b: &Option<String>) -> (r: Option<ClickButton>)
    ensures
        r == button_of(opt_view(*b)),
{
    match b {
        None => Some(ClickButton::Left),
        Some(s) => if str_eq(s.as_str(), "left") {
            Some(ClickButton::Left)
        } else if str_eq(s.as_str(), "right") {
            Some(ClickButton::Right)
        } else if str_eq(s.as_str(), "middle") {
            Some(ClickButton::Middle)
        } else {
            None
        },
    }
}

fn parse_region(r: &Option<String>) -> (o: Option<ScreenshotRegion>)
    ensures
        o == region_of(opt_view(*r)),
{
    match r {
        None => Some(ScreenshotRegion::Fullscreen),
        Some(s) => if str_eq(s.as_str(), "fullscreen") {
            Some(ScreenshotRegion::Fullscreen)
        } else if str_eq(s.as_str(), "window") {
            Some(ScreenshotRegion::Window)
        } else {
            None
        },
    }
}

fn error_text(prefix: &str, detail: &str) -> (r: Response)
    ensures
        r matches Response::Error { error } && error@ == prefix@ + detail@,
{
    let mut e = String::from_str(prefix);
    push_str(&mut e, detail);
    Response::Error { error: e }
}

fn parse_keys(keys: &Vec<String>) -> (r: Result<Vec<Key>, usize>)
    ensures
        match r {
            Ok(ks) => ks@.len() == keys@.len() && (forall|i: int|
                0 <= i < keys@.len() ==> Some(#[trigger] ks@[i]) == key_of(keys@[i]@)) && (forall|i: int|
                0 <= i < keys@.len() ==> (#[trigger] key_of(keys@[i]@)) is Some),
            Err(i) => i < keys@.len() && key_of(keys@[i as int]@) is None,
        },
{
    let mut ks: Vec<Key> = Vec::new();
    let mut i: usize = 0;
    while i < keys.len()
        invariant
            i <= keys@.len(),
            ks@.len() == i,
            forall|j: int| 0 <= j < i ==> Some(#[trigger] ks@[j]) == key_of(keys@[j]@),
            forall|j: int| 0 <= j < i ==> (#[trigger] key_of(keys@[j]@)) is Some,
        decreases keys@.len() - i,
    {
        match key_from(keys[i].as_str()) {
            Some(k) => ks.push(k),
            None => return Err(i),
        }
        i = i + 1;
    }
    Ok(ks)
}

fn history_value(clipboard: &ClipboardClient, limit: Option<usize>) -> (r: JsonValue)
    ensures
        history_payload(r, clipboard.view().take(history_count(limit, clipboard.view().len()))),
{
    let l = match limit {
        Some(l) => l,
        None => DEFAULT_HISTORY_LIMIT,
    };
    let entries = clipboard.recent(l);
    let mut items: Vec<JsonValue> = Vec::new();
    let mut i: usize = 0;
    while i < entries.len()
        invariant
            i <= entries@.len(),
            items@.len() == i,
            forall|j: int| 0 <= j < i ==> (#[trigger] items@[j]) is Str && items@[j]->Str_0 == entries@[j].text,
        decreases entries@.len() - i,
    {
        items.push(JsonValue::Str(entries[i].text.clone()));
        i = i + 1;
    }
    let mut fs: Vec<(String, JsonValue)> = Vec::new();
    entry(&mut fs, "history", JsonValue::Array(items));
    JsonValue::Object(fs)
}

fn newest_text(clipboard: &ClipboardClient) -> (r: String)
    ensures
        r@ == if clipboard.view().len() > 0 {
            clipboard.view()[0].text@
        } else {
            Seq::<char>::empty()
        },
{
    let h = clipboard.history();
    if h.len() > 0 {
        h[0].text.clone()
    } else {
        String::new()
    }
}

/// Decides what to do with one request. Queries are answered from the
/// clipboard history and the detected session; `ClipboardSet` records its text
/// in the history and is performed; every other request becomes an operation,
/// unless a field names no known button, key, combination or region, which is
/// answered with an `Error`.
pub fn process_request(request: Request, clipboard: &mut ClipboardClient, session: &WaylandClient, now: u64) -> (r:
    Dispatch)
    ensures
        final(clipboard).max() == old(clipboard).max(),
        !(request is ClipboardSet) ==> final(clipboard).view() == old(clipboard).view(),
        match request {
            Request::Type { text } => r matches Dispatch::Perform(Operation::TypeText { text: t, secure }) && t
                == text && !secure,
            Request::TypeSecure { text } => r matches Dispatch::Perform(Operation::TypeText { text: t, secure })
                && t == text && secure,
            Request::Click { x, y } => r matches Dispatch::Perform(Operation::Click { x: a, y: b, button }) && a
                == x && b == y && button == ClickButton::Left,
            Request::ClickAt { x, y, button } => match button_of(opt_view(button)) {
                Some(btn) => r matches Dispatch::Perform(Operation::Click { x: a, y: b, button: c }) && a == x && b
                    == y && c == btn,
                None => error_reply(r),
            },
            Request::Focus { element_id } => r matches Dispatch::Perform(Operation::Focus { element_id: e }) && e
                == element_id,
            Request::ClickElement { name, button } => match button_of(opt_view(button)) {
                Some(btn) => r matches Dispatch::Perform(Operation::ClickElement { name: n, button: c }) && n == name
                    && c == btn,
                None => error_reply(r),
            },
            Request::DoubleClickElement { name } => r matches Dispatch::Perform(
                Operation::DoubleClickElement { name: n },
            ) && n == name,
            Request::TypeIntoElement { name, text, secure } => r matches Dispatch::Perform(
                Operation::TypeIntoElement { name: n, text: t, secure: s },
            ) && n == name && t == text && s == (secure == Some(true)),
            Request::FocusElement { name } => r matches Dispatch::Perform(Operation::FocusElement { name: n }) && n
                == name,
            Request::KeyPress { key } => match key_of(key@) {
                Some(k) => r matches Dispatch::Perform(Operation::KeyPress { key: k2, name }) && k2 == k && name
                    == key,
                None => error_reply(r),
            },
            Request::KeyCombo { combo } => match r {
                Dispatch::Perform(Operation::KeyCombo { combo: c, text }) => text == combo && combo_parses(combo@)
                    && Some(c.key) == key_of(split_tokens(combo@).last()) && c.modifiers@.len() == split_tokens(
                    combo@,
                ).len() - 1 && forall|i: int|
                    0 <= i < c.modifiers@.len() ==> Some(#[trigger] c.modifiers@[i]) == modifier_of(
                        lower_of(split_tokens(combo@)[i]),
                    ),
                Dispatch::Reply(Response::Error { .. }) => !combo_parses(combo@),
                _ => false,
            },
            Request::KeySequence { keys } => if forall|i: int| 0 <= i < keys@.len() ==> (#[trigger] key_of(keys@[i]@)) is Some {
                r matches Dispatch::Perform(Operation::KeySequence { keys: ks }) && ks@.len() == keys@.len()
                    && forall|i: int| 0 <= i < keys@.len() ==> Some(#[trigger] ks@[i]) == key_of(keys@[i]@)
            } else {
                error_reply(r)
            },
            Request::Drag { from_x, from_y, to_x, to_y } => r == Dispatch::Perform(
                Operation::Drag { from_x, from_y, to_x, to_y },
            ),
            Request::Screenshot { region, include_cursor } => match region_of(opt_view(region)) {
                Some(reg) => r == Dispatch::Perform(
                    Operation::Screenshot {
                        options: ScreenshotOptions {
                            region: reg,
                            include_cursor: include_cursor == Some(true),
                        },
                    },
                ),
                None => error_reply(r),
            },
            Request::ClipboardSet { content } => (r matches Dispatch::Perform(Operation::SetClipboard { content: c })
                && c == content) && exists|m: String|
                m@ == "text/plain"@ && final(clipboard).view() == recorded(
                    old(clipboard).view(),
                    ClipboardEntry { text: content, timestamp: now, mime_type: m },
                    old(clipboard).max(),
                ),
            Request::ListDesktops => data_reply(r) matches Some(d) && empty_list_payload(d, "desktops"@),
            Request::GetTaskHistory { .. } => data_reply(r) matches Some(d) && empty_list_payload(d, "tasks"@),
            Request::FindElement { .. } => data_reply(r) matches Some(d) && null_payload(d, "element"@),
            Request::GetFocusedElement => data_reply(r) matches Some(d) && null_payload(d, "element"@),
            Request::ClipboardGet => data_reply(r) matches Some(d) && d->Object_0@.len() == 1 && text_at(
                d,
                0,
                "content"@,
                if old(clipboard).view().len() > 0 {
                    old(clipboard).view()[0].text@
                } else {
                    Seq::<char>::empty()
                },
            ),
            Request::ClipboardHistory { limit } => data_reply(r) matches Some(d) && history_payload(
                d,
                old(clipboard).view().take(history_count(limit, old(clipboard).view().len())),
            ),
            Request::DetectCompositor => data_reply(r) matches Some(d) && d->Object_0@.len() == 3 && text_at(
                d,
                0,
                "compositor"@,
                compositor_name(session.compositor_view()),
            ) && bool_at(d, 1, "is_wayland"@, session.wayland_view()) && bool_at(
                d,
                2,
                "has_xwayland"@,
                session.xwayland_view(),
            ),
            Request::GetCapabilities => data_reply(r) matches Some(d) && d->Object_0@.len() == 6 && {
                let c = session.capabilities_view();
                bool_at(d, 0, "has_portal"@, c.has_portal) && bool_at(d, 1, "has_ipc"@, c.has_ipc) && bool_at(
                    d,
                    2,
                    "has_wlr_protocols"@,
                    c.has_wlr_protocols,
                ) && bool_at(d, 3, "supports_screenshots"@, c.supports_screenshots) && bool_at(
                    d,
                    4,
                    "supports_input"@,
                    c.supports_input,
                ) && bool_at(d, 5, "supports_clipboard"@, c.supports_clipboard)
            },
        },
{
    match request {
        Request::Type { text } => Dispatch::Perform(Operation::TypeText { text, secure: false }),
        Request::TypeSecure { text } => Dispatch::Perform(Operation::TypeText { text, secure: true }),
        Request::Click { x, y } => Dispatch::Perform(Operation::Click { x, y, button: ClickButton::Left }),
        Request::ClickAt { x, y, button } => match parse_button(&button) {
            Some(b) => Dispatch::Perform(Operation::Click { x, y, button: b }),
            None => Dispatch::Reply(error_text("Unknown button: ", button.unwrap().as_str())),
        },
        Request::Focus { element_id } => Dispatch::Perform(Operation::Focus { element_id }),
        Request::ClickElement { name, button } => match parse_button(&button) {
            Some(b) => Dispatch::Perform(Operation::ClickElement { name, button: b }),
            None => Dispatch::Reply(error_text("Unknown button: ", button.unwrap().as_str())),
        },
        Request::DoubleClickElement { name } => Dispatch::Perform(Operation::DoubleClickElement { name }),
        Request::TypeIntoElement { name, text, secure } => {
            let s = match secure {
                Some(b) => b,
                None => false,
            };
            Dispatch::Perform(Operation::TypeIntoElement { name, text, secure: s })
        },
        Request::FocusElement { name } => Dispatch::Perform(Operation::FocusElement { name }),
        Request::KeyPress { key } => match key_from(key.as_str()) {
            Some(k) => Dispatch::Perform(Operation::KeyPress { key: k, name: key }),
            None => Dispatch::Reply(error_text("Unknown key: ", key.as_str())),
        },
        Request::KeyCombo { combo } => match KeyCombo::parse(combo.as_str()) {
            Ok(c) => Dispatch::Perform(Operation::KeyCombo { combo: c, text: combo }),
            Err(_) => Dispatch::Reply(error_text("Invalid key combo: ", combo.as_str())),
        },
        Request::KeySequence { keys } => match parse_keys(&keys) {
            Ok(ks) => Dispatch::Perform(Operation::KeySequence { keys: ks }),
            Err(i) => Dispatch::Reply(error_text("Unknown key: ", keys[i].as_str())),
        },
        Request::Drag { from_x, from_y, to_x, to_y } => Dispatch::Perform(
            Operation::Drag { from_x, from_y, to_x, to_y },
        ),
        Request::Screenshot { region, include_cursor } => match parse_region(&region) {
            Some(reg) => {
                let cursor = match include_cursor {
                    Some(b) => b,
                    None => false,
                };
                Dispatch::Perform(Operation::Screenshot { options: ScreenshotOptions { region: reg, include_cursor: cursor } })
            },
            None => Dispatch::Reply(error_text("Unknown screenshot region: ", region.unwrap().as_str())),
        },
        Request::ClipboardSet { content } => {
            let mime = String::from_str("text/plain");
            let ghost m = mime;
            clipboard.add_to_history(content.clone(), mime, now);
            assert(clipboard.view() == recorded(
                old(clipboard).view(),
                ClipboardEntry { text: content, timestamp: now, mime_type: m },
                old(clipboard).max(),
            ));
            Dispatch::Perform(Operation::SetClipboard { content })
        },
        Request::ListDesktops => Dispatch::Reply(Response::Data { data: empty_list("desktops") }),
        Request::GetTaskHistory { .. } => Dispatch::Reply(Response::Data { data: empty_list("tasks") }),
        Request::FindElement { .. } => Dispatch::Reply(Response::Data { data: null_entry("element") }),
        Request::GetFocusedElement => Dispatch::Reply(Response::Data { data: null_entry("element") }),
        Request::ClipboardGet => {
            let mut fs: Vec<(String, JsonValue)> = Vec::new();
            entry(&mut fs, "content", JsonValue::Str(newest_text(clipboard)));
            Dispatch::Reply(Response::Data { data: JsonValue::Object(fs) })
        },
        Request::ClipboardHistory { limit } => Dispatch::Reply(Response::Data { data: history_value(clipboard, limit) }),
        Request::DetectCompositor => {
            let mut fs: Vec<(String, JsonValue)> = Vec::new();
            entry(&mut fs, "compositor", JsonValue::Str(session.compositor().name()));
            entry(&mut fs, "is_wayland", JsonValue::Bool(session.is_wayland()));
            entry(&mut fs, "has_xwayland", JsonValue::Bool(session.has_xwayland()));
            Dispatch::Reply(Response::Data { data: JsonValue::Object(fs) })
        },
        Request::GetCapabilities => {
            let c = session.capabilities();
            let mut fs: Vec<(String, JsonValue)> = Vec::new();
            entry(&mut fs, "has_portal", JsonValue::Bool(c.has_portal));
            entry(&mut fs, "has_ipc", JsonValue::Bool(c.has_ipc));
            entry(&mut fs, "has_wlr_protocols", JsonValue::Bool(c.has_wlr_protocols));
            entry(&mut fs, "supports_screenshots", JsonValue::Bool(c.supports_screenshots));
            entry(&mut fs, "supports_input", JsonValue::Bool(c.supports_input));
            entry(&mut fs, "supports_clipboard", JsonValue::Bool(c.supports_clipboard));
            Dispatch::Reply(Response::Data { data: JsonValue::Object(fs) })
        },
    }
}

} // verus!
