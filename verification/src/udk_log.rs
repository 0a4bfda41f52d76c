//! Diagnostics through the host's own log: what to call, and with which
//! text. The call itself is made by whoever may jump into the host.
use crate::dll::HostImage;
use crate::hook::{locate, spec_locate, HookError};
use crate::udk_offsets::{LogicalName, OffsetTable};
use vstd::prelude::*;
use vstd::string::*;

verus! {

/// The kinds of message that the host's log knows.
#[derive(Clone, Copy, Debug, PartialEq, Eq, Structural)]
pub enum LogType {
    Init,
    Warning,
}

impl LogType {
    /// The number by which the host knows the kind.
    pub open spec fn spec_code(&self) -> u32 {
        match self {
            LogType::Init => 0x2fa,
            LogType::Warning => 0x2ff,
        }
    }

    /// The number by which the host knows the kind.
    #[verifier::when_used_as_spec(spec_code)]
    pub fn code(&self) -> (r: u32)
        ensures
            r == self.spec_code(),
    {
        match self {
            LogType::Init => 0x2fa,
            LogType::Warning => 0x2ff,
        }
    }
}

/// The UTF-16 code units of one character: itself below 0x10000, a
/// surrogate pair from there on.
pub open spec fn utf16_units(c: char) -> Seq<u16> {
    let code = c as u32;
    if code < 0x1_0000 {
        seq![code as u16]
    } else {
        seq![
            (0xD800 + (code - 0x1_0000) / 0x400) as u16,
            (0xDC00 + (code - 0x1_0000) % 0x400) as u16,
        ]
    }
}

/// The UTF-16 encoding of a text.
pub open spec fn utf16(text: Seq<char>) -> Seq<u16>
    decreases text.len(),
{
    if text.len() == 0 {
        Seq::empty()
    } else {
        utf16(text.drop_last()) + utf16_units(text.last())
    }
}

/// A text as a wide string that ends with a zero unit. A text with a zero
/// anywhere but at its end has no such form; a zero at the end serves as
/// the terminator.
pub open spec fn wide_c_string(text: Seq<char>) -> Option<Seq<u16>> {
    let units = utf16(text);
    if exists|i: int| 0 <= i < units.len() - 1 && units[i] == 0 {
        None
    } else if units.len() > 0 && units.last() == 0 {
        Some(units)
    } else {
        Some(units.push(0))
    }
}

/// Every character of the text is not zero and fits one UTF-16 unit.
pub open spec fn is_plain_text(text: Seq<char>) -> bool {
    forall|i: int| 0 <= i < text.len() ==> 0 < (#[trigger] text[i]) as u32 && (text[i] as u32) < 0x1_0000
}

/// The UTF-16 form of a plain text has one unit for each character, the
/// character's own number, and no zero among them.
pub proof fn lemma_utf16_of_plain_text(text: Seq<char>)
    requires
        is_plain_text(text),
    ensures
        utf16(text).len() == text.len(),
        forall|i: int| 0 <= i < text.len() ==> (#[trigger] utf16(text)[i]) == text[i] as u32,
        wide_c_string(text) == Some(utf16(text).push(0)),
    decreases text.len(),
{
    if text.len() > 0 {
        let head = text.drop_last();
        assert forall|i: int| 0 <= i < head.len() implies 0 < (#[trigger] head[i]) as u32 && (
        head[i] as u32) < 0x1_0000 by {
            assert(head[i] == text[i]);
        }
        lemma_utf16_of_plain_text(head);
        let last = text.last();
        assert(last == text[text.len() - 1]);
        assert(utf16_units(last) =~= seq![(last as u32) as u16]);
        assert(utf16(text) == utf16(head) + utf16_units(last));
        assert forall|i: int| 0 <= i < text.len() implies (#[trigger] utf16(text)[i])
            == text[i] as u32 by {
            if i < head.len() {
                assert(utf16(text)[i] == utf16(head)[i]);
                assert(head[i] == text[i]);
            }
        }
    }
    let units = utf16(text);
    assert(!(exists|i: int| 0 <= i < units.len() - 1 && units[i] == 0)) by {
        if exists|i: int| 0 <= i < units.len() - 1 && units[i] == 0 {
            let i = choose|i: int| 0 <= i < units.len() - 1 && units[i] == 0;
            assert(units[i] == text[i] as u32);
        }
    }
    if units.len() > 0 {
        assert(units.last() == text[text.len() - 1] as u32);
    }
}

/// Encodes a text with `widestring`'s `U16CString::from_str` and takes the
/// units out with `into_vec_with_nul`. The crate encodes as UTF-16, refuses
/// a zero unit before the last position, and ends the string with one zero
/// unit.
#[verifier::external_body]
pub(crate) fn to_wide_c_string(text: &str) -> (r: Option<Vec<u16>>)
    ensures
        (match r {
            Some(units) => wide_c_string(text@) == Some(units@),
            None => wide_c_string(text@) is None,
        }),
{
    match widestring::U16CString::from_str(text) {
        Ok(wide) => Some(wide.into_vec_with_nul()),
        Err(_) => None,
    }
}

/// Why a message could not be prepared for the host's log.
#[derive(Clone, Copy, Debug, PartialEq, Eq, Structural)]
pub enum LogError {
    /// The log object or the log function could not be found in the image.
    Unresolved(HookError),
    /// The message holds a zero character before its end.
    InteriorNul,
}

/// A call of the host's log function.
#[derive(Clone, Debug)]
pub struct LogCall {
    /// Address of the host's log function.
    pub function: usize,
    /// Address of the host's log object, the function's first argument.
    pub object: usize,
    /// The kind of message, as the host numbers it.
    pub severity: u32,
    /// The text, in UTF-16 and ended by a zero unit.
    pub text: Vec<u16>,
}

/// The text that reaches the host's log for a message.
pub open spec fn log_text(msg: Seq<char>) -> Seq<char> {
    "TotemArts Extensions: "@ + msg
}

/// Whether a message can be logged through the given image and table, and
/// if not, why: the log object is looked for first, then the log function,
/// then the text is encoded.
pub open spec fn log_outcome(image: HostImage, table: OffsetTable, msg: Seq<char>) -> Result<
    Seq<u16>,
    LogError,
> {
    match spec_locate(image, table, LogicalName::DebugLog, 1) {
        Err(e) => Err(LogError::Unresolved(e)),
        Ok(_) => match spec_locate(image, table, LogicalName::DebugFn, 1) {
            Err(e) => Err(LogError::Unresolved(e)),
            Ok(_) => match wide_c_string(log_text(msg)) {
                None => Err(LogError::InteriorNul),
                Some(text) => Ok(text),
            },
        },
    }
}

/// Prepares a message for the host's log: the addresses of the log object
/// and the log function in the located image, the kind of the message, and
/// the message behind the shim's prefix as a wide string.
pub fn log(image: &HostImage, table: &OffsetTable, typ: LogType, msg: &str) -> (r: Result<
    LogCall,
    LogError,
>)
    requires
        image.wf(),
    ensures
        (match log_outcome(*image, *table, msg@) {
            Ok(text) => r matches Ok(call) && call.text@ == text && call.severity
                == typ.spec_code() && Ok::<usize, HookError>(call.object) == spec_locate(
                *image,
                *table,
                LogicalName::DebugLog,
                1,
            ) && Ok::<usize, HookError>(call.function) == spec_locate(
                *image,
                *table,
                LogicalName::DebugFn,
                1,
            ),
            Err(e) => r matches Err(f) && f == e,
        }),
{
    let object = match locate(image, table, LogicalName::DebugLog, 1) {
        Err(e) => {
            return Err(LogError::Unresolved(e));
        },
        Ok(address) => address,
    };
    let function = match locate(image, table, LogicalName::DebugFn, 1) {
        Err(e) => {
            return Err(LogError::Unresolved(e));
        },
        Ok(address) => address,
    };
    let mut text = String::from_str("TotemArts Extensions: ");
    text.append(msg);
    match to_wide_c_string(text.as_str()) {
        None => Err(LogError::InteriorNul),
        Some(units) => Ok(LogCall { function, object, severity: typ.code(), text: units }),
    }
}

/// What a diagnostic of the shim turns into: the call of the host's log
/// and, in a debug build, the line for the platform's debug output.
#[derive(Clone, Debug)]
pub struct DebugLog {
    pub host: LogCall,
    /// The message and a line break as a wide string, for a debug build.
    pub debugger: Option<Vec<u16>>,
}

/// The line that a diagnostic leaves on the debug output: none outside a
/// debug build, else the message and a line break as a wide string.
pub open spec fn debug_line(msg: Seq<char>, debug_build: bool) -> Result<
    Option<Seq<u16>>,
    LogError,
> {
    if !debug_build {
        Ok(None)
    } else {
        match wide_c_string(msg + "\n"@) {
            None => Err(LogError::InteriorNul),
            Some(line) => Ok(Some(line)),
        }
    }
}

/// Prepares a diagnostic: the message goes to the host's log as an `Init`
/// message, and in a debug build also to the debug output, with a line
/// break behind it.
pub fn debug_log(image: &HostImage, table: &OffsetTable, msg: &str, debug_build: bool) -> (r:
    Result<DebugLog, LogError>)
    requires
        image.wf(),
    ensures
        (match (log_outcome(*image, *table, msg@), debug_line(msg@, debug_build)) {
            (Err(e), _) => r matches Err(f) && f == e,
            (Ok(_), Err(e)) => r matches Err(f) && f == e,
            (Ok(text), Ok(line)) => r matches Ok(out) && out.host.text@ == text && (match line {
                Some(units) => out.debugger matches Some(d) && d@ == units,
                None => out.debugger is None,
            }),
        }),
        r matches Ok(out) ==> out.host.severity == LogType::Init.spec_code() && Ok::<
            usize,
            HookError,
        >(out.host.object) == spec_locate(*image, *table, LogicalName::DebugLog, 1) && Ok::<
            usize,
            HookError,
        >(out.host.function) == spec_locate(*image, *table, LogicalName::DebugFn, 1),
{
    let host = match log(image, table, LogType::Init, msg) {
        Err(e) => {
            return Err(e);
        },
        Ok(call) => call,
    };
    if !debug_build {
        return Ok(DebugLog { host, debugger: None });
    }
    let mut line = String::from_str(msg);
    line.append("\n");
    match to_wide_c_string(line.as_str()) {
        None => Err(LogError::InteriorNul),
        Some(units) => Ok(DebugLog { host, debugger: Some(units) }),
    }
}

} // verus!
