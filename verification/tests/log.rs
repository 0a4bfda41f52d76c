use udk_shim::dll::{Arch, HostImage};
use udk_shim::hook::HookError;
use udk_shim::udk_log::{debug_log, log, LogError, LogType};
use udk_shim::udk_offsets::OffsetTable;
use udk_shim::xaudio27::dispatch::stub_message;
use udk_shim::xaudio27::table::{Shape, Slot};

const BASE: usize = 0x1_4000_0000;

fn host() -> HostImage {
    HostImage::new(BASE, 0x0400_0000).unwrap()
}

fn wide(text: &str) -> Vec<u16> {
    let mut units: Vec<u16> = text.encode_utf16().collect();
    units.push(0);
    units
}

#[test]
fn log_kinds_have_the_numbers_of_the_host() {
    assert_eq!(LogType::Init.code(), 0x2fa);
    assert_eq!(LogType::Warning.code(), 0x2ff);
}

#[test]
fn message_is_sent_behind_the_prefix_as_a_wide_string() {
    let table = OffsetTable::for_arch(Arch::X86_64);
    let call = log(&host(), &table, LogType::Warning, "hello").unwrap();
    assert_eq!(call.object, BASE + 0x0355_1720);
    assert_eq!(call.function, BASE + 0x0024_6A20);
    assert_eq!(call.severity, 0x2ff);
    assert_eq!(call.text, wide("TotemArts Extensions: hello"));
    assert_eq!(call.text.len(), 28);
    assert_eq!(call.text[0], 0x54);
    assert_eq!(call.text[27], 0);
}

#[test]
fn characters_beyond_the_basic_plane_take_two_units() {
    let table = OffsetTable::for_arch(Arch::X86_64);
    let call = log(&host(), &table, LogType::Init, "\u{1F50A}\u{E9}").unwrap();
    let n = call.text.len();
    assert_eq!(&call.text[n - 4..], &[0xD83D, 0xDD0A, 0x00E9, 0]);
    assert_eq!(call.text, wide("TotemArts Extensions: \u{1F50A}\u{E9}"));
}

#[test]
fn zero_inside_the_message_is_refused() {
    let table = OffsetTable::for_arch(Arch::X86_64);
    assert_eq!(
        log(&host(), &table, LogType::Init, "a\0b").err(),
        Some(LogError::InteriorNul)
    );
    let ended = log(&host(), &table, LogType::Init, "ab\0").unwrap();
    assert_eq!(ended.text, wide("TotemArts Extensions: ab"));
    let empty = log(&host(), &table, LogType::Init, "").unwrap();
    assert_eq!(empty.text, wide("TotemArts Extensions: "));
}

#[test]
fn log_needs_both_addresses() {
    let mut table = OffsetTable::for_arch(Arch::X86);
    let small = HostImage::new(BASE, 0x0100_0000).unwrap();
    assert_eq!(
        log(&small, &table, LogType::Init, "x").err(),
        Some(LogError::Unresolved(HookError::OutsideImage))
    );
    table.debug_fn = None;
    assert_eq!(
        log(&host(), &table, LogType::Init, "x").err(),
        Some(LogError::Unresolved(HookError::NoSuchOffset))
    );
    table.debug_log = None;
    assert_eq!(
        log(&host(), &table, LogType::Init, "a\0b").err(),
        Some(LogError::Unresolved(HookError::NoSuchOffset))
    );
    let x86 = log(&host(), &OffsetTable::for_arch(Arch::X86), LogType::Init, "x").unwrap();
    assert_eq!(x86.object, BASE + 0x029a_31a8);
    assert_eq!(x86.function, BASE + 0x0021_c500);
}

#[test]
fn diagnostics_reach_the_debugger_in_debug_builds_only() {
    let table = OffsetTable::for_arch(Arch::X86_64);
    let release = debug_log(&host(), &table, "note", false).unwrap();
    assert_eq!(release.host.severity, 0x2fa);
    assert_eq!(release.host.text, wide("TotemArts Extensions: note"));
    assert_eq!(release.debugger, None);
    let debug = debug_log(&host(), &table, "note", true).unwrap();
    assert_eq!(debug.host.text, wide("TotemArts Extensions: note"));
    assert_eq!(debug.debugger, Some(wide("note\n")));
    assert_eq!(debug_log(&host(), &table, "no\0te", true).err(), Some(LogError::InteriorNul));
    assert_eq!(debug_log(&host(), &table, "note\0", true).err(), Some(LogError::InteriorNul));
    assert!(debug_log(&host(), &table, "note\0", false).is_ok());
}

#[test]
fn stub_diagnostic_names_interface_and_entry() {
    assert_eq!(
        stub_message(Shape::SourceVoice, Slot::SetOutputVoices),
        "HOOK: unimplemented: IXAudio27SourceVoice::SetOutputVoices"
    );
    assert_eq!(
        stub_message(Shape::Engine, Slot::RegisterForCallbacks),
        "HOOK: unimplemented: IXAudio27::RegisterForCallbacks"
    );
    assert_eq!(
        stub_message(Shape::MasteringVoice, Slot::GetOutputMatrix),
        "HOOK: unimplemented: IXAudio27MasteringVoice::GetOutputMatrix"
    );
    assert_eq!(Shape::SubmixVoice.interface_name(), "IXAudio27SubmixVoice");
    assert_eq!(Shape::Callbacks.interface_name(), "IXAudio27Callbacks");
    assert_eq!(Slot::OnCriticalError.name(), "OnCriticalError");
}
