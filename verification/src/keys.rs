//! Synthetic key reports: what the virtual keyboard is told when a button is
//! pressed or released.

use vstd::prelude::*;

verus! {

/// One record for the virtual keyboard: an event type, a code within that
/// type and a value. The time stamp of a record is always zero and is left out.
#[derive(Clone, Copy, Debug, PartialEq, Eq, Structural)]
pub struct InputEvent {
    pub kind: u16,
    pub code: u16,
    pub value: i32,
}

/// Event type of key records.
pub open spec fn spec_key_kind() -> u16 {
    1
}

/// Event type of synchronisation records.
pub open spec fn spec_sync_kind() -> u16 {
    0
}

/// Code of the synchronisation record that closes a report.
pub open spec fn spec_report_code() -> u16 {
    0
}

/// Code of the key that switches layers.
pub open spec fn spec_layer_key() -> u32 {
    0x1d0
}

/// The complete report for one key edge: the key record, then the marker that
/// closes the report.
pub open spec fn spec_key_report(code: u16, value: i32) -> Seq<InputEvent> {
    seq![
        InputEvent { kind: spec_key_kind(), code, value },
        InputEvent { kind: spec_sync_kind(), code: spec_report_code(), value: 0 },
    ]
}

/// The value that a key record carries for a pressed or a released key.
pub open spec fn spec_key_value(active: bool) -> i32 {
    if active {
        1
    } else {
        0
    }
}

/// The number of `input_linux::EventKind::Key`. The crate defines it as the
/// kernel's `EV_KEY`, which is 1.
#[verifier::external_body]
fn key_kind() -> (kind: u16)
    ensures
        kind == spec_key_kind(),
{
    input_linux::EventKind::Key as u16
}

/// The number of `input_linux::EventKind::Synchronize`. The crate defines it
/// as the kernel's `EV_SYN`, which is 0.
#[verifier::external_body]
fn sync_kind() -> (kind: u16)
    ensures
        kind == spec_sync_kind(),
{
    input_linux::EventKind::Synchronize as u16
}

/// The number of `input_linux::SynchronizeKind::Report`. The crate defines it
/// as the kernel's `SYN_REPORT`, which is 0.
#[verifier::external_body]
fn report_code() -> (code: u16)
    ensures
        code == spec_report_code(),
{
    input_linux::SynchronizeKind::Report as u16
}

/// The number of `input_linux::Key::Fn`. The crate defines it as the kernel's
/// `KEY_FN`, which is 0x1d0.
#[verifier::external_body]
fn fn_key() -> (code: u32)
    ensures
        code == spec_layer_key(),
{
    input_linux::Key::Fn as u32
}

/// Whether `code` is the key that switches layers.
pub fn is_layer_key(code: u32) -> (r: bool)
    ensures
        r == (code == spec_layer_key()),
{
    code == fn_key()
}

/// Appends one record to the pending output.
pub fn emit(sink: &mut Vec<InputEvent>, ty: u16, code: u16, value: i32)
    ensures
        final(sink)@ == old(sink)@.push(InputEvent { kind: ty, code, value }),
{
    sink.push(InputEvent { kind: ty, code, value });
}

/// Appends the complete report for one key edge: the key record with `value`,
/// then the marker that closes the report.
pub fn toggle_key(sink: &mut Vec<InputEvent>, code: u16, value: i32)
    ensures
        final(sink)@ == old(sink)@ + spec_key_report(code, value),
{
    emit(sink, key_kind(), code, value);
    emit(sink, sync_kind(), report_code(), 0);
    assert(sink@ =~= old(sink)@ + spec_key_report(code, value));
}

} // verus!
