use vstd::prelude::*;
use vstd::string::StringExecFns;

verus! {

#[verifier::external_type_specification]
#[verifier::external_body]
pub struct ExAnyhowError(anyhow::Error);

/// How a window stacks against other windows.
#[derive(Debug, Clone, Copy, PartialEq, Eq, Structural)]
pub enum Level {
    Normal,
    AlwaysOnTop,
}

impl Default for Level {
    fn default() -> (l: Self)
        ensures
            l == Level::Normal,
    {
        Level::Normal
    }
}

/// Native window controls that the platform may or may not offer.
pub trait WindowLevelExt {
    fn set_level(&mut self, level: Level) -> Result<(), anyhow::Error>;

    fn set_click_through(&mut self, enabled: bool) -> Result<(), anyhow::Error>;
}

/// The text an `anyhow::Error` displays (its `Display`, as `to_string`
/// gives it).
pub uninterp spec fn error_display(e: anyhow::Error) -> Seq<char>;

/// An error carrying `message` (`anyhow::Error::msg`). The contract claims
/// only what the error displays: `msg` wraps the message, and displaying
/// the error writes the message and nothing else (anyhow's `display` adds
/// the causes only in the alternate form, and a message error has none).
#[verifier::external_body]
fn error_with_message(message: String) -> (e: anyhow::Error)
    ensures
        error_display(e) == message@,
{
    anyhow::Error::msg(message)
}

/// The message that says `operation` is not available on this platform.
pub open spec fn spec_unsupported_message(operation: Seq<char>) -> Seq<char> {
    operation + " are not implemented for this platform"@
}

pub fn unsupported_operation_message(operation: &str) -> (m: String)
    ensures
        m@ == spec_unsupported_message(operation@),
{
    let mut m = String::from_str(operation);
    m.append(" are not implemented for this platform");
    m
}

/// Always an error saying that `operation` is not implemented here.
pub fn unsupported_platform_operation(operation: &str) -> (r: Result<(), anyhow::Error>)
    ensures
        r matches Err(e) && error_display(e) == spec_unsupported_message(operation@),
{
    Err(error_with_message(unsupported_operation_message(operation)))
}

/// Setting the window level where the platform has no native levels: the
/// normal level needs nothing, any other is an error.
pub fn generic_set_level(level: Level) -> (r: Result<(), anyhow::Error>)
    ensures
        r is Ok <==> level == Level::Normal,
        r matches Err(e) ==> error_display(e) == spec_unsupported_message("window levels"@),
{
    match level {
        Level::Normal => Ok(()),
        Level::AlwaysOnTop => unsupported_platform_operation("window levels"),
    }
}

/// Click-through where the platform has none: turning it off needs nothing,
/// turning it on is an error.
pub fn generic_set_click_through(enabled: bool) -> (r: Result<(), anyhow::Error>)
    ensures
        r is Ok <==> !enabled,
        r matches Err(e) ==> error_display(e) == spec_unsupported_message("click-through"@),
{
    if !enabled {
        Ok(())
    } else {
        unsupported_platform_operation("click-through")
    }
}

/// The Win32 extended style bit of layered windows (`WS_EX_LAYERED`).
pub const WS_EX_LAYERED: u32 = 0x0008_0000;

/// The Win32 extended style bit that lets mouse input pass through
/// (`WS_EX_TRANSPARENT`).
pub const WS_EX_TRANSPARENT: u32 = 0x0000_0020;

/// The extended window style for `level`: always-on-top windows are layered
/// and let input through, normal ones are neither; other bits stay.
pub fn extended_style_for_level(ex_style: u32, level: Level) -> (s: u32)
    ensures
        s == match level {
            Level::Normal => ex_style & !WS_EX_LAYERED & !WS_EX_TRANSPARENT,
            Level::AlwaysOnTop => ex_style | WS_EX_LAYERED | WS_EX_TRANSPARENT,
        },
{
    match level {
        Level::Normal => ex_style & !WS_EX_LAYERED & !WS_EX_TRANSPARENT,
        Level::AlwaysOnTop => ex_style | WS_EX_LAYERED | WS_EX_TRANSPARENT,
    }
}

/// The extended window style with click-through on or off: always layered,
/// letting input through exactly when `enabled`; other bits stay.
pub fn extended_style_for_click_through(ex_style: u32, enabled: bool) -> (s: u32)
    ensures
        s == if enabled {
            ex_style | WS_EX_LAYERED | WS_EX_TRANSPARENT
        } else {
            (ex_style | WS_EX_LAYERED) & !WS_EX_TRANSPARENT
        },
{
    let mut desired = ex_style | WS_EX_LAYERED;
    if enabled {
        desired = desired | WS_EX_TRANSPARENT;
    } else {
        desired = desired & !WS_EX_TRANSPARENT;
    }
    desired
}

/// Setting click-through, then switching it off again, leaves every bit but
/// the layered one as it was; the layered bit is then set.
pub proof fn lemma_click_through_round_trip(ex_style: u32)
    ensures
        ({
            let on = ex_style | WS_EX_LAYERED | WS_EX_TRANSPARENT;
            let off = (on | WS_EX_LAYERED) & !WS_EX_TRANSPARENT;
            &&& off & WS_EX_LAYERED == WS_EX_LAYERED
            &&& off & WS_EX_TRANSPARENT == 0
            &&& off & !WS_EX_LAYERED & !WS_EX_TRANSPARENT == ex_style & !WS_EX_LAYERED & !WS_EX_TRANSPARENT
        }),
{
    let l = WS_EX_LAYERED;
    let t = WS_EX_TRANSPARENT;
    assert(l == 0x0008_0000u32 && t == 0x20u32);
    assert(((ex_style | 0x0008_0000u32 | 0x20u32) | 0x0008_0000u32) & !0x20u32 & 0x0008_0000u32 == 0x0008_0000u32)
        by (bit_vector);
    assert(((ex_style | 0x0008_0000u32 | 0x20u32) | 0x0008_0000u32) & !0x20u32 & 0x20u32 == 0u32) by (bit_vector);
    assert(((ex_style | 0x0008_0000u32 | 0x20u32) | 0x0008_0000u32) & !0x20u32 & !0x0008_0000u32 & !0x20u32
        == ex_style & !0x0008_0000u32 & !0x20u32) by (bit_vector);
}

} // verus!
