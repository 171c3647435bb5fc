use vstd::prelude::*;

use crate::hotkey::{target_to_ui_label, target_ui_label, HotKey, KeyBindingTarget};
use crate::label::{append_decimal, decimal};
use crate::state::{apply_pending_bind, pending_bind_step, set_notice, SharedState, StateView};

verus! {

/// Why a request from the user interface was refused.
#[derive(Clone, Copy, Debug, PartialEq, Eq, Structural)]
pub enum CommandError {
    /// The binding target is neither `inventory` nor `toggle`.
    InvalidBindTarget,
    /// The key code lies outside `1..=255`.
    InvalidKeyCode,
}

/// The message that a refusal is reported with.
pub open spec fn error_message(e: CommandError) -> Seq<char> {
    match e {
        CommandError::InvalidBindTarget => "Invalid bind target"@,
        CommandError::InvalidKeyCode => "Invalid key code"@,
    }
}

impl CommandError {
    /// Returns the message that the refusal is reported with.
    pub fn message(&self) -> (m: String)
        ensures
            m@ == error_message(*self),
    {
        match self {
            CommandError::InvalidBindTarget => String::from_str("Invalid bind target"),
            CommandError::InvalidKeyCode => String::from_str("Invalid key code"),
        }
    }
}

/// The binding target that the user interface names by `name`, if any.
pub open spec fn bind_target_named(name: Seq<char>) -> Option<KeyBindingTarget> {
    if name == "inventory"@ {
        Option::Some(KeyBindingTarget::Inventory)
    } else if name == "toggle"@ {
        Option::Some(KeyBindingTarget::Toggle)
    } else {
        Option::None
    }
}

/// `cps` kept within 1 to 100 clicks per second.
pub open spec fn clamp_cps(cps: u32) -> u32 {
    if cps < 1 {
        1
    } else if cps > 100 {
        100
    } else {
        cps
    }
}

/// The state after the speed was set to `cps` (kept within 1 to 100).
pub open spec fn set_cps_step(s: StateView, cps: u32) -> StateView {
    StateView {
        cps: clamp_cps(cps),
        notice: "Speed set to "@ + decimal(clamp_cps(cps) as nat) + " CPS."@,
        ..s
    }
}

/// The state after the user interface started or stopped the autoclick.
pub open spec fn set_running_step(s: StateView, running: bool) -> StateView {
    if running {
        StateView {
            running: true,
            inv_paused: false,
            notice: "Autoclick enabled from UI."@,
            ..s
        }
    } else {
        StateView { running: false, notice: "Autoclick disabled from UI."@, ..s }
    }
}

/// The notice that asks for the key of a rebinding.
pub open spec fn press_key_notice(target: KeyBindingTarget) -> Seq<char> {
    "Press any key to change "@ + target_ui_label(target) + ". Escape cancels."@
}

/// The state after a rebinding of `target` began.
pub open spec fn begin_key_bind_step(s: StateView, target: KeyBindingTarget) -> StateView {
    StateView {
        pending_bind: Option::Some(target),
        notice: press_key_notice(target),
        ..s
    }
}

/// The outcome of a request to rebind the target named `name` to the key
/// `key_code` at once.
pub open spec fn set_key_bind_step(s: StateView, name: Seq<char>, key_code: u32) -> Result<
    StateView,
    CommandError,
> {
    if !(1 <= key_code <= 255) {
        Result::Err(CommandError::InvalidKeyCode)
    } else {
        match bind_target_named(name) {
            Option::None => Result::Err(CommandError::InvalidBindTarget),
            Option::Some(target) => Result::Ok(
                pending_bind_step(
                    StateView { pending_bind: Option::Some(target), ..s },
                    HotKey(key_code),
                ).0,
            ),
        }
    }
}

/// Reads the name of a binding target: `inventory` or `toggle`.
pub fn parse_bind_target(name: &String) -> (target: Option<KeyBindingTarget>)
    ensures
        target == bind_target_named(name@),
{
    if *name == String::from_str("inventory") {
        Option::Some(KeyBindingTarget::Inventory)
    } else if *name == String::from_str("toggle") {
        Option::Some(KeyBindingTarget::Toggle)
    } else {
        Option::None
    }
}

/// Sets the speed, kept within 1 to 100 clicks per second, and says so.
pub fn set_cps(inner: &mut SharedState, cps: u32)
    ensures
        final(inner)@ == set_cps_step(old(inner)@, cps),
{
    let clamped = if cps < 1 {
        1
    } else if cps > 100 {
        100
    } else {
        cps
    };
    inner.cps = clamped;
    let mut notice = String::from_str("Speed set to ");
    append_decimal(&mut notice, clamped);
    notice.append(" CPS.");
    set_notice(inner, notice);
}

/// Starts or stops the autoclick from the user interface. Starting it ends an
/// inventory pause.
pub fn set_running(inner: &mut SharedState, running: bool)
    ensures
        final(inner)@ == set_running_step(old(inner)@, running),
{
    inner.running = running;
    if running {
        inner.inv_paused = false;
        set_notice(inner, String::from_str("Autoclick enabled from UI."));
    } else {
        set_notice(inner, String::from_str("Autoclick disabled from UI."));
    }
}

/// Begins the rebinding of the target named `name`: the next released key
/// completes it. An unknown name is refused and changes nothing.
pub fn begin_key_bind(inner: &mut SharedState, name: &String) -> (r: Result<(), CommandError>)
    ensures
        match bind_target_named(name@) {
            Option::Some(target) => r is Ok && final(inner)@ == begin_key_bind_step(
                old(inner)@,
                target,
            ),
            Option::None => r == Result::<(), CommandError>::Err(CommandError::InvalidBindTarget)
                && final(inner)@ == old(inner)@,
        },
{
    let target = match parse_bind_target(name) {
        Option::Some(target) => target,
        Option::None => {
            return Result::Err(CommandError::InvalidBindTarget);
        },
    };
    inner.pending_bind = Option::Some(target);
    let notice = String::from_str("Press any key to change ")
        .concat(target_to_ui_label(target))
        .concat(". Escape cancels.");
    set_notice(inner, notice);
    Result::Ok(())
}

/// Rebinds the target named `name` to the key with code `key_code` at once, as
/// if that key had been released during a rebinding. A key code outside
/// `1..=255` or an unknown name is refused and changes nothing.
pub fn set_key_bind(inner: &mut SharedState, name: &String, key_code: u32) -> (r: Result<
    (),
    CommandError,
>)
    ensures
        match set_key_bind_step(old(inner)@, name@, key_code) {
            Result::Ok(s) => r is Ok && final(inner)@ == s,
            Result::Err(e) => r == Result::<(), CommandError>::Err(e) && final(inner)@ == old(
                inner,
            )@,
        },
{
    if !(1 <= key_code && key_code <= 255) {
        return Result::Err(CommandError::InvalidKeyCode);
    }
    let target = match parse_bind_target(name) {
        Option::Some(target) => target,
        Option::None => {
            return Result::Err(CommandError::InvalidBindTarget);
        },
    };
    inner.pending_bind = Option::Some(target);
    let _ = apply_pending_bind(inner, HotKey(key_code));
    Result::Ok(())
}

} // verus!
