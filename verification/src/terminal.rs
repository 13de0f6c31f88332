//! Raw mode on the controlling terminal: what is captured, what is changed,
//! and what is put back.
//!
//! The attributes are read from and applied to the terminal by the caller.
//! The flags that stand for canonical input and for echo differ between
//! systems, so the caller names them.

use vstd::prelude::*;

verus! {

/// The attributes of a terminal.
#[derive(Debug)]
pub struct TerminalAttrs {
    pub input_flags: u32,
    pub output_flags: u32,
    pub control_flags: u32,
    pub local_flags: u32,
    pub line: u8,
    pub control_chars: Vec<u8>,
    pub input_speed: u32,
    pub output_speed: u32,
}

/// The local flags with the bits of `canonical` and `echo` cleared.
pub open spec fn raw_flags(local_flags: u32, canonical: u32, echo: u32) -> u32 {
    local_flags & !(canonical | echo)
}

/// The attributes that a terminal had before it entered raw mode.
#[derive(Debug)]
pub struct TerminalModeSnapshot {
    saved: TerminalAttrs,
}

impl TerminalModeSnapshot {
    /// The attributes that were captured.
    pub closed spec fn view(&self) -> TerminalAttrs {
        self.saved
    }
}

/// Keeps the one snapshot that can be outstanding: raw mode is entered once
/// and restored once, never nested.
#[derive(Debug)]
pub struct TerminalModeController {
    canonical: u32,
    echo: u32,
    active: Option<TerminalModeSnapshot>,
}

/// The abstract value of a controller: its two flags and, while raw mode is
/// on, the attributes to put back.
pub struct ControllerView {
    pub canonical: u32,
    pub echo: u32,
    pub saved: Option<TerminalAttrs>,
}

/// The controller once raw mode was entered from the attributes `current`.
pub open spec fn entered(c: ControllerView, current: TerminalAttrs) -> ControllerView {
    ControllerView { saved: Some(current), ..c }
}

/// The controller once raw mode was left.
pub open spec fn left(c: ControllerView) -> ControllerView {
    ControllerView { saved: None, ..c }
}

impl TerminalModeController {
    pub closed spec fn view(&self) -> ControllerView {
        ControllerView {
            canonical: self.canonical,
            echo: self.echo,
            saved: match self.active {
                Some(snapshot) => Some(snapshot@),
                None => None,
            },
        }
    }

    /// A controller for a terminal on which `canonical` and `echo` are the
    /// local flags of canonical input and of echo. Raw mode is off.
    pub fn new(canonical: u32, echo: u32) -> (r: TerminalModeController)
        ensures
            r@ == (ControllerView { canonical, echo, saved: None }),
    {
        TerminalModeController { canonical, echo, active: None }
    }

    /// Whether raw mode is on.
    pub fn is_raw(&self) -> (r: bool)
        ensures
            r == self@.saved is Some,
    {
        self.active.is_some()
    }

    /// Enters raw mode from the attributes `current`: keeps them, and gives
    /// the attributes to apply. While raw mode is on already nothing is
    /// kept, and `current` is handed back as the error.
    pub fn enter_raw(&mut self, current: TerminalAttrs) -> (r: Result<
        TerminalAttrs,
        TerminalAttrs,
    >)
        ensures
            match r {
                Ok(raw) => {
                    &&& old(self)@.saved is None
                    &&& final(self)@ == entered(old(self)@, current)
                    &&& raw.local_flags == raw_flags(
                        current.local_flags,
                        old(self)@.canonical,
                        old(self)@.echo,
                    )
                    &&& raw.input_flags == current.input_flags
                    &&& raw.output_flags == current.output_flags
                    &&& raw.control_flags == current.control_flags
                    &&& raw.line == current.line
                    &&& raw.control_chars@ == current.control_chars@
                    &&& raw.input_speed == current.input_speed
                    &&& raw.output_speed == current.output_speed
                },
                Err(given) => old(self)@.saved is Some && final(self)@ == old(self)@ && given
                    == current,
            },
    {
        if self.active.is_some() {
            return Err(current);
        }
        let raw = TerminalAttrs {
            input_flags: current.input_flags,
            output_flags: current.output_flags,
            control_flags: current.control_flags,
            local_flags: clear_flags(current.local_flags, self.canonical, self.echo),
            line: current.line,
            control_chars: current.control_chars.clone(),
            input_speed: current.input_speed,
            output_speed: current.output_speed,
        };
        self.active = Some(TerminalModeSnapshot { saved: current });
        Ok(raw)
    }

    /// Leaves raw mode: gives the attributes that `enter_raw` kept, exactly
    /// as they were, and keeps nothing. `None` while raw mode is off.
    pub fn restore(&mut self) -> (r: Option<TerminalAttrs>)
        ensures
            r == old(self)@.saved,
            final(self)@ == left(old(self)@),
    {
        match self.active.take() {
            Some(snapshot) => Some(snapshot.saved),
            None => None,
        }
    }
}

/// Clears the bits of `canonical` and `echo` in `local_flags`.
pub fn clear_flags(local_flags: u32, canonical: u32, echo: u32) -> (r: u32)
    ensures
        r == raw_flags(local_flags, canonical, echo),
{
    local_flags & !(canonical | echo)
}

/// In raw mode neither canonical input nor echo is on, and every other
/// local flag is as it was.
pub proof fn law_raw_clears_only_its_flags(local_flags: u32, canonical: u32, echo: u32)
    ensures
        raw_flags(local_flags, canonical, echo) & canonical == 0,
        raw_flags(local_flags, canonical, echo) & echo == 0,
        raw_flags(local_flags, canonical, echo) | (local_flags & (canonical | echo)) == local_flags,
        raw_flags(raw_flags(local_flags, canonical, echo), canonical, echo) == raw_flags(
            local_flags,
            canonical,
            echo,
        ),
{
    assert((local_flags & !(canonical | echo)) & canonical == 0) by (bit_vector);
    assert((local_flags & !(canonical | echo)) & echo == 0) by (bit_vector);
    assert((local_flags & !(canonical | echo)) | (local_flags & (canonical | echo)) == local_flags)
        by (bit_vector);
    assert((local_flags & !(canonical | echo)) & !(canonical | echo) == local_flags & !(canonical
        | echo)) by (bit_vector);
}

/// What is restored after raw mode was entered is what was there before,
/// whole and unchanged: entering keeps the attributes as they are, restoring
/// gives back what is kept, and the controller is then as it was before.
pub proof fn law_restore_returns_what_was_captured(c: ControllerView, current: TerminalAttrs)
    requires
        c.saved is None,
    ensures
        entered(c, current).saved == Some(current),
        left(entered(c, current)) == c,
{
}

} // verus!
