//! Reset strategies and the action sequences they perform.
//!
//! A panel may be reset through a GPIO pin of either polarity, through a
//! transport side-channel, through a software command, or not at all. The
//! strategy decides a fixed sequence of pin/bus/delay actions; performing
//! those actions is I/O and stays with the code that owns the pin, the bus
//! and the clock.

use vstd::prelude::*;

use crate::panel::initseq::{HostAction, HostActionV, actions_view};

verus! {

/// Dummy pin type for when no reset pin is used.
#[derive(Debug, Clone, Copy, PartialEq, Eq)]
pub struct NoResetPin {}

/// How, if at all, the panel's reset is driven.
pub enum LCDResetOption<P> {
    /// Reset via a GPIO pin, asserted high.
    PinHigh(P),
    /// Reset via a GPIO pin, asserted low.
    PinLow(P),
    /// Reset via the display bus's side-channel.
    Bus,
    /// Reset by issuing a software reset command.
    Software,
    /// No hardware reset.
    Disabled,
}

impl<P> LCDResetOption<P> {
    /// Creates a pin reset option with the common active-low polarity.
    pub fn new_pin(pin: P) -> (r: LCDResetOption<P>)
        ensures
            r == LCDResetOption::PinLow(pin),
    {
        LCDResetOption::PinLow(pin)
    }

    /// Creates a pin reset option with the given active level.
    pub fn new_pin_with_level(pin: P, reset_level: bool) -> (r: LCDResetOption<P>)
        ensures
            reset_level ==> r == LCDResetOption::PinHigh(pin),
            !reset_level ==> r == LCDResetOption::PinLow(pin),
    {
        if reset_level {
            LCDResetOption::PinHigh(pin)
        } else {
            LCDResetOption::PinLow(pin)
        }
    }

    /// Releases the pin, if one is held.
    pub fn release(self) -> (r: Option<P>)
        ensures
            self matches LCDResetOption::PinHigh(p) ==> r == Some(p),
            self matches LCDResetOption::PinLow(p) ==> r == Some(p),
            self is Bus || self is Software || self is Disabled ==> r is None,
    {
        match self {
            LCDResetOption::PinHigh(pin) => Some(pin),
            LCDResetOption::PinLow(pin) => Some(pin),
            LCDResetOption::Bus => None,
            LCDResetOption::Software => None,
            LCDResetOption::Disabled => None,
        }
    }

    /// Whether no reset is performed at all.
    pub fn is_disabled(&self) -> (r: bool)
        ensures
            r == (*self is Disabled),
    {
        matches!(self, LCDResetOption::Disabled)
    }

    /// The pin level that drives the reset line to the given logical state,
    /// for the pin strategies: `Some(true)` for high, `Some(false)` for low,
    /// `None` where no pin is involved.
    pub fn reset_pin_level(&self, reset: bool) -> (r: Option<bool>)
        ensures
            *self is PinHigh ==> r == Some(reset),
            *self is PinLow ==> r == Some(!reset),
            *self is Bus || *self is Software || *self is Disabled ==> r is None,
    {
        match self {
            LCDResetOption::PinHigh(_) => Some(reset),
            LCDResetOption::PinLow(_) => Some(!reset),
            _ => None,
        }
    }

    /// The action sequence of this reset strategy.
    ///
    /// Pin and bus strategies pulse the line: deassert, wait a gap, assert,
    /// wait a gap, deassert, then wait for the panel to settle. The software
    /// strategy issues the reset opcode and waits for the settle time. A
    /// disabled reset performs nothing.
    pub open spec fn spec_reset_plan(
        self,
        gap_ms: u8,
        wait_ms: u8,
        software_reset_cmd: Option<u8>,
    ) -> Seq<HostActionV> {
        match self {
            LCDResetOption::PinHigh(_) => seq![
                HostActionV::SetPinLow,
                HostActionV::DelayMs(gap_ms as u32),
                HostActionV::SetPinHigh,
                HostActionV::DelayMs(gap_ms as u32),
                HostActionV::SetPinLow,
                HostActionV::DelayMs(wait_ms as u32),
            ],
            LCDResetOption::PinLow(_) => seq![
                HostActionV::SetPinHigh,
                HostActionV::DelayMs(gap_ms as u32),
                HostActionV::SetPinLow,
                HostActionV::DelayMs(gap_ms as u32),
                HostActionV::SetPinHigh,
                HostActionV::DelayMs(wait_ms as u32),
            ],
            LCDResetOption::Bus => seq![
                HostActionV::BusReset(false),
                HostActionV::DelayMs(gap_ms as u32),
                HostActionV::BusReset(true),
                HostActionV::DelayMs(gap_ms as u32),
                HostActionV::BusReset(false),
                HostActionV::DelayMs(wait_ms as u32),
            ],
            LCDResetOption::Software => match software_reset_cmd {
                Some(c) => seq![HostActionV::WriteCmd(c), HostActionV::DelayMs(wait_ms as u32)],
                None => Seq::empty(),
            },
            LCDResetOption::Disabled => Seq::empty(),
        }
    }

    /// Builds the action sequence of this reset strategy.
    pub fn reset_plan(&self, gap_ms: u8, wait_ms: u8, software_reset_cmd: Option<u8>) -> (r: Vec<
        HostAction,
    >)
        ensures
            actions_view(r@) == self.spec_reset_plan(gap_ms, wait_ms, software_reset_cmd),
    {
        let mut out: Vec<HostAction> = Vec::new();
        match self {
            LCDResetOption::PinHigh(_) => {
                out.push(HostAction::SetPinLow);
                out.push(HostAction::DelayMs(gap_ms as u32));
                out.push(HostAction::SetPinHigh);
                out.push(HostAction::DelayMs(gap_ms as u32));
                out.push(HostAction::SetPinLow);
                out.push(HostAction::DelayMs(wait_ms as u32));
            },
            LCDResetOption::PinLow(_) => {
                out.push(HostAction::SetPinHigh);
                out.push(HostAction::DelayMs(gap_ms as u32));
                out.push(HostAction::SetPinLow);
                out.push(HostAction::DelayMs(gap_ms as u32));
                out.push(HostAction::SetPinHigh);
                out.push(HostAction::DelayMs(wait_ms as u32));
            },
            LCDResetOption::Bus => {
                out.push(HostAction::BusReset(false));
                out.push(HostAction::DelayMs(gap_ms as u32));
                out.push(HostAction::BusReset(true));
                out.push(HostAction::DelayMs(gap_ms as u32));
                out.push(HostAction::BusReset(false));
                out.push(HostAction::DelayMs(wait_ms as u32));
            },
            LCDResetOption::Software => {
                match software_reset_cmd {
                    Some(c) => {
                        out.push(HostAction::WriteCmd(c));
                        out.push(HostAction::DelayMs(wait_ms as u32));
                    },
                    None => {},
                }
            },
            LCDResetOption::Disabled => {},
        }
        proof {
            assert(actions_view(out@) =~= self.spec_reset_plan(gap_ms, wait_ms, software_reset_cmd));
        }
        out
    }
}

impl LCDResetOption<NoResetPin> {
    /// Creates a Bus reset option.
    pub fn new_bus() -> (r: LCDResetOption<NoResetPin>)
        ensures
            r is Bus,
    {
        LCDResetOption::Bus
    }

    /// Creates a Software reset option.
    pub fn new_software() -> (r: LCDResetOption<NoResetPin>)
        ensures
            r is Software,
    {
        LCDResetOption::Software
    }

    /// Creates a disabled reset option.
    pub fn disabled() -> (r: LCDResetOption<NoResetPin>)
        ensures
            r is Disabled,
    {
        LCDResetOption::Disabled
    }
}

} // verus!
