//! General purpose I/O: one exclusively owned handle per pin, whose mode type
//! says what the pin is configured for.
//!
//! A mode transition consumes the handle and returns one of the new mode. It
//! writes the pin's function select, input enable, pull-up, pull-down, drive
//! strength and schmitt filter fields in one read-modify-write of the pin's
//! configuration word, then, in a second and separate write, the pin's output
//! enable bit. Between the two writes the hardware may show the new function
//! with the old output enable.

use core::marker::PhantomData;

use vstd::prelude::*;

use crate::bits::lemma_with_bit;
use crate::uart_sig::{Uart0Cts, UartMux};

use crate::registers::{
    floating_input_config, lemma_pin_mode_fields, lemma_reset_state, Glb, GlbState, PinConfig, FUNCTION_GPIO, FUNCTION_I2C, FUNCTION_PWM,
    FUNCTION_SPI, FUNCTION_UART, PIN_COUNT, UART_SIGNAL_COUNT,
};

verus! {

/// Hi-Z floating pin (type state)
pub struct Floating;

/// Pulled down pin (type state)
pub struct PullDown;

/// Pulled up pin (type state)
pub struct PullUp;

/// Input mode (type state)
#[verifier::reject_recursive_types(MODE)]
pub struct Input<MODE> {
    _mode: PhantomData<MODE>,
}

/// Output mode (type state)
#[verifier::reject_recursive_types(MODE)]
pub struct Output<MODE> {
    _mode: PhantomData<MODE>,
}

/// PWM mode (type state)
#[verifier::reject_recursive_types(MODE)]
pub struct Pwm<MODE> {
    _mode: PhantomData<MODE>,
}

/// UART pin mode (type state)
pub struct Uart;

/// SPI pin mode (type state)
pub struct Spi;

/// I2C pin mode (type state)
pub struct I2c;

/// A pin, 0 to 22, in mode `MODE`.
#[verifier::reject_recursive_types(MODE)]
pub struct Pin<MODE> {
    index: u8,
    _mode: PhantomData<MODE>,
}

impl<MODE> Pin<MODE> {
    #[verifier::type_invariant]
    spec fn inv(self) -> bool {
        self.index < PIN_COUNT
    }

    /// The pin's number.
    pub closed spec fn id(self) -> nat {
        self.index as nat
    }

    pub(crate) fn new(index: u8) -> (r: Pin<MODE>)
        requires
            index < PIN_COUNT,
        ensures
            r.id() == index,
    {
        Pin { index, _mode: PhantomData }
    }

    /// The pin's number.
    pub fn index(&self) -> (r: u8)
        ensures
            r as nat == self.id(),
            r < PIN_COUNT,
    {
        proof {
            use_type_invariant(self);
        }
        self.index
    }

    fn into_pin_with_mode<T>(
        self,
        glb: &mut Glb,
        function: u8,
        pull_up: bool,
        pull_down: bool,
        input_enable: bool,
    ) -> (r: Pin<T>)
        requires
            function < 32,
        ensures
            r.id() == self.id(),
            final(glb)@ == old(glb)@.with_pin_mode(
                self.id(),
                function as u32,
                pull_up,
                pull_down,
                input_enable,
            ),
            final(glb)@.pin_config(self.id()) == (PinConfig {
                function: function as u32,
                input_enable,
                pull_up,
                pull_down,
                drive: 0,
                schmitt: false,
            }),
            final(glb)@.output_enabled(self.id()) == !input_enable,
    {
        proof {
            use_type_invariant(&self);
            old(glb).lemma_wf();
            lemma_pin_mode_fields(
                old(glb)@,
                self.id(),
                function as u32,
                pull_up,
                pull_down,
                input_enable,
            );
        }
        glb.modify_pin_fields(self.index, function as u32, input_enable, pull_up, pull_down);
        glb.modify_output_enable(self.index, !input_enable);
        Pin { index: self.index, _mode: PhantomData }
    }

    /// Configures the pin to operate as a Hi-Z floating output pin.
    pub fn into_floating_output(self, glb: &mut Glb) -> (r: Pin<Output<Floating>>)
        ensures
            r.id() == self.id(),
            final(glb)@ == old(glb)@.with_pin_mode(self.id(), FUNCTION_GPIO as u32, false, false, false),
    {
        self.into_pin_with_mode(glb, FUNCTION_GPIO, false, false, false)
    }

    /// Configures the pin to operate as a pull-up output pin.
    pub fn into_pull_up_output(self, glb: &mut Glb) -> (r: Pin<Output<PullUp>>)
        ensures
            r.id() == self.id(),
            final(glb)@ == old(glb)@.with_pin_mode(self.id(), FUNCTION_GPIO as u32, true, false, false),
    {
        self.into_pin_with_mode(glb, FUNCTION_GPIO, true, false, false)
    }

    /// Configures the pin to operate as a pull-down output pin.
    pub fn into_pull_down_output(self, glb: &mut Glb) -> (r: Pin<Output<PullDown>>)
        ensures
            r.id() == self.id(),
            final(glb)@ == old(glb)@.with_pin_mode(self.id(), FUNCTION_GPIO as u32, false, true, false),
    {
        self.into_pin_with_mode(glb, FUNCTION_GPIO, false, true, false)
    }

    /// Configures the pin to operate as a Hi-Z floating input pin.
    pub fn into_floating_input(self, glb: &mut Glb) -> (r: Pin<Input<Floating>>)
        ensures
            r.id() == self.id(),
            final(glb)@ == old(glb)@.with_pin_mode(self.id(), FUNCTION_GPIO as u32, false, false, true),
    {
        self.into_pin_with_mode(glb, FUNCTION_GPIO, false, false, true)
    }

    /// Configures the pin to operate as a pull-up input pin.
    pub fn into_pull_up_input(self, glb: &mut Glb) -> (r: Pin<Input<PullUp>>)
        ensures
            r.id() == self.id(),
            final(glb)@ == old(glb)@.with_pin_mode(self.id(), FUNCTION_GPIO as u32, true, false, true),
    {
        self.into_pin_with_mode(glb, FUNCTION_GPIO, true, false, true)
    }

    /// Configures the pin to operate as a pull-down input pin.
    pub fn into_pull_down_input(self, glb: &mut Glb) -> (r: Pin<Input<PullDown>>)
        ensures
            r.id() == self.id(),
            final(glb)@ == old(glb)@.with_pin_mode(self.id(), FUNCTION_GPIO as u32, false, true, true),
    {
        self.into_pin_with_mode(glb, FUNCTION_GPIO, false, true, true)
    }

    /// Configures the pin to operate as a pull-down PWM pin.
    pub fn into_pull_down_pwm(self, glb: &mut Glb) -> (r: Pin<Pwm<PullDown>>)
        ensures
            r.id() == self.id(),
            final(glb)@ == old(glb)@.with_pin_mode(self.id(), FUNCTION_PWM as u32, false, true, true),
    {
        self.into_pin_with_mode(glb, FUNCTION_PWM, false, true, true)
    }

    /// Configures the pin to operate as a pull-up PWM pin.
    pub fn into_pull_up_pwm(self, glb: &mut Glb) -> (r: Pin<Pwm<PullUp>>)
        ensures
            r.id() == self.id(),
            final(glb)@ == old(glb)@.with_pin_mode(self.id(), FUNCTION_PWM as u32, true, false, true),
    {
        self.into_pin_with_mode(glb, FUNCTION_PWM, true, false, true)
    }

    /// Configures the pin to operate as a Hi-Z floating PWM pin.
    pub fn into_floating_pwm(self, glb: &mut Glb) -> (r: Pin<Pwm<Floating>>)
        ensures
            r.id() == self.id(),
            final(glb)@ == old(glb)@.with_pin_mode(self.id(), FUNCTION_PWM as u32, false, false, true),
    {
        self.into_pin_with_mode(glb, FUNCTION_PWM, false, false, true)
    }

    /// Configures the pin to the UART alternate function; it then carries
    /// internal UART signal `index % 8`.
    pub fn into_uart(self, glb: &mut Glb) -> (r: Pin<Uart>)
        ensures
            r.id() == self.id(),
            final(glb)@ == old(glb)@.with_pin_mode(self.id(), FUNCTION_UART as u32, true, false, true),
    {
        self.into_pin_with_mode(glb, FUNCTION_UART, true, false, true)
    }

    /// Configures the pin to the SPI alternate function.
    pub fn into_spi(self, glb: &mut Glb) -> (r: Pin<Spi>)
        ensures
            r.id() == self.id(),
            final(glb)@ == old(glb)@.with_pin_mode(self.id(), FUNCTION_SPI as u32, true, false, true),
    {
        self.into_pin_with_mode(glb, FUNCTION_SPI, true, false, true)
    }

    /// Configures the pin to the I2C alternate function.
    pub fn into_i2c(self, glb: &mut Glb) -> (r: Pin<I2c>)
        ensures
            r.id() == self.id(),
            final(glb)@ == old(glb)@.with_pin_mode(self.id(), FUNCTION_I2C as u32, true, false, true),
    {
        self.into_pin_with_mode(glb, FUNCTION_I2C, true, false, true)
    }
}

impl<MODE> Pin<Input<MODE>> {
    /// Enables the pin's schmitt-trigger input filter.
    pub fn enable_smitter(&mut self, glb: &mut Glb)
        ensures
            *final(self) == *old(self),
            final(glb)@ == old(glb)@.with_schmitt(old(self).id(), true),
    {
        proof {
            use_type_invariant(&*self);
        }
        glb.modify_schmitt(self.index, true);
    }

    /// Disables the pin's schmitt-trigger input filter.
    pub fn disable_smitter(&mut self, glb: &mut Glb)
        ensures
            *final(self) == *old(self),
            final(glb)@ == old(glb)@.with_schmitt(old(self).id(), false),
    {
        proof {
            use_type_invariant(&*self);
        }
        glb.modify_schmitt(self.index, false);
    }

    /// Whether the level sampled on the pin is high.
    pub fn is_high(&self, glb: &Glb) -> (r: bool)
        ensures
            r == glb@.input_level(self.id()),
    {
        proof {
            use_type_invariant(self);
        }
        glb.input_level(self.index)
    }

    /// Whether the level sampled on the pin is low.
    pub fn is_low(&self, glb: &Glb) -> (r: bool)
        ensures
            r == !glb@.input_level(self.id()),
    {
        proof {
            use_type_invariant(self);
        }
        !glb.input_level(self.index)
    }
}

impl<MODE> Pin<Output<MODE>> {
    /// Drives the pin high.
    pub fn set_high(&mut self, glb: &mut Glb)
        ensures
            *final(self) == *old(self),
            final(glb)@ == old(glb)@.with_output(old(self).id(), true),
            final(glb)@.output_level(old(self).id()) == true,
    {
        proof {
            use_type_invariant(&*self);
            lemma_with_bit(old(glb)@.output, self.index as u32, self.index as u32, true);
        }
        glb.modify_output(self.index, true);
    }

    /// Drives the pin low.
    pub fn set_low(&mut self, glb: &mut Glb)
        ensures
            *final(self) == *old(self),
            final(glb)@ == old(glb)@.with_output(old(self).id(), false),
            final(glb)@.output_level(old(self).id()) == false,
    {
        proof {
            use_type_invariant(&*self);
            lemma_with_bit(old(glb)@.output, self.index as u32, self.index as u32, false);
        }
        glb.modify_output(self.index, false);
    }

    /// Whether the pin's output latch is high.
    pub fn is_set_high(&self, glb: &Glb) -> (r: bool)
        ensures
            r == glb@.output_level(self.id()),
    {
        proof {
            use_type_invariant(self);
        }
        glb.output_level(self.index)
    }

    /// Whether the pin's output latch is low.
    pub fn is_set_low(&self, glb: &Glb) -> (r: bool)
        ensures
            r == !glb@.output_level(self.id()),
    {
        proof {
            use_type_invariant(self);
        }
        !glb.output_level(self.index)
    }

    /// Reads the output latch and writes its opposite.
    pub fn toggle(&mut self, glb: &mut Glb)
        ensures
            *final(self) == *old(self),
            final(glb)@ == old(glb)@.with_output(old(self).id(), !old(glb)@.output_level(old(self).id())),
            final(glb)@.output_level(old(self).id()) == !old(glb)@.output_level(old(self).id()),
    {
        proof {
            use_type_invariant(&*self);
            lemma_with_bit(
                old(glb)@.output,
                self.index as u32,
                self.index as u32,
                !old(glb)@.output_level(self.id()),
            );
        }
        if glb.output_level(self.index) {
            glb.modify_output(self.index, false);
        } else {
            glb.modify_output(self.index, true);
        }
    }
}

/// What raises a pin's interrupt.
#[derive(Clone, Copy, Debug, PartialEq, Eq, Structural)]
pub enum Event {
    /// Trigger on the falling edge
    NegativePulse,
    /// Trigger on the rising edge
    PositivePulse,
    /// Trigger while low level
    NegativeLevel,
    /// Trigger while high level
    HighLevel,
}

/// The two-bit trigger code of an event.
pub open spec fn event_code(event: Event) -> u32 {
    match event {
        Event::NegativePulse => 0,
        Event::PositivePulse => 1,
        Event::NegativeLevel => 2,
        Event::HighLevel => 3,
    }
}

impl Event {
    /// The two-bit trigger code of the event.
    pub fn code(self) -> (r: u32)
        ensures
            r == event_code(self),
    {
        match self {
            Event::NegativePulse => 0,
            Event::PositivePulse => 1,
            Event::NegativeLevel => 2,
            Event::HighLevel => 3,
        }
    }
}

/// Setting up, enabling, disabling, clearing and checking a pin's interrupt.
pub trait InterruptPin {
    /// The number of the pin whose interrupt this is.
    spec fn interrupt_line(&self) -> nat;

    /// Writes the event's code to the pin's trigger mode field.
    fn trigger_on_event(&mut self, glb: &mut Glb, event: Event)
        ensures
            final(self).interrupt_line() == old(self).interrupt_line(),
            final(glb)@ == old(glb)@.with_trigger(old(self).interrupt_line(), event_code(event)),
    ;

    /// Samples the pin's interrupt asynchronously.
    fn control_asynchronous(&mut self, glb: &mut Glb)
        ensures
            final(self).interrupt_line() == old(self).interrupt_line(),
            final(glb)@ == old(glb)@.with_asynchronous(old(self).interrupt_line(), true),
    ;

    /// Samples the pin's interrupt synchronously.
    fn control_synchronous(&mut self, glb: &mut Glb)
        ensures
            final(self).interrupt_line() == old(self).interrupt_line(),
            final(glb)@ == old(glb)@.with_asynchronous(old(self).interrupt_line(), false),
    ;

    /// Unmasks the pin's interrupt, keeping the other pins' mask bits.
    fn enable_interrupt(&mut self, glb: &mut Glb)
        ensures
            final(self).interrupt_line() == old(self).interrupt_line(),
            final(glb)@ == old(glb)@.with_interrupt_mask(old(self).interrupt_line(), false),
    ;

    /// Masks the pin's interrupt, keeping the other pins' mask bits.
    fn disable_interrupt(&mut self, glb: &mut Glb)
        ensures
            final(self).interrupt_line() == old(self).interrupt_line(),
            final(glb)@ == old(glb)@.with_interrupt_mask(old(self).interrupt_line(), true),
    ;

    /// Writes the pin's bit of the interrupt clear register (to 0), keeping
    /// the other pins' bits.
    fn clear_interrupt_pending_bit(&mut self, glb: &mut Glb)
        ensures
            final(self).interrupt_line() == old(self).interrupt_line(),
            final(glb)@ == old(glb)@.with_interrupt_clear(old(self).interrupt_line(), false),
    ;

    /// Whether the pin's interrupt is pending.
    fn check_interrupt(&self, glb: &Glb) -> (r: bool)
        ensures
            r == glb@.interrupt_pending(self.interrupt_line()),
    ;
}

impl<MODE> InterruptPin for Pin<Input<MODE>> {
    open spec fn interrupt_line(&self) -> nat {
        self.id()
    }

    fn trigger_on_event(&mut self, glb: &mut Glb, event: Event) {
        proof {
            use_type_invariant(&*self);
        }
        glb.modify_trigger(self.index, event.code());
    }

    fn control_asynchronous(&mut self, glb: &mut Glb) {
        proof {
            use_type_invariant(&*self);
        }
        glb.modify_asynchronous(self.index, true);
    }

    fn control_synchronous(&mut self, glb: &mut Glb) {
        proof {
            use_type_invariant(&*self);
        }
        glb.modify_asynchronous(self.index, false);
    }

    fn enable_interrupt(&mut self, glb: &mut Glb) {
        proof {
            use_type_invariant(&*self);
        }
        glb.modify_interrupt_mask(self.index, false);
    }

    fn disable_interrupt(&mut self, glb: &mut Glb) {
        proof {
            use_type_invariant(&*self);
        }
        glb.modify_interrupt_mask(self.index, true);
    }

    fn clear_interrupt_pending_bit(&mut self, glb: &mut Glb) {
        proof {
            use_type_invariant(&*self);
        }
        glb.modify_interrupt_clear(self.index, false);
    }

    fn check_interrupt(&self, glb: &Glb) -> (r: bool) {
        proof {
            use_type_invariant(self);
        }
        glb.interrupt_pending(self.index)
    }
}

/// A pin in UART mode, which carries one internal UART signal.
pub trait UartPin {
    /// The internal UART signal the pin carries.
    spec fn signal(&self) -> nat;

    /// The internal UART signal the pin carries.
    fn uart_signal(&self) -> (r: u8)
        ensures
            r as nat == self.signal(),
            r < UART_SIGNAL_COUNT,
    ;
}

impl UartPin for Pin<Uart> {
    /// Pin `p` carries signal `p % 8`.
    open spec fn signal(&self) -> nat {
        self.id() % 8
    }

    fn uart_signal(&self) -> (r: u8) {
        proof {
            use_type_invariant(self);
        }
        self.index % 8
    }
}

/// Clock configurator registers
pub struct ClkCfg {
    _ownership: (),
}

impl ClkCfg {
    pub(crate) fn new() -> ClkCfg {
        ClkCfg { _ownership: () }
    }
}

/// Every pin in floating input mode, every internal UART signal routed to
/// UART0 CTS, the clock configurator and the register file they act on.
pub struct Parts {
    pub pin0: Pin<Input<Floating>>,
    pub pin1: Pin<Input<Floating>>,
    pub pin2: Pin<Input<Floating>>,
    pub pin3: Pin<Input<Floating>>,
    pub pin4: Pin<Input<Floating>>,
    pub pin5: Pin<Input<Floating>>,
    pub pin6: Pin<Input<Floating>>,
    pub pin7: Pin<Input<Floating>>,
    pub pin8: Pin<Input<Floating>>,
    pub pin9: Pin<Input<Floating>>,
    pub pin10: Pin<Input<Floating>>,
    pub pin11: Pin<Input<Floating>>,
    pub pin12: Pin<Input<Floating>>,
    pub pin13: Pin<Input<Floating>>,
    pub pin14: Pin<Input<Floating>>,
    pub pin15: Pin<Input<Floating>>,
    pub pin16: Pin<Input<Floating>>,
    pub pin17: Pin<Input<Floating>>,
    pub pin18: Pin<Input<Floating>>,
    pub pin19: Pin<Input<Floating>>,
    pub pin20: Pin<Input<Floating>>,
    pub pin21: Pin<Input<Floating>>,
    pub pin22: Pin<Input<Floating>>,
    pub uart_mux0: UartMux<Uart0Cts>,
    pub uart_mux1: UartMux<Uart0Cts>,
    pub uart_mux2: UartMux<Uart0Cts>,
    pub uart_mux3: UartMux<Uart0Cts>,
    pub uart_mux4: UartMux<Uart0Cts>,
    pub uart_mux5: UartMux<Uart0Cts>,
    pub uart_mux6: UartMux<Uart0Cts>,
    pub uart_mux7: UartMux<Uart0Cts>,
    pub clk_cfg: ClkCfg,
    pub glb: Glb,
}

impl Parts {
    /// The numbers of the pins, in field order.
    pub open spec fn pin_ids(self) -> Seq<nat> {
        seq![self.pin0.id(), self.pin1.id(), self.pin2.id(), self.pin3.id(), self.pin4.id(), self.pin5.id(), self.pin6.id(), self.pin7.id(), self.pin8.id(), self.pin9.id(), self.pin10.id(), self.pin11.id(), self.pin12.id(), self.pin13.id(), self.pin14.id(), self.pin15.id(), self.pin16.id(), self.pin17.id(), self.pin18.id(), self.pin19.id(), self.pin20.id(), self.pin21.id(), self.pin22.id()]
    }

    /// The numbers of the internal UART signals, in field order.
    pub open spec fn uart_mux_ids(self) -> Seq<nat> {
        seq![self.uart_mux0.id(), self.uart_mux1.id(), self.uart_mux2.id(), self.uart_mux3.id(), self.uart_mux4.id(), self.uart_mux5.id(), self.uart_mux6.id(), self.uart_mux7.id()]
    }
}

/// Splitting the register block into independent pins and modules.
pub trait GlbExt {
    /// What the register block holds.
    spec fn register_state(&self) -> GlbState;

    /// Splits the register block into independent pins and modules: pin `k`
    /// in field `pin<k>`, internal UART signal `k` in field `uart_mux<k>`, and
    /// the register file unchanged. Split right after reset, every pin is in
    /// floating input mode, as its type says, and every internal UART signal
    /// is routed to UART0 CTS.
    fn split(self) -> (r: Parts)
        ensures
            r.glb@ == self.register_state(),
            r.pin_ids() == Seq::new(PIN_COUNT as nat, |k: int| k as nat),
            r.uart_mux_ids() == Seq::new(UART_SIGNAL_COUNT as nat, |k: int| k as nat),
            self.register_state().is_reset() ==> forall|k: int|
                0 <= k < PIN_COUNT ==> #[trigger] r.glb@.pin_config(r.pin_ids()[k])
                    == floating_input_config() && !r.glb@.output_enabled(r.pin_ids()[k]),
            self.register_state().is_reset() ==> forall|k: int|
                0 <= k < UART_SIGNAL_COUNT ==> #[trigger] r.glb@.uart_signal_code(
                    r.uart_mux_ids()[k],
                ) == 1,
    ;
}

impl GlbExt for Glb {
    open spec fn register_state(&self) -> GlbState {
        self@
    }

    fn split(self) -> (r: Parts) {
        let r = Parts {
            pin0: Pin::new(0),
            pin1: Pin::new(1),
            pin2: Pin::new(2),
            pin3: Pin::new(3),
            pin4: Pin::new(4),
            pin5: Pin::new(5),
            pin6: Pin::new(6),
            pin7: Pin::new(7),
            pin8: Pin::new(8),
            pin9: Pin::new(9),
            pin10: Pin::new(10),
            pin11: Pin::new(11),
            pin12: Pin::new(12),
            pin13: Pin::new(13),
            pin14: Pin::new(14),
            pin15: Pin::new(15),
            pin16: Pin::new(16),
            pin17: Pin::new(17),
            pin18: Pin::new(18),
            pin19: Pin::new(19),
            pin20: Pin::new(20),
            pin21: Pin::new(21),
            pin22: Pin::new(22),
            uart_mux0: UartMux::new(0),
            uart_mux1: UartMux::new(1),
            uart_mux2: UartMux::new(2),
            uart_mux3: UartMux::new(3),
            uart_mux4: UartMux::new(4),
            uart_mux5: UartMux::new(5),
            uart_mux6: UartMux::new(6),
            uart_mux7: UartMux::new(7),
            clk_cfg: ClkCfg::new(),
            glb: self,
        };
        assert(r.pin_ids() =~= Seq::new(PIN_COUNT as nat, |k: int| k as nat));
        assert(r.uart_mux_ids() =~= Seq::new(UART_SIGNAL_COUNT as nat, |k: int| k as nat));
        proof {
            if r.glb@.is_reset() {
                lemma_reset_state(r.glb@);
            }
        }
        r
    }
}

} // verus!
