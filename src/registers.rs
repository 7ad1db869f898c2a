//! The GLB register file: pin configuration, pin levels, interrupt control and
//! UART signal selection, with read-modify-write access to single fields.
//!
//! Layout of the words held here:
//! - `cfgctl[p / 2]`: pin `p`'s configuration, bits 0..16 for even pins and
//!   16..32 for odd ones. Within those: input enable at bit 0, schmitt filter at
//!   bit 1, drive strength at bits 2..4, pull-up at bit 4, pull-down at bit 5 and
//!   the function-select code at bits 8..13.
//! - `input`, `output`, `output_enable`, `int_mask`, `int_stat`, `int_clr`: bit
//!   `p` belongs to pin `p`.
//! - `int_mode[p / 10]`: three bits for pin `p` starting at bit `3 * (p % 10)`:
//!   the trigger code in the lower two, synchronous (0) or asynchronous (1)
//!   sampling in the third.
//! - `uart_sig_sel`: four bits for internal UART signal `s` starting at bit `4 * s`.

use vstd::prelude::*;

use crate::bits::{
    bit_of, field_fits, field_of, lemma_field_frame, lemma_field_read_back, lemma_with_bit,
    lemma_with_bit_idempotent, lemma_with_bit_restore, lemma_with_field_idempotent, read_bit,
    read_field, with_bit, with_field, write_bit, write_field,
};

verus! {

/// Number of general purpose pins.
pub const PIN_COUNT: u8 = 23;

/// Number of internal UART signals.
pub const UART_SIGNAL_COUNT: u8 = 8;

/// The bits of a pin's configuration half-word that a mode transition writes.
pub const PIN_FIELDS_MASK: u32 = 0x1F3F;

/// Function-select code of software-controlled GPIO.
pub const FUNCTION_GPIO: u8 = 11;

/// Function-select code of PWM.
pub const FUNCTION_PWM: u8 = 8;

/// Function-select code of the UART alternate function.
pub const FUNCTION_UART: u8 = 7;

/// Function-select code of the I2C alternate function.
pub const FUNCTION_I2C: u8 = 6;

/// Function-select code of the SPI alternate function.
pub const FUNCTION_SPI: u8 = 4;

/// Configuration word of two pins in floating input mode, as after reset.
pub const RESET_CFGCTL: u32 = 0x0B01_0B01;

/// UART signal selection after reset: every signal routed to UART0 CTS.
pub const RESET_UART_SIG_SEL: u32 = 0x1111_1111;

/// The configuration fields of one pin.
#[derive(Clone, Copy, Debug, PartialEq, Eq, Structural)]
pub struct PinConfig {
    pub function: u32,
    pub input_enable: bool,
    pub pull_up: bool,
    pub pull_down: bool,
    pub drive: u32,
    pub schmitt: bool,
}

/// Index of the configuration word that holds pin `pin`.
pub open spec fn pin_word(pin: nat) -> int {
    (pin / 2) as int
}

/// Position of pin `pin`'s half of its configuration word.
pub open spec fn pin_shift(pin: nat) -> u32 {
    ((pin % 2) * 16) as u32
}

/// Index of the interrupt mode word that holds pin `pin`.
pub open spec fn int_word(pin: nat) -> int {
    (pin / 10) as int
}

/// Position of pin `pin`'s three interrupt mode bits.
pub open spec fn int_shift(pin: nat) -> u32 {
    ((pin % 10) * 3) as u32
}

/// Position of UART signal `sig`'s selector.
pub open spec fn sig_shift(sig: nat) -> u32 {
    (sig * 4) as u32
}

/// The configuration half-word that a mode transition writes: the given
/// function, input enable and pulls, drive strength 0 and the filter off.
pub open spec fn pin_fields(function: u32, input_enable: bool, pull_up: bool, pull_down: bool) -> u32 {
    (function << 8u32) | (if pull_down { 0x20u32 } else { 0u32 }) | (if pull_up { 0x10u32 } else {
        0u32
    }) | (if input_enable { 1u32 } else { 0u32 })
}

/// Reads the fields of a configuration half-word.
pub open spec fn decode_pin_fields(l: u32) -> PinConfig {
    PinConfig {
        function: (l >> 8u32) & 0x1Fu32,
        input_enable: l & 1u32 == 1u32,
        pull_up: (l >> 4u32) & 1u32 == 1u32,
        pull_down: (l >> 5u32) & 1u32 == 1u32,
        drive: (l >> 2u32) & 3u32,
        schmitt: (l >> 1u32) & 1u32 == 1u32,
    }
}

/// The configuration a pin has in floating input mode.
pub open spec fn floating_input_config() -> PinConfig {
    PinConfig {
        function: FUNCTION_GPIO as u32,
        input_enable: true,
        pull_up: false,
        pull_down: false,
        drive: 0,
        schmitt: false,
    }
}

/// What the register file holds.
pub struct GlbState {
    pub cfgctl: Seq<u32>,
    pub input: u32,
    pub output: u32,
    pub output_enable: u32,
    pub int_mode: Seq<u32>,
    pub int_mask: u32,
    pub int_stat: u32,
    pub int_clr: u32,
    pub uart_sig_sel: u32,
}

impl GlbState {
    pub open spec fn wf(self) -> bool {
        self.cfgctl.len() == 12 && self.int_mode.len() == 3
    }

    /// The register words as the hardware leaves them after reset.
    pub open spec fn is_reset(self) -> bool {
        &&& self.cfgctl == Seq::new(12, |k: int| RESET_CFGCTL)
        &&& self.int_mode == Seq::new(3, |k: int| 0u32)
        &&& self.input == 0
        &&& self.output == 0
        &&& self.output_enable == 0
        &&& self.int_mask == 0
        &&& self.int_stat == 0
        &&& self.int_clr == 0
        &&& self.uart_sig_sel == RESET_UART_SIG_SEL
    }

    pub open spec fn pin_config(self, pin: nat) -> PinConfig {
        decode_pin_fields(field_of(self.cfgctl[pin_word(pin)], pin_shift(pin), PIN_FIELDS_MASK))
    }

    pub open spec fn output_enabled(self, pin: nat) -> bool {
        bit_of(self.output_enable, pin as u32)
    }

    pub open spec fn input_level(self, pin: nat) -> bool {
        bit_of(self.input, pin as u32)
    }

    pub open spec fn output_level(self, pin: nat) -> bool {
        bit_of(self.output, pin as u32)
    }

    pub open spec fn trigger_code(self, pin: nat) -> u32 {
        field_of(self.int_mode[int_word(pin)], int_shift(pin), 3)
    }

    pub open spec fn asynchronous(self, pin: nat) -> bool {
        bit_of(self.int_mode[int_word(pin)], (int_shift(pin) + 2) as u32)
    }

    pub open spec fn interrupt_masked(self, pin: nat) -> bool {
        bit_of(self.int_mask, pin as u32)
    }

    pub open spec fn interrupt_clear_bit(self, pin: nat) -> bool {
        bit_of(self.int_clr, pin as u32)
    }

    pub open spec fn interrupt_pending(self, pin: nat) -> bool {
        bit_of(self.int_stat, pin as u32)
    }

    pub open spec fn uart_signal_code(self, sig: nat) -> u32 {
        field_of(self.uart_sig_sel, sig_shift(sig), 0xF)
    }

    /// The configuration half-word of `pin` rewritten by a mode transition.
    pub open spec fn with_pin_fields(
        self,
        pin: nat,
        function: u32,
        input_enable: bool,
        pull_up: bool,
        pull_down: bool,
    ) -> GlbState {
        GlbState {
            cfgctl: self.cfgctl.update(
                pin_word(pin),
                with_field(
                    self.cfgctl[pin_word(pin)],
                    pin_shift(pin),
                    PIN_FIELDS_MASK,
                    pin_fields(function, input_enable, pull_up, pull_down),
                ),
            ),
            ..self
        }
    }

    pub open spec fn with_output_enable(self, pin: nat, enabled: bool) -> GlbState {
        GlbState { output_enable: with_bit(self.output_enable, pin as u32, enabled), ..self }
    }

    /// The whole effect of a mode transition: the configuration fields, then
    /// output enable set to the negation of input enable.
    pub open spec fn with_pin_mode(
        self,
        pin: nat,
        function: u32,
        pull_up: bool,
        pull_down: bool,
        input_enable: bool,
    ) -> GlbState {
        self.with_pin_fields(pin, function, input_enable, pull_up, pull_down).with_output_enable(
            pin,
            !input_enable,
        )
    }

    pub open spec fn with_schmitt(self, pin: nat, enabled: bool) -> GlbState {
        GlbState {
            cfgctl: self.cfgctl.update(
                pin_word(pin),
                with_bit(self.cfgctl[pin_word(pin)], (pin_shift(pin) + 1) as u32, enabled),
            ),
            ..self
        }
    }

    pub open spec fn with_output(self, pin: nat, high: bool) -> GlbState {
        GlbState { output: with_bit(self.output, pin as u32, high), ..self }
    }

    pub open spec fn with_trigger(self, pin: nat, code: u32) -> GlbState {
        GlbState {
            int_mode: self.int_mode.update(
                int_word(pin),
                with_field(self.int_mode[int_word(pin)], int_shift(pin), 3, code),
            ),
            ..self
        }
    }

    pub open spec fn with_asynchronous(self, pin: nat, asynchronous: bool) -> GlbState {
        GlbState {
            int_mode: self.int_mode.update(
                int_word(pin),
                with_bit(self.int_mode[int_word(pin)], (int_shift(pin) + 2) as u32, asynchronous),
            ),
            ..self
        }
    }

    pub open spec fn with_interrupt_mask(self, pin: nat, masked: bool) -> GlbState {
        GlbState { int_mask: with_bit(self.int_mask, pin as u32, masked), ..self }
    }

    pub open spec fn with_interrupt_clear(self, pin: nat, set: bool) -> GlbState {
        GlbState { int_clr: with_bit(self.int_clr, pin as u32, set), ..self }
    }

    pub open spec fn with_uart_signal(self, sig: nat, code: u32) -> GlbState {
        GlbState { uart_sig_sel: with_field(self.uart_sig_sel, sig_shift(sig), 0xF, code), ..self }
    }
}

/// The two halves of a configuration word are fields that fit and do not overlap.
proof fn lemma_pin_halves()
    ensures
        field_fits(0, PIN_FIELDS_MASK),
        field_fits(16, PIN_FIELDS_MASK),
        (PIN_FIELDS_MASK << 0u32) & (PIN_FIELDS_MASK << 16u32) == 0,
        (PIN_FIELDS_MASK << 16u32) & (PIN_FIELDS_MASK << 0u32) == 0,
{
    assert(field_fits(0, 0x1F3F) && field_fits(16, 0x1F3F) && (0x1F3Fu32 << 0u32) & (0x1F3Fu32
        << 16u32) == 0 && (0x1F3Fu32 << 16u32) & (0x1F3Fu32 << 0u32) == 0) by (bit_vector);
}

/// Reading back the half-word of a mode transition gives its fields.
proof fn lemma_decode_pin_fields(function: u32, input_enable: bool, pull_up: bool, pull_down: bool)
    requires
        function < 32,
    ensures
        decode_pin_fields(pin_fields(function, input_enable, pull_up, pull_down) & PIN_FIELDS_MASK)
            == (PinConfig {
            function,
            input_enable,
            pull_up,
            pull_down,
            drive: 0,
            schmitt: false,
        }),
{
    let l = pin_fields(function, input_enable, pull_up, pull_down) & PIN_FIELDS_MASK;
    assert((l >> 8u32) & 0x1Fu32 == function && (l & 1u32 == 1u32) == input_enable && ((l >> 4u32)
        & 1u32 == 1u32) == pull_up && ((l >> 5u32) & 1u32 == 1u32) == pull_down && (l >> 2u32) & 3u32
        == 0 && ((l >> 1u32) & 1u32 == 1u32) == false) by (bit_vector)
        requires
            function < 32,
            l == ((function << 8u32) | (if pull_down {
                0x20u32
            } else {
                0u32
            }) | (if pull_up {
                0x10u32
            } else {
                0u32
            }) | (if input_enable {
                1u32
            } else {
                0u32
            })) & 0x1F3Fu32,
    ;
}

/// After a mode transition of `pin`, its function select, input enable,
/// pull-up, pull-down, drive strength and schmitt filter fields hold exactly
/// the transition's values (drive strength 0, filter off), its output enable
/// is the negation of its input enable, and every other pin's configuration
/// and output enable are as before.
pub proof fn lemma_pin_mode_fields(
    g: GlbState,
    pin: nat,
    function: u32,
    pull_up: bool,
    pull_down: bool,
    input_enable: bool,
)
    requires
        g.wf(),
        pin < PIN_COUNT,
        function < 32,
    ensures
        g.with_pin_mode(pin, function, pull_up, pull_down, input_enable).pin_config(pin) == (
        PinConfig { function, input_enable, pull_up, pull_down, drive: 0, schmitt: false }),
        g.with_pin_mode(pin, function, pull_up, pull_down, input_enable).output_enabled(pin)
            == !input_enable,
        forall|q: nat|
            q < PIN_COUNT && q != pin ==> #[trigger] g.with_pin_mode(
                pin,
                function,
                pull_up,
                pull_down,
                input_enable,
            ).pin_config(q) == g.pin_config(q),
        forall|q: nat|
            q < PIN_COUNT && q != pin ==> #[trigger] g.with_pin_mode(
                pin,
                function,
                pull_up,
                pull_down,
                input_enable,
            ).output_enabled(q) == g.output_enabled(q),
{
    let h = g.with_pin_mode(pin, function, pull_up, pull_down, input_enable);
    let w = pin_word(pin);
    let sh = pin_shift(pin);
    let v = pin_fields(function, input_enable, pull_up, pull_down);
    lemma_pin_halves();
    lemma_field_read_back(g.cfgctl[w], sh, PIN_FIELDS_MASK, v);
    lemma_decode_pin_fields(function, input_enable, pull_up, pull_down);
    lemma_with_bit(g.output_enable, pin as u32, pin as u32, !input_enable);
    assert forall|q: nat| q < PIN_COUNT && q != pin implies #[trigger] h.output_enabled(q)
        == g.output_enabled(q) by {
        lemma_with_bit(g.output_enable, pin as u32, q as u32, !input_enable);
    }
    assert forall|q: nat| q < PIN_COUNT && q != pin implies #[trigger] h.pin_config(q)
        == g.pin_config(q) by {
        if pin_word(q) == w {
            assert(pin % 2 != q % 2);
            assert((sh == 0 && pin_shift(q) == 16) || (sh == 16 && pin_shift(q) == 0));
            lemma_field_frame(g.cfgctl[w], sh, PIN_FIELDS_MASK, v, pin_shift(q), PIN_FIELDS_MASK);
        }
    }
}

/// A mode transition applied twice leaves the registers as applying it once.
pub proof fn lemma_pin_mode_idempotent(
    g: GlbState,
    pin: nat,
    function: u32,
    pull_up: bool,
    pull_down: bool,
    input_enable: bool,
)
    requires
        g.wf(),
        pin < PIN_COUNT,
    ensures
        g.with_pin_mode(pin, function, pull_up, pull_down, input_enable).with_pin_mode(
            pin,
            function,
            pull_up,
            pull_down,
            input_enable,
        ) == g.with_pin_mode(pin, function, pull_up, pull_down, input_enable),
{
    let h = g.with_pin_mode(pin, function, pull_up, pull_down, input_enable);
    let h2 = h.with_pin_mode(pin, function, pull_up, pull_down, input_enable);
    let w = pin_word(pin);
    let v = pin_fields(function, input_enable, pull_up, pull_down);
    lemma_with_field_idempotent(g.cfgctl[w], pin_shift(pin), PIN_FIELDS_MASK, v);
    lemma_with_bit_idempotent(g.output_enable, pin as u32, !input_enable);
    assert(h2.cfgctl =~= h.cfgctl);
}

/// Toggling the output latch of `pin` twice restores the registers.
pub proof fn lemma_toggle_twice(g: GlbState, pin: nat)
    requires
        pin < PIN_COUNT,
    ensures
        ({
            let t = g.with_output(pin, !g.output_level(pin));
            t.with_output(pin, !t.output_level(pin))
        }) == g,
{
    lemma_with_bit(g.output, pin as u32, pin as u32, !g.output_level(pin));
    lemma_with_bit_restore(g.output, pin as u32);
}

/// The selectors of two distinct internal UART signals are fields that fit and do not overlap.
proof fn lemma_uart_selectors(a: u32, b: u32)
    by (bit_vector)
    requires
        a < 8,
        b < 8,
    ensures
        field_fits((a * 4) as u32, 0xF),
        a != b ==> (0xFu32 << ((a * 4) as u32)) & (0xFu32 << ((b * 4) as u32)) == 0,
{
}

/// Routing internal UART signal `sig` writes `code` to its selector, where it
/// reads back unchanged, and leaves the other signals' selectors as they were.
pub proof fn lemma_uart_routing(g: GlbState, sig: nat, code: u32)
    requires
        sig < UART_SIGNAL_COUNT,
        code < 8,
    ensures
        g.with_uart_signal(sig, code).uart_signal_code(sig) == code,
        forall|s: nat|
            s < UART_SIGNAL_COUNT && s != sig ==> #[trigger] g.with_uart_signal(
                sig,
                code,
            ).uart_signal_code(s) == g.uart_signal_code(s),
{
    lemma_uart_selectors(sig as u32, sig as u32);
    assert(sig_shift(sig) == ((sig as u32) * 4) as u32);
    lemma_field_read_back(g.uart_sig_sel, sig_shift(sig), 0xF, code);
    assert(code & 0xF == code) by (bit_vector)
        requires
            code < 8,
    ;
    assert forall|s: nat| s < UART_SIGNAL_COUNT && s != sig implies #[trigger] g.with_uart_signal(
        sig,
        code,
    ).uart_signal_code(s) == g.uart_signal_code(s) by {
        lemma_uart_selectors(sig as u32, s as u32);
        lemma_uart_selectors(s as u32, s as u32);
        assert(sig_shift(s) == ((s as u32) * 4) as u32);
        lemma_field_frame(g.uart_sig_sel, sig_shift(sig), 0xF, code, sig_shift(s), 0xF);
    }
}

/// Routing an internal UART signal twice to the same role leaves the
/// registers as routing it once.
pub proof fn lemma_uart_routing_idempotent(g: GlbState, sig: nat, code: u32)
    ensures
        g.with_uart_signal(sig, code).with_uart_signal(sig, code) == g.with_uart_signal(sig, code),
{
    lemma_with_field_idempotent(g.uart_sig_sel, sig_shift(sig), 0xF, code);
}

/// What the reset words hold: every pin in floating input mode and every
/// internal UART signal routed to UART0 CTS.
proof fn lemma_reset_fields()
    ensures
        decode_pin_fields(field_of(RESET_CFGCTL, 0, PIN_FIELDS_MASK)) == floating_input_config(),
        decode_pin_fields(field_of(RESET_CFGCTL, 16, PIN_FIELDS_MASK)) == floating_input_config(),
        forall|sig: nat| sig < 8 ==> #[trigger] field_of(RESET_UART_SIG_SEL, sig_shift(sig), 0xF) == 1,
        forall|pin: nat| pin < 32 ==> !#[trigger] bit_of(0, pin as u32),
{
    let lo = field_of(RESET_CFGCTL, 0, PIN_FIELDS_MASK);
    let hi = field_of(RESET_CFGCTL, 16, PIN_FIELDS_MASK);
    assert(lo == 0x0B01 && hi == 0x0B01) by (bit_vector)
        requires
            lo == (0x0B01_0B01u32 >> 0u32) & 0x1F3Fu32,
            hi == (0x0B01_0B01u32 >> 16u32) & 0x1F3Fu32,
    ;
    assert((0x0B01u32 >> 8u32) & 0x1Fu32 == 11 && 0x0B01u32 & 1u32 == 1u32 && (0x0B01u32 >> 4u32)
        & 1u32 == 0 && (0x0B01u32 >> 5u32) & 1u32 == 0 && (0x0B01u32 >> 2u32) & 3u32 == 0 && (0x0B01u32
        >> 1u32) & 1u32 == 0) by (bit_vector);
    assert forall|sig: nat| sig < 8 implies #[trigger] field_of(
        RESET_UART_SIG_SEL,
        sig_shift(sig),
        0xF,
    ) == 1 by {
        let s = sig as u32;
        let sh = sig_shift(sig);
        assert(sh == ((s * 4) as u32));
        assert((0x1111_1111u32 >> sh) & 0xFu32 == 1) by (bit_vector)
            requires
                s < 8,
                sh == ((s * 4) as u32),
        ;
    }
    assert forall|pin: nat| pin < 32 implies !#[trigger] bit_of(0, pin as u32) by {
        let p = pin as u32;
        assert((0u32 >> p) & 1u32 != 1u32) by (bit_vector);
    }
}

/// After reset every pin is in floating input mode with its output driver
/// off, and every internal UART signal is routed to UART0 CTS.
pub proof fn lemma_reset_state(g: GlbState)
    requires
        g.is_reset(),
    ensures
        g.wf(),
        forall|pin: nat| pin < PIN_COUNT ==> #[trigger] g.pin_config(pin) == floating_input_config(),
        forall|pin: nat| pin < PIN_COUNT ==> !#[trigger] g.output_enabled(pin),
        forall|sig: nat| sig < UART_SIGNAL_COUNT ==> #[trigger] g.uart_signal_code(sig) == 1,
{
    lemma_reset_fields();
    assert forall|pin: nat| pin < PIN_COUNT implies #[trigger] g.pin_config(pin)
        == floating_input_config() by {
        assert(pin_shift(pin) == 0 || pin_shift(pin) == 16);
    }
}

/// The GLB register file.
pub struct Glb {
    cfgctl: [u32; 12],
    input: u32,
    output: u32,
    output_enable: u32,
    int_mode: [u32; 3],
    int_mask: u32,
    int_stat: u32,
    int_clr: u32,
    uart_sig_sel: u32,
}

impl View for Glb {
    type V = GlbState;

    closed spec fn view(&self) -> GlbState {
        GlbState {
            cfgctl: self.cfgctl@,
            input: self.input,
            output: self.output,
            output_enable: self.output_enable,
            int_mode: self.int_mode@,
            int_mask: self.int_mask,
            int_stat: self.int_stat,
            int_clr: self.int_clr,
            uart_sig_sel: self.uart_sig_sel,
        }
    }
}

impl Glb {
    /// The view of every register file has twelve configuration words and
    /// three interrupt mode words.
    pub proof fn lemma_wf(&self)
        ensures
            self@.wf(),
    {
    }

    /// The register file as the hardware leaves it after reset.
    pub fn reset() -> (r: Glb)
        ensures
            r@.is_reset(),
            forall|pin: nat| pin < PIN_COUNT ==> #[trigger] r@.pin_config(pin) == floating_input_config(),
            forall|pin: nat| pin < PIN_COUNT ==> !#[trigger] r@.output_enabled(pin),
            forall|sig: nat| sig < UART_SIGNAL_COUNT ==> #[trigger] r@.uart_signal_code(sig) == 1,
    {
        let cfgctl: [u32; 12] = [
            RESET_CFGCTL,
            RESET_CFGCTL,
            RESET_CFGCTL,
            RESET_CFGCTL,
            RESET_CFGCTL,
            RESET_CFGCTL,
            RESET_CFGCTL,
            RESET_CFGCTL,
            RESET_CFGCTL,
            RESET_CFGCTL,
            RESET_CFGCTL,
            RESET_CFGCTL,
        ];
        let int_mode: [u32; 3] = [0u32, 0u32, 0u32];
        assert(cfgctl@ =~= Seq::new(12, |k: int| RESET_CFGCTL));
        assert(int_mode@ =~= Seq::new(3, |k: int| 0u32));
        let r = Glb {
            cfgctl,
            input: 0,
            output: 0,
            output_enable: 0,
            int_mode,
            int_mask: 0,
            int_stat: 0,
            int_clr: 0,
            uart_sig_sel: RESET_UART_SIG_SEL,
        };
        proof {
            lemma_reset_state(r@);
        }
        r
    }
    /// Writes a mode transition's configuration fields of `pin` in one
    /// read-modify-write, keeping every other bit of the word.
    pub(crate) fn modify_pin_fields(
        &mut self,
        pin: u8,
        function: u32,
        input_enable: bool,
        pull_up: bool,
        pull_down: bool,
    )
        requires
            pin < PIN_COUNT,
        ensures
            final(self)@ == old(self)@.with_pin_fields(
                pin as nat,
                function,
                input_enable,
                pull_up,
                pull_down,
            ),
    {
        let w: usize = (pin / 2) as usize;
        let sh: u32 = ((pin % 2) as u32) * 16;
        let fields: u32 = (function << 8u32) | (if pull_down {
            0x20u32
        } else {
            0u32
        }) | (if pull_up {
            0x10u32
        } else {
            0u32
        }) | (if input_enable {
            1u32
        } else {
            0u32
        });
        let word = write_field(self.cfgctl[w], sh, PIN_FIELDS_MASK, fields);
        self.cfgctl[w] = word;
    }

    /// Sets or clears the schmitt filter bit of `pin`.
    pub(crate) fn modify_schmitt(&mut self, pin: u8, enabled: bool)
        requires
            pin < PIN_COUNT,
        ensures
            final(self)@ == old(self)@.with_schmitt(pin as nat, enabled),
    {
        let w: usize = (pin / 2) as usize;
        let sh: u32 = ((pin % 2) as u32) * 16;
        let word = write_bit(self.cfgctl[w], sh + 1, enabled);
        self.cfgctl[w] = word;
    }

    /// Sets or clears the output enable bit of `pin`.
    pub(crate) fn modify_output_enable(&mut self, pin: u8, enabled: bool)
        requires
            pin < PIN_COUNT,
        ensures
            final(self)@ == old(self)@.with_output_enable(pin as nat, enabled),
    {
        self.output_enable = write_bit(self.output_enable, pin as u32, enabled);
    }

    /// Sets or clears the output latch bit of `pin`.
    pub(crate) fn modify_output(&mut self, pin: u8, high: bool)
        requires
            pin < PIN_COUNT,
        ensures
            final(self)@ == old(self)@.with_output(pin as nat, high),
    {
        self.output = write_bit(self.output, pin as u32, high);
    }

    /// Writes the two-bit trigger code of `pin`.
    pub(crate) fn modify_trigger(&mut self, pin: u8, code: u32)
        requires
            pin < PIN_COUNT,
        ensures
            final(self)@ == old(self)@.with_trigger(pin as nat, code),
    {
        let w: usize = (pin / 10) as usize;
        let sh: u32 = ((pin % 10) as u32) * 3;
        let word = write_field(self.int_mode[w], sh, 3, code);
        self.int_mode[w] = word;
    }

    /// Sets `pin`'s interrupt sampling to asynchronous (`true`) or synchronous.
    pub(crate) fn modify_asynchronous(&mut self, pin: u8, asynchronous: bool)
        requires
            pin < PIN_COUNT,
        ensures
            final(self)@ == old(self)@.with_asynchronous(pin as nat, asynchronous),
    {
        let w: usize = (pin / 10) as usize;
        let sh: u32 = ((pin % 10) as u32) * 3;
        let word = write_bit(self.int_mode[w], sh + 2, asynchronous);
        self.int_mode[w] = word;
    }

    /// Sets (masked) or clears (unmasked) `pin`'s bit of the shared interrupt mask.
    pub(crate) fn modify_interrupt_mask(&mut self, pin: u8, masked: bool)
        requires
            pin < PIN_COUNT,
        ensures
            final(self)@ == old(self)@.with_interrupt_mask(pin as nat, masked),
    {
        self.int_mask = write_bit(self.int_mask, pin as u32, masked);
    }

    /// Sets or clears `pin`'s bit of the shared interrupt clear register.
    pub(crate) fn modify_interrupt_clear(&mut self, pin: u8, set: bool)
        requires
            pin < PIN_COUNT,
        ensures
            final(self)@ == old(self)@.with_interrupt_clear(pin as nat, set),
    {
        self.int_clr = write_bit(self.int_clr, pin as u32, set);
    }

    /// Writes the selector code of internal UART signal `sig`.
    pub(crate) fn modify_uart_signal(&mut self, sig: u8, code: u32)
        requires
            sig < UART_SIGNAL_COUNT,
        ensures
            final(self)@ == old(self)@.with_uart_signal(sig as nat, code),
    {
        self.uart_sig_sel = write_field(self.uart_sig_sel, (sig as u32) * 4, 0xF, code);
    }

    /// Stands for the hardware sampling the pads: bit `p` of `levels` becomes
    /// the input level of pin `p`.
    pub fn latch_input_levels(&mut self, levels: u32)
        ensures
            final(self)@ == (GlbState { input: levels, ..old(self)@ }),
    {
        self.input = levels;
    }

    /// Stands for the hardware raising interrupts: bit `p` of `pending`
    /// becomes the interrupt status of pin `p`.
    pub fn latch_interrupt_status(&mut self, pending: u32)
        ensures
            final(self)@ == (GlbState { int_stat: pending, ..old(self)@ }),
    {
        self.int_stat = pending;
    }

    /// The configuration fields of `pin`.
    pub fn pin_config(&self, pin: u8) -> (r: PinConfig)
        requires
            pin < PIN_COUNT,
        ensures
            r == self@.pin_config(pin as nat),
    {
        let w: usize = (pin / 2) as usize;
        let sh: u32 = ((pin % 2) as u32) * 16;
        let l = read_field(self.cfgctl[w], sh, PIN_FIELDS_MASK);
        PinConfig {
            function: (l >> 8u32) & 0x1Fu32,
            input_enable: l & 1u32 == 1u32,
            pull_up: (l >> 4u32) & 1u32 == 1u32,
            pull_down: (l >> 5u32) & 1u32 == 1u32,
            drive: (l >> 2u32) & 3u32,
            schmitt: (l >> 1u32) & 1u32 == 1u32,
        }
    }

    /// Whether the output driver of `pin` is enabled.
    pub fn output_enabled(&self, pin: u8) -> (r: bool)
        requires
            pin < PIN_COUNT,
        ensures
            r == self@.output_enabled(pin as nat),
    {
        read_bit(self.output_enable, pin as u32)
    }

    /// The level sampled on `pin`.
    pub fn input_level(&self, pin: u8) -> (r: bool)
        requires
            pin < PIN_COUNT,
        ensures
            r == self@.input_level(pin as nat),
    {
        read_bit(self.input, pin as u32)
    }

    /// The output latch of `pin`.
    pub fn output_level(&self, pin: u8) -> (r: bool)
        requires
            pin < PIN_COUNT,
        ensures
            r == self@.output_level(pin as nat),
    {
        read_bit(self.output, pin as u32)
    }

    /// The two-bit trigger code of `pin`.
    pub fn trigger_code(&self, pin: u8) -> (r: u32)
        requires
            pin < PIN_COUNT,
        ensures
            r == self@.trigger_code(pin as nat),
    {
        read_field(self.int_mode[(pin / 10) as usize], ((pin % 10) as u32) * 3, 3)
    }

    /// Whether `pin`'s interrupt is sampled asynchronously.
    pub fn is_asynchronous(&self, pin: u8) -> (r: bool)
        requires
            pin < PIN_COUNT,
        ensures
            r == self@.asynchronous(pin as nat),
    {
        read_bit(self.int_mode[(pin / 10) as usize], ((pin % 10) as u32) * 3 + 2)
    }

    /// Whether `pin`'s interrupt is masked.
    pub fn interrupt_masked(&self, pin: u8) -> (r: bool)
        requires
            pin < PIN_COUNT,
        ensures
            r == self@.interrupt_masked(pin as nat),
    {
        read_bit(self.int_mask, pin as u32)
    }

    /// `pin`'s bit of the interrupt clear register.
    pub fn interrupt_clear_bit(&self, pin: u8) -> (r: bool)
        requires
            pin < PIN_COUNT,
        ensures
            r == self@.interrupt_clear_bit(pin as nat),
    {
        read_bit(self.int_clr, pin as u32)
    }

    /// Whether an interrupt of `pin` is pending.
    pub fn interrupt_pending(&self, pin: u8) -> (r: bool)
        requires
            pin < PIN_COUNT,
        ensures
            r == self@.interrupt_pending(pin as nat),
    {
        read_bit(self.int_stat, pin as u32)
    }

    /// The selector code of internal UART signal `sig`.
    pub fn uart_signal_code(&self, sig: u8) -> (r: u32)
        requires
            sig < UART_SIGNAL_COUNT,
        ensures
            r == self@.uart_signal_code(sig as nat),
    {
        read_field(self.uart_sig_sel, (sig as u32) * 4, 0xF)
    }
}

} // verus!
