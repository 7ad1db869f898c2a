//! Internal UART signals: eight exclusively owned multiplexer handles, each
//! routing one internal UART signal to one role of one of the two UART
//! peripherals. The handle's type says which role.
//!
//! Selector codes: UART0 RTS, CTS, TX, RX are 0 to 3; UART1 RTS, CTS, TX, RX
//! are 4 to 7.

use core::marker::PhantomData;

use vstd::prelude::*;

use crate::registers::{Glb, UART_SIGNAL_COUNT, lemma_uart_routing};

verus! {

/// UART0 RTS (type state)
pub struct Uart0Rts;

/// UART0 CTS (type state)
pub struct Uart0Cts;

/// UART0 TXD (type state)
pub struct Uart0Tx;

/// UART0 RXD (type state)
pub struct Uart0Rx;

/// UART1 RTS (type state)
pub struct Uart1Rts;

/// UART1 CTS (type state)
pub struct Uart1Cts;

/// UART1 TXD (type state)
pub struct Uart1Tx;

/// UART1 RXD (type state)
pub struct Uart1Rx;

/// The multiplexer of one internal UART signal, 0 to 7, routed to role `MODE`.
#[verifier::reject_recursive_types(MODE)]
pub struct UartMux<MODE> {
    index: u8,
    _mode: PhantomData<MODE>,
}

impl<MODE> UartMux<MODE> {
    #[verifier::type_invariant]
    spec fn inv(self) -> bool {
        self.index < UART_SIGNAL_COUNT
    }

    /// The internal UART signal's number.
    pub closed spec fn id(self) -> nat {
        self.index as nat
    }

    pub(crate) fn new(index: u8) -> (r: UartMux<MODE>)
        requires
            index < UART_SIGNAL_COUNT,
        ensures
            r.id() == index,
    {
        UartMux { index, _mode: PhantomData }
    }

    /// The internal UART signal's number.
    pub fn index(&self) -> (r: u8)
        ensures
            r as nat == self.id(),
            r < UART_SIGNAL_COUNT,
    {
        proof {
            use_type_invariant(self);
        }
        self.index
    }

    fn into_uart_mode<T>(self, glb: &mut Glb, code: u8) -> (r: UartMux<T>)
        requires
            code < 8,
        ensures
            r.id() == self.id(),
            final(glb)@ == old(glb)@.with_uart_signal(self.id(), code as u32),
            final(glb)@.uart_signal_code(self.id()) == code,
    {
        proof {
            use_type_invariant(&self);
            lemma_uart_routing(old(glb)@, self.id(), code as u32);
        }
        glb.modify_uart_signal(self.index, code as u32);
        UartMux { index: self.index, _mode: PhantomData }
    }

    /// Routes the internal UART signal to UART0-RTS.
    pub fn into_uart0_rts(self, glb: &mut Glb) -> (r: UartMux<Uart0Rts>)
        ensures
            r.id() == self.id(),
            final(glb)@ == old(glb)@.with_uart_signal(self.id(), 0),
            final(glb)@.uart_signal_code(self.id()) == 0,
    {
        self.into_uart_mode(glb, 0)
    }

    /// Routes the internal UART signal to UART0-CTS.
    pub fn into_uart0_cts(self, glb: &mut Glb) -> (r: UartMux<Uart0Cts>)
        ensures
            r.id() == self.id(),
            final(glb)@ == old(glb)@.with_uart_signal(self.id(), 1),
            final(glb)@.uart_signal_code(self.id()) == 1,
    {
        self.into_uart_mode(glb, 1)
    }

    /// Routes the internal UART signal to UART0-TX.
    pub fn into_uart0_tx(self, glb: &mut Glb) -> (r: UartMux<Uart0Tx>)
        ensures
            r.id() == self.id(),
            final(glb)@ == old(glb)@.with_uart_signal(self.id(), 2),
            final(glb)@.uart_signal_code(self.id()) == 2,
    {
        self.into_uart_mode(glb, 2)
    }

    /// Routes the internal UART signal to UART0-RX.
    pub fn into_uart0_rx(self, glb: &mut Glb) -> (r: UartMux<Uart0Rx>)
        ensures
            r.id() == self.id(),
            final(glb)@ == old(glb)@.with_uart_signal(self.id(), 3),
            final(glb)@.uart_signal_code(self.id()) == 3,
    {
        self.into_uart_mode(glb, 3)
    }

    /// Routes the internal UART signal to UART1-RTS.
    pub fn into_uart1_rts(self, glb: &mut Glb) -> (r: UartMux<Uart1Rts>)
        ensures
            r.id() == self.id(),
            final(glb)@ == old(glb)@.with_uart_signal(self.id(), 4),
            final(glb)@.uart_signal_code(self.id()) == 4,
    {
        self.into_uart_mode(glb, 4)
    }

    /// Routes the internal UART signal to UART1-CTS.
    pub fn into_uart1_cts(self, glb: &mut Glb) -> (r: UartMux<Uart1Cts>)
        ensures
            r.id() == self.id(),
            final(glb)@ == old(glb)@.with_uart_signal(self.id(), 5),
            final(glb)@.uart_signal_code(self.id()) == 5,
    {
        self.into_uart_mode(glb, 5)
    }

    /// Routes the internal UART signal to UART1-TX.
    pub fn into_uart1_tx(self, glb: &mut Glb) -> (r: UartMux<Uart1Tx>)
        ensures
            r.id() == self.id(),
            final(glb)@ == old(glb)@.with_uart_signal(self.id(), 6),
            final(glb)@.uart_signal_code(self.id()) == 6,
    {
        self.into_uart_mode(glb, 6)
    }

    /// Routes the internal UART signal to UART1-RX.
    pub fn into_uart1_rx(self, glb: &mut Glb) -> (r: UartMux<Uart1Rx>)
        ensures
            r.id() == self.id(),
            final(glb)@ == old(glb)@.with_uart_signal(self.id(), 7),
            final(glb)@.uart_signal_code(self.id()) == 7,
    {
        self.into_uart_mode(glb, 7)
    }
}

} // verus!
