//! Hardware-access layer for the BL602 general purpose I/O block and a
//! cycle-counter delay provider.

pub mod bits;
pub mod delay;
pub mod gpio;
pub mod registers;
pub mod uart_sig;
