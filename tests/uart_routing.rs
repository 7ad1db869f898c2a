use bl602_hal::gpio::GlbExt;
use bl602_hal::registers::Glb;

#[test]
fn mux2_to_uart1_tx_writes_code_six() {
    let parts = Glb::reset().split();
    let mut glb = parts.glb;
    let mux = parts.uart_mux2.into_uart1_tx(&mut glb);
    assert_eq!(glb.uart_signal_code(2), 6);
    assert_eq!(mux.index(), 2);
    for s in [0u8, 1, 3, 4, 5, 6, 7] {
        assert_eq!(glb.uart_signal_code(s), 1);
    }
}

#[test]
fn every_instance_and_role_gets_its_code() {
    let parts = Glb::reset().split();
    let mut glb = parts.glb;
    let m = parts.uart_mux0;
    let m = m.into_uart0_rts(&mut glb);
    assert_eq!(glb.uart_signal_code(0), 0);
    let m = m.into_uart0_cts(&mut glb);
    assert_eq!(glb.uart_signal_code(0), 1);
    let m = m.into_uart0_tx(&mut glb);
    assert_eq!(glb.uart_signal_code(0), 2);
    let m = m.into_uart0_rx(&mut glb);
    assert_eq!(glb.uart_signal_code(0), 3);
    let m = m.into_uart1_rts(&mut glb);
    assert_eq!(glb.uart_signal_code(0), 4);
    let m = m.into_uart1_cts(&mut glb);
    assert_eq!(glb.uart_signal_code(0), 5);
    let m = m.into_uart1_tx(&mut glb);
    assert_eq!(glb.uart_signal_code(0), 6);
    let _m = m.into_uart1_rx(&mut glb);
    assert_eq!(glb.uart_signal_code(0), 7);

    let _ = parts.uart_mux1.into_uart1_cts(&mut glb);
    let _ = parts.uart_mux2.into_uart1_rts(&mut glb);
    let _ = parts.uart_mux3.into_uart0_rx(&mut glb);
    let _ = parts.uart_mux4.into_uart0_tx(&mut glb);
    let _ = parts.uart_mux5.into_uart0_cts(&mut glb);
    let _ = parts.uart_mux6.into_uart0_rts(&mut glb);
    let _ = parts.uart_mux7.into_uart1_tx(&mut glb);
    let expected = [7u32, 5, 4, 3, 2, 1, 0, 6];
    for s in 0..8u8 {
        assert_eq!(glb.uart_signal_code(s), expected[s as usize]);
    }
}

#[test]
fn routing_twice_equals_once() {
    let parts = Glb::reset().split();
    let mut glb = parts.glb;
    let m = parts.uart_mux7.into_uart0_rx(&mut glb);
    let once: Vec<u32> = (0..8u8).map(|s| glb.uart_signal_code(s)).collect();
    let _m = m.into_uart0_rx(&mut glb);
    let twice: Vec<u32> = (0..8u8).map(|s| glb.uart_signal_code(s)).collect();
    assert_eq!(once, twice);
    assert_eq!(glb.uart_signal_code(7), 3);
}
