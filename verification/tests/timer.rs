use dmg_core::timer::Timer;

#[test]
fn div_reads_zero_after_any_write() {
    let mut timer = Timer::new();
    for _ in 0..1000 {
        timer.cycle();
    }
    assert_eq!(timer.mem_read(0xFF04), 3);
    for value in [0x00u8, 0x01, 0x7F, 0xFF] {
        for _ in 0..300 {
            timer.cycle();
        }
        timer.mem_write(0xFF04, value);
        assert_eq!(timer.div, 0);
        assert_eq!(timer.mem_read(0xFF04), 0);
    }
}

#[test]
fn div_shows_the_high_byte_of_the_divider() {
    let mut timer = Timer::new();
    for _ in 0..255 {
        timer.cycle();
    }
    assert_eq!(timer.mem_read(0xFF04), 0);
    timer.cycle();
    assert_eq!(timer.mem_read(0xFF04), 1);
    assert_eq!(timer.div, 256);
}

#[test]
fn nothing_is_pending_at_power_on() {
    let mut timer = Timer::new();
    timer.cycle();
    assert!(!timer.request_interrupt);
    assert_eq!(timer.tima, 0);
}

#[test]
fn tac_selects_the_divider_bit() {
    let mut timer = Timer::new();
    for (tac, bit) in [(0x04u8, 9u8), (0x05, 3), (0x06, 5), (0x07, 7)] {
        timer.mem_write(0xFF07, tac);
        assert!(timer.enabled);
        assert_eq!(timer.div_bit, bit);
        assert_eq!(timer.mem_read(0xFF07), tac);
    }
    timer.mem_write(0xFF07, 0xFB);
    assert!(!timer.enabled);
    assert_eq!(timer.mem_read(0xFF07), 0x03);
}

#[test]
fn tima_counts_falling_edges_of_the_selected_bit() {
    let mut timer = Timer::new();
    timer.mem_write(0xFF07, 0x05);
    for _ in 0..15 {
        timer.cycle();
    }
    assert_eq!(timer.tima, 0);
    timer.cycle();
    assert_eq!(timer.tima, 1);
    for _ in 0..16 * 9 {
        timer.cycle();
    }
    assert_eq!(timer.tima, 10);
}

#[test]
fn a_disabled_timer_does_not_count() {
    let mut timer = Timer::new();
    timer.mem_write(0xFF07, 0x01);
    for _ in 0..1024 {
        timer.cycle();
    }
    assert_eq!(timer.tima, 0);
}

#[test]
fn overflow_reloads_tima_and_raises_the_interrupt_four_cycles_later() {
    let mut timer = Timer::new();
    timer.mem_write(0xFF06, 0xFE);
    timer.mem_write(0xFF05, 0xFE);
    timer.mem_write(0xFF07, 0x05);
    let mut raised_at = Vec::new();
    let mut tima = Vec::new();
    for cycle in 1..=64u32 {
        timer.cycle();
        if timer.request_interrupt {
            raised_at.push(cycle);
        }
        tima.push(timer.tima);
    }
    assert_eq!(tima[15], 0xFF);
    assert_eq!(tima[31], 0x00);
    assert_eq!(tima[34], 0x00);
    assert_eq!(tima[35], 0xFE);
    assert_eq!(tima[47], 0xFF);
    assert_eq!(raised_at, vec![36]);
}

#[test]
fn timer_interrupt_after_64_cycles_with_tima_reloaded() {
    let mut timer = Timer::new();
    timer.div = 4;
    timer.mem_write(0xFF06, 0xFE);
    timer.mem_write(0xFF05, 0xFE);
    timer.mem_write(0xFF07, 0x05);
    let mut raised = false;
    for _ in 0..64 {
        timer.cycle();
        raised = raised || timer.request_interrupt;
    }
    assert!(raised);
    assert!(timer.request_interrupt);
    assert_eq!(timer.tima, 0xFE);
}

#[test]
fn a_write_to_tima_cancels_the_pending_reload() {
    let mut timer = Timer::new();
    timer.mem_write(0xFF06, 0x80);
    timer.mem_write(0xFF05, 0xFF);
    timer.mem_write(0xFF07, 0x05);
    for _ in 0..16 {
        timer.cycle();
    }
    assert_eq!(timer.tima, 0x00);
    assert_eq!(timer.overflow_delay, 3);
    timer.mem_write(0xFF05, 0x12);
    let mut raised = false;
    for _ in 0..8 {
        timer.cycle();
        raised = raised || timer.request_interrupt;
    }
    assert!(!raised);
    assert_eq!(timer.tima, 0x12);
}

#[test]
fn a_write_to_div_can_clock_tima() {
    let mut timer = Timer::new();
    timer.mem_write(0xFF07, 0x05);
    for _ in 0..8 {
        timer.cycle();
    }
    assert!(timer.previous_and);
    timer.mem_write(0xFF04, 0);
    timer.cycle();
    assert_eq!(timer.tima, 1);
}

#[test]
fn the_divider_wraps() {
    let mut timer = Timer::new();
    timer.div = 0xFFFF;
    timer.cycle();
    assert_eq!(timer.div, 0);
}
