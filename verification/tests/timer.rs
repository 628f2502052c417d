use qoboy::soc::peripheral::nvic::{InterruptSources, Nvic};
use qoboy::soc::peripheral::timer::{Timer, CLOCK_TICK_PER_MACHINE_CYCLE};

#[test]
fn test_timer_inc() {
    let mut timer = Timer::new();
    let mut nvic = Nvic::new();

    timer.enabled = true;

    for _ in 0..=1024 {
        timer.run(1, &mut nvic);
    }

    assert_eq!(timer.value, 1);
}

#[test]
fn test_timer_overflow() {
    let mut timer = Timer::new();
    let mut nvic = Nvic::new();

    nvic.master_enable(true);
    nvic.enable_interrupt(InterruptSources::TIMER, true);
    timer.enabled = true;
    timer.value = 0xFF;

    for _ in 0..=1024 {
        timer.run(1, &mut nvic);
    }

    assert_eq!(timer.value, 0x00);
    assert_eq!(nvic.get_interrupt(), None);

    // run 1 more machine cycle (4 clocks) to rise the interrupt
    timer.run(CLOCK_TICK_PER_MACHINE_CYCLE, &mut nvic);
    assert_eq!(nvic.get_interrupt().unwrap(), InterruptSources::TIMER);

    timer.modulo = 0xF5;
    timer.value = 0xFF;

    for _ in 0..=1024 {
        timer.run(1, &mut nvic);
    }

    assert_eq!(timer.value, 0xF5);
}

