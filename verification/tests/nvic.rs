use qoboy::soc::peripheral::nvic::{InterruptSources, Nvic};

#[test]
fn nvic_test_enable_interrupt() {
    let mut nvic = Nvic::new();

    nvic.enable_interrupt(InterruptSources::VBLANK, true);
    assert_eq!(nvic.interrupt_enable, 0x01);

    nvic.enable_interrupt(InterruptSources::STAT, true);
    assert_eq!(nvic.interrupt_enable, 0x03);

    nvic.enable_interrupt(InterruptSources::JOYPAD, true);
    assert_eq!(nvic.interrupt_enable, 0x13);

    nvic.enable_interrupt(InterruptSources::STAT, false);
    assert_eq!(nvic.interrupt_enable, 0x11);
}

#[test]
fn nvic_test_set_interrupt() {
    let mut nvic = Nvic::new();

    nvic.master_enable(true);
    nvic.enable_interrupt(InterruptSources::VBLANK, true);
    assert_eq!(nvic.interrupt_enable, 0x01);
    nvic.enable_interrupt(InterruptSources::STAT, true);
    assert_eq!(nvic.interrupt_enable, 0x03);

    nvic.set_interrupt(InterruptSources::SERIAL);
    assert_eq!(nvic.is_an_interrupt_to_run(), false);
    assert_eq!(nvic.is_an_interrupt_pending(), false);
    let mut interrupt = nvic.get_interrupt();
    match interrupt {
        Some(InterruptSources::VBLANK) => assert!(false),
        Some(InterruptSources::STAT) => assert!(false),
        Some(InterruptSources::TIMER) => assert!(false),
        Some(InterruptSources::SERIAL) => assert!(false),
        Some(InterruptSources::JOYPAD) => assert!(false),
        None => assert!(true)
    }

    nvic.set_interrupt(InterruptSources::STAT);
    assert_eq!(nvic.is_an_interrupt_to_run(), true);
    assert_eq!(nvic.is_an_interrupt_pending(), true);
    interrupt = nvic.get_interrupt();
    match interrupt {
        Some(InterruptSources::VBLANK) => assert!(false),
        Some(InterruptSources::STAT) => assert!(true),
        Some(InterruptSources::TIMER) => assert!(false),
        Some(InterruptSources::SERIAL) => assert!(false),
        Some(InterruptSources::JOYPAD) => assert!(false),
        None => assert!(false)
    }

    // check that interrupt has been cleared
    interrupt = nvic.get_interrupt();
    assert_eq!(nvic.is_an_interrupt_to_run(), false);
    assert_eq!(nvic.is_an_interrupt_pending(), false);
    match interrupt {
        Some(InterruptSources::VBLANK) => assert!(false),
        Some(InterruptSources::STAT) => assert!(false),
        Some(InterruptSources::TIMER) => assert!(false),
        Some(InterruptSources::SERIAL) => assert!(false),
        Some(InterruptSources::JOYPAD) => assert!(false),
        None => assert!(true)
    }

    // check interrupt priority
    nvic.set_interrupt(InterruptSources::STAT);
    nvic.set_interrupt(InterruptSources::VBLANK);
    assert_eq!(nvic.is_an_interrupt_to_run(), true);
    assert_eq!(nvic.is_an_interrupt_pending(), true);
    interrupt = nvic.get_interrupt();
    match interrupt {
        Some(InterruptSources::VBLANK) => assert!(true),
        Some(InterruptSources::STAT) => assert!(false),
        Some(InterruptSources::TIMER) => assert!(false),
        Some(InterruptSources::SERIAL) => assert!(false),
        Some(InterruptSources::JOYPAD) => assert!(false),
        None => assert!(false)
    }

    assert_eq!(nvic.is_an_interrupt_to_run(), true);
    assert_eq!(nvic.is_an_interrupt_pending(), true);
    interrupt = nvic.get_interrupt();
    match interrupt {
        Some(InterruptSources::VBLANK) => assert!(false),
        Some(InterruptSources::STAT) => assert!(true),
        Some(InterruptSources::TIMER) => assert!(false),
        Some(InterruptSources::SERIAL) => assert!(false),
        Some(InterruptSources::JOYPAD) => assert!(false),
        None => assert!(false)
    }

    assert_eq!(nvic.is_an_interrupt_to_run(), false);
    assert_eq!(nvic.is_an_interrupt_pending(), false);
    interrupt = nvic.get_interrupt();
    match interrupt {
        Some(InterruptSources::VBLANK) => assert!(false),
        Some(InterruptSources::STAT) => assert!(false),
        Some(InterruptSources::TIMER) => assert!(false),
        Some(InterruptSources::SERIAL) => assert!(false),
        Some(InterruptSources::JOYPAD) => assert!(false),
        None => assert!(true)
    }
}

#[test]
fn test_last_interrupt() {
    let mut nvic = Nvic::new();

    nvic.master_enable(true);
    nvic.enable_interrupt(InterruptSources::VBLANK, true);
    assert_eq!(nvic.interrupt_enable, 0x01);
    nvic.enable_interrupt(InterruptSources::JOYPAD, true);
    assert_eq!(nvic.interrupt_enable, 0x11);

    nvic.set_interrupt(InterruptSources::JOYPAD);
    assert_eq!(nvic.is_an_interrupt_to_run(), true);
    assert_eq!(nvic.is_an_interrupt_pending(), true);
    let mut interrupt = nvic.get_interrupt();
    match interrupt {
        Some(InterruptSources::VBLANK) => assert!(false),
        Some(InterruptSources::STAT) => assert!(false),
        Some(InterruptSources::TIMER) => assert!(false),
        Some(InterruptSources::SERIAL) => assert!(false),
        Some(InterruptSources::JOYPAD) => assert!(true),
        None => assert!(false)
    }

    assert_eq!(nvic.is_an_interrupt_to_run(), false);
    assert_eq!(nvic.is_an_interrupt_pending(), false);
    interrupt = nvic.get_interrupt();
    match interrupt {
        Some(InterruptSources::VBLANK) => assert!(false),
        Some(InterruptSources::STAT) => assert!(false),
        Some(InterruptSources::TIMER) => assert!(false),
        Some(InterruptSources::SERIAL) => assert!(false),
        Some(InterruptSources::JOYPAD) => assert!(false),
        None => assert!(true)
    }
}

#[test]
fn test_enable_it_from_byte() {
    let mut nvic = Nvic::new();

    nvic.set_it_enable(0b00001100);
    assert_eq!(nvic.get_it_enable(), 0b11101100);
}

