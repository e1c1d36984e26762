// Interrupt flags and priority resolution.

use rust_gb_emu::interrupts::InterruptFlags;
use rust_gb_emu::interrupts::get_interrupt_vector;
use rust_gb_emu::interrupts::JOYPAD_VECTOR;
use rust_gb_emu::interrupts::LCD_STAT_VECTOR;
use rust_gb_emu::interrupts::SERIAL_VECTOR;
use rust_gb_emu::interrupts::TIMER_VECTOR;
use rust_gb_emu::interrupts::VBLANK_VECTOR;

#[test]
fn test_interrupt_flags_conversion() {
    let mut flags = InterruptFlags::new();

    flags.vblank = true;
    flags.timer = true;
    assert_eq!(flags.to_byte(), 0x05);

    flags.from_byte(0x1F);
    assert!(flags.vblank);
    assert!(flags.lcd_stat);
    assert!(flags.timer);
    assert!(flags.serial);
    assert!(flags.joypad);
}

#[test]
fn test_interrupt_priority() {
    // V-Blank has the highest priority.
    let ie = 0x1F; // All enabled.
    let if_reg = 0x05; // V-Blank and Timer pending.

    let (vector, bit) = get_interrupt_vector(ie, if_reg).unwrap();
    assert_eq!(vector, VBLANK_VECTOR);
    assert_eq!(bit, 0x01);
}

#[test]
fn test_interrupt_masking() {
    let ie = 0x04; // Only Timer enabled.
    let if_reg = 0x03; // V-Blank and LCD STAT pending (but not enabled).

    // No interrupt should fire because none is enabled.
    assert!(get_interrupt_vector(ie, if_reg).is_none());

    // Now with Timer also pending.
    let if_reg = 0x07;
    let (vector, _) = get_interrupt_vector(ie, if_reg).unwrap();
    assert_eq!(vector, TIMER_VECTOR);
}

#[test]
fn test_each_vector() {
    assert_eq!(get_interrupt_vector(0x1F, 0x01), Some((VBLANK_VECTOR, 0x01)));
    assert_eq!(get_interrupt_vector(0x1F, 0x02), Some((LCD_STAT_VECTOR, 0x02)));
    assert_eq!(get_interrupt_vector(0x1F, 0x04), Some((TIMER_VECTOR, 0x04)));
    assert_eq!(get_interrupt_vector(0x1F, 0x08), Some((SERIAL_VECTOR, 0x08)));
    assert_eq!(get_interrupt_vector(0x1F, 0x10), Some((JOYPAD_VECTOR, 0x10)));
    assert_eq!(get_interrupt_vector(0x1F, 0x00), None);
}
