use chip8::{Fault, CHIP8};

fn machine_with(program: &[u16]) -> CHIP8 {
    let mut bytes: Vec<u8> = Vec::new();
    for word in program {
        bytes.push((word >> 8) as u8);
        bytes.push((word & 0xFF) as u8);
    }
    let mut m = CHIP8::init();
    m.inject(bytes);
    m
}

fn run(m: &mut CHIP8, steps: usize) {
    for _ in 0..steps {
        assert_eq!(m.cycle_with_random(0), Ok(()));
    }
}

#[test]
fn init_loads_font_and_starts_at_program() {
    let m = CHIP8::init();
    assert_eq!(m.program_counter(), 0x200);
    assert_eq!(m.index_register(), 0);
    assert_eq!(m.stack_pointer(), 0);
    assert_eq!(m.memory_at(0), 0xF0);
    assert_eq!(m.memory_at(79), 0x80);
    assert_eq!(m.memory_at(80), 0);
    assert_eq!(m.memory_at(0x200), 0);
    assert!(m.framebuffer().iter().all(|&p| p == 0));
    assert_eq!(m.framebuffer().len(), 2048);
    assert_eq!(m.fault(), None);
}

#[test]
fn inject_copies_program_at_0x200() {
    let mut m = CHIP8::init();
    m.inject(vec![0x12, 0x34, 0x56]);
    assert_eq!(m.memory_at(0x1FF), 0);
    assert_eq!(m.memory_at(0x200), 0x12);
    assert_eq!(m.memory_at(0x201), 0x34);
    assert_eq!(m.memory_at(0x202), 0x56);
    assert_eq!(m.memory_at(0x203), 0);
}

#[test]
fn inject_largest_program() {
    let mut m = CHIP8::init();
    m.inject(vec![7u8; 3584]);
    assert_eq!(m.memory_at(0x200), 7);
    assert_eq!(m.memory_at(4095), 7);
}

#[test]
fn add_with_carry_sets_flag_on_overflow() {
    let mut m = machine_with(&[0x61C8, 0x6264, 0x8124]);
    run(&mut m, 3);
    assert_eq!(m.register(1), 44);
    assert_eq!(m.register(15), 1);
    assert_eq!(m.program_counter(), 0x206);
}

#[test]
fn add_with_carry_clears_flag_without_overflow() {
    let mut m = machine_with(&[0x6F01, 0x6114, 0x621E, 0x8124]);
    run(&mut m, 4);
    assert_eq!(m.register(1), 50);
    assert_eq!(m.register(15), 0);
}

#[test]
fn add_with_carry_at_255_boundary() {
    let mut m = machine_with(&[0x61FF, 0x6200, 0x8124, 0x63FF, 0x6401, 0x8344]);
    run(&mut m, 3);
    assert_eq!(m.register(1), 255);
    assert_eq!(m.register(15), 0);
    run(&mut m, 3);
    assert_eq!(m.register(3), 0);
    assert_eq!(m.register(15), 1);
}

#[test]
fn sub_with_borrow_wraps_and_clears_flag() {
    let mut m = machine_with(&[0x610A, 0x6214, 0x8125]);
    run(&mut m, 3);
    assert_eq!(m.register(1), 246);
    assert_eq!(m.register(15), 0);
}

#[test]
fn sub_without_borrow_sets_flag() {
    let mut m = machine_with(&[0x6114, 0x620A, 0x8125, 0x6305, 0x6405, 0x8345]);
    run(&mut m, 3);
    assert_eq!(m.register(1), 10);
    assert_eq!(m.register(15), 1);
    run(&mut m, 3);
    assert_eq!(m.register(3), 0);
    assert_eq!(m.register(15), 1);
}

#[test]
fn bcd_of_255_and_7() {
    let mut m = machine_with(&[0x60FF, 0xA300, 0xF033, 0x6107, 0xA310, 0xF133]);
    run(&mut m, 3);
    assert_eq!([m.memory_at(0x300), m.memory_at(0x301), m.memory_at(0x302)], [2, 5, 5]);
    run(&mut m, 3);
    assert_eq!([m.memory_at(0x310), m.memory_at(0x311), m.memory_at(0x312)], [0, 0, 7]);
}

#[test]
fn bcd_at_end_of_memory_faults() {
    let mut m = machine_with(&[0xAFFE, 0xF033]);
    run(&mut m, 1);
    assert_eq!(m.cycle_with_random(0), Err(Fault::OutOfRange));
    assert_eq!(m.memory_at(0xFFE), 0);
}

#[test]
fn clear_draw_clear_leaves_blank_screen() {
    // font glyph 0 drawn at (0,0) and (10,5), then cleared
    let mut m = machine_with(&[0x00E0, 0xA000, 0x600A, 0x6105, 0xD015, 0xD005, 0x00E0]);
    run(&mut m, 6);
    assert!(m.framebuffer().iter().any(|&p| p == 1));
    run(&mut m, 1);
    assert!(m.framebuffer().iter().all(|&p| p == 0));
    assert_eq!(m.program_counter(), 0x20E);
}

#[test]
fn draw_sets_pixels_msb_first() {
    // glyph 1 is 0x20 0x60 0x20 0x20 0x70
    let mut m = machine_with(&[0xA005, 0x6003, 0x6102, 0xD015]);
    run(&mut m, 4);
    assert_eq!(m.pixel(3 + 2, 2), 1);
    assert_eq!(m.pixel(3 + 1, 3), 1);
    assert_eq!(m.pixel(3 + 2, 3), 1);
    assert_eq!(m.pixel(3 + 0, 2), 0);
    assert_eq!(m.pixel(3 + 3, 6), 1);
    assert_eq!(m.pixel(3 + 4, 6), 0);
    assert_eq!(m.framebuffer().iter().filter(|&&p| p == 1).count(), 8);
    assert_eq!(m.register(15), 0);
}

#[test]
fn draw_twice_restores_and_collides() {
    let mut m = machine_with(&[0xA000, 0x6004, 0x6106, 0xD015, 0xD015]);
    run(&mut m, 3);
    let before = m.framebuffer().clone();
    run(&mut m, 1);
    assert_ne!(*m.framebuffer(), before);
    assert_eq!(m.register(15), 0);
    run(&mut m, 1);
    assert_eq!(*m.framebuffer(), before);
    assert_eq!(m.register(15), 1);
}

#[test]
fn draw_off_screen_faults_without_drawing() {
    let mut m = machine_with(&[0xA000, 0x6000, 0x611F, 0xD012]);
    run(&mut m, 3);
    assert_eq!(m.cycle_with_random(0), Err(Fault::OutOfRange));
    assert!(m.framebuffer().iter().all(|&p| p == 0));
    assert_eq!(m.program_counter(), 0x206);
}

#[test]
fn draw_sprite_past_memory_end_faults() {
    let mut m = machine_with(&[0xAFFF, 0xD002]);
    run(&mut m, 1);
    assert_eq!(m.cycle_with_random(0), Err(Fault::OutOfRange));
}

#[test]
fn call_then_return_resumes_after_call() {
    let mut bytes = vec![0u8; 0x100];
    bytes[0] = 0x23;
    bytes[1] = 0x00;
    bytes.extend_from_slice(&[0x00, 0xEE]);
    let mut m = CHIP8::init();
    m.inject(bytes);
    run(&mut m, 1);
    assert_eq!(m.program_counter(), 0x300);
    assert_eq!(m.stack_pointer(), 1);
    run(&mut m, 1);
    assert_eq!(m.program_counter(), 0x202);
    assert_eq!(m.stack_pointer(), 0);
}

#[test]
fn return_with_empty_stack_underflows() {
    let mut m = machine_with(&[0x00EE]);
    assert_eq!(m.cycle_with_random(0), Err(Fault::StackUnderflow));
    assert_eq!(m.fault(), Some(Fault::StackUnderflow));
    assert_eq!(m.program_counter(), 0x200);
}

#[test]
fn seventeenth_nested_call_overflows() {
    let mut m = machine_with(&[0x2200]);
    run(&mut m, 16);
    assert_eq!(m.stack_pointer(), 16);
    assert_eq!(m.cycle_with_random(0), Err(Fault::StackOverflow));
    assert_eq!(m.stack_pointer(), 16);
}

#[test]
fn undefined_opcode_faults_and_changes_nothing() {
    let mut m = machine_with(&[0x6142, 0xA123, 0x0FFF]);
    run(&mut m, 2);
    let mem: Vec<u8> = (0..4096).map(|a| m.memory_at(a)).collect();
    let fb = m.framebuffer().clone();
    let fault = Fault::UndefinedOpcode { opcode: 0x0FFF, pc: 0x204 };
    assert_eq!(m.cycle_with_random(0), Err(fault));
    assert_eq!(m.current_opcode(), 0x0FFF);
    assert_eq!(m.register(1), 0x42);
    assert_eq!(m.index_register(), 0x123);
    assert_eq!(m.program_counter(), 0x204);
    let after: Vec<u8> = (0..4096).map(|a| m.memory_at(a)).collect();
    assert_eq!(after, mem);
    assert_eq!(*m.framebuffer(), fb);
    assert_eq!(m.fault(), Some(fault));
    // a faulted machine stays stopped
    assert_eq!(m.cycle_with_random(0), Err(fault));
    assert_eq!(m.program_counter(), 0x204);
}

#[test]
fn other_undefined_patterns_fault() {
    for op in [0x5121u16, 0x8126, 0x912F, 0xE19F, 0xF199, 0x00E1] {
        let mut m = machine_with(&[op]);
        assert_eq!(m.cycle(), Err(Fault::UndefinedOpcode { opcode: op, pc: 0x200 }));
    }
}

#[test]
fn font_pointer_for_a_reads_glyph() {
    let mut m = machine_with(&[0x650A, 0xF529]);
    run(&mut m, 2);
    assert_eq!(m.index_register(), 50);
    let i = m.index_register() as usize;
    let glyph: Vec<u8> = (i..i + 5).map(|a| m.memory_at(a)).collect();
    assert_eq!(glyph, vec![0xF0, 0x90, 0xF0, 0x90, 0x90]);
}

#[test]
fn timers_count_down_to_zero_and_stop() {
    let mut m = machine_with(&[0x6005, 0xF015, 0xF018]);
    run(&mut m, 3);
    assert_eq!(m.delay_timer(), 5);
    assert_eq!(m.sound_timer(), 5);
    assert!(m.sound_on());
    for _ in 0..5 {
        m.tick_timers();
    }
    assert_eq!(m.delay_timer(), 0);
    assert_eq!(m.sound_timer(), 0);
    assert!(!m.sound_on());
    m.tick_timers();
    assert_eq!(m.delay_timer(), 0);
    assert_eq!(m.sound_timer(), 0);
}

#[test]
fn delay_timer_read_into_register() {
    let mut m = machine_with(&[0x6009, 0xF015, 0xF307]);
    run(&mut m, 2);
    m.tick_timers();
    run(&mut m, 1);
    assert_eq!(m.register(3), 8);
}

#[test]
fn jump_and_jump_with_offset() {
    let mut m = machine_with(&[0x1234]);
    run(&mut m, 1);
    assert_eq!(m.program_counter(), 0x234);
    let mut m = machine_with(&[0x6010, 0xB300]);
    run(&mut m, 2);
    assert_eq!(m.program_counter(), 0x310);
}

#[test]
fn skips_on_immediate_and_register_compare() {
    let mut m = machine_with(&[0x6107, 0x3107]);
    run(&mut m, 2);
    assert_eq!(m.program_counter(), 0x206);
    let mut m = machine_with(&[0x6107, 0x3108]);
    run(&mut m, 2);
    assert_eq!(m.program_counter(), 0x204);
    let mut m = machine_with(&[0x6107, 0x4108]);
    run(&mut m, 2);
    assert_eq!(m.program_counter(), 0x206);
    let mut m = machine_with(&[0x6107, 0x6207, 0x5120]);
    run(&mut m, 3);
    assert_eq!(m.program_counter(), 0x208);
    let mut m = machine_with(&[0x6107, 0x6207, 0x9120]);
    run(&mut m, 3);
    assert_eq!(m.program_counter(), 0x206);
}

#[test]
fn key_skips_follow_key_state() {
    let mut m = machine_with(&[0x6005, 0xE09E]);
    m.set_key(5, true);
    assert!(m.key_pressed(5));
    run(&mut m, 2);
    assert_eq!(m.program_counter(), 0x206);
    let mut m = machine_with(&[0x6005, 0xE0A1]);
    run(&mut m, 2);
    assert_eq!(m.program_counter(), 0x206);
    let mut m = machine_with(&[0x6005, 0xE0A1]);
    m.set_key(5, true);
    run(&mut m, 2);
    assert_eq!(m.program_counter(), 0x204);
}

#[test]
fn key_beyond_keypad_faults() {
    let mut m = machine_with(&[0x6010, 0xE09E]);
    run(&mut m, 1);
    assert_eq!(m.cycle_with_random(0), Err(Fault::OutOfRange));
}

#[test]
fn register_arithmetic_and_logic() {
    let mut m = machine_with(&[0x61F0, 0x7120, 0x620F, 0x8320, 0x8421, 0x6103, 0x6206, 0x8122]);
    run(&mut m, 2);
    assert_eq!(m.register(1), 0x10);
    assert_eq!(m.register(15), 0);
    run(&mut m, 2);
    assert_eq!(m.register(3), 0x0F);
    run(&mut m, 1);
    assert_eq!(m.register(4), 0x0F);
    run(&mut m, 3);
    assert_eq!(m.register(1), 0x02);
    let mut m = machine_with(&[0x6105, 0x6203, 0x8123]);
    run(&mut m, 3);
    assert_eq!(m.register(1), 0x06);
}

#[test]
fn random_byte_is_masked() {
    let mut m = machine_with(&[0xC20F, 0xC300]);
    assert_eq!(m.cycle_with_random(0xAB), Ok(()));
    assert_eq!(m.register(2), 0x0B);
    assert_eq!(m.cycle(), Ok(()));
    assert_eq!(m.register(3), 0);
}

#[test]
fn index_register_add_wraps() {
    let mut m = machine_with(&[0xA123, 0x6010, 0xF01E]);
    run(&mut m, 3);
    assert_eq!(m.index_register(), 0x133);
}

#[test]
fn register_dump_and_load() {
    let mut m = machine_with(&[0x6011, 0x6122, 0x6233, 0xA400, 0xF155, 0x6000, 0x6100, 0x6200, 0xF265]);
    run(&mut m, 5);
    assert_eq!([m.memory_at(0x400), m.memory_at(0x401), m.memory_at(0x402)], [0x11, 0x22, 0]);
    run(&mut m, 4);
    assert_eq!([m.register(0), m.register(1), m.register(2)], [0x11, 0x22, 0]);
    let mut m = machine_with(&[0xAFFF, 0xF155]);
    run(&mut m, 1);
    assert_eq!(m.cycle_with_random(0), Err(Fault::OutOfRange));
}

#[test]
fn fetch_past_memory_end_faults() {
    let mut m = machine_with(&[0x1FFF]);
    run(&mut m, 1);
    assert_eq!(m.cycle_with_random(0), Err(Fault::OutOfRange));
}
