use ness_core::cart::{Chipset, Header, MapMode};
use ness_core::emu::{Emu, Model};
use ness_core::schedule::Event;

fn test_header() -> Header {
    Header {
        title: b"TEST".to_vec(),
        map_mode: MapMode(0x20),
        chipset: Chipset { has_ram: false, has_battery: false },
        rom_size_byte: 0x09,
        ram_size: 0,
        checksum_complement: 0xFFFF,
        checksum: 0x0000,
        nmi_vector: 0xFF0A,
        irq_vector: 0xFF0E,
        reset_vector: 0x8000,
    }
}

#[test]
fn new_emu_resets_to_the_reset_vector() {
    let emu = Emu::new(Model::Ntsc, &test_header());
    assert_eq!(emu.cpu.regs.pc, 0x8000);
    assert_eq!(emu.cpu.regs.sp, 0x1FC);
    assert!(!emu.cpu.regs.emulation_mode());
    assert_eq!(emu.schedule.cur_time, 0);
    assert!(!emu.frame_finished);
}

#[test]
fn run_frame_advances_one_ntsc_frame() {
    let mut emu = Emu::new(Model::Ntsc, &test_header());
    emu.run_frame();
    assert_eq!(emu.schedule.cur_time, 357366);
    assert!(!emu.frame_finished);
    emu.run_frame();
    assert_eq!(emu.schedule.cur_time, 2 * 357366);
}

#[test]
fn run_frame_advances_one_pal_frame() {
    let mut emu = Emu::new(Model::Pal, &test_header());
    emu.run_frame();
    assert_eq!(emu.schedule.cur_time, 425568);
}

#[test]
fn hv_irq_event_vectors_the_cpu_within_the_frame() {
    let mut emu = Emu::new(Model::Ntsc, &test_header());
    emu.schedule.schedule_at(Event::HvIrq, 1000);
    emu.run_frame();
    // the timer event fired, preempted the CPU, and the next boundary
    // vectored through the IRQ vector
    assert_eq!(emu.cpu.regs.pc, 0xFF0E);
    assert!(emu.cpu.regs.psw.irqs_disabled);
    assert_eq!(emu.schedule.cur_time, 357366);
}

#[test]
fn nmi_request_vectors_at_the_next_boundary_of_the_frame() {
    let mut emu = Emu::new(Model::Ntsc, &test_header());
    emu.cpu.irqs.request_nmi(&mut emu.schedule);
    emu.run_frame();
    assert_eq!(emu.cpu.regs.pc, 0xFF0A);
    assert!(!emu.cpu.irqs.processing_nmi());
}

#[test]
fn preempt_ends_the_running_slice_at_cur_time() {
    let mut emu = Emu::new(Model::Ntsc, &test_header());
    emu.schedule.schedule_at(Event::HvIrq, 1000);
    emu.schedule.set_target_to_next_event();
    assert_eq!(emu.schedule.target_time, 1000);
    emu.schedule.advance(500);
    emu.schedule.set_target_to_cur();
    emu.run_until_next_event();
    assert_eq!(emu.schedule.cur_time, 500);
}

#[test]
fn events_due_at_the_frame_boundary_are_drained_before_return() {
    let mut emu = Emu::new(Model::Ntsc, &test_header());
    // due at the same timestamp as the frame boundary, queued after it
    emu.schedule.schedule_at(Event::HvIrq, 357366);
    emu.run_frame();
    // the timer event was delivered within the same call
    assert!(emu.cpu.irqs.hv_timer_irq_requested());
    assert_eq!(emu.schedule.cur_time, 357366);
}

#[test]
fn soft_reset_restores_the_register_file() {
    let mut emu = Emu::new(Model::Ntsc, &test_header());
    emu.cpu.regs.a = 0x1234;
    emu.cpu.regs.pc = 0x4444;
    emu.soft_reset();
    assert_eq!(emu.cpu.regs.a, 0);
    assert_eq!(emu.cpu.regs.pc, 0x8000);
    assert!(emu.cpu.irqs.irqs_enabled());
}

#[test]
fn controller_and_apu_events_are_delivered_without_core_effect() {
    let mut emu = Emu::new(Model::Ntsc, &test_header());
    emu.schedule.schedule_at(Event::Controllers, 100);
    emu.schedule.schedule_at(Event::UpdateApu, 200);
    emu.run_frame();
    assert_eq!(emu.schedule.cur_time, 357366);
    assert_eq!(emu.cpu.regs.pc, 0x8000);
}
