//! Hardware registers, device by device.

use lazuli::web::ai::AiState;
use lazuli::web::di::DiState;
use lazuli::web::dsp::DspState;
use lazuli::web::exi::{gc_seconds, ExiState};
use lazuli::web::gx::GxState;
use lazuli::web::memcard::MemCard;
use lazuli::web::mi::MiState;
use lazuli::web::si::{build_poll_response, Axes, SiState, BTN_A, BTN_L, BTN_START};
use lazuli::web::vi::ViState;

#[test]
fn audio_interrupt_needs_all_three_bits() {
    let mut ai = AiState::default();
    ai.write_u32(0x0C, 100);
    ai.write_u32(0x00, 0x15);
    assert!(!ai.tick_sample_counter(99));
    assert!(ai.tick_sample_counter(1));
    assert_eq!(ai.read_u32(0x00) & 0x08, 0x08);
    ai.write_u32(0x00, 0x1D);
    assert_eq!(ai.read_u32(0x00), 0x15);
    assert!(ai.is_playing());
    ai.write_u32(0x00, 0x35);
    assert_eq!(ai.read_u32(0x08), 0);
    let mut quiet = AiState::default();
    quiet.write_u32(0x0C, 1);
    quiet.write_u32(0x00, 0x11);
    assert!(!quiet.tick_sample_counter(5));
}

#[test]
fn disc_status_flags_clear() {
    let mut di = DiState::default();
    di.status = 0x0E;
    assert!(!di.write_reg(0x00, 0x02));
    assert_eq!(di.read_reg(0x00), 0x0C);
    assert!(!di.write_reg(0x1C, 0));
    assert!(di.write_reg(0x1C, 3));
    di.write_reg(0x14, 0x8000_0000);
    assert_eq!(di.read_reg(0x14), 0x8000_0000);
}

#[test]
fn mailbox_echoes_and_boot_answers() {
    let mut dsp = DspState::default();
    dsp.write_u16(0x00, 0x1234);
    dsp.write_u16(0x02, 0x5678);
    assert_eq!(dsp.read_u16(0x04), 0x1234);
    assert_eq!(dsp.read_u16(0x06), 0x5678);
    dsp.write_u16(0x0A, 0x0004);
    dsp.write_u16(0x0A, 0x0000);
    assert_eq!(dsp.read_u16(0x04), 0x9234);
}

#[test]
fn dsp_interrupts_clear_by_writing_one() {
    let mut dsp = DspState::default();
    dsp.write_u16(0x0A, 0x0010);
    dsp.write_u16(0x36, 0x8001);
    assert!(dsp.any_interrupt());
    dsp.write_u16(0x0A, 0x0018);
    assert!(!dsp.any_interrupt());
    assert_eq!(dsp.read_u16(0x0A) & 0x10, 0x10);
}

#[test]
fn clock_is_latched_on_first_read() {
    let mut exi = ExiState::default();
    exi.write_u32_at(0x00, 1 << 8, 0);
    exi.write_u32_at(0x10, 0x2000_0000, 0);
    let at = 946_684_800_000 + 5_000;
    exi.write_u32_at(0x0C, 0x35, at);
    exi.write_u32_at(0x0C, 0x31, at);
    assert_eq!(gc_seconds(at), 5);
    assert_eq!(exi.rtc, 5);
}

#[test]
fn clock_before_its_epoch_is_zero() {
    assert_eq!(gc_seconds(0), 0);
    assert_eq!(gc_seconds(946_684_800_000), 0);
    assert_eq!(gc_seconds(946_684_801_999), 1);
}

#[test]
fn card_stores_what_is_written() {
    let mut card = MemCard::default();
    // Write 0xAB at 0x000102.
    card.handle(1, 1, 0xF100_0000);
    card.handle(1, 3, 0x0001_0200);
    card.handle(1, 1, 0xAB00_0000);
    card.reset_phase();
    assert_eq!(card.data[0x102], 0xAB);
    card.handle(1, 1, 0x5200_0000);
    card.handle(1, 3, 0x0001_0200);
    assert_eq!(card.handle(0, 1, 0) >> 24, 0xAB);
    card.reset_phase();
    assert_eq!(card.handle(0, 4, 0), 0xC204_0000);
}

#[test]
fn deselected_card_answers_a_probe() {
    let mut card = MemCard::default();
    card.data[7] = 0x5A;
    // Halfway through the address of a read.
    card.handle(1, 1, 0x5200_0000);
    card.handle(1, 2, 0x0001_0000);
    card.reset_phase();
    for bytes in [1, 2, 4, 8, 32, 0x1000] {
        assert_eq!(card.handle(0, bytes, 0xFFFF_FFFF), 0xC204_0000);
    }
    assert_eq!(card.data[7], 0x5A);
}

#[test]
fn card_erases_whole_blocks() {
    let mut card = MemCard::default();
    card.data[0x4000] = 1;
    card.data[0x7FFF] = 2;
    card.data[0x8000] = 3;
    card.handle(1, 1, 0xF200_0000);
    card.handle(1, 3, 0x0050_0000);
    card.handle(1, 1, 0);
    assert_eq!(card.data[0x4000], 0xFF);
    assert_eq!(card.data[0x7FFF], 0xFF);
    assert_eq!(card.data[0x8000], 3);
}

#[test]
fn drawing_signals_set_status() {
    let mut gx = GxState::default();
    assert!(!gx.fire_pe_finish());
    gx.write_u16(0x100A, 0x0003);
    assert!(gx.fire_pe_token(0x77));
    assert_eq!(gx.regs.pe_token, 0x77);
    assert!(gx.fire_pe_finish());
    gx.write_u16(0x100A, 0x000F);
    assert!(!gx.pe_finish_active());
    assert!(!gx.pe_token_active());
}

#[test]
fn read_only_graphics_registers_ignore_writes() {
    let mut gx = GxState::default();
    for offset in [0x0000, 0x0030, 0x0032] {
        assert!(!gx.write_u16(offset, 0x1234));
        assert_eq!(gx.read_u16(offset), 0);
    }
    gx.write_u16(0x0002, 0x1234);
    gx.write_u16(0x0034, 0x5678);
    assert_eq!(gx.read_u16(0x0002), 0x1234);
    assert_eq!(gx.read_u16(0x0034), 0x5678);
}

#[test]
fn settings_carry_checksums() {
    let mut exi = ExiState::default();
    exi.sram[0x0C] = 0xFF;
    exi.sram[0x13] = 0;
    exi.sram[0x20] = 0x55;
    exi.update_sram_checksum();
    // 0xFF00 + 0x0000 + 0x0004 + 0x006C
    assert_eq!(&exi.sram[..4], &[0xFF, 0x70, 0x00, 0x8C]);
    assert_eq!(exi.sram[0x13], 0x6C);
    assert_eq!(exi.sram[0x20], 0x55);
    let before = exi.sram;
    exi.update_sram_checksum();
    assert_eq!(exi.sram, before);
}

#[test]
fn transfers_complete_at_once() {
    let mut exi = ExiState::default();
    exi.write_u32(0x00, 2 << 7);
    exi.write_u32(0x04, 0x1000);
    exi.write_u32(0x08, 0x40);
    exi.write_u32(0x10, 0x2000_0100);
    exi.channels[0].control = 0x03;
    let copy = exi.handle_transfer(0, 0x03, 0).unwrap();
    assert_eq!((copy.ram_addr, copy.length, copy.sram_offset), (0x1000, 0x40, 0));
    assert_eq!(exi.read_u32(0x0C), 0x02);
    assert_eq!(exi.read_u32(0x00), (2 << 7) | 0x08);
    assert_eq!(exi.read_u32(0x14), 0);
    // An immediate read asks for no copy.
    exi.write_u32(0x10, 0x2000_0100);
    assert!(exi.handle_transfer(0, 0x31, 0).is_none());
    // Nothing is connected to channel 2.
    assert!(exi.handle_transfer(2, 0x03, 0).is_none());
    assert_eq!(exi.read_u32(0x28), 0x08);
}

#[test]
fn memory_interrupts_clear() {
    let mut mi = MiState::default();
    mi.interrupt = 0x1F;
    mi.write_u16(0x20, 0x03);
    assert_eq!(mi.read_u16(0x20), 0x1C);
    mi.write_u16(0x1C, 0x1F);
    assert_eq!(mi.read_u16(0x1C), 0x1F);
}

#[test]
fn poll_reports_buttons_and_sticks() {
    let axes = Axes { joy_x: 10, joy_y: 20, c_stick_x: 30, c_stick_y: 40, l_trig: 50, r_trig: 60 };
    let reply = build_poll_response(BTN_A | BTN_START | BTN_L, axes);
    assert_eq!(reply, [0x11, 0xC0, 10, 20, 30, 40, 50, 60]);
}

#[test]
fn controller_answers_in_its_channel() {
    let mut si = SiState::default();
    si.write_u32(0x00, 0x0000_0000, 0);
    assert!(si.write_u32(0x34, 1, 0));
    assert_eq!(si.read_u32(0x04), 0x0900_2000);
    assert_eq!(si.read_u32(0x34) & 0x8000_0001, 0x8000_0000);
    si.write_u32(0x00, 0x4003_0000, 0);
    assert!(si.write_u32(0x34, 1, BTN_A));
    assert_eq!(si.read_u32(0x04), 0x0180_8080);
    // Nothing is plugged into the second channel.
    si.write_u32(0x0C, 0x0000_0000, 0);
    si.write_u32(0x34, 3, 0);
    assert_eq!(si.read_u32(0x10), 0);
}

#[test]
fn lines_count_and_start_over() {
    let mut vi = ViState::default();
    for _ in 0..524 {
        vi.advance_vcount();
    }
    assert_eq!(vi.vcount(), 524);
    vi.advance_vcount();
    assert_eq!(vi.vcount(), 0);
}

#[test]
fn display_interrupts_fire_when_enabled() {
    let mut vi = ViState::default();
    vi.fire_display_interrupts();
    assert!(!vi.any_display_interrupt_active());
    vi.write_u32(0x30, 0x1000_0000);
    vi.fire_display_interrupts();
    assert!(vi.any_display_interrupt_active());
    vi.write_u32(0x30, 0x9000_0000);
    assert!(!vi.any_display_interrupt_active());
    assert_eq!(vi.read_u32(0x30), 0x1000_0000);
}

#[test]
fn frame_buffer_address_is_scaled() {
    let mut vi = ViState::default();
    vi.write_u32(0x1C, 0x1000_8000);
    assert_eq!(vi.xfb_addr(), 0x0010_0000);
}
