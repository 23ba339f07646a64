//! The emulator as a whole.

use lazuli::web::disc::{flatten_disc_image, read_u32be, DiscError};
use lazuli::web::emulator::WasmEmulator;
use lazuli::web::jit::CompileError;
use lazuli::web::xfb::{yuv422_to_rgba, XFB_RAW_BYTES, XFB_RGBA_BYTES};

const MEMORY: u32 = 0x0020_0000;

fn console() -> WasmEmulator {
    WasmEmulator::new(MEMORY)
}

fn put(image: &mut [u8], at: usize, word: u32) {
    image[at..at + 4].copy_from_slice(&word.to_be_bytes());
}

fn disc() -> Vec<u8> {
    let mut image = vec![0u8; 0x3000];
    image[..6].copy_from_slice(b"GZLE01");
    put(&mut image, 0x1C, 0xC233_9F3D);
    image[0x20..0x24].copy_from_slice(b"Wind");
    put(&mut image, 0x420, 0x2800);
    put(&mut image, 0x2440 + 0x10, 0x8120_0258);
    put(&mut image, 0x2440 + 0x14, 4);
    put(&mut image, 0x2460, 0x4E80_0020);
    put(&mut image, 0x2800 + 0xE0, 0x8000_3100);
    image
}

#[test]
fn sound_processor_is_idle_at_reset() {
    let emu = console();
    assert_eq!(emu.dsp.read_u16(0x0A), 0x0800);
    for offset in [0x04, 0x06, 0x36] {
        assert_eq!(emu.dsp.read_u16(offset), 0);
    }
    assert_eq!(emu.dsp.aram_dma_ram_base, 0);
    assert_eq!(emu.dsp.aram_dma_aram_base, 0);
    assert_eq!(emu.dsp.aram_dma_control, 0);
    assert!(!emu.dsp.aram_dma_pending);
    assert_eq!(emu.dsp.audio_dma_base, 0);
    assert_eq!(emu.dsp.audio_dma_pos, 0);
    assert!(!emu.dsp.any_interrupt());
}

#[test]
fn disc_read_fills_memory() {
    let mut emu = console();
    let mut image = vec![0u8; 0x100];
    image[0x40..0x44].copy_from_slice(&[1, 2, 3, 4]);
    emu.load_disc_image(&image);
    emu.hw_write_u32(0xCC00_6008, 0xA800_0000);
    emu.hw_write_u32(0xCC00_600C, 0x10);
    emu.hw_write_u32(0xCC00_6014, 0x8000_1000);
    emu.hw_write_u32(0xCC00_6018, 4);
    emu.hw_write_u32(0xCC00_601C, 3);
    assert_eq!(&emu.ram[0x1000..0x1004], &[1, 2, 3, 4]);
    assert_eq!(emu.hw_read_u32(0xCC00_601C) & 1, 0);
    assert_eq!(emu.hw_read_u32(0xCC00_6000) & 2, 2);
    assert_eq!(emu.hw_read_u32(0xCC00_3000) & 4, 4);
    assert!(emu.take_dma_dirty());
    assert!(!emu.take_dma_dirty());
    assert_eq!(emu.last_dma_addr(), 0x1000);
    assert_eq!(emu.last_dma_len(), 4);
    assert_eq!(emu.last_di_disc_offset(), 0x40);
}

#[test]
fn disc_read_outside_the_disc_completes_without_data() {
    let mut emu = console();
    emu.load_disc_image(&[7u8; 16]);
    emu.hw_write_u32(0xCC00_6008, 0xA800_0000);
    emu.hw_write_u32(0xCC00_6018, 32);
    emu.hw_write_u32(0xCC00_601C, 1);
    assert_eq!(emu.ram[0], 0);
    assert_eq!(emu.hw_read_u32(0xCC00_6000) & 2, 2);
}

#[test]
fn only_status_requests_clear_the_result() {
    for (command, result) in [
        (0xE0, 0),
        (0xE1, 0x1234),
        (0xE2, 0),
        (0xE3, 0x1234),
        (0xE4, 0x1234),
        (0xAB, 0x1234),
        (0xFE, 0x1234),
    ] {
        let mut emu = console();
        emu.hw_write_u32(0xCC00_6008, command << 24);
        emu.hw_write_u32(0xCC00_6020, 0x1234);
        emu.hw_write_u32(0xCC00_601C, 1);
        assert_eq!(emu.hw_read_u32(0xCC00_6020), result, "{:02X}", command);
        assert_eq!(emu.hw_read_u32(0xCC00_601C), 0);
        assert_eq!(emu.hw_read_u32(0xCC00_6000), 2);
        assert!(emu.ram.iter().all(|byte| *byte == 0));
    }
}

#[test]
fn mirrors_are_the_same_registers() {
    let mut emu = console();
    emu.hw_write_u32(0xCD00_3004, 0x1234);
    assert_eq!(emu.hw_read_u32(0xCC00_3004), 0x1234);
    assert_eq!(emu.hw_read_u8(0xCD00_3006), 0x12);
    emu.hw_write_u8(0xCC00_3007, 0x99);
    assert_eq!(emu.hw_read_u32(0xCD00_3004), 0x1299);
}

#[test]
fn audio_memory_keeps_bytes() {
    let mut emu = console();
    emu.ram[0x100..0x104].copy_from_slice(&[9, 8, 7, 6]);
    emu.hw_write_u32(0xCC00_5020, 0x100);
    emu.hw_write_u32(0xCC00_5024, 0x2000);
    emu.hw_write_u32(0xCC00_5028, 4);
    emu.ram[0x100..0x104].copy_from_slice(&[0; 4]);
    emu.hw_write_u32(0xCC00_5028, 0x8000_0004);
    assert_eq!(&emu.ram[0x100..0x104], &[9, 8, 7, 6]);
}

#[test]
fn frame_raises_the_video_interrupt() {
    let mut emu = console();
    emu.set_pc(0x8000_0000);
    emu.set_msr(0x8000);
    emu.hw_write_u32(0xCC00_2030, 0x1000_0000);
    emu.hw_write_u32(0xCC00_3004, 0x80);
    emu.assert_vi_interrupt();
    assert_eq!(emu.get_pc(), 0x500);
    assert_eq!(emu.get_srr0(), 0x8000_0000);
    assert_eq!(emu.get_msr() & 0x8000, 0);
    emu.hw_write_u32(0xCC00_3000, 0x80);
    assert_eq!(emu.hw_read_u32(0xCC00_3000) & 0x80, 0);
}

#[test]
fn end_of_drawing_interrupts() {
    let mut emu = console();
    emu.hw_write_u16(0xCC00_100A, 0x0002);
    emu.hw_write_u32(0xCC00_8000, 0x6145_0000);
    emu.hw_write_u32(0xCC00_8000, 0x0200_0000);
    assert_eq!(emu.hw_read_u16(0xCC00_100A) & 8, 8);
    assert_eq!(emu.hw_read_u32(0xCC00_3000) & 0x400, 0x400);
}

#[test]
fn debug_port_collects_text() {
    let mut emu = console();
    emu.hw_write_u32_at(0xCC00_6800, 1 << 8, 0);
    emu.hw_write_u32_at(0xCC00_6810, 0xA001_0000, 0);
    emu.hw_write_u32_at(0xCC00_680C, 0x35, 0);
    emu.hw_write_u32_at(0xCC00_6810, 0x4142_4300, 0);
    emu.hw_write_u32_at(0xCC00_680C, 0x25, 0);
    assert_eq!(emu.take_uart_output(), b"ABC".to_vec());
    assert!(emu.take_uart_output().is_empty());
}

#[test]
fn decrementer_interrupts_on_the_edge() {
    let mut emu = console();
    emu.set_msr(0x8000);
    emu.set_pc(0x8000_0040);
    emu.cpu.dec = 5;
    emu.advance_decrementer(5);
    assert_eq!(emu.get_pc(), 0x8000_0040);
    emu.advance_decrementer(1);
    assert_eq!(emu.get_dec(), 0xFFFF_FFFF);
    assert_eq!(emu.get_pc(), 0x900);
}

#[test]
fn state_comes_back() {
    let mut emu = console();
    emu.set_gpr(3, 77);
    emu.ram[0x123] = 0x45;
    emu.hw_write_u32(0xCC00_2030, 0x1000_0000);
    emu.set_pad_buttons(0x11);
    let saved = emu.save_state();
    let mut other = console();
    assert!(other.load_state(&saved));
    assert_eq!(other.get_gpr(3), 77);
    assert_eq!(other.ram[0x123], 0x45);
    assert_eq!(other.hw_read_u32(0xCC00_2030), 0x1000_0000);
    assert_eq!(other.get_pad_buttons(), 0x11);
    assert_eq!(other.save_state(), saved);
    assert!(!other.load_state(&saved[..100]));
    assert!(!other.load_state(b"nothing"));
}

#[test]
fn register_bytes_come_back() {
    let mut emu = console();
    emu.set_gpr(31, 0xCAFE);
    let bytes = emu.get_cpu_bytes();
    assert_eq!(bytes.len(), emu.cpu_struct_size() as usize);
    let mut other = console();
    other.set_cpu_bytes(&bytes);
    assert_eq!(other.get_gpr(31), 0xCAFE);
}

#[test]
fn samples_are_played_round_the_buffer() {
    let mut emu = console();
    for i in 0..16u8 {
        emu.ram[0x200 + 2 * i as usize + 1] = i;
    }
    emu.hw_write_u32(0xCC00_5030, 0x200);
    emu.hw_write_u16(0xCC00_5036, 0x8001);
    let first = emu.take_audio_samples(7);
    assert_eq!(first.len(), 14);
    assert_eq!(first[13], 13);
    assert_eq!(emu.take_audio_samples(2), vec![14, 15, 0, 1]);
    emu.hw_write_u16(0xCC00_5036, 0);
    assert!(emu.take_audio_samples(2).is_empty());
}

#[test]
fn audio_time_passes_by_samples() {
    let mut emu = console();
    emu.hw_write_u32(0xCC00_6C0C, 2);
    emu.hw_write_u32(0xCC00_6C00, 0x15);
    assert!(!emu.advance_ai(10_125));
    assert!(emu.advance_ai(10_125));
    assert_eq!(emu.hw_read_u32(0xCC00_6C08), 2);
    assert_eq!(emu.hw_read_u32(0xCC00_3000) & 0x20, 0x20);
}

#[test]
fn block_is_compiled_up_to_its_branch() {
    let mut emu = console();
    emu.load_bytes(0x8000_0000, &[0x38, 0x60, 0, 0x2A, 0x4E, 0x80, 0, 0x20, 0x60, 0, 0, 0]);
    let fetched = emu.fetch_instructions(0x8000_0000);
    assert_eq!(fetched.len(), 2);
    assert_eq!(fetched[1].0, 0x8000_0004);
    let module = emu.compile_block(0x8000_0000).ok().unwrap();
    assert_eq!(&module[..4], b"\0asm");
    assert_eq!(emu.blocks_compiled(), 1);
    assert_eq!(emu.last_compiled_pc(), 0x8000_0000);
    assert_eq!(emu.last_compiled_ins_count(), 2);
    assert_eq!(emu.last_compiled_wasm_bytes() as usize, module.len());
}

#[test]
fn nothing_is_compiled_outside_memory() {
    let mut emu = console();
    let missing = emu.compile_block(0x8100_0000);
    assert!(matches!(missing, Err(CompileError::NoInstructions)));
    assert_eq!(emu.blocks_compiled(), 0);
}

#[test]
fn longest_block_has_thirty_two_instructions() {
    let mut emu = console();
    let nops: Vec<u8> = [0x60u8, 0, 0, 0].repeat(40);
    emu.load_bytes(0x8000_0000, &nops);
    assert_eq!(emu.fetch_instructions(0x8000_0000).len(), 32);
}

#[test]
fn disc_is_parsed() {
    let mut emu = WasmEmulator::new(0x0180_0000);
    let info = emu.parse_and_load_disc(&disc()).ok().unwrap();
    assert_eq!(info.game_name, "Wind");
    assert_eq!(info.game_id, "GZLE01");
    assert_eq!(info.dol_entry, 0x8000_3100);
    assert_eq!(info.apploader_entry, 0x8120_0258);
    assert_eq!(&emu.ram[..6], b"GZLE01");
    assert_eq!(read_u32be(&emu.ram, 0x20), 0x0D15_EA5E);
    assert_eq!(read_u32be(&emu.ram, 0x0120_0000), 0x4E80_0020);
    assert_eq!(emu.hw_read_u32(0xCC00_6004), 4);
}

#[test]
fn bad_discs_are_refused() {
    let refused = |image: &[u8]| WasmEmulator::new(MEMORY).parse_and_load_disc(image).err();
    assert_eq!(refused(&[0u8; 0x3000]), Some(DiscError::BadMagic(0)));
    let good = disc();
    assert_eq!(refused(&good[..0x100]), Some(DiscError::IsoHeader));
    assert_eq!(refused(&good[..0x1000]), Some(DiscError::Apploader));
    assert_eq!(refused(&good[..0x2800]), Some(DiscError::BootDol));
}

#[test]
fn compact_image_is_expanded() {
    let mut image = vec![0u8; 0x8000 + 32];
    image[..4].copy_from_slice(b"CISO");
    image[4..8].copy_from_slice(&16u32.to_le_bytes());
    image[8] = 1;
    image[10] = 1;
    image[0x8000..0x8010].copy_from_slice(&[1; 16]);
    image[0x8010..0x8020].copy_from_slice(&[2; 16]);
    let flat = flatten_disc_image(&image).ok().unwrap();
    assert_eq!(flat.len(), 48);
    assert_eq!(&flat[..16], &[1; 16]);
    assert_eq!(&flat[16..32], &[0; 16]);
    assert_eq!(&flat[32..], &[2; 16]);
}

#[test]
fn broken_compact_images_are_refused() {
    let refused = |image: &[u8]| flatten_disc_image(image).err();
    let mut image = vec![0u8; 0x8000];
    image[..4].copy_from_slice(b"CISO");
    assert_eq!(refused(&image[..100]), Some(DiscError::CisoHeader));
    assert_eq!(refused(&image), Some(DiscError::CisoBlockSize));
    image[4..8].copy_from_slice(&16u32.to_le_bytes());
    assert_eq!(refused(&image), Some(DiscError::CisoEmpty));
    image[8] = 1;
    assert_eq!(refused(&image), Some(DiscError::CisoTruncated));
    assert_eq!(flatten_disc_image(b"plain").ok(), Some(b"plain".to_vec()));
}

#[test]
fn executable_is_loaded() {
    let mut emu = console();
    let mut dol = vec![0u8; 0x108];
    put(&mut dol, 0x00, 0x100);
    put(&mut dol, 0x48, 0x8000_3100);
    put(&mut dol, 0x90, 8);
    put(&mut dol, 0xD8, 0x8000_4000);
    put(&mut dol, 0xDC, 16);
    put(&mut dol, 0xE0, 0x8000_3100);
    put(&mut dol, 0x100, 0x3860_002A);
    emu.ram[0x4000] = 0xFF;
    assert_eq!(emu.load_ipl_hle(&dol), 0x8000_3100);
    assert_eq!(read_u32be(&emu.ram, 0x3100), 0x3860_002A);
    assert_eq!(emu.ram[0x4000], 0);
}

#[test]
fn words_past_the_end_read_as_zero() {
    assert_eq!(read_u32be(&[1, 2, 3, 4], 0), 0x0102_0304);
    assert_eq!(read_u32be(&[1, 2, 3, 4], 1), 0);
}

#[test]
fn grey_frame_stays_grey() {
    let mut frame = vec![128u8; XFB_RAW_BYTES];
    frame[1] = 200;
    let pixels = yuv422_to_rgba(&frame).unwrap();
    assert_eq!(pixels.len(), XFB_RGBA_BYTES);
    assert_eq!(&pixels[..8], &[200, 200, 200, 255, 128, 128, 128, 255]);
    assert!(yuv422_to_rgba(&frame[1..]).is_none());
}

#[test]
fn red_difference_makes_red() {
    let mut frame = vec![128u8; XFB_RAW_BYTES];
    frame[..4].copy_from_slice(&[90, 81, 240, 81]);
    let pixels = yuv422_to_rgba(&frame).unwrap();
    assert_eq!(&pixels[..4], &[234, 16, 15, 255]);
}

#[test]
fn exceptions_are_delivered_by_vector() {
    let mut emu = console();
    emu.set_pc(0x8000_0010);
    emu.set_msr(0);
    assert!(emu.deliver_exception(0x0700));
    assert_eq!(emu.get_pc(), 0x0700);
    assert!(!emu.deliver_exception(0x0701));
}

#[test]
fn settings_memory_is_replaced() {
    let mut emu = console();
    let mut data = [0u8; 64];
    data[20] = 0x12;
    emu.set_sram(&data);
    assert_eq!(emu.get_sram()[20], 0x12);
}

#[test]
fn cards_are_replaced() {
    let mut emu = console();
    assert_eq!(emu.get_memcard_data(0).len(), 0x8_0000);
    emu.set_memcard_data(1, &[5, 6]);
    assert_eq!(&emu.get_memcard_data(1)[..2], &[5, 6]);
    assert!(emu.get_memcard_data(2).is_empty());
}

#[test]
fn import_descriptor_names_hooks() {
    let emu = console();
    let descriptor = emu.make_import_descriptor();
    assert_eq!(descriptor.ram_size, MEMORY);
    assert_eq!(
        descriptor.hook_names,
        [
            "read_u8",
            "read_u16",
            "read_u32",
            "read_f64",
            "write_u8",
            "write_u16",
            "write_u32",
            "write_f64",
            "raise_exception",
            "psq_load",
            "psq_store",
            "psq_load_size",
            "icbi",
            "isync",
        ]
    );
}
