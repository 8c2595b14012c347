use emucore::peripheral::Peripheral;
use emucore::vdp::{
    decode_command, BackendOp, DisplayCable, ErrorMode, Topology, VDPCommand, INTERNALREG_COUNT,
    REG_CMDPORT, REG_DISPLAYMODE, REG_STATUS, VDP, VRAM_SIZE, VRAM_WORDS,
};

const WRITE_REG: u32 = 0x00;
const VERTEX_LIST: u32 = 0x01;
const DRAW_TRI_LIST: u32 = 0x02;
const DRAW_TRI_STRIP: u32 = 0x03;
const DRAW_LINE_LIST: u32 = 0x04;
const DRAW_LINE_STRIP: u32 = 0x05;
const CLEAR_COLOR: u32 = 0x06;
const CLEAR_DEPTH: u32 = 0x07;
const END: u32 = 0xFF;

fn hdr(op: u32, arg: u32) -> u32 {
    (arg << 8) | op
}

fn regs_with(values: &[(usize, u32)]) -> Vec<u32> {
    let mut regs = vec![0u32; 256];
    for (i, v) in values {
        regs[*i] = *v;
    }
    regs
}

fn submit(vdp: &mut VDP, addr: u32, words: &[u32]) {
    vdp.upload(words, addr);
    vdp.set_reg(REG_CMDPORT, addr);
}

#[test]
fn vdp_new_is_in_power_on_state() {
    let mut vdp = VDP::new();
    assert_eq!(INTERNALREG_COUNT, 256);
    assert_eq!(VRAM_SIZE, 8 * 1024 * 1024);
    assert_eq!(VRAM_WORDS * 4, VRAM_SIZE as usize);
    assert_eq!(vdp.vram().len(), VRAM_WORDS);
    assert!(vdp.vram().iter().all(|w| *w == 0));
    for i in 0..=255u8 {
        assert_eq!(vdp.internal_reg(i), 0);
    }
    assert_eq!(vdp.err_mode(), ErrorMode::NoError);
    assert_eq!(vdp.cable_type(), DisplayCable::VGA);
    assert!(!vdp.reset_state());
    assert!(!vdp.display_enable());
    assert!(!vdp.display_interlace());
    assert!(vdp.regmem_dirty());
    assert_eq!(vdp.pending_buffers(), 0);
    assert_eq!(vdp.pending_tokens(), 0);
    // Only the bit for an empty submission queue.
    assert_eq!(vdp.get_reg(REG_STATUS), 2);
    assert_eq!(vdp.get_reg(REG_CMDPORT), 0);
    assert_eq!(vdp.get_reg(REG_DISPLAYMODE), 0);
}

#[test]
fn vdp_register_write_and_token() {
    let mut vdp = VDP::new();
    submit(&mut vdp, 64, &[hdr(WRITE_REG, 5), 7, hdr(END, 42)]);
    assert_eq!(vdp.pending_buffers(), 1);
    let ops = vdp.tick();
    assert_eq!(ops, vec![]);
    assert_eq!(vdp.internal_reg(5), 7);
    assert_eq!(vdp.pending_tokens(), 1);
    assert_eq!(vdp.err_mode(), ErrorMode::NoError);
    assert_eq!(vdp.pending_buffers(), 0);
    assert_eq!(vdp.get_reg(REG_CMDPORT), 42);
    assert_eq!(vdp.get_reg(REG_CMDPORT), 0);
    assert_eq!(vdp.get_reg(REG_CMDPORT), 0);
}

#[test]
fn vdp_misaligned_buffer_is_an_address_error() {
    for addr in [1u32, 2, 3, 65, 66, 67, 0xFFFF_FFFF] {
        let mut vdp = VDP::new();
        vdp.upload(&[hdr(WRITE_REG, 5), 7, hdr(END, 42)], addr);
        vdp.set_reg(REG_CMDPORT, addr);
        let ops = vdp.tick();
        assert_eq!(ops, vec![]);
        assert_eq!(vdp.err_mode(), ErrorMode::AddressError);
        assert_eq!(vdp.pending_tokens(), 0);
        assert_eq!(vdp.get_reg(REG_CMDPORT), 0);
        for i in 0..=255u8 {
            assert_eq!(vdp.internal_reg(i), 0);
        }
        // Error bit for the address, and the queue is empty again.
        assert_eq!(vdp.get_reg(REG_STATUS), 2 | 8);
    }
}

#[test]
fn vdp_undefined_opcode_is_a_command_error() {
    let mut vdp = VDP::new();
    submit(&mut vdp, 0, &[hdr(WRITE_REG, 1), 11, hdr(0x7F, 0), hdr(WRITE_REG, 2), 22, hdr(END, 9)]);
    submit(&mut vdp, 64, &[hdr(WRITE_REG, 3), 33, hdr(END, 10)]);
    let ops = vdp.tick();
    assert_eq!(ops, vec![]);
    assert_eq!(vdp.err_mode(), ErrorMode::CmdError);
    // What came before the bad opcode was done, what comes after it was not.
    assert_eq!(vdp.internal_reg(1), 11);
    assert_eq!(vdp.internal_reg(2), 0);
    // The buffer behind the faulted one ran and reported its token.
    assert_eq!(vdp.internal_reg(3), 33);
    assert_eq!(vdp.get_reg(REG_STATUS), 2 | 0x10);
    assert_eq!(vdp.pending_tokens(), 1);
    assert_eq!(vdp.get_reg(REG_CMDPORT), 10);
    assert_eq!(vdp.get_reg(REG_CMDPORT), 0);
}

#[test]
fn vdp_every_undefined_opcode_faults() {
    for op in 8u32..0xFF {
        let mut vdp = VDP::new();
        submit(&mut vdp, 16, &[hdr(op, 0x12_3456), 1, 2, hdr(END, 1)]);
        assert_eq!(vdp.tick(), vec![]);
        assert_eq!(vdp.err_mode(), ErrorMode::CmdError);
        assert_eq!(vdp.pending_tokens(), 0);
    }
}

#[test]
fn vdp_demo_buffer_draws_one_triangle() {
    let mut vdp = VDP::new();
    submit(
        &mut vdp,
        64,
        &[
            0x0000_0000, // write internal register 0
            0x01E0_0280,
            0x0000_0100, // write internal register 1
            0x0000_0400,
            0x0000_0102, // draw triangle list, 1 primitive
            0x0000_0000,
            0xAABB_CCFF, // end of queue, token 0xAABBCC
        ],
    );
    let ops = vdp.tick();
    assert_eq!(
        ops,
        vec![
            BackendOp::LoadRegisters { regs: regs_with(&[(0, 0x01E0_0280), (1, 0x400)]) },
            BackendOp::DrawTriangleList { count: 1, addr: 0 },
        ]
    );
    assert!(!vdp.regmem_dirty());
    assert_eq!(vdp.get_reg(REG_CMDPORT), 0xAABBCC);
}

#[test]
fn vdp_registers_are_flushed_once_per_dispatch() {
    let mut vdp = VDP::new();
    submit(
        &mut vdp,
        0,
        &[
            hdr(WRITE_REG, 3), 40,
            hdr(WRITE_REG, 3), 41,
            hdr(WRITE_REG, 4), 50,
            hdr(VERTEX_LIST, 3), 0x100, 0x200,
            hdr(DRAW_TRI_LIST, 1), 0x200,
            hdr(WRITE_REG, 3), 42,
            hdr(DRAW_TRI_LIST, 2), 0x300,
            hdr(END, 1),
        ],
    );
    let ops = vdp.tick();
    assert_eq!(
        ops,
        vec![
            BackendOp::LoadRegisters { regs: regs_with(&[(3, 41), (4, 50)]) },
            BackendOp::ProcessVertexList { count: 3, src_addr: 0x100, dst_addr: 0x200 },
            BackendOp::DrawTriangleList { count: 1, addr: 0x200 },
            BackendOp::LoadRegisters { regs: regs_with(&[(3, 42), (4, 50)]) },
            BackendOp::DrawTriangleList { count: 2, addr: 0x300 },
        ]
    );
}

#[test]
fn vdp_first_dispatch_sends_the_power_on_registers() {
    let mut vdp = VDP::new();
    submit(&mut vdp, 0, &[hdr(VERTEX_LIST, 0xFF_FFFF), 1, 2, hdr(END, 0)]);
    assert_eq!(
        vdp.tick(),
        vec![
            BackendOp::LoadRegisters { regs: vec![0; 256] },
            BackendOp::ProcessVertexList { count: 0xFF_FFFF, src_addr: 1, dst_addr: 2 },
        ]
    );
    // Nothing was written since: the next dispatch sends no registers.
    vdp.set_reg(REG_CMDPORT, 0);
    assert_eq!(
        vdp.tick(),
        vec![BackendOp::ProcessVertexList { count: 0xFF_FFFF, src_addr: 1, dst_addr: 2 }]
    );
    assert_eq!(vdp.get_reg(REG_CMDPORT), 0);
    assert_eq!(vdp.pending_tokens(), 1);
}

#[test]
fn vdp_register_writes_without_dispatch_stay_pending() {
    let mut vdp = VDP::new();
    vdp.flush_regmem(&mut Vec::new());
    assert!(!vdp.regmem_dirty());
    submit(&mut vdp, 0, &[hdr(WRITE_REG, 9), 1, hdr(END, 1)]);
    assert_eq!(vdp.tick(), vec![]);
    assert!(vdp.regmem_dirty());
    let mut ops = Vec::new();
    vdp.flush_regmem(&mut ops);
    assert_eq!(ops, vec![BackendOp::LoadRegisters { regs: regs_with(&[(9, 1)]) }]);
    vdp.flush_regmem(&mut ops);
    assert_eq!(ops.len(), 1);
}

#[test]
fn vdp_reserved_draws_and_clears_consume_their_operand() {
    let mut vdp = VDP::new();
    submit(
        &mut vdp,
        0,
        &[
            hdr(DRAW_TRI_STRIP, 5), hdr(0x7F, 0),
            hdr(DRAW_LINE_LIST, 5), hdr(0x7F, 0),
            hdr(DRAW_LINE_STRIP, 5), hdr(0x7F, 0),
            hdr(CLEAR_COLOR, 0), 0xFF00_00FF,
            hdr(CLEAR_DEPTH, 0), 0x3F80_0000,
            hdr(WRITE_REG, 1), 0xFF,
            hdr(END, 77),
        ],
    );
    // The operands look like bad opcodes, but they are operands: the stream
    // stays in step. Only the two clears reach the backend.
    assert_eq!(
        vdp.tick(),
        vec![
            BackendOp::ClearColor { color: 0xFF00_00FF },
            BackendOp::ClearDepth { depth: 0x3F80_0000 },
        ]
    );
    assert!(vdp.regmem_dirty());
    assert_eq!(vdp.err_mode(), ErrorMode::NoError);
    assert_eq!(vdp.internal_reg(1), 0xFF);
    assert_eq!(vdp.get_reg(REG_CMDPORT), 77);
}

#[test]
fn vdp_end_of_queue_ends_the_buffer() {
    let mut vdp = VDP::new();
    submit(&mut vdp, 0, &[hdr(END, 1), hdr(WRITE_REG, 1), 5, hdr(END, 2)]);
    assert_eq!(vdp.tick(), vec![]);
    assert_eq!(vdp.internal_reg(1), 0);
    assert_eq!(vdp.get_reg(REG_CMDPORT), 1);
    assert_eq!(vdp.get_reg(REG_CMDPORT), 0);
}

#[test]
fn vdp_register_index_is_one_byte() {
    let mut vdp = VDP::new();
    // Bits 16 and up of the header do not take part in the register index.
    submit(&mut vdp, 0, &[hdr(WRITE_REG, 0xAB_CD05), 9, hdr(WRITE_REG, 0xFF), 8, hdr(END, 0)]);
    vdp.tick();
    assert_eq!(vdp.internal_reg(5), 9);
    assert_eq!(vdp.internal_reg(255), 8);
}

#[test]
fn vdp_buffers_run_in_submission_order() {
    let mut vdp = VDP::new();
    submit(&mut vdp, 0, &[hdr(WRITE_REG, 1), 1, hdr(END, 100)]);
    submit(&mut vdp, 16, &[hdr(WRITE_REG, 1), 2, hdr(END, 200)]);
    submit(&mut vdp, 32, &[hdr(WRITE_REG, 1), 3, hdr(END, 300)]);
    assert_eq!(vdp.pending_buffers(), 3);
    assert_eq!(vdp.get_reg(REG_STATUS) & 2, 0);
    vdp.tick();
    assert_eq!(vdp.internal_reg(1), 3);
    assert_eq!(vdp.pending_tokens(), 3);
    assert_eq!(vdp.get_reg(REG_CMDPORT), 100);
    assert_eq!(vdp.get_reg(REG_CMDPORT), 200);
    assert_eq!(vdp.get_reg(REG_CMDPORT), 300);
    assert_eq!(vdp.get_reg(REG_CMDPORT), 0);
}

#[test]
fn vdp_same_buffer_may_be_submitted_twice() {
    let mut vdp = VDP::new();
    submit(&mut vdp, 0, &[hdr(END, 5)]);
    vdp.set_reg(REG_CMDPORT, 0);
    vdp.tick();
    assert_eq!(vdp.get_reg(REG_CMDPORT), 5);
    assert_eq!(vdp.get_reg(REG_CMDPORT), 5);
    assert_eq!(vdp.get_reg(REG_CMDPORT), 0);
}

#[test]
fn vdp_tick_without_submissions_does_nothing() {
    let mut vdp = VDP::new();
    vdp.upload(&[hdr(END, 5)], 0);
    assert_eq!(vdp.tick(), vec![]);
    assert_eq!(vdp.pending_tokens(), 0);
    assert_eq!(vdp.err_mode(), ErrorMode::NoError);
}

#[test]
fn vdp_buffer_outside_video_memory_is_an_address_error() {
    let mut vdp = VDP::new();
    vdp.set_reg(REG_CMDPORT, VRAM_WORDS as u32);
    assert_eq!(vdp.tick(), vec![]);
    assert_eq!(vdp.err_mode(), ErrorMode::AddressError);
    assert_eq!(vdp.pending_tokens(), 0);

    let mut vdp = VDP::new();
    vdp.set_reg(REG_CMDPORT, 0xFFFF_FFFC);
    assert_eq!(vdp.tick(), vec![]);
    assert_eq!(vdp.err_mode(), ErrorMode::AddressError);
}

#[test]
fn vdp_buffer_that_runs_off_video_memory_is_an_address_error() {
    let mut vdp = VDP::new();
    let start = VRAM_WORDS as u32 - 4;
    submit(&mut vdp, start, &[hdr(WRITE_REG, 1), 5, hdr(WRITE_REG, 2), 6]);
    assert_eq!(vdp.tick(), vec![]);
    assert_eq!(vdp.err_mode(), ErrorMode::AddressError);
    assert_eq!(vdp.internal_reg(1), 5);
    assert_eq!(vdp.internal_reg(2), 6);
    assert_eq!(vdp.pending_tokens(), 0);

    // A command whose operand lies beyond the end is not carried out.
    let mut vdp = VDP::new();
    submit(&mut vdp, start, &[hdr(WRITE_REG, 1), 5, hdr(CLEAR_COLOR, 0), hdr(VERTEX_LIST, 1)]);
    assert_eq!(vdp.tick(), vec![BackendOp::ClearColor { color: hdr(VERTEX_LIST, 1) }]);
    assert_eq!(vdp.err_mode(), ErrorMode::AddressError);
    assert_eq!(vdp.internal_reg(1), 5);
}

#[test]
fn vdp_zeroed_memory_runs_to_the_end_and_faults() {
    // All of video memory is zero: register 0 is written over and over until
    // the buffer runs off the end.
    let mut vdp = VDP::new();
    vdp.set_reg(REG_CMDPORT, 0);
    assert_eq!(vdp.tick(), vec![]);
    assert_eq!(vdp.err_mode(), ErrorMode::AddressError);
    assert_eq!(vdp.pending_tokens(), 0);
}

#[test]
fn vdp_fault_stays_on_record_until_reset() {
    let mut vdp = VDP::new();
    submit(&mut vdp, 0, &[hdr(0x7F, 0)]);
    vdp.tick();
    assert_eq!(vdp.err_mode(), ErrorMode::CmdError);
    submit(&mut vdp, 16, &[hdr(END, 4)]);
    vdp.tick();
    assert_eq!(vdp.err_mode(), ErrorMode::CmdError);
    assert_eq!(vdp.get_reg(REG_CMDPORT), 4);
    // A later fault replaces it.
    vdp.set_reg(REG_CMDPORT, 1);
    vdp.tick();
    assert_eq!(vdp.err_mode(), ErrorMode::AddressError);
    vdp.reset();
    assert_eq!(vdp.err_mode(), ErrorMode::NoError);
}

#[test]
fn vdp_status_write_arms_reset_state() {
    let mut vdp = VDP::new();
    vdp.set_reg(REG_STATUS, 1);
    assert!(!vdp.reset_state());
    vdp.set_reg(REG_STATUS, 0xFFFF_FFFF);
    assert!(!vdp.reset_state());
    vdp.set_reg(REG_STATUS, 0);
    assert!(vdp.reset_state());
    assert_eq!(vdp.get_reg(REG_STATUS), 1 | 2);
    // It stays armed.
    vdp.set_reg(REG_STATUS, 1);
    assert!(vdp.reset_state());
    let mut other = VDP::new();
    other.set_reg(REG_STATUS, 0xFFFF_FFFE);
    assert!(other.reset_state());
}

#[test]
fn vdp_status_shows_pending_submissions() {
    let mut vdp = VDP::new();
    assert_eq!(vdp.get_reg(REG_STATUS), 2);
    vdp.set_reg(REG_CMDPORT, 0x40);
    assert_eq!(vdp.get_reg(REG_STATUS), 0);
    vdp.set_reg(REG_CMDPORT, 1);
    vdp.tick();
    assert_eq!(vdp.get_reg(REG_STATUS), 2 | 8);
}

#[test]
fn vdp_display_mode_register() {
    let mut vdp = VDP::new();
    vdp.set_reg(REG_DISPLAYMODE, 4);
    assert!(vdp.display_enable());
    assert!(!vdp.display_interlace());
    assert_eq!(vdp.get_reg(REG_DISPLAYMODE), 4);
    vdp.set_reg(REG_DISPLAYMODE, 8);
    assert!(!vdp.display_enable());
    assert!(vdp.display_interlace());
    assert_eq!(vdp.get_reg(REG_DISPLAYMODE), 8);
    // The cable bits of a write do not count: the cable is what is plugged in.
    vdp.set_reg(REG_DISPLAYMODE, 0xFFFF_FFFF);
    assert_eq!(vdp.cable_type(), DisplayCable::VGA);
    assert_eq!(vdp.get_reg(REG_DISPLAYMODE), 4 | 8);
    vdp.set_cable(DisplayCable::Composite);
    assert_eq!(vdp.get_reg(REG_DISPLAYMODE), 1 | 4 | 8);
    vdp.set_cable(DisplayCable::SVideo);
    assert_eq!(vdp.get_reg(REG_DISPLAYMODE), 2 | 4 | 8);
    vdp.set_cable(DisplayCable::Component);
    assert_eq!(vdp.cable_type(), DisplayCable::Component);
    vdp.set_reg(REG_DISPLAYMODE, 0);
    assert_eq!(vdp.get_reg(REG_DISPLAYMODE), 3);
}

#[test]
fn vdp_unknown_registers_read_zero_and_ignore_writes() {
    let mut vdp = VDP::new();
    vdp.set_reg(3, 0xFFFF_FFFF);
    vdp.set_reg(usize::MAX, 1);
    assert_eq!(vdp.get_reg(3), 0);
    assert_eq!(vdp.get_reg(1023), 0);
    assert_eq!(vdp.get_reg(usize::MAX), 0);
    assert_eq!(vdp.get_reg(REG_STATUS), 2);
    assert_eq!(vdp.get_reg(REG_DISPLAYMODE), 0);
    assert_eq!(vdp.pending_buffers(), 0);
}

#[test]
fn vdp_reset_returns_to_power_on_but_keeps_cable_and_memory() {
    let mut vdp = VDP::new();
    vdp.set_cable(DisplayCable::SVideo);
    vdp.set_reg(REG_DISPLAYMODE, 12);
    vdp.set_reg(REG_STATUS, 0);
    submit(&mut vdp, 0, &[hdr(WRITE_REG, 7), 70, hdr(VERTEX_LIST, 1), 0, 0, hdr(END, 3)]);
    vdp.tick();
    vdp.set_reg(REG_CMDPORT, 2);
    vdp.tick();
    vdp.set_reg(REG_CMDPORT, 0);
    assert_eq!(vdp.get_reg(REG_STATUS), 1 | 8);
    vdp.reset();
    for i in 0..=255u8 {
        assert_eq!(vdp.internal_reg(i), 0);
    }
    assert!(vdp.regmem_dirty());
    assert_eq!(vdp.pending_buffers(), 0);
    assert_eq!(vdp.pending_tokens(), 0);
    assert!(!vdp.display_enable());
    assert!(!vdp.display_interlace());
    assert!(!vdp.reset_state());
    assert_eq!(vdp.err_mode(), ErrorMode::NoError);
    assert_eq!(vdp.cable_type(), DisplayCable::SVideo);
    assert_eq!(vdp.vram()[0], hdr(WRITE_REG, 7));
    assert_eq!(vdp.vram()[1], 70);
    assert_eq!(vdp.get_reg(REG_STATUS), 2);
}

#[test]
fn vdp_upload_copies_words_and_reports_the_transfer() {
    let mut vdp = VDP::new();
    let op = vdp.upload(&[1, 2, 3], 10);
    assert_eq!(op, BackendOp::UploadVram { dst_addr: 10, len: 3 });
    assert_eq!(&vdp.vram()[9..14], &[0, 1, 2, 3, 0]);
    let op = vdp.upload(&[9], 11);
    assert_eq!(op, BackendOp::UploadVram { dst_addr: 11, len: 1 });
    assert_eq!(&vdp.vram()[9..14], &[0, 1, 9, 3, 0]);
    assert_eq!(vdp.upload(&[], 5), BackendOp::UploadVram { dst_addr: 5, len: 0 });
    assert_eq!(vdp.vram().len(), VRAM_WORDS);
}

#[test]
fn vdp_upload_is_clamped_to_video_memory() {
    let mut vdp = VDP::new();
    let last = VRAM_WORDS as u32 - 2;
    let op = vdp.upload(&[1, 2, 3, 4, 5], last);
    assert_eq!(op, BackendOp::UploadVram { dst_addr: last, len: 2 });
    assert_eq!(vdp.vram().len(), VRAM_WORDS);
    assert_eq!(&vdp.vram()[VRAM_WORDS - 3..], &[0, 1, 2]);
    assert_eq!(vdp.vram()[0], 0);

    let op = vdp.upload(&[7, 8], VRAM_WORDS as u32);
    assert_eq!(op, BackendOp::UploadVram { dst_addr: VRAM_WORDS as u32, len: 0 });
    let op = vdp.upload(&[7, 8], u32::MAX);
    assert_eq!(op, BackendOp::UploadVram { dst_addr: u32::MAX, len: 0 });
    assert_eq!(&vdp.vram()[VRAM_WORDS - 3..], &[0, 1, 2]);
}

#[test]
fn vdp_is_a_peripheral() {
    fn poke<P: Peripheral>(dev: &mut P, addr: u32, val: u32) -> u32 {
        dev.write(addr, val);
        dev.read(addr)
    }
    let mut vdp = VDP::new();
    assert_eq!(poke(&mut vdp, REG_DISPLAYMODE as u32, 4), 4);
    vdp.upload(&[hdr(END, 6)], 0);
    // The write submits the buffer; the read finds no token before the tick.
    assert_eq!(poke(&mut vdp, REG_CMDPORT as u32, 0), 0);
    vdp.tick();
    assert_eq!(Peripheral::read(&mut vdp, REG_CMDPORT as u32), 6);
    assert_eq!(Peripheral::read(&mut vdp, REG_STATUS as u32), 2);
    assert_eq!(poke(&mut vdp, 500, 1), 0);
}

#[test]
fn decode_command_reads_each_opcode() {
    let mut vram = vec![0u32; 32];
    vram[0] = hdr(WRITE_REG, 0x1234);
    vram[1] = 99;
    vram[2] = hdr(VERTEX_LIST, 300);
    vram[3] = 0x1000;
    vram[4] = 0x2000;
    vram[5] = hdr(DRAW_TRI_LIST, 1);
    vram[6] = 0x10;
    vram[7] = hdr(DRAW_TRI_STRIP, 2);
    vram[8] = 0x20;
    vram[9] = hdr(DRAW_LINE_LIST, 3);
    vram[10] = 0x30;
    vram[11] = hdr(DRAW_LINE_STRIP, 4);
    vram[12] = 0x40;
    vram[13] = hdr(CLEAR_COLOR, 0);
    vram[14] = 0xFF00_00FF;
    vram[15] = hdr(CLEAR_DEPTH, 0);
    vram[16] = 0x3F80_0000;
    vram[17] = hdr(END, 0xAB_CDEF);
    vram[18] = hdr(8, 0);
    assert_eq!(
        decode_command(&vram, 0),
        Ok((VDPCommand::WriteInternalRegister { reg: 0x34, val: 99 }, 2))
    );
    assert_eq!(
        decode_command(&vram, 2),
        Ok((VDPCommand::ProcessVertexList { count: 300, src_addr: 0x1000, dst_addr: 0x2000 }, 5))
    );
    assert_eq!(
        decode_command(&vram, 5),
        Ok((VDPCommand::DrawList { topology: Topology::TriangleList, count: 1, addr: 0x10 }, 7))
    );
    assert_eq!(
        decode_command(&vram, 7),
        Ok((VDPCommand::DrawList { topology: Topology::TriangleStrip, count: 2, addr: 0x20 }, 9))
    );
    assert_eq!(
        decode_command(&vram, 9),
        Ok((VDPCommand::DrawList { topology: Topology::LineList, count: 3, addr: 0x30 }, 11))
    );
    assert_eq!(
        decode_command(&vram, 11),
        Ok((VDPCommand::DrawList { topology: Topology::LineStrip, count: 4, addr: 0x40 }, 13))
    );
    assert_eq!(decode_command(&vram, 13), Ok((VDPCommand::ClearColor { color: 0xFF00_00FF }, 15)));
    assert_eq!(decode_command(&vram, 15), Ok((VDPCommand::ClearDepth { depth: 0x3F80_0000 }, 17)));
    assert_eq!(decode_command(&vram, 17), Ok((VDPCommand::EndOfQueue { token: 0xAB_CDEF }, 18)));
    assert_eq!(decode_command(&vram, 18), Err(ErrorMode::CmdError));
}

#[test]
fn decode_command_faults_at_the_end_of_memory() {
    let vram = vec![hdr(WRITE_REG, 1), hdr(VERTEX_LIST, 1), hdr(VERTEX_LIST, 1), hdr(END, 3)];
    assert_eq!(decode_command(&vram, 4), Err(ErrorMode::AddressError));
    assert_eq!(decode_command(&vram, usize::MAX), Err(ErrorMode::AddressError));
    assert_eq!(decode_command(&vram, 3), Ok((VDPCommand::EndOfQueue { token: 3 }, 4)));
    // Two operands needed and only one there.
    assert_eq!(decode_command(&vram, 2), Err(ErrorMode::AddressError));
    assert_eq!(
        decode_command(&vram, 1),
        Ok((VDPCommand::ProcessVertexList { count: 1, src_addr: 0x101, dst_addr: 0x3FF }, 4))
    );
    assert_eq!(
        decode_command(&vram, 0),
        Ok((VDPCommand::WriteInternalRegister { reg: 1, val: hdr(VERTEX_LIST, 1) }, 2))
    );
    let short = vec![hdr(CLEAR_COLOR, 0)];
    assert_eq!(decode_command(&short, 0), Err(ErrorMode::AddressError));
    let bad = vec![hdr(0x80, 0)];
    assert_eq!(decode_command(&bad, 0), Err(ErrorMode::CmdError));
    assert_eq!(decode_command(&Vec::new(), 0), Err(ErrorMode::AddressError));
}
