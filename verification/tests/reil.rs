use libopenreil::addr::{decode_offset, decode_raw, encode};
use libopenreil::arch::{EngineArch, ReilArch};
use libopenreil::arg::{ReilArg, ReilSize, ReilType};
use libopenreil::inst::ReilInst;
use libopenreil::session::{EngineRequest, Reil};

fn name_buf(text: &str) -> [u8; 15] {
    let mut buf = [0u8; 15];
    for (i, b) in text.as_bytes().iter().enumerate() {
        buf[i] = *b;
    }
    buf
}

fn arg(ty: ReilType, value: u64, name: &str) -> ReilArg {
    ReilArg { ty, width: ReilSize::U32, value, name_buf: name_buf(name) }
}

fn none_arg() -> ReilArg {
    arg(ReilType::ANone, 0, "")
}

#[test]
fn encode_concrete() {
    assert_eq!(encode(0x1234, 0x05), 0x0012_3405);
    assert_eq!(encode(0, 0), 0);
    assert_eq!(encode(0, 0xff), 0xff);
    assert_eq!(encode(1, 0), 0x100);
}

#[test]
fn encode_decode_round_trip() {
    for raw in [0u64, 1, 0x8000, 0xdead_beef, 0x00ff_ffff_ffff_ffff] {
        for off in [0u8, 1, 7, 0xff] {
            let c = encode(raw, off);
            assert_eq!(decode_offset(c), off);
            assert_eq!(decode_raw(c), raw);
        }
    }
}

#[test]
fn encode_truncates_top_byte() {
    // A native address of 2^56 does not survive the encoding: its one set
    // bit is shifted out, so the high bits of the composite address are 0.
    let c = encode(0x0100_0000_0000_0000, 0x12);
    assert_eq!(decode_raw(c), 0);
    assert_eq!(decode_offset(c), 0x12);
}

#[test]
fn composite_addresses_are_ordered() {
    assert!(encode(0x1000, 0xff) < encode(0x1001, 0x00));
    assert!(encode(0x1000, 0x01) < encode(0x1000, 0x02));
}

#[test]
fn arch_selection() {
    assert!(matches!(ReilArch::X86.select(), EngineArch::ArchX86));
    assert!(matches!(ReilArch::ARM.select(), EngineArch::ArchArm));
}

#[test]
fn operands_absent_when_all_slots_none() {
    let inst = ReilInst {
        op: 3,
        raw_addr: 0x400000,
        inum: 0,
        a: none_arg(),
        b: none_arg(),
        c: none_arg(),
    };
    assert!(inst.first_operand().is_none());
    assert!(inst.second_operand().is_none());
    assert!(inst.third_operand().is_none());
}

#[test]
fn const_operand_is_present_with_value() {
    let inst = ReilInst {
        op: 7,
        raw_addr: 0x400000,
        inum: 1,
        a: arg(ReilType::AConst, 42, ""),
        b: none_arg(),
        c: none_arg(),
    };
    let first = inst.first_operand().unwrap();
    assert_eq!(first.val(), Some(42));
    assert!(matches!(first.arg_type(), ReilType::AConst));
    assert!(inst.second_operand().is_none());
}

#[test]
fn val_present_only_for_const_and_loc() {
    assert_eq!(arg(ReilType::AConst, 42, "").val(), Some(42));
    assert_eq!(arg(ReilType::ALoc, 0x4000, "").val(), Some(0x4000));
    assert_eq!(arg(ReilType::AReg, 42, "eax").val(), None);
    assert_eq!(arg(ReilType::ATemp, 42, "V_00").val(), None);
    assert_eq!(arg(ReilType::ANone, 42, "").val(), None);
}

#[test]
fn name_decodes_up_to_first_zero() {
    let a = arg(ReilType::AReg, 0, "eax");
    assert_eq!(a.name(), Some(String::from("eax")));
}

#[test]
fn name_of_all_zero_buffer_is_empty() {
    let a = arg(ReilType::AReg, 0, "");
    assert_eq!(a.name(), Some(String::new()));
}

#[test]
fn name_absent_for_none_slot_regardless_of_bytes() {
    let a = arg(ReilType::ANone, 0, "eax");
    assert_eq!(a.name(), None);
}

#[test]
fn name_absent_for_invalid_text() {
    let mut a = arg(ReilType::AReg, 0, "");
    a.name_buf[0] = 0xff;
    a.name_buf[1] = 0xfe;
    assert_eq!(a.name(), None);
}

#[test]
fn name_keeps_multibyte_text() {
    // 0xC3 0xA9 is the two-byte encoding of 'é'.
    let mut a = arg(ReilType::AReg, 0, "");
    a.name_buf[0] = 0xc3;
    a.name_buf[1] = 0xa9;
    assert_eq!(a.name(), Some(String::from("\u{e9}")));
}

#[test]
fn name_uses_whole_buffer_when_no_zero_byte() {
    let a = arg(ReilType::AReg, 0, "abcdefghijklmno");
    assert_eq!(a.name(), Some(String::from("abcdefghijklmno")));
}

#[test]
fn name_stops_at_embedded_zero() {
    let mut a = arg(ReilType::AReg, 0, "eax");
    a.name_buf[4] = b'x';
    assert_eq!(a.name(), Some(String::from("eax")));
}

#[test]
fn instruction_projections() {
    let inst = ReilInst {
        op: 9,
        raw_addr: 0x1000,
        inum: 2,
        a: arg(ReilType::AReg, 0, "eax"),
        b: arg(ReilType::AConst, 4, ""),
        c: arg(ReilType::ATemp, 0, "V_01"),
    };
    assert_eq!(inst.opcode(), 9);
    assert_eq!(inst.raw_address(), 0x1000);
    assert_eq!(inst.reil_offset(), 2);
    assert_eq!(inst.address(), 0x0010_0002);
    assert_eq!(inst.first_operand().unwrap().name(), Some(String::from("eax")));
    assert_eq!(inst.second_operand().unwrap().val(), Some(4));
    assert_eq!(inst.third_operand().unwrap().name(), Some(String::from("V_01")));
}

#[test]
fn reil_offset_keeps_low_byte_of_index() {
    let inst = ReilInst {
        op: 0,
        raw_addr: 0,
        inum: 0x01ff,
        a: none_arg(),
        b: none_arg(),
        c: none_arg(),
    };
    assert_eq!(inst.reil_offset(), 0xff);
}

#[test]
fn sessions_open_and_close_in_sequence() {
    for arch in [ReilArch::X86, ReilArch::ARM] {
        for n in [0usize, 1, 5] {
            for _ in 0..n {
                let mut session = Reil::new(arch, true).expect("engine was ready");
                session.close();
            }
        }
    }
}

#[test]
fn session_absent_when_engine_fails() {
    assert!(Reil::new(ReilArch::X86, false).is_none());
    assert!(Reil::new(ReilArch::ARM, false).is_none());
}

#[test]
fn translate_requests() {
    let mut session = Reil::new(ReilArch::X86, true).unwrap();
    let stream = session.translate(6, 0x8048000);
    assert_eq!(
        stream,
        EngineRequest { single: false, start_address: 0x8048000, data_len: 6 }
    );
    let one = session.translate_instruction(6, 0x8048000);
    assert_eq!(
        one,
        EngineRequest { single: true, start_address: 0x8048000, data_len: 6 }
    );
    session.close();
}
