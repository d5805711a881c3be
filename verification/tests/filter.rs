use wg_nat::filter::{
    bpf_jump, bpf_stmt, build, FilterSpec, Instruction, ACCEPT, BPF_ABS, BPF_H, BPF_JEQ, BPF_JMP,
    BPF_K, BPF_LD, BPF_RET, BPF_W, JUMP_IF_EQUAL, LOAD_HALF, LOAD_WORD, PROGRAM_LEN, REJECT,
    RETURN,
};

/// Runs a program the way the kernel does, for the operations the filter
/// uses.
fn run(program: &[Instruction], packet: &[u8]) -> u32 {
    let mut acc: u32 = 0;
    let mut pc: usize = 0;
    while pc < program.len() {
        let insn = program[pc];
        pc += 1;
        let k = insn.k as usize;
        match insn.code {
            0x20 => {
                if k + 4 > packet.len() {
                    return 0;
                }
                acc = u32::from_be_bytes([packet[k], packet[k + 1], packet[k + 2], packet[k + 3]]);
            }
            0x28 => {
                if k + 2 > packet.len() {
                    return 0;
                }
                acc = u16::from_be_bytes([packet[k], packet[k + 1]]) as u32;
            }
            0x15 => pc += if acc == insn.k { insn.jt } else { insn.jf } as usize,
            0x06 => return insn.k,
            _ => return 0,
        }
    }
    0
}

/// An IPv4 datagram without options that carries a UDP header and nothing
/// behind it.
fn udp_packet(source: [u8; 4], source_port: u16, dest_port: u16) -> Vec<u8> {
    let mut packet = vec![0u8; 28];
    packet[0] = 0x45;
    packet[9] = 17;
    packet[12..16].copy_from_slice(&source);
    packet[16..20].copy_from_slice(&[192, 0, 2, 1]);
    packet[20..22].copy_from_slice(&source_port.to_be_bytes());
    packet[22..24].copy_from_slice(&dest_port.to_be_bytes());
    packet
}

fn example() -> FilterSpec {
    FilterSpec::new([203, 0, 113, 5], 51820, 51821)
}

#[test]
fn operation_codes() {
    assert_eq!(BPF_LD + BPF_W + BPF_ABS, 0x20);
    assert_eq!(BPF_LD + BPF_ABS + BPF_H, 0x28);
    assert_eq!(BPF_JMP + BPF_JEQ + BPF_K, 0x15);
    assert_eq!(BPF_RET + BPF_K, 0x06);
    assert_eq!((LOAD_WORD, LOAD_HALF, JUMP_IF_EQUAL, RETURN), (0x20, 0x28, 0x15, 0x06));
}

#[test]
fn statement_has_no_jump_offsets() {
    assert_eq!(bpf_stmt(0x20, 12), Instruction { code: 0x20, jt: 0, jf: 0, k: 12 });
    assert_eq!(bpf_stmt(0x06, u32::MAX), Instruction { code: 0x06, jt: 0, jf: 0, k: u32::MAX });
}

#[test]
fn jump_keeps_both_offsets_apart() {
    assert_eq!(bpf_jump(0x15, 7, 1, 2), Instruction { code: 0x15, jt: 1, jf: 2, k: 7 });
}

#[test]
fn peer_address_is_big_endian() {
    assert_eq!(example().peer_address(), 0xcb00_7105);
    assert_eq!(example().peer_address(), u32::from_be_bytes([203, 0, 113, 5]));
    assert_eq!(FilterSpec::new([0, 0, 0, 1], 0, 0).peer_address(), 1);
    assert_eq!(FilterSpec::new([255, 255, 255, 255], 0, 0).peer_address(), u32::MAX);
}

#[test]
fn build_produces_the_fixed_program() {
    let program = build(&example());
    assert_eq!(program.len(), PROGRAM_LEN);
    assert_eq!(
        program,
        [
            Instruction { code: 0x20, jt: 0, jf: 0, k: 12 },
            Instruction { code: 0x15, jt: 0, jf: 5, k: 0xcb00_7105 },
            Instruction { code: 0x28, jt: 0, jf: 0, k: 20 },
            Instruction { code: 0x15, jt: 0, jf: 3, k: 51820 },
            Instruction { code: 0x28, jt: 0, jf: 0, k: 22 },
            Instruction { code: 0x15, jt: 0, jf: 1, k: 51821 },
            Instruction { code: 0x06, jt: 0, jf: 0, k: 0xffff_ffff },
            Instruction { code: 0x06, jt: 0, jf: 0, k: 0 },
        ]
    );
}

#[test]
fn only_the_three_operands_vary() {
    let a = build(&example());
    let b = build(&FilterSpec::new([10, 1, 2, 3], 1, 65535));
    for i in 0..PROGRAM_LEN {
        assert_eq!(a[i].code, b[i].code);
        assert_eq!(a[i].jt, b[i].jt);
        assert_eq!(a[i].jf, b[i].jf);
        if i != 1 && i != 3 && i != 5 {
            assert_eq!(a[i].k, b[i].k);
        }
    }
    assert_eq!((b[1].k, b[3].k, b[5].k), (0x0a01_0203, 1, 65535));
}

#[test]
fn every_jump_lands_on_the_reject() {
    let program = build(&example());
    for (i, insn) in program.iter().enumerate() {
        if insn.code == JUMP_IF_EQUAL {
            assert_eq!(insn.jt, 0);
            assert_eq!(i + 1 + insn.jf as usize, PROGRAM_LEN - 1);
        }
    }
    assert_eq!(program[PROGRAM_LEN - 2].k, ACCEPT);
    assert_eq!(program[PROGRAM_LEN - 1].k, REJECT);
}

#[test]
fn peer_traffic_is_accepted() {
    let program = build(&example());
    assert_eq!(run(&program, &udp_packet([203, 0, 113, 5], 51820, 51821)), ACCEPT);
}

#[test]
fn other_traffic_is_dropped() {
    let program = build(&example());
    assert_eq!(run(&program, &udp_packet([203, 0, 113, 6], 51820, 51821)), REJECT);
    assert_eq!(run(&program, &udp_packet([203, 0, 113, 5], 51821, 51821)), REJECT);
    assert_eq!(run(&program, &udp_packet([203, 0, 113, 5], 51820, 51820)), REJECT);
    assert_eq!(run(&program, &udp_packet([203, 0, 113, 5], 51821, 51820)), REJECT);
}

#[test]
fn short_packets_are_dropped() {
    let program = build(&example());
    let packet = udp_packet([203, 0, 113, 5], 51820, 51821);
    assert_eq!(run(&program, &packet[..24]), ACCEPT);
    assert_eq!(run(&program, &packet[..23]), REJECT);
    assert_eq!(run(&program, &packet[..15]), REJECT);
    assert_eq!(run(&program, &[]), REJECT);
}
