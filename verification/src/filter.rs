//! The classic packet filter that admits exactly the datagrams of one peer.
//!
//! The program looks at raw IPv4 datagrams and assumes a 20-byte IP header
//! (no options) followed by the 8-byte UDP header. It compares the IP source
//! address, the UDP source port and the UDP destination port with the three
//! operands of a [`FilterSpec`]; a packet that matches all three is delivered
//! whole, every other packet is dropped.

use vstd::prelude::*;

verus! {

/// Instruction class: load into the accumulator.
pub const BPF_LD: u16 = 0x00;

/// Operand source: the constant `k`.
pub const BPF_K: u16 = 0x00;

/// Load width: half word (two bytes).
pub const BPF_H: u16 = 0x08;

/// Jump condition: accumulator equals operand.
pub const BPF_JEQ: u16 = 0x10;

/// Instruction class: jump.
pub const BPF_JMP: u16 = 0x05;

/// Instruction class: return.
pub const BPF_RET: u16 = 0x06;

/// Addressing mode: absolute offset into the packet.
pub const BPF_ABS: u16 = 0x20;

/// Load width: word (four bytes).
pub const BPF_W: u16 = 0x00;

/// Load the word at an absolute offset into the accumulator.
pub const LOAD_WORD: u16 = BPF_LD + BPF_W + BPF_ABS;

/// Load the half word at an absolute offset into the accumulator.
pub const LOAD_HALF: u16 = BPF_LD + BPF_ABS + BPF_H;

/// Jump by `jt` if the accumulator equals the operand, else by `jf`.
pub const JUMP_IF_EQUAL: u16 = BPF_JMP + BPF_JEQ + BPF_K;

/// Return the operand.
pub const RETURN: u16 = BPF_RET + BPF_K;

/// Number of instructions in the program that [`build`] returns.
pub const PROGRAM_LEN: usize = 8;

/// Offset of the source address in an IPv4 header.
pub const IP_SOURCE_OFFSET: u32 = 12;

/// Offset of the UDP source port behind a 20-byte IPv4 header.
pub const UDP_SOURCE_PORT_OFFSET: u32 = 20;

/// Offset of the UDP destination port behind a 20-byte IPv4 header.
pub const UDP_DEST_PORT_OFFSET: u32 = 22;

/// Return value of the filter that delivers the whole packet.
pub const ACCEPT: u32 = 0xffff_ffff;

/// Return value of the filter that drops the packet.
pub const REJECT: u32 = 0;

/// One instruction of a classic packet filter, field for field what the
/// kernel's `sock_filter` holds.
#[derive(Clone, Copy, Debug, PartialEq, Eq, Structural)]
pub struct Instruction {
    /// Operation code.
    pub code: u16,
    /// Instructions to skip when a jump's condition holds.
    pub jt: u8,
    /// Instructions to skip when a jump's condition fails.
    pub jf: u8,
    /// Operand: an offset, a constant to compare with, or a return value.
    pub k: u32,
}

/// What the filter lets through: datagrams from `peer_ip`:`peer_port` to the
/// local `listen_port`.
#[derive(Clone, Copy, Debug, PartialEq, Eq)]
pub struct FilterSpec {
    /// The peer's IPv4 address, most significant octet first.
    pub peer_ip: [u8; 4],
    /// The peer's UDP port.
    pub peer_port: u16,
    /// The local UDP port the tunnel listens on.
    pub listen_port: u16,
}

/// The number that four octets stand for when the first is the most
/// significant.
pub open spec fn be_word(b0: u8, b1: u8, b2: u8, b3: u8) -> int {
    b0 as int * 0x100_0000 + b1 as int * 0x1_0000 + b2 as int * 0x100 + b3 as int
}

/// The number that two octets stand for when the first is the most
/// significant.
pub open spec fn be_half(b0: u8, b1: u8) -> int {
    b0 as int * 0x100 + b1 as int
}

/// A statement: an instruction that never jumps.
pub open spec fn spec_stmt(code: u16, k: u32) -> Instruction {
    Instruction { code, jt: 0, jf: 0, k }
}

/// A jump with both of its targets.
pub open spec fn spec_jump(code: u16, k: u32, jt: u8, jf: u8) -> Instruction {
    Instruction { code, jt, jf, k }
}

/// The program for `spec`, instruction by instruction.
pub open spec fn program_of(spec: FilterSpec) -> Seq<Instruction> {
    seq![
        spec_stmt(LOAD_WORD, IP_SOURCE_OFFSET),
        spec_jump(JUMP_IF_EQUAL, spec.peer_ip_word(), 0, 5),
        spec_stmt(LOAD_HALF, UDP_SOURCE_PORT_OFFSET),
        spec_jump(JUMP_IF_EQUAL, spec.peer_port as u32, 0, 3),
        spec_stmt(LOAD_HALF, UDP_DEST_PORT_OFFSET),
        spec_jump(JUMP_IF_EQUAL, spec.listen_port as u32, 0, 1),
        spec_stmt(RETURN, ACCEPT),
        spec_stmt(RETURN, REJECT),
    ]
}

impl FilterSpec {
    /// The peer address as the 32-bit number the filter compares with.
    pub open spec fn peer_ip_word(self) -> u32 {
        be_word(self.peer_ip[0], self.peer_ip[1], self.peer_ip[2], self.peer_ip[3]) as u32
    }

    /// A specification from its three parts.
    pub fn new(peer_ip: [u8; 4], peer_port: u16, listen_port: u16) -> (spec: FilterSpec)
        ensures
            spec.peer_ip == peer_ip,
            spec.peer_port == peer_port,
            spec.listen_port == listen_port,
    {
        FilterSpec { peer_ip, peer_port, listen_port }
    }

    /// Computes the operand that stands for the peer address.
    pub fn peer_address(&self) -> (word: u32)
        ensures
            word == self.peer_ip_word(),
            word == be_word(self.peer_ip[0], self.peer_ip[1], self.peer_ip[2], self.peer_ip[3]),
    {
        let b0: u32 = self.peer_ip[0] as u32;
        let b1: u32 = self.peer_ip[1] as u32;
        let b2: u32 = self.peer_ip[2] as u32;
        let b3: u32 = self.peer_ip[3] as u32;
        b0 * 0x100_0000 + b1 * 0x1_0000 + b2 * 0x100 + b3
    }
}

/// The four bytes of `packet` at `offset` as a number, most significant byte
/// first, or `None` where they do not all lie within the packet.
pub open spec fn load_word(packet: Seq<u8>, offset: int) -> Option<int> {
    if 0 <= offset && offset + 4 <= packet.len() {
        Some(be_word(packet[offset], packet[offset + 1], packet[offset + 2], packet[offset + 3]))
    } else {
        None
    }
}

/// The two bytes of `packet` at `offset` as a number, most significant byte
/// first, or `None` where they do not both lie within the packet.
pub open spec fn load_half(packet: Seq<u8>, offset: int) -> Option<int> {
    if 0 <= offset && offset + 2 <= packet.len() {
        Some(be_half(packet[offset], packet[offset + 1]))
    } else {
        None
    }
}

/// What the kernel's interpreter returns when it runs `program` on `packet`
/// from the instruction `pc` on, with `acc` in the accumulator: the number
/// of bytes to deliver, zero to drop the packet.
///
/// Only the four operations that [`build`] uses are given a meaning. A load
/// that reaches outside the packet ends the run with zero, and so does
/// anything the kernel would refuse: another operation, or a jump out of
/// the program.
pub open spec fn run(program: Seq<Instruction>, packet: Seq<u8>, pc: int, acc: int) -> u32
    decreases program.len() - pc,
{
    if pc < 0 || pc >= program.len() {
        REJECT
    } else {
        let insn = program[pc];
        if insn.code == LOAD_WORD {
            match load_word(packet, insn.k as int) {
                Some(word) => run(program, packet, pc + 1, word),
                None => REJECT,
            }
        } else if insn.code == LOAD_HALF {
            match load_half(packet, insn.k as int) {
                Some(half) => run(program, packet, pc + 1, half),
                None => REJECT,
            }
        } else if insn.code == JUMP_IF_EQUAL {
            let target = pc + 1 + if acc == insn.k {
                insn.jt
            } else {
                insn.jf
            };
            if target < program.len() {
                run(program, packet, target, acc)
            } else {
                REJECT
            }
        } else if insn.code == RETURN {
            insn.k
        } else {
            REJECT
        }
    }
}

/// Is `packet` a datagram from the peer to the listen port: does it reach to
/// the end of the UDP ports, and do its source address, source port and
/// destination port equal those of `spec`?
pub open spec fn is_peer_traffic(spec: FilterSpec, packet: Seq<u8>) -> bool {
    &&& packet.len() >= 24
    &&& packet.subrange(12, 16) == spec.peer_ip@
    &&& be_half(packet[20], packet[21]) == spec.peer_port
    &&& be_half(packet[22], packet[23]) == spec.listen_port
}

/// The program for `spec` delivers a packet whole if it is traffic from the
/// peer to the listen port, and drops every other packet.
pub proof fn lemma_filter_admits_peer_traffic_only(spec: FilterSpec, packet: Seq<u8>)
    ensures
        run(program_of(spec), packet, 0, 0) == if is_peer_traffic(spec, packet) {
            ACCEPT
        } else {
            REJECT
        },
{
    let program = program_of(spec);
    reveal_with_fuel(run, 9);
    assert(spec.peer_ip@.len() == 4);
    if packet.len() >= 16 {
        let word = be_word(packet[12], packet[13], packet[14], packet[15]);
        let field = packet.subrange(12, 16);
        assert(field[0] == packet[12] && field[1] == packet[13] && field[2] == packet[14]
            && field[3] == packet[15]);
        assert(word == spec.peer_ip_word() <==> field =~= spec.peer_ip@);
    }
}

/// Builds a statement: both jump offsets are zero.
pub fn bpf_stmt(code: u16, k: u32) -> (insn: Instruction)
    ensures
        insn == spec_stmt(code, k),
{
    Instruction { code, k, jf: 0, jt: 0 }
}

/// Builds a jump that skips `jt` instructions when its condition holds and
/// `jf` instructions when it fails.
pub fn bpf_jump(code: u16, k: u32, jt: u8, jf: u8) -> (insn: Instruction)
    ensures
        insn == spec_jump(code, k, jt, jf),
{
    Instruction { code, k, jt, jf }
}

/// Builds the eight-instruction program for `spec`.
///
/// Only the operands of the three comparisons depend on `spec`; the codes and
/// the jump offsets are fixed.
pub fn build(spec: &FilterSpec) -> (program: [Instruction; PROGRAM_LEN])
    ensures
        program@ == program_of(*spec),
{
    let program = [
        bpf_stmt(BPF_LD + BPF_W + BPF_ABS, IP_SOURCE_OFFSET),
        bpf_jump(BPF_JMP + BPF_JEQ + BPF_K, spec.peer_address(), 0, 5),
        bpf_stmt(BPF_LD + BPF_ABS + BPF_H, UDP_SOURCE_PORT_OFFSET),
        bpf_jump(BPF_JMP + BPF_JEQ + BPF_K, spec.peer_port as u32, 0, 3),
        bpf_stmt(BPF_LD + BPF_ABS + BPF_H, UDP_DEST_PORT_OFFSET),
        bpf_jump(BPF_JMP + BPF_JEQ + BPF_K, spec.listen_port as u32, 0, 1),
        bpf_stmt(BPF_RET + BPF_K, ACCEPT),
        bpf_stmt(BPF_RET + BPF_K, REJECT),
    ];
    assert(program@ =~= program_of(*spec));
    program
}

} // verus!
