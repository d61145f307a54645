//! Properties of the processor that hold on every input: flag bit
//! positions, reset idempotence, the unused flag after an instruction, the
//! stack round trip and the indirect-jump page-boundary bug.

use crate::cpu::instruction::{spec_decode, AddressMode, Operation};
use crate::cpu::{
    flag_is, flag_set_to, spec_clock, spec_drain, spec_execute, spec_flag_from_char,
    spec_get_flag, spec_pop, spec_push, spec_reset, spec_resolve, spec_step, word, CpuView,
    MASK_U, STACK_BASE_ADDR,
};
use vstd::prelude::*;

verus! {

/// Forcing a flag leaves every disjoint flag alone.
proof fn lemma_set_to_keeps_disjoint()
    by (bit_vector)
    ensures
        forall|p: u8, m1: u8, b: bool, m2: u8|
            #![trigger flag_set_to(p, m1, b) & m2]
            m1 & m2 == 0 ==> flag_set_to(p, m1, b) & m2 == p & m2,
{
}

/// Forcing a flag makes exactly that flag read back as forced.
proof fn lemma_set_to_reads_back()
    by (bit_vector)
    ensures
        forall|p: u8, m: u8| m != 0 ==> flag_is(#[trigger] flag_set_to(p, m, true), m),
        forall|p: u8, m: u8| !flag_is(#[trigger] flag_set_to(p, m, false), m),
{
}

/// Every other flag mask is disjoint from the unused flag's mask.
proof fn lemma_u_mask_disjoint()
    by (bit_vector)
    ensures
        0x01u8 & 0x20 == 0,
        0x02u8 & 0x20 == 0,
        0x04u8 & 0x20 == 0,
        0x08u8 & 0x20 == 0,
        0x10u8 & 0x20 == 0,
        0x40u8 & 0x20 == 0,
        0x80u8 & 0x20 == 0,
{
}

/// Reading a flag is reading the corresponding bit of the status byte:
/// `C` is bit 0 up to `N` at bit 7.
pub proof fn lemma_flag_bit_positions(p: u8, flag: char)
    requires
        spec_flag_from_char(flag) != 0,
    ensures
        spec_get_flag(p, flag) == (((p >> ((spec_flag_from_char(flag) - 1) as u8)) & 1) != 0),
{
    let n = (spec_flag_from_char(flag) - 1) as u8;
    assert(((p >> n) & 1 != 0) == (p & (1u8 << n) != 0)) by (bit_vector);
    assert(1u8 << 0 == 0x01 && 1u8 << 1 == 0x02 && 1u8 << 2 == 0x04 && 1u8 << 3 == 0x08 && 1u8
        << 4 == 0x10 && 1u8 << 5 == 0x20 && 1u8 << 6 == 0x40 && 1u8 << 7 == 0x80) by (bit_vector);
}

/// Forcing a flag to a value is idempotent: forcing it again to the same
/// value changes nothing.
pub proof fn lemma_set_flag_idempotent(p: u8, mask: u8, value: bool)
    ensures
        flag_set_to(flag_set_to(p, mask, value), mask, value) == flag_set_to(p, mask, value),
{
    assert((p | mask) | mask == p | mask) by (bit_vector);
    assert((p & !mask) & !mask == p & !mask) by (bit_vector);
}

/// Resetting twice is the same as resetting once.
pub proof fn lemma_reset_idempotent(s: CpuView)
    ensures
        spec_reset(spec_reset(s)) == spec_reset(s),
{
    let p = s.status;
    assert((p & 0x20) & 0x20 == p & 0x20) by (bit_vector);
    assert(spec_reset(spec_reset(s)) =~= spec_reset(s));
}

/// Resolving an addressing mode never changes the status byte.
proof fn lemma_resolve_keeps_status(s: CpuView, mode: AddressMode)
    ensures
        spec_resolve(s, mode).0.status == s.status,
{
    reveal(spec_resolve);
}

/// Every operation except RTI leaves a set unused flag set. RTI is the one
/// exception: it restores the whole pushed status byte and clears the
/// unused bit.
#[verifier::rlimit(100)]
#[verifier::spinoff_prover]
proof fn lemma_execute_keeps_u(s: CpuView, ptr: u16, op: Operation, mode: AddressMode)
    requires
        flag_is(s.status, MASK_U),
        op != Operation::RTI,
    ensures
        flag_is(spec_execute(s, ptr, op, mode).status, MASK_U),
{
    reveal(spec_execute);
    lemma_set_to_keeps_disjoint();
    lemma_set_to_reads_back();
    lemma_u_mask_disjoint();
    if op == Operation::PLP {
        let v = spec_pop(s).1;
        let q = s.status;
        assert((((v & !0x10u8) | (q & 0x10u8)) | 0x20u8) & 0x20u8 != 0) by (bit_vector);
    }
}

/// After any dispatched instruction other than RTI, the unused flag is 1:
/// the fetch forces it and no other operation clears it.
pub proof fn lemma_clock_sets_u(s: CpuView)
    requires
        s.cycles == 0,
        spec_decode(s.mem[s.pc as int]).operation != Operation::RTI,
    ensures
        flag_is(spec_clock(s).status, MASK_U),
{
    let s1 = CpuView { ppc: s.pc, opcode: s.mem[s.pc as int], pc: s.pc.wrapping_add(1), ..s };
    let s2 = CpuView { status: flag_set_to(s1.status, MASK_U, true), ..s1 };
    lemma_set_to_reads_back();
    assert(flag_is(s2.status, MASK_U));
    let instr = spec_decode(s2.opcode);
    let s3 = CpuView { cycles: instr.cycles, ..s2 };
    lemma_resolve_keeps_status(s3, instr.address_mode);
    let resolved = spec_resolve(s3, instr.address_mode);
    let s4 = CpuView { addr_of_data: resolved.1, ..resolved.0 };
    lemma_execute_keeps_u(s4, resolved.1, instr.operation, instr.address_mode);
}

/// Paying off owed cycles never changes the status byte.
proof fn lemma_drain_keeps_status(s: CpuView)
    ensures
        spec_drain(s).status == s.status,
    decreases s.cycles,
{
    if s.cycles != 0 {
        lemma_drain_keeps_status(spec_clock(s));
    }
}

/// After a whole stepped instruction other than RTI, the unused flag is 1.
pub proof fn lemma_step_sets_u(s: CpuView)
    requires
        s.cycles == 0,
        spec_decode(s.mem[s.pc as int]).operation != Operation::RTI,
    ensures
        flag_is(spec_step(s).status, MASK_U),
{
    lemma_clock_sets_u(s);
    lemma_drain_keeps_status(spec_clock(s));
}

/// The state after pushing a whole sequence of bytes, first element first.
pub open spec fn spec_push_all(s: CpuView, vs: Seq<u8>) -> CpuView
    decreases vs.len(),
{
    if vs.len() == 0 {
        s
    } else {
        spec_push_all(spec_push(s, vs[0]), vs.skip(1))
    }
}

/// The state and the sequence of bytes that `n` pops yield, in pop order.
pub open spec fn spec_pop_all(s: CpuView, n: nat) -> (CpuView, Seq<u8>)
    decreases n,
{
    if n == 0 {
        (s, Seq::empty())
    } else {
        let rest = spec_pop_all(spec_pop(s).0, (n - 1) as nat);
        (rest.0, seq![spec_pop(s).1] + rest.1)
    }
}

/// The stack offset `i` slots below `sp`, wrapping within the page; exact
/// for `i` up to one full page.
pub open spec fn sp_below(sp: u8, i: int) -> int {
    if sp - i >= 0 {
        sp - i
    } else {
        sp - i + 256
    }
}

/// Popping reads memory without writing it, and walks the stack pointer up
/// one slot per pop.
proof fn lemma_pop_all_frame(s: CpuView, n: nat)
    ensures
        spec_pop_all(s, n).0.mem == s.mem,
        spec_pop_all(s, n).1.len() == n,
    decreases n,
{
    if n != 0 {
        lemma_pop_all_frame(spec_pop(s).0, (n - 1) as nat);
    }
}

/// `n + 1` pops are `n` pops followed by one more.
proof fn lemma_pop_all_snoc(s: CpuView, n: nat)
    ensures
        spec_pop_all(s, n + 1).0 == spec_pop(spec_pop_all(s, n).0).0,
        spec_pop_all(s, n + 1).1 == spec_pop_all(s, n).1.push(spec_pop(spec_pop_all(s, n).0).1),
    decreases n,
{
    reveal_with_fuel(spec_pop_all, 3);
    if n == 0 {
        assert(spec_pop_all(s, 1).1 =~= spec_pop_all(s, 0).1.push(
            spec_pop(spec_pop_all(s, 0).0).1,
        ));
    } else {
        let t = spec_pop(s).0;
        lemma_pop_all_snoc(t, (n - 1) as nat);
        assert(spec_pop_all(s, n + 1).0 == spec_pop_all(t, n).0);
        assert(spec_pop_all(s, n).0 == spec_pop_all(t, (n - 1) as nat).0);
        assert(spec_pop_all(s, n + 1).1 =~= spec_pop_all(s, n).1.push(
            spec_pop(spec_pop_all(s, n).0).1,
        ));
    }
}

/// Pushing a sequence writes only the slots it descends through: any
/// address outside them keeps its byte.
proof fn lemma_push_all_frame(s: CpuView, vs: Seq<u8>, addr: int)
    requires
        s.wf(),
        0 <= addr < s.mem.len(),
        vs.len() <= 256,
        forall|i: int| 0 <= i < vs.len() ==> addr != STACK_BASE_ADDR + #[trigger] sp_below(
            s.stkp,
            i,
        ),
    ensures
        spec_push_all(s, vs).mem[addr] == s.mem[addr],
        spec_push_all(s, vs).stkp as int == sp_below(s.stkp, vs.len() as int),
    decreases vs.len(),
{
    if vs.len() == 0 {
        assert(sp_below(s.stkp, 0) == s.stkp as int);
    } else {
        let t = spec_push(s, vs[0]);
        let rest = vs.skip(1);
        assert forall|i: int| 0 <= i <= rest.len() implies #[trigger] sp_below(t.stkp, i)
            == sp_below(s.stkp, i + 1) by {
            assert(t.stkp == s.stkp.wrapping_sub(1));
        }
        assert(forall|i: int|
            0 <= i < rest.len() ==> addr != STACK_BASE_ADDR + #[trigger] sp_below(t.stkp, i));
        lemma_push_all_frame(t, rest, addr);
        assert(sp_below(t.stkp, rest.len() as int) == sp_below(s.stkp, vs.len() as int));
        assert(addr != STACK_BASE_ADDR + sp_below(s.stkp, 0));
        assert(t.mem == s.mem.update(STACK_BASE_ADDR + s.stkp as int, vs[0]));
        assert(s.mem.update(STACK_BASE_ADDR + s.stkp as int, vs[0])[addr] == s.mem[addr]);
        assert(t.mem[addr] == s.mem[addr]);
    }
}

/// The stack round trip: pushing any sequence of at most 256 bytes and then
/// popping as many brings the bytes back in reverse order, with the stack
/// pointer restored. With more than 256 pushes the stack page wraps onto
/// its own live slots and the oldest bytes are lost.
pub proof fn lemma_stack_round_trip(s: CpuView, vs: Seq<u8>)
    requires
        s.wf(),
        vs.len() <= 256,
    ensures
        spec_pop_all(spec_push_all(s, vs), vs.len()).1 == vs.reverse(),
        spec_pop_all(spec_push_all(s, vs), vs.len()).0.stkp == s.stkp,
        spec_pop_all(spec_push_all(s, vs), vs.len()).0.mem == spec_push_all(s, vs).mem,
    decreases vs.len(),
{
    if vs.len() == 0 {
        assert(vs.reverse() =~= Seq::<u8>::empty());
    } else {
        let v0 = vs[0];
        let rest = vs.skip(1);
        let t0 = spec_push(s, v0);
        let pushed = spec_push_all(t0, rest);
        lemma_stack_round_trip(t0, rest);
        let mid = spec_pop_all(pushed, rest.len()).0;
        lemma_pop_all_frame(pushed, rest.len());
        lemma_pop_all_snoc(pushed, rest.len());

        // The slot holding the first byte sits one above every slot the
        // remaining pushes descend through, so it survives them.
        let keep = STACK_BASE_ADDR + s.stkp as int;
        assert forall|i: int| 0 <= i < rest.len() implies keep != STACK_BASE_ADDR + sp_below(
            t0.stkp,
            i,
        ) by {
            assert(t0.stkp as int == sp_below(s.stkp, 1));
            assert(sp_below(t0.stkp, i) == sp_below(s.stkp, i + 1));
            assert(sp_below(s.stkp, i + 1) != s.stkp as int);
        }
        lemma_push_all_frame(t0, rest, keep);
        assert(pushed.mem[keep] == v0);

        // The last pop reads that slot.
        assert(mid.stkp == t0.stkp);
        assert(mid.stkp.wrapping_add(1) == s.stkp);
        assert(mid.mem == pushed.mem);
        assert(spec_pop(mid).1 == mid.mem[STACK_BASE_ADDR + s.stkp as int]);
        assert(spec_pop(mid).1 == v0);
        assert(spec_pop(mid).0.stkp == s.stkp);

        assert(spec_pop_all(spec_push_all(s, vs), vs.len()).1 =~= vs.reverse()) by {
            assert(spec_push_all(s, vs) == pushed);
            assert(spec_pop_all(pushed, vs.len()).1 == spec_pop_all(pushed, rest.len()).1.push(
                spec_pop(mid).1,
            ));
            assert(rest.reverse().push(v0) =~= vs.reverse());
        }
    }
}

/// The hardware page-boundary bug: when the indirect pointer's low byte is
/// 0xFF, the high byte of the jump target comes from offset 0x00 of the
/// pointer's own page, not from the next page.
pub proof fn lemma_indirect_page_boundary_bug(s: CpuView)
    requires
        word(s.mem[s.pc as int], s.mem[s.pc.wrapping_add(1) as int]) % 256 == 0xFF,
    ensures
        ({
            let p = word(s.mem[s.pc as int], s.mem[s.pc.wrapping_add(1) as int]);
            spec_resolve(s, AddressMode::AbsoluteIndirect).1 == word(
                s.mem[p as int],
                s.mem[(p / 256) * 256],
            )
        }),
{
    reveal(spec_resolve);
}

} // verus!
