use vstd::prelude::*;
use crate::table::{Mnemonic, s_entry, lemma_table_wf, lemma_table_relative};
use crate::machine::{CpuV, mrd, m16, page, s_step, s_exec, s_branch_taken, s_rel_target};
use crate::trace::{s_trace, s_rec, s_err_rec};
use crate::disasm::{s_first_pass, s_render};

verus! {

/// The no-operation opcode leaves A, X, Y, SP and every flag unchanged,
/// advances PC by exactly one byte, and costs its documented two-cycle base.
pub proof fn lemma_nop_step(v: CpuV)
    requires
        v.wf(),
        mrd(v, v.pc) == 0xEA,
    ensures
        s_step(v) == Some((CpuV { pc: m16(v.pc as int + 1), ..v }, 2u32)),
{
}

/// An immediate load into the accumulator stores the operand and refreshes
/// Z and N from it: operand zero gives Z=1, N=0; an operand with the high
/// bit set (such as 0x80) gives N=1, Z=0. Costs the two-cycle base and
/// advances PC by the instruction's two bytes.
pub proof fn lemma_lda_immediate(v: CpuV)
    requires
        v.wf(),
        mrd(v, v.pc) == 0xA9,
    ensures
        ({
            let m = mrd(v, m16(v.pc as int + 1));
            s_step(v) == Some(
                (CpuV { a: m, f_z: m == 0, f_n: m >= 0x80, pc: m16(v.pc as int + 2), ..v }, 2u32),
            ) && (m == 0 ==> s_step(v).unwrap().0.f_z && !s_step(v).unwrap().0.f_n) && (m == 0x80
                ==> s_step(v).unwrap().0.f_n && !s_step(v).unwrap().0.f_z)
        }),
{
}

/// The X-register immediate load obeys the same flag law.
pub proof fn lemma_ldx_immediate(v: CpuV)
    requires
        v.wf(),
        mrd(v, v.pc) == 0xA2,
    ensures
        ({
            let m = mrd(v, m16(v.pc as int + 1));
            s_step(v) == Some(
                (CpuV { x: m, f_z: m == 0, f_n: m >= 0x80, pc: m16(v.pc as int + 2), ..v }, 2u32),
            )
        }),
{
}

/// The Y-register immediate load obeys the same flag law.
pub proof fn lemma_ldy_immediate(v: CpuV)
    requires
        v.wf(),
        mrd(v, v.pc) == 0xA0,
    ensures
        ({
            let m = mrd(v, m16(v.pc as int + 1));
            s_step(v) == Some(
                (CpuV { y: m, f_z: m == 0, f_n: m >= 0x80, pc: m16(v.pc as int + 2), ..v }, 2u32),
            )
        }),
{
}

/// A conditional branch costs its two-cycle base when not taken, one extra
/// cycle when taken, and a second extra cycle when the taken branch crosses
/// a page boundary relative to the address following the instruction.
pub proof fn lemma_branch_cycles(v: CpuV)
    requires
        v.wf(),
        s_entry(mrd(v, v.pc)).mode is Relative,
    ensures
        ({
            let e = s_entry(mrd(v, v.pc));
            let taken = s_branch_taken(v, e.mnemonic);
            let next = m16(v.pc as int + 2);
            let t = s_rel_target(v, v.pc);
            s_step(v) is Some && s_step(v).unwrap().1 == (if !taken {
                2int
            } else if page(next) != page(t) {
                4int
            } else {
                3int
            }) && s_step(v).unwrap().0.pc == (if taken {
                t
            } else {
                next
            })
        }),
{
    lemma_table_relative(mrd(v, v.pc));
    lemma_table_wf(mrd(v, v.pc));
}

/// Disassembly is deterministic: running the first pass and the renderer
/// twice over the same engine state and segment yields identical label maps
/// and identical text, line for line.
pub proof fn lemma_disasm_deterministic(
    v: CpuV,
    start: u16,
    end: u16,
    m1: Seq<bool>,
    m2: Seq<bool>,
    empty: Seq<bool>,
)
    requires
        m1 == s_first_pass(v, start as int, start as int, end as int, empty),
        m2 == s_first_pass(v, start as int, start as int, end as int, empty),
    ensures
        m1 == m2,
        s_render(v, start as int, end as int, m1) == s_render(v, start as int, end as int, m2),
{
}

/// The mnemonics that neither branch nor jump nor otherwise redirect PC:
/// after any of them PC sits exactly one instruction length further.
pub open spec fn s_straightline(m: Mnemonic) -> bool {
    !(m is Bpl || m is Bmi || m is Bvc || m is Bvs || m is Bcc || m is Bcs || m is Bne || m is Beq
        || m is Jmp || m is Jsr || m is Rts || m is Rti || m is Brk || m is Ill)
}

/// A legal straight-line instruction advances PC by exactly its length.
#[verifier::rlimit(100)]
pub proof fn lemma_exec_straight(v: CpuV)
    requires
        !s_entry(mrd(v, v.pc)).illegal,
        s_straightline(s_entry(mrd(v, v.pc)).mnemonic),
    ensures
        s_step(v) is Some,
        s_step(v).unwrap().0.pc == m16(v.pc as int + s_entry(mrd(v, v.pc)).length as int),
{
}

/// The shape of every bounded trace run: never more than `n` records; the
/// first record (if any) shows the starting PC; an error-marked record can
/// only be the last, so an illegal fetch stops the run right there instead
/// of continuing to the requested step count; and without a stop address the
/// run reaches exactly `n` records unless it ends in the error record.
#[verifier::rlimit(100)]
pub proof fn lemma_trace_shape(v: CpuV, n: nat, stop: Option<u16>)
    ensures
        ({
            let recs = s_trace(v, n, stop).0;
            recs.len() <= n && (recs.len() > 0 ==> recs[0].pc == v.pc) && (forall|i: int|
                0 <= i < recs.len() && (#[trigger] recs[i]).illegal ==> i == recs.len() - 1) && (
            stop is None ==> (recs.len() == n || (recs.len() > 0 && recs[recs.len()
                - 1].illegal)))
        }),
    decreases n,
{
    let recs = s_trace(v, n, stop).0;
    if n == 0 {
    } else if stop matches Some(p) && v.pc == p {
    } else {
        let op = mrd(v, v.pc);
        let e = s_entry(op);
        if e.illegal {
            assert(recs == seq![s_err_rec(v, op)]);
        } else {
            let t = s_exec(v, e);
            lemma_trace_shape(t.0, (n - 1) as nat, stop);
            let rest = s_trace(t.0, (n - 1) as nat, stop).0;
            let rec0 = s_rec(v, op, e, t.0, t.1);
            assert(recs == seq![rec0] + rest);
            assert(recs[0] == rec0);
            assert(forall|i: int| 1 <= i < recs.len() ==> recs[i] == rest[i - 1]);
        }
    }
}

/// Straight-line programs trace with strictly advancing PCs: wherever a
/// record holds a legal straight-line instruction, the next record's PC is
/// greater by exactly that instruction's byte length. Together with
/// `lemma_trace_shape`, a trace of `n` legal non-branching instructions has
/// exactly `n` records whose PCs step by each instruction's length.
#[verifier::rlimit(100)]
pub proof fn lemma_trace_straightline(v: CpuV, n: nat, stop: Option<u16>)
    ensures
        ({
            let recs = s_trace(v, n, stop).0;
            forall|i: int|
                0 <= i < recs.len() - 1 && !(#[trigger] recs[i]).illegal && s_straightline(
                    recs[i].mnemonic,
                ) ==> recs[i + 1].pc == m16(
                    recs[i].pc as int + s_entry(recs[i].opcode).length as int,
                )
        }),
    decreases n,
{
    let recs = s_trace(v, n, stop).0;
    if n == 0 {
    } else if stop matches Some(p) && v.pc == p {
    } else {
        let op = mrd(v, v.pc);
        let e = s_entry(op);
        if e.illegal {
        } else {
            let t = s_exec(v, e);
            lemma_trace_straightline(t.0, (n - 1) as nat, stop);
            lemma_trace_shape(t.0, (n - 1) as nat, stop);
            let rest = s_trace(t.0, (n - 1) as nat, stop).0;
            let rec0 = s_rec(v, op, e, t.0, t.1);
            assert(recs == seq![rec0] + rest);
            assert(recs[0] == rec0);
            assert(forall|i: int| 1 <= i < recs.len() ==> recs[i] == rest[i - 1]);
            assert forall|i: int|
                0 <= i < recs.len() - 1 && !(#[trigger] recs[i]).illegal && s_straightline(
                    recs[i].mnemonic,
                ) implies recs[i + 1].pc == m16(
                recs[i].pc as int + s_entry(recs[i].opcode).length as int,
            ) by {
                if i == 0 {
                    lemma_exec_straight(v);
                    assert(rest.len() > 0);
                    assert(recs[1] == rest[0]);
                    assert(rest[0].pc == t.0.pc);
                } else {
                    assert(recs[i] == rest[i - 1]);
                    assert(recs[i + 1] == rest[i]);
                }
            }
        }
    }
}

} // verus!
