use vstd::prelude::*;
use crate::table::{Mnemonic, OpcodeEntry, opcode_entry, s_entry};
use crate::machine::{CpuV, mrd, m16, word_at, s_status, s_exec};
use crate::cpu::{Cpu, pc_add};

verus! {

/// One per-step trace record: the PC and opcode fetched, the dispatch row's
/// mnemonic, the raw operand bytes, the register and packed-flag snapshot
/// after the step, and the cycles it consumed. A record with `illegal` set is
/// the terminal error marker of a run that fetched an unimplemented opcode:
/// the snapshot then shows the untouched state and no cycles are counted.
#[derive(Clone, Copy, PartialEq, Eq, Structural, Debug)]
pub struct TraceRecord {
    pub pc: u16,
    pub opcode: u8,
    pub mnemonic: Mnemonic,
    pub operand: u16,
    pub a: u8,
    pub x: u8,
    pub y: u8,
    pub sp: u8,
    pub status: u8,
    pub cycles: u32,
    pub illegal: bool,
}

/// The raw operand of the instruction at PC: nothing, one byte, or one
/// little-endian word, by instruction length.
pub open spec fn s_operand_raw(v: CpuV, len: u8) -> u16 {
    if len == 2 {
        mrd(v, m16(v.pc as int + 1)) as u16
    } else if len == 3 {
        word_at(v, m16(v.pc as int + 1))
    } else {
        0u16
    }
}

/// The record of one successful step from `pre`, ending in `post`.
pub open spec fn s_rec(pre: CpuV, op: u8, e: OpcodeEntry, post: CpuV, c: u32) -> TraceRecord {
    TraceRecord {
        pc: pre.pc,
        opcode: op,
        mnemonic: e.mnemonic,
        operand: s_operand_raw(pre, e.length),
        a: post.a,
        x: post.x,
        y: post.y,
        sp: post.sp,
        status: s_status(post),
        cycles: c,
        illegal: false,
    }
}

/// The terminal record of a run that fetched an unimplemented opcode.
pub open spec fn s_err_rec(v: CpuV, op: u8) -> TraceRecord {
    TraceRecord {
        pc: v.pc,
        opcode: op,
        mnemonic: Mnemonic::Ill,
        operand: 0,
        a: v.a,
        x: v.x,
        y: v.y,
        sp: v.sp,
        status: s_status(v),
        cycles: 0,
        illegal: true,
    }
}

/// A bounded run of the model machine from `v`: up to `n` steps, stopping
/// early on an optional stop address (checked before stepping) or on the
/// Illegal-Opcode condition, which contributes the error-marked terminal
/// record. Yields the records in order and the machine state they leave.
pub open spec fn s_trace(v: CpuV, n: nat, stop: Option<u16>) -> (Seq<TraceRecord>, CpuV)
    decreases n,
{
    if n == 0 {
        (Seq::empty(), v)
    } else if stop matches Some(p) && v.pc == p {
        (Seq::empty(), v)
    } else {
        let op = mrd(v, v.pc);
        let e = s_entry(op);
        if e.illegal {
            (seq![s_err_rec(v, op)], v)
        } else {
            let t = s_exec(v, e);
            let rest = s_trace(t.0, (n - 1) as nat, stop);
            (seq![s_rec(v, op, e, t.0, t.1)] + rest.0, rest.1)
        }
    }
}

/// The instruction tracer: set PC to `start`, then single-step the engine up
/// to `steps` times, capturing one record per step; stop early at the
/// optional stop address, or on an Illegal-Opcode fetch with an error-marked
/// terminal record. The engine is left exactly as of the last successful or
/// faulting step, for the caller to inspect.
#[verifier::rlimit(100)]
pub fn trace(cpu: &mut Cpu, start: u16, steps: u32, stop: Option<u16>) -> (r: Vec<TraceRecord>)
    requires
        old(cpu).wf(),
    ensures
        final(cpu).wf(),
        r@ == s_trace((CpuV { pc: start, ..old(cpu)@ }), steps as nat, stop).0,
        final(cpu)@ == s_trace((CpuV { pc: start, ..old(cpu)@ }), steps as nat, stop).1,
{
    cpu.pc = start;
    let ghost v0 = cpu@;
    let mut recs: Vec<TraceRecord> = Vec::new();
    let mut k: u32 = 0;
    let mut done = false;
    while k < steps && !done
        invariant
            cpu.wf(),
            k <= steps,
            done ==> s_trace(v0, steps as nat, stop).0 == recs@ && s_trace(
                v0,
                steps as nat,
                stop,
            ).1 == cpu@,
            !done ==> s_trace(v0, steps as nat, stop).0 == recs@ + s_trace(
                cpu@,
                (steps - k) as nat,
                stop,
            ).0 && s_trace(v0, steps as nat, stop).1 == s_trace(cpu@, (steps - k) as nat, stop).1,
        decreases steps - k, (if done { 0int } else { 1 }),
    {
        let hit = match stop {
            Option::Some(p) => cpu.pc == p,
            Option::None => false,
        };
        if hit {
            done = true;
        } else {
            let pre_pc = cpu.pc;
            let op = cpu.read(pre_pc);
            let e = opcode_entry(op);
            let operand: u16 = if e.length == 2 {
                cpu.read(pc_add(pre_pc, 1)) as u16
            } else if e.length == 3 {
                cpu.read_word(pc_add(pre_pc, 1))
            } else {
                0
            };
            let ghost pre = cpu@;
            let ghost rest_pre = s_trace(pre, (steps - k) as nat, stop);
            match cpu.step() {
                Ok(c) => {
                    recs.push(
                        TraceRecord {
                            pc: pre_pc,
                            opcode: op,
                            mnemonic: e.mnemonic,
                            operand,
                            a: cpu.a,
                            x: cpu.x,
                            y: cpu.y,
                            sp: cpu.sp,
                            status: cpu.status_byte(),
                            cycles: c,
                            illegal: false,
                        },
                    );
                    proof {
                        let t = s_exec(pre, s_entry(op));
                        let rec = s_rec(pre, op, s_entry(op), t.0, t.1);
                        let rest_next = s_trace(cpu@, (steps - k - 1) as nat, stop);
                        assert(recs@ =~= recs@.drop_last() + seq![rec]);
                        assert(recs@.drop_last() + (seq![rec] + rest_next.0) =~= (recs@.drop_last()
                            + seq![rec]) + rest_next.0);
                    }
                    k = k + 1;
                },
                Err(_) => {
                    recs.push(
                        TraceRecord {
                            pc: pre_pc,
                            opcode: op,
                            mnemonic: Mnemonic::Ill,
                            operand: 0,
                            a: cpu.a,
                            x: cpu.x,
                            y: cpu.y,
                            sp: cpu.sp,
                            status: cpu.status_byte(),
                            cycles: 0,
                            illegal: true,
                        },
                    );
                    done = true;
                    proof {
                        assert(recs@ =~= recs@.drop_last() + seq![s_err_rec(pre, op)]);
                        assert(recs@.drop_last() + seq![s_err_rec(pre, op)] =~= recs@);
                    }
                },
            }
        }
    }
    proof {
        if !done {
            assert(s_trace(cpu@, 0, stop).0 == Seq::<TraceRecord>::empty());
            assert(recs@ + Seq::<TraceRecord>::empty() =~= recs@);
        }
    }
    recs
}

} // verus!
