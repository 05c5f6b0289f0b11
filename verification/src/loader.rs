use vstd::prelude::*;
use crate::machine::{CpuV, w16};
use crate::cpu::Cpu;

verus! {

/// One contiguous loaded address range, inclusive at both ends. Created once
/// by the loader, immutable thereafter, passed by value to consumers.
#[derive(Clone, Copy, PartialEq, Eq, Structural, Debug)]
pub struct Segment {
    pub start: u16,
    pub end: u16,
}

/// Loader failures. On either of them the memory bank is left untouched.
#[derive(Clone, Copy, PartialEq, Eq, Structural, Debug)]
pub enum LoadError {
    /// A truncated header, a zero-length record, or a declared length that
    /// exceeds the remaining buffer bytes in self-describing input (an empty
    /// raw buffer counts as malformed too).
    Format,
    /// A segment's address plus its length would exceed the 64K space.
    AddressOverflow,
}

/// A parsed record of the self-describing input shape: the load address, the
/// offset of the payload inside the buffer, and the payload length in bytes.
pub type RecV = (u16, int, int);

/// Parse of the self-describing input shape from offset `i`: a sequence of
/// `{2-byte little-endian address, 2-byte little-endian length, payload}`
/// records concatenated until the buffer ends. A truncated header, a
/// zero-length record or a length overrunning the buffer is a format error;
/// a record that would run past the top of the 64K space is an address
/// overflow.
pub open spec fn s_parse(buf: Seq<u8>, i: int) -> Result<Seq<RecV>, LoadError>
    decreases buf.len() - i,
{
    if i == buf.len() {
        Ok(Seq::empty())
    } else if i + 4 > buf.len() {
        Err(LoadError::Format)
    } else {
        let addr = w16(buf[i], buf[i + 1]);
        let len = w16(buf[i + 2], buf[i + 3]) as int;
        if len == 0 {
            Err(LoadError::Format)
        } else if len > buf.len() - (i + 4) {
            Err(LoadError::Format)
        } else if addr as int + len > 0x10000 {
            Err(LoadError::AddressOverflow)
        } else {
            match s_parse(buf, i + 4 + len) {
                Ok(rest) => Ok(seq![(addr, i + 4, len)] + rest),
                Err(e) => Err(e),
            }
        }
    }
}

/// Memory with the range `[addr, addr+len)` replaced by the buffer bytes at
/// `[off, off+len)`, everything else untouched.
pub open spec fn s_write_seg(mem: Seq<u8>, buf: Seq<u8>, addr: u16, off: int, len: int) -> Seq<u8> {
    Seq::new(
        mem.len(),
        |j: int|
            if addr as int <= j < addr as int + len {
                buf[off + (j - addr as int)]
            } else {
                mem[j]
            },
    )
}

/// All records written into memory in file order (a later record overwrites
/// an earlier overlapping one).
pub open spec fn s_apply(mem: Seq<u8>, buf: Seq<u8>, recs: Seq<RecV>) -> Seq<u8>
    decreases recs.len(),
{
    if recs.len() == 0 {
        mem
    } else {
        s_apply(s_write_seg(mem, buf, recs[0].0, recs[0].1, recs[0].2), buf, recs.drop_first())
    }
}

/// The segment descriptor a record yields: its address range, inclusive.
pub open spec fn s_seg_of(rc: RecV) -> Segment {
    Segment { start: rc.0, end: (rc.0 as int + rc.2 - 1) as u16 }
}

/// Peeling `s_apply` from the back: applying the first `k+1` records is
/// applying the first `k` and then writing record `k`.
pub proof fn lemma_apply_step(mem: Seq<u8>, buf: Seq<u8>, recs: Seq<RecV>, k: int)
    requires
        0 <= k < recs.len(),
    ensures
        s_apply(mem, buf, recs.take(k + 1)) == s_write_seg(
            s_apply(mem, buf, recs.take(k)),
            buf,
            recs[k].0,
            recs[k].1,
            recs[k].2,
        ),
    decreases k,
{
    let mem1 = s_write_seg(mem, buf, recs[0].0, recs[0].1, recs[0].2);
    if k == 0 {
        assert(recs.take(1) =~= seq![recs[0]]);
        assert(recs.take(1).drop_first() =~= Seq::<RecV>::empty());
        assert(recs.take(0) =~= Seq::<RecV>::empty());
        assert(s_apply(mem, buf, recs.take(0)) == mem);
        assert(s_apply(mem1, buf, Seq::<RecV>::empty()) == mem1);
        assert(s_apply(mem, buf, recs.take(1)) == mem1);
    } else {
        assert(recs.take(k + 1).drop_first() =~= recs.drop_first().take(k));
        assert(recs.take(k).drop_first() =~= recs.drop_first().take(k - 1));
        assert(recs.take(k + 1)[0] == recs[0]);
        assert(recs.take(k)[0] == recs[0]);
        assert(s_apply(mem, buf, recs.take(k + 1)) == s_apply(
            mem1,
            buf,
            recs.drop_first().take(k),
        ));
        assert(s_apply(mem, buf, recs.take(k)) == s_apply(mem1, buf, recs.drop_first().take(k - 1)));
        lemma_apply_step(mem1, buf, recs.drop_first(), k - 1);
        assert(recs.drop_first()[k - 1] == recs[k]);
    }
}

/// Conversion of an executable record triple to its model counterpart.
pub open spec fn s_rec_of(t: (u16, usize, usize)) -> RecV {
    (t.0, t.1 as int, t.2 as int)
}

/// First pass over self-describing input: validate every header and collect
/// the records, touching no memory. Returns exactly what `s_parse` says.
fn parse_records(buf: &Vec<u8>) -> (r: Result<Vec<(u16, usize, usize)>, LoadError>)
    ensures
        (match s_parse(buf@, 0) {
            Ok(recs) => r is Ok && r.unwrap()@.map_values(|t: (u16, usize, usize)| s_rec_of(t))
                == recs && (forall|k: int|
                0 <= k < r.unwrap()@.len() ==> {
                    let t = #[trigger] r.unwrap()@[k];
                    1 <= t.2 && t.1 + t.2 <= buf@.len() && t.0 as int + t.2 <= 0x10000
                }),
            Err(e) => r == Err::<Vec<(u16, usize, usize)>, LoadError>(e),
        }),
{
    let mut recs: Vec<(u16, usize, usize)> = Vec::new();
    let mut i: usize = 0;
    while i < buf.len()
        invariant
            i <= buf@.len(),
            s_parse(buf@, 0) == (match s_parse(buf@, i as int) {
                Ok(rest) => Ok::<Seq<RecV>, LoadError>(recs@.map_values(|t: (u16, usize, usize)| s_rec_of(t)) + rest),
                Err(e) => Err::<Seq<RecV>, LoadError>(e),
            }),
            forall|k: int|
                0 <= k < recs@.len() ==> {
                    let t = #[trigger] recs@[k];
                    1 <= t.2 && t.1 + t.2 <= buf@.len() && t.0 as int + t.2 <= 0x10000
                },
        decreases buf@.len() - i,
    {
        let ghost pre = recs@.map_values(|t: (u16, usize, usize)| s_rec_of(t));
        if buf.len() - i < 4 {
            return Err(LoadError::Format);
        }
        let addr: u16 = buf[i] as u16 + buf[i + 1] as u16 * 0x100;
        let len: usize = buf[i + 2] as usize + buf[i + 3] as usize * 0x100;
        if len == 0 {
            return Err(LoadError::Format);
        }
        if len > buf.len() - (i + 4) {
            return Err(LoadError::Format);
        }
        if addr as usize + len > 0x10000 {
            return Err(LoadError::AddressOverflow);
        }
        recs.push((addr, i + 4, len));
        proof {
            let rc: RecV = (addr, i as int + 4, len as int);
            assert(recs@.map_values(|t: (u16, usize, usize)| s_rec_of(t)) =~= pre + seq![rc]);
            if s_parse(buf@, i as int + 4 + len as int) is Ok {
                let rest2 = s_parse(buf@, i as int + 4 + len as int).unwrap();
                assert(pre + (seq![rc] + rest2) =~= (pre + seq![rc]) + rest2);
            }
        }
        i = i + 4 + len;
    }
    proof {
        assert(recs@.map_values(|t: (u16, usize, usize)| s_rec_of(t)) + Seq::<RecV>::empty()
            =~= recs@.map_values(|t: (u16, usize, usize)| s_rec_of(t)));
    }
    Ok(recs)
}


impl Cpu {
    /// Copy `len` buffer bytes from `off` into memory at `addr`; registers
    /// and all other memory untouched.
    fn copy_in(&mut self, addr: u16, buf: &Vec<u8>, off: usize, len: usize)
        requires
            old(self).wf(),
            off + len <= buf@.len(),
            addr as int + len as int <= 0x10000,
        ensures
            final(self).wf(),
            final(self)@ == (CpuV {
                mem: s_write_seg(old(self)@.mem, buf@, addr, off as int, len as int),
                ..old(self)@
            }),
    {
        let blen: usize = buf.len();
        let mut j: usize = 0;
        while j < len
            invariant
                old(self).wf(),
                self.wf(),
                blen == buf@.len(),
                j <= len,
                off + len <= blen,
                addr as int + len as int <= 0x10000,
                self@ == (CpuV {
                    mem: s_write_seg(old(self)@.mem, buf@, addr, off as int, j as int),
                    ..old(self)@
                }),
            decreases len - j,
        {
            let ghost before = self@.mem;
            self.write((addr as usize + j) as u16, buf[off + j]);
            proof {
                assert(self@.mem =~= s_write_seg(
                    old(self)@.mem,
                    buf@,
                    addr,
                    off as int,
                    j as int + 1,
                ));
            }
            j = j + 1;
        }
    }

    /// Parse an input buffer into one or more memory-resident segments.
    ///
    /// With an explicit address the whole buffer is one segment copied
    /// verbatim there; otherwise the buffer is self-describing, a sequence of
    /// `{2-byte little-endian address, 2-byte little-endian length, payload}`
    /// records, one segment each, in file order. Exactly the inputs `s_parse`
    /// accepts succeed; on any failure neither memory nor registers change.
    pub fn load(&mut self, buf: &Vec<u8>, addr: Option<u16>) -> (r: Result<Vec<Segment>, LoadError>)
        requires
            old(self).wf(),
        ensures
            final(self).wf(),
            (match addr {
                Option::Some(a) => {
                    if buf@.len() == 0 {
                        r == Err::<Vec<Segment>, LoadError>(LoadError::Format)
                            && final(self)@ == old(self)@
                    } else if a as int + buf@.len() > 0x10000 {
                        r == Err::<Vec<Segment>, LoadError>(LoadError::AddressOverflow)
                            && final(self)@ == old(self)@
                    } else {
                        r is Ok && r.unwrap()@ == seq![
                            Segment { start: a, end: (a as int + buf@.len() - 1) as u16 },
                        ] && final(self)@ == (CpuV {
                            mem: s_write_seg(old(self)@.mem, buf@, a, 0, buf@.len() as int),
                            ..old(self)@
                        })
                    }
                },
                Option::None => {
                    match s_parse(buf@, 0) {
                        Ok(recs) => r is Ok && r.unwrap()@ == recs.map_values(
                            |rc: RecV| s_seg_of(rc),
                        ) && final(self)@ == (CpuV {
                            mem: s_apply(old(self)@.mem, buf@, recs),
                            ..old(self)@
                        }),
                        Err(e) => r == Err::<Vec<Segment>, LoadError>(e)
                            && final(self)@ == old(self)@,
                    }
                },
            }),
    {
        match addr {
            Option::Some(a) => {
                if buf.len() == 0 {
                    return Err(LoadError::Format);
                }
                if buf.len() > 0x10000 - a as usize {
                    return Err(LoadError::AddressOverflow);
                }
                self.copy_in(a, buf, 0, buf.len());
                let mut segs: Vec<Segment> = Vec::new();
                segs.push(Segment { start: a, end: (a as usize + buf.len() - 1) as u16 });
                proof {
                    assert(segs@ =~= seq![
                        Segment { start: a, end: (a as int + buf@.len() - 1) as u16 },
                    ]);
                }
                Ok(segs)
            },
            Option::None => {
                let recs = match parse_records(buf) {
                    Ok(v) => v,
                    Err(e) => {
                        return Err(e);
                    },
                };
                let ghost srecs = s_parse(buf@, 0).unwrap();
                let mut segs: Vec<Segment> = Vec::new();
                let mut k: usize = 0;
                while k < recs.len()
                    invariant
                        old(self).wf(),
                        self.wf(),
                        k <= recs@.len(),
                        srecs == recs@.map_values(|t: (u16, usize, usize)| s_rec_of(t)),
                        forall|q: int|
                            0 <= q < recs@.len() ==> {
                                let t = #[trigger] recs@[q];
                                1 <= t.2 && t.1 + t.2 <= buf@.len() && t.0 as int + t.2 <= 0x10000
                            },
                        segs@ == srecs.take(k as int).map_values(|rc: RecV| s_seg_of(rc)),
                        self@ == (CpuV {
                            mem: s_apply(old(self)@.mem, buf@, srecs.take(k as int)),
                            ..old(self)@
                        }),
                    decreases recs@.len() - k,
                {
                    let (a, off, len) = recs[k];
                    self.copy_in(a, buf, off, len);
                    segs.push(Segment { start: a, end: (a as usize + len - 1) as u16 });
                    proof {
                        lemma_apply_step(old(self)@.mem, buf@, srecs, k as int);
                        assert(srecs[k as int] == s_rec_of(recs@[k as int]));
                        assert(segs@ =~= srecs.take(k as int + 1).map_values(
                            |rc: RecV| s_seg_of(rc),
                        ));
                    }
                    k = k + 1;
                }
                proof {
                    assert(srecs.take(srecs.len() as int) =~= srecs);
                    assert(segs@ == srecs.map_values(|rc: RecV| s_seg_of(rc)));
                }
                Ok(segs)
            },
        }
    }
}

} // verus!
