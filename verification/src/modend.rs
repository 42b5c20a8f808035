//! MODEND: the end of the module and its entry point.
use vstd::prelude::*;

use crate::error::Error;
use crate::fixupp::{
    resolve_frame_from_fixdat, resolve_target_from_fixdat, spec_frame, spec_target,
};
use crate::omf::{le16, le32};
use crate::state::{OmfFile, OmfState};
use crate::types::{EntryPoint, ThreadTable};

verus! {

/// The thread table with no thread defined.
pub open spec fn no_threads() -> ThreadTable {
    ThreadTable { target: [None, None, None, None], frame: [None, None, None, None] }
}

/// The entry point that a MODEND start address names, from its target
/// method and datum: a segment, an external symbol, or the first member of
/// a group as resolved by the time the record is read. `None` where the
/// reader aborts (a group datum of 0).
pub open spec fn modend_entry(st: OmfState, method: u8, datum: u16, disp: u32) -> Option<
    Result<EntryPoint, Error>,
> {
    if method == 0 || method == 4 {
        Some(Ok(EntryPoint::Segment(datum, disp)))
    } else if method == 1 || method == 5 {
        if datum == 0 {
            None
        } else if datum > st.groups.len() {
            Some(Err(Error("MODEND group index out of range")))
        } else {
            let members = st.groups[datum - 1].resolved_members;
            if members.len() == 0 {
                Some(Err(Error("MODEND group resolution not available")))
            } else {
                match members[0] {
                    Some(seg) => Some(Ok(EntryPoint::Segment(seg, disp))),
                    None => Some(Ok(EntryPoint::NoEntry)),
                }
            }
        }
    } else if method == 2 || method == 6 {
        Some(Ok(EntryPoint::External(datum, disp)))
    } else {
        Some(Err(Error("MODEND target method unsupported")))
    }
}

/// MODEND (MODEND32 when `is_32`): the module with its entry point. A start
/// address is read as a fixup with no thread defined, whose target must
/// come with a displacement. `None` where the reader aborts.
pub open spec fn spec_modend(st: OmfState, body: Seq<u8>, is_32: bool) -> Option<Result<OmfState, Error>> {
    if body.len() == 0 {
        Some(Err(Error("truncated MODEND")))
    } else if (body[0] & 0x40) == 0 {
        Some(Ok(OmfState { entry: EntryPoint::NoEntry, ..st }))
    } else if (body[0] & 0x01) == 0 {
        Some(Err(Error("MODEND START bit set but RELOC bit clear; absolute start unsupported")))
    } else if body.len() < 2 {
        Some(Err(Error("truncated MODEND start address")))
    } else if (body[1] & 0x04) != 0 {
        Some(Err(Error("MODEND end_dat P bit must be zero")))
    } else {
        let end_dat = body[1];
        match spec_frame(body, 2, end_dat, no_threads()) {
            None => None,
            Some(Err(e)) => Some(Err(e)),
            Some(Ok((_, p1))) => match spec_target(body, p1, end_dat, no_threads()) {
                Err(e) => Some(Err(e)),
                Ok((target, p2)) => {
                    let has_disp = (target.method & 0x04) == 0;
                    let w: int = if is_32 {
                        4
                    } else {
                        2
                    };
                    if has_disp && p2 + w > body.len() {
                        if is_32 {
                            Some(Err(Error("truncated MODEND32 target displacement")))
                        } else {
                            Some(Err(Error("truncated MODEND target displacement")))
                        }
                    } else {
                        let disp: u32 = if !has_disp {
                            0
                        } else if is_32 {
                            le32(body[p2], body[p2 + 1], body[p2 + 2], body[p2 + 3]) as u32
                        } else {
                            le16(body[p2], body[p2 + 1]) as u32
                        };
                        let end = if has_disp {
                            p2 + w
                        } else {
                            p2
                        };
                        let datum = match target.datum {
                            Some(d) => d,
                            None => 0,
                        };
                        match modend_entry(st, target.method, datum, disp) {
                            None => None,
                            Some(Err(e)) => Some(Err(e)),
                            Some(Ok(entry)) => if end != body.len() {
                                Some(Err(Error("unexpected trailing bytes in MODEND")))
                            } else {
                                Some(Ok(OmfState { entry, ..st }))
                            },
                        }
                    }
                },
            },
        }
    }
}

impl<'data> OmfFile<'data> {
    /// MODEND / MODEND32 (see `spec_modend`).
    pub(crate) fn parse_modend(&mut self, body: &[u8], is_32bit: bool) -> (res: Option<Result<(), Error>>)
        ensures
            match spec_modend(old(self)@, body@, is_32bit) {
                Some(Ok(st)) => res == Some(Ok::<(), Error>(())) && final(self)@ == st,
                Some(Err(e)) => res == Some(Err::<(), Error>(e)),
                None => res is None,
            },
    {
        if body.len() == 0 {
            return Some(Err(Error("truncated MODEND")));
        }
        let module_type = body[0];
        if (module_type & 0x40) == 0 {
            self.entry = EntryPoint::NoEntry;
            return Some(Ok(()));
        }
        if (module_type & 0x01) == 0 {
            return Some(Err(Error("MODEND START bit set but RELOC bit clear; absolute start unsupported")));
        }
        if body.len() < 2 {
            return Some(Err(Error("truncated MODEND start address")));
        }
        let end_dat = body[1];
        if (end_dat & 0x04) != 0 {
            return Some(Err(Error("MODEND end_dat P bit must be zero")));
        }
        let empty_threads = ThreadTable::new();
        assert(empty_threads.target =~= no_threads().target);
        assert(empty_threads.frame =~= no_threads().frame);
        let mut pos: usize = 2;
        match resolve_frame_from_fixdat(body, &mut pos, end_dat, &empty_threads) {
            None => {
                return None;
            },
            Some(Err(e)) => {
                return Some(Err(e));
            },
            Some(Ok(_)) => {},
        }
        let target = match resolve_target_from_fixdat(body, &mut pos, end_dat, &empty_threads) {
            Err(e) => {
                return Some(Err(e));
            },
            Ok(t) => t,
        };
        let displacement: u32 = if (target.method & 0x04) == 0 {
            if is_32bit {
                if pos > body.len() || body.len() - pos < 4 {
                    return Some(Err(Error("truncated MODEND32 target displacement")));
                }
                let d = body[pos] as u32 + 256 * body[pos + 1] as u32 + 65536 * body[pos + 2] as u32
                    + 16777216 * body[pos + 3] as u32;
                pos = pos + 4;
                d
            } else {
                if pos > body.len() || body.len() - pos < 2 {
                    return Some(Err(Error("truncated MODEND target displacement")));
                }
                let d = body[pos] as u32 + 256 * body[pos + 1] as u32;
                pos = pos + 2;
                d
            }
        } else {
            0
        };
        let datum = match target.datum {
            Some(d) => d,
            None => 0,
        };
        let method = target.method;
        let entry = if method == 0 || method == 4 {
            EntryPoint::Segment(datum, displacement)
        } else if method == 1 || method == 5 {
            if datum == 0 {
                return None;
            }
            let gi = (datum - 1) as usize;
            if gi >= self.groups.len() {
                return Some(Err(Error("MODEND group index out of range")));
            }
            if self.groups[gi].resolved_members.len() == 0 {
                return Some(Err(Error("MODEND group resolution not available")));
            }
            match self.groups[gi].resolved_members[0] {
                Some(seg) => EntryPoint::Segment(seg, displacement),
                None => EntryPoint::NoEntry,
            }
        } else if method == 2 || method == 6 {
            EntryPoint::External(datum, displacement)
        } else {
            return Some(Err(Error("MODEND target method unsupported")));
        };
        if pos != body.len() {
            return Some(Err(Error("unexpected trailing bytes in MODEND")));
        }
        self.entry = entry;
        Some(Ok(()))
    }
}

} // verus!
