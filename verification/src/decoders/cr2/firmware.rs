//! The firmware version of a Canon camera, as one number: "Firmware
//! Version 1.0.6" becomes 1_000_006, each dot-separated group taking three
//! decimal places.

use vstd::prelude::*;

verus! {

pub open spec fn is_digit(b: u8) -> bool {
    48 <= b <= 57
}

/// The dot-separated groups of digits of `s`; characters other than digits
/// and dots are left out.
pub open spec fn fw_groups(s: Seq<u8>) -> Seq<Seq<u8>>
    decreases s.len(),
{
    if s.len() == 0 {
        seq![Seq::empty()]
    } else {
        let g = fw_groups(s.drop_last());
        let b = s.last();
        if b == 46 {
            g.push(Seq::empty())
        } else if is_digit(b) {
            g.update(g.len() - 1, g.last().push(b))
        } else {
            g
        }
    }
}

/// The number that the decimal digits `d` spell.
pub open spec fn dec_value(d: Seq<u8>) -> int
    decreases d.len(),
{
    if d.len() == 0 {
        0
    } else {
        dec_value(d.drop_last()) * 10 + (d.last() - 48)
    }
}

/// A group stands for a byte: it has a digit and its value is at most 255.
pub open spec fn group_ok(d: Seq<u8>) -> bool {
    d.len() > 0 && dec_value(d) <= 255
}

/// The groups read as digits of base 1000, the last group lowest.
pub open spec fn fw_total(g: Seq<Seq<u8>>) -> int
    decreases g.len(),
{
    if g.len() == 0 {
        0
    } else {
        fw_total(g.drop_last()) * 1000 + dec_value(g.last())
    }
}

/// The version number of `s`, where every group is a byte, there are at
/// most four groups and the number fits in a `u32`.
pub open spec fn spec_firmware_version(s: Seq<u8>) -> Option<u32> {
    let g = fw_groups(s);
    if (forall|j: int| 0 <= j < g.len() ==> #[trigger] group_ok(g[j])) && g.len() <= 4 && fw_total(g)
        <= u32::MAX {
        Some(fw_total(g) as u32)
    } else {
        None
    }
}

pub open spec fn groups_ok_upto(g: Seq<Seq<u8>>, k: int) -> bool {
    forall|j: int| 0 <= j < k ==> #[trigger] group_ok(g[j])
}

/// What makes the version of every extension of a string `None`.
pub open spec fn fw_doomed(g: Seq<Seq<u8>>) -> bool {
    ||| g.len() > 4
    ||| exists|j: int| 0 <= j < g.len() - 1 && !#[trigger] group_ok(g[j])
    ||| dec_value(g.last()) > 255
}

proof fn lemma_groups_nonempty(s: Seq<u8>)
    ensures
        fw_groups(s).len() >= 1,
    decreases s.len(),
{
    if s.len() > 0 {
        lemma_groups_nonempty(s.drop_last());
    }
}

/// Once doomed, a prefix stays doomed as it grows.
proof fn lemma_doomed_stays(s: Seq<u8>, i: int)
    requires
        0 <= i <= s.len(),
        fw_doomed(fw_groups(s.subrange(0, i))),
    ensures
        spec_firmware_version(s) is None,
    decreases s.len() - i,
{
    if i == s.len() {
        assert(s.subrange(0, i) =~= s);
        let g = fw_groups(s);
        lemma_groups_nonempty(s);
        if g.len() <= 4 {
            if exists|j: int| 0 <= j < g.len() - 1 && !#[trigger] group_ok(g[j]) {
                let j = choose|j: int| 0 <= j < g.len() - 1 && !#[trigger] group_ok(g[j]);
                assert(!group_ok(g[j]));
            } else {
                assert(!group_ok(g[g.len() - 1]));
            }
        }
    } else {
        let p = s.subrange(0, i);
        let q = s.subrange(0, i + 1);
        assert(q.drop_last() =~= p);
        let g = fw_groups(p);
        let h = fw_groups(q);
        lemma_groups_nonempty(p);
        if g.len() <= 4 {
            if exists|j: int| 0 <= j < g.len() - 1 && !#[trigger] group_ok(g[j]) {
                let j = choose|j: int| 0 <= j < g.len() - 1 && !#[trigger] group_ok(g[j]);
                assert(h[j] == g[j]);
                assert(!group_ok(h[j]));
            } else {
                let b = s[i];
                assert(q.last() == b);
                if b == 46 {
                    assert(h[g.len() - 1] == g.last());
                    assert(!group_ok(h[g.len() - 1]));
                } else if is_digit(b) {
                    assert(h.last().drop_last() =~= g.last());
                } else {
                }
            }
        }
        lemma_doomed_stays(s, i + 1);
    }
}

/// The firmware version number of the text `s` (see `spec_firmware_version`);
/// `None` where a group is empty or above 255, there are more than four
/// groups or the number does not fit in a `u32`.
pub fn firmware_version(s: &[u8]) -> (r: Option<u32>)
    ensures
        r == spec_firmware_version(s@),
{
    let n = s.len();
    let mut acc: u64 = 0;
    let mut closed: usize = 0;
    let mut cur: u32 = 0;
    let mut curlen: usize = 0;
    proof {
        let g0 = fw_groups(s@.subrange(0, 0));
        assert(s@.subrange(0, 0) =~= Seq::<u8>::empty());
        assert(g0 == seq![Seq::<u8>::empty()]);
        assert(g0.drop_last() =~= Seq::<Seq<u8>>::empty());
    }
    for i in 0..n
        invariant
            n == s@.len(),
            closed <= 3,
            cur <= 255,
            curlen <= i,
            closed == 0 ==> acc == 0,
            closed == 1 ==> acc < 1000,
            closed == 2 ==> acc < 1_000_000,
            closed == 3 ==> acc < 1_000_000_000,
            fw_groups(s@.subrange(0, i as int)).len() == closed + 1,
            groups_ok_upto(fw_groups(s@.subrange(0, i as int)), closed as int),
            acc == fw_total(fw_groups(s@.subrange(0, i as int)).drop_last()),
            cur == dec_value(fw_groups(s@.subrange(0, i as int)).last()),
            curlen == fw_groups(s@.subrange(0, i as int)).last().len(),
    {
        let ghost p = s@.subrange(0, i as int);
        let ghost q = s@.subrange(0, i + 1);
        let ghost g = fw_groups(p);
        proof {
            assert(q.drop_last() =~= p);
            lemma_groups_nonempty(p);
        }
        let b = s[i];
        if b == 46 {
            if curlen == 0 || closed == 3 {
                proof {
                    let h = fw_groups(q);
                    if curlen == 0 {
                        assert(h[closed as int] == g.last());
                        assert(!group_ok(h[closed as int]));
                    }
                    lemma_doomed_stays(s@, i + 1);
                }
                return None;
            }
            proof {
                let h = fw_groups(q);
                assert(h.drop_last() =~= g);
                assert(h.last() =~= Seq::<u8>::empty());
                assert(group_ok(g.last()));
                assert forall|j: int| 0 <= j < closed + 1 implies #[trigger] group_ok(h[j]) by {
                    if j < closed {
                        assert(group_ok(g[j]));
                    }
                }
            }
            acc = acc * 1000 + cur as u64;
            closed = closed + 1;
            cur = 0;
            curlen = 0;
        } else if 48 <= b && b <= 57 {
            let v = cur * 10 + (b - 48) as u32;
            if v > 255 {
                proof {
                    let h = fw_groups(q);
                    assert(h.last().drop_last() =~= g.last());
                    lemma_doomed_stays(s@, i + 1);
                }
                return None;
            }
            proof {
                let h = fw_groups(q);
                assert(h.last().drop_last() =~= g.last());
                assert(h.drop_last() =~= g.drop_last());
                assert forall|j: int| 0 <= j < closed implies #[trigger] group_ok(h[j]) by {
                    assert(group_ok(fw_groups(s@.subrange(0, i as int))[j]));
                    assert(h[j] == g[j]);
                }
            }
            cur = v;
            curlen = curlen + 1;
        } else {
            proof {
                assert(fw_groups(q) == g);
            }
        }
    }
    let ghost g = fw_groups(s@);
    proof {
        assert(s@.subrange(0, n as int) =~= s@);
        lemma_groups_nonempty(s@);
        assert(g.drop_last().push(g.last()) =~= g);
    }
    if curlen == 0 {
        proof {
            assert(!group_ok(g[closed as int]));
        }
        return None;
    }
    let total = acc * 1000 + cur as u64;
    if total > 0xffff_ffff {
        return None;
    }
    proof {
        assert forall|j: int| 0 <= j < g.len() implies #[trigger] group_ok(g[j]) by {
            if j == closed {
                    }
        }
    }
    Some(total as u32)
}

} // verus!
