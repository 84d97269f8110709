use crate::text::{char_from_byte, latin1};
use vstd::prelude::*;

verus! {

/// Whether the file starts with the ARRIRAW magic `ARRI`.
pub fn is_ari(file: &[u8]) -> (r: bool)
    ensures
        r == (file@.len() >= 4 && file@.subrange(0, 4) == seq![0x41u8, 0x52u8, 0x52u8, 0x49u8]),
{
    if file.len() < 4 {
        return false;
    }
    let r = file[0] == 0x41 && file[1] == 0x52 && file[2] == 0x52 && file[3] == 0x49;
    assert(r == (file@.subrange(0, 4) =~= seq![0x41u8, 0x52u8, 0x52u8, 0x49u8]));
    r
}

/// Number of bytes before the first zero byte (all of them where none is zero).
pub open spec fn c_string_len(buf: Seq<u8>) -> nat
    decreases buf.len(),
{
    if buf.len() == 0 || buf[0] == 0 {
        0
    } else {
        1 + c_string_len(buf.drop_first())
    }
}

/// The text of a zero-terminated byte string: the bytes before the first
/// zero, each read as a Latin-1 character.
pub fn char_slice_to_string(buf: &[u8]) -> (r: Option<String>)
    ensures
        r is Some,
        r.unwrap()@ == Seq::new(c_string_len(buf@), |i: int| latin1(buf@[i])),
{
    let mut s = String::new();
    let mut i: usize = 0;
    while i < buf.len() && buf[i] != 0
        invariant
            i <= buf@.len(),
            forall|j: int| 0 <= j < i ==> buf@[j] != 0,
            s@ =~= Seq::new(i as nat, |k: int| latin1(buf@[k])),
        decreases buf.len() - i,
    {
        s.push(char_from_byte(buf[i]));
        i += 1;
    }
    proof {
        lemma_c_string_len(buf@, i as nat);
    }
    Some(s)
}

proof fn lemma_c_string_len(buf: Seq<u8>, n: nat)
    requires
        n <= buf.len(),
        forall|j: int| 0 <= j < n ==> buf[j] != 0,
        n == buf.len() || buf[n as int] == 0,
    ensures
        c_string_len(buf) == n,
    decreases n,
{
    if n > 0 {
        let t = buf.drop_first();
        assert forall|j: int| 0 <= j < n - 1 implies t[j] != 0 by {
            assert(t[j] == buf[j + 1]);
        }
        if n < buf.len() {
            assert(t[n - 1] == buf[n as int]);
        }
        lemma_c_string_len(t, (n - 1) as nat);
    }
}

} // verus!
