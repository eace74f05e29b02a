//! Bounds-checked access to a guest's linear memory.
//!
//! Every guest-supplied offset and length passes through these functions
//! before any byte is read or written on the guest's behalf.
use vstd::prelude::*;
use vstd::utf8::{decode_utf8, valid_utf8};

verus! {

/// Whether the `len` bytes that start at `offset` lie inside a linear memory
/// of `mem_len` bytes.
pub open spec fn range_within(mem_len: int, offset: int, len: int) -> bool {
    0 <= offset && 0 <= len && offset + len <= mem_len
}

/// `s` is the zero-terminated string that starts at `offset` in `mem`: its
/// bytes are not zero, and a zero follows them inside the memory.
pub open spec fn c_string_at(mem: Seq<u8>, offset: int, s: Seq<u8>) -> bool {
    &&& 0 <= offset
    &&& offset + s.len() < mem.len()
    &&& s == mem.subrange(offset, offset + s.len())
    &&& mem[offset + s.len()] == 0
    &&& forall|i: int| 0 <= i < s.len() ==> #[trigger] s[i] != 0
}

/// Whether a zero terminates the bytes that start at `offset` inside `mem`.
pub open spec fn terminated_at(mem: Seq<u8>, offset: int) -> bool {
    exists|s: Seq<u8>| c_string_at(mem, offset, s)
}

/// `mem` after the bytes of `data` were written at `offset`.
pub open spec fn written(mem: Seq<u8>, offset: int, data: Seq<u8>) -> Seq<u8> {
    mem.subrange(0, offset) + data + mem.subrange(offset + data.len(), mem.len() as int)
}

/// The number of bytes of an event of `len` bytes that fit a buffer of
/// `max_size` bytes.
pub open spec fn truncated_len(len: int, max_size: int) -> int {
    if len <= max_size {
        len
    } else {
        max_size
    }
}

/// Checks that the `len` bytes at `offset` lie inside a memory of `mem_len` bytes.
/// An empty range is accepted at any offset up to `mem_len`, 0 included: it
/// touches no byte.
pub fn range_in_memory(mem_len: usize, offset: u32, len: usize) -> (r: bool)
    ensures
        r == range_within(mem_len as int, offset as int, len as int),
{
    offset as usize <= mem_len && len <= mem_len - offset as usize
}

/// The bytes of the zero-terminated string at `offset`, without the zero;
/// `None` where the memory ends before a zero does.
pub fn read_c_bytes(mem: &[u8], offset: u32) -> (r: Option<Vec<u8>>)
    ensures
        match r {
            Some(s) => c_string_at(mem@, offset as int, s@),
            None => !terminated_at(mem@, offset as int),
        },
{
    let start = offset as usize;
    if start >= mem.len() {
        return None;
    }
    let mut at: usize = start;
    let mut buf: Vec<u8> = Vec::new();
    assert(buf@ =~= mem@.subrange(start as int, at as int));
    while at < mem.len()
        invariant
            start == offset as usize,
            start <= at <= mem@.len(),
            at - start == buf@.len(),
            buf@ == mem@.subrange(start as int, at as int),
            forall|i: int| start <= i < at ==> mem@[i] != 0,
        decreases mem.len() - at,
    {
        let b = mem[at];
        if b == 0 {
            proof {
                assert forall|i: int| 0 <= i < buf@.len() implies #[trigger] buf@[i] != 0 by {
                    assert(buf@[i] == mem@[start + i]);
                }
                assert(mem@[at as int] == 0);
                assert(offset + buf@.len() == at);
            }
            return Some(buf);
        }
        buf.push(b);
        at = at + 1;
        assert(buf@ =~= mem@.subrange(start as int, at as int));
    }
    proof {
        assert forall|s: Seq<u8>| !c_string_at(mem@, offset as int, s) by {
            if c_string_at(mem@, offset as int, s) {
                let z = offset + s.len();
                assert(start <= z < at);
                assert(mem@[z] != 0);
            }
        }
    }
    None
}

/// Relies on `String::from_utf8`: it succeeds exactly on valid UTF-8, and the
/// string then holds the characters that the bytes encode.
#[verifier::external_body]
fn utf8_string(bytes: Vec<u8>) -> (r: Option<String>)
    ensures
        r is Some <==> valid_utf8(bytes@),
        r matches Some(s) ==> s@ == decode_utf8(bytes@),
{
    String::from_utf8(bytes).ok()
}

/// The zero-terminated UTF-8 string at `offset`; `None` where the memory
/// ends before a zero or the bytes are not valid UTF-8.
pub fn read_c_str(mem: &[u8], offset: u32) -> (r: Option<String>)
    ensures
        r matches Some(s) ==> exists|b: Seq<u8>|
            c_string_at(mem@, offset as int, b) && valid_utf8(b) && s@ == decode_utf8(b),
        r is None ==> !terminated_at(mem@, offset as int) || forall|b: Seq<u8>|
            c_string_at(mem@, offset as int, b) ==> !valid_utf8(b),
{
    match read_c_bytes(mem, offset) {
        Some(bytes) => {
            let ghost b = bytes@;
            let r = utf8_string(bytes);
            proof {
                if r is None {
                    assert forall|b2: Seq<u8>| c_string_at(mem@, offset as int, b2) implies !valid_utf8(b2) by {
                        lemma_c_string_unique(mem@, offset as int, b, b2);
                    }
                }
            }
            r
        },
        None => None,
    }
}

/// The zero-terminated string at an offset is unique.
pub proof fn lemma_c_string_unique(mem: Seq<u8>, offset: int, a: Seq<u8>, b: Seq<u8>)
    requires
        c_string_at(mem, offset, a),
        c_string_at(mem, offset, b),
    ensures
        a == b,
{
    if a.len() < b.len() {
        assert(b[a.len() as int] == mem[offset + a.len()]);
        assert(false);
    } else if b.len() < a.len() {
        assert(a[b.len() as int] == mem[offset + b.len()]);
        assert(false);
    }
}

/// Writes the first `max_size` bytes of `data` (all of them if fewer) at
/// `offset`, and returns how many were written. Nothing is written, and
/// `None` comes back, where those bytes would not fit the memory.
pub fn write_truncated(mem: &mut [u8], offset: u32, data: &[u8], max_size: usize) -> (r: Option<usize>)
    ensures
        ({
            let n = truncated_len(data@.len() as int, max_size as int);
            match r {
                Some(k) => {
                    &&& k == n
                    &&& range_within(old(mem)@.len() as int, offset as int, n)
                    &&& final(mem)@ == written(old(mem)@, offset as int, data@.subrange(0, n))
                },
                None => {
                    &&& !range_within(old(mem)@.len() as int, offset as int, n)
                    &&& final(mem)@ == old(mem)@
                },
            }
        }),
{
    let n: usize = if data.len() <= max_size {
        data.len()
    } else {
        max_size
    };
    if !range_in_memory(mem.len(), offset, n) {
        return None;
    }
    let start = offset as usize;
    let len = mem.len();
    let ghost before = mem@;
    let mut i: usize = 0;
    while i < n
        invariant
            len == mem@.len(),
            n <= data@.len(),
            start + n <= mem@.len(),
            i <= n,
            mem@.len() == before.len(),
            mem@ =~= written(before, start as int, data@.subrange(0, i as int)),
        decreases n - i,
    {
        mem[start + i] = data[i];
        i = i + 1;
        assert(mem@ =~= written(before, start as int, data@.subrange(0, i as int)));
    }
    Some(n)
}

} // verus!
