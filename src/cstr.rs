//! Bounded, NUL-terminated byte strings as the host reads them.
use vstd::prelude::*;
use vstd::string::StringSliceAdditionalSpecFns;

verus! {

/// Size of the host's fixed string buffers, terminator included.
pub const MAX_STRING_LENGTH: usize = 256;

/// The bytes of `s` before its first NUL, or all of them when it has none.
pub open spec fn terminated_at(s: Seq<u8>, n: int) -> bool {
    &&& 0 <= n <= s.len()
    &&& forall|i: int| 0 <= i < n ==> s[i] != 0u8
    &&& n < s.len() ==> s[n] == 0u8
}

/// What a fixed buffer of `MAX_STRING_LENGTH` bytes holds after `text` was
/// written into it: at most `MAX_STRING_LENGTH - 1` bytes of it, then NULs.
pub open spec fn bounded_cstr(text: Seq<u8>) -> Seq<u8> {
    Seq::new(
        MAX_STRING_LENGTH as nat,
        |i: int|
            if i < MAX_STRING_LENGTH - 1 && i < text.len() {
                text[i]
            } else {
                0u8
            },
    )
}

/// Writes the bytes of `src` into `dst`, as many as fit; the rest of `dst`
/// is left as it was. No terminator is added beyond what `src` holds.
pub fn copy_cstr_to_buffer(src: &str, dst: &mut [i8])
    ensures
        final(dst)@.len() == old(dst)@.len(),
        forall|i: int|
            0 <= i < final(dst)@.len() ==> #[trigger] final(dst)@[i] == if i < src.spec_bytes().len() {
                src.spec_bytes()[i] as i8
            } else {
                old(dst)@[i]
            },
{
    let bytes = src.as_bytes();
    let mut i: usize = 0;
    while i < bytes.len() && i < dst.len()
        invariant
            bytes@ == src.spec_bytes(),
            dst@.len() == old(dst)@.len(),
            i <= dst@.len(),
            forall|j: int|
                0 <= j < dst@.len() ==> #[trigger] dst@[j] == if j < i && j < bytes@.len() {
                    bytes@[j] as i8
                } else {
                    old(dst)@[j]
                },
        decreases dst@.len() - i,
    {
        dst[i] = bytes[i] as i8;
        i += 1;
    }
}

/// The text of a NUL-terminated buffer: its bytes before the first NUL.
pub open spec fn cstr_text(s: Seq<u8>) -> Seq<u8>
    decreases s.len(),
{
    if s.len() == 0 || s[0] == 0u8 {
        Seq::empty()
    } else {
        seq![s[0]] + cstr_text(s.drop_first())
    }
}

/// The text of a buffer ends where the buffer is terminated.
pub proof fn lemma_cstr_text(s: Seq<u8>, n: int)
    requires
        terminated_at(s, n),
    ensures
        cstr_text(s) == s.take(n),
    decreases n,
{
    if n > 0 {
        lemma_cstr_text(s.drop_first(), n - 1);
        assert(s.take(n) =~= seq![s[0]] + s.drop_first().take(n - 1));
    } else {
        assert(s.take(n) =~= Seq::<u8>::empty());
    }
}

/// A buffer of `MAX_STRING_LENGTH` bytes holding `text`, cut so that a
/// terminating NUL always fits.
pub fn bounded_buffer(text: &[u8]) -> (r: Vec<u8>)
    ensures
        r@ == bounded_cstr(text@),
{
    let mut r: Vec<u8> = Vec::new();
    let mut i: usize = 0;
    while i < MAX_STRING_LENGTH
        invariant
            i <= MAX_STRING_LENGTH,
            r@.len() == i,
            forall|j: int| 0 <= j < i ==> #[trigger] r@[j] == bounded_cstr(text@)[j],
        decreases MAX_STRING_LENGTH - i,
    {
        if i < MAX_STRING_LENGTH - 1 && i < text.len() {
            r.push(text[i]);
        } else {
            r.push(0u8);
        }
        i += 1;
    }
    assert(r@ =~= bounded_cstr(text@));
    r
}

/// The length of the text in `buf`: the index of its first NUL.
pub fn cstr_len(buf: &[u8]) -> (n: usize)
    ensures
        terminated_at(buf@, n as int),
        cstr_text(buf@) == buf@.take(n as int),
{
    let mut i: usize = 0;
    while i < buf.len() && buf[i] != 0
        invariant
            i <= buf@.len(),
            forall|j: int| 0 <= j < i ==> buf@[j] != 0u8,
        decreases buf@.len() - i,
    {
        i += 1;
    }
    proof {
        lemma_cstr_text(buf@, i as int);
    }
    i
}

/// The first `n` bytes of `buf`.
pub fn prefix(buf: &[u8], n: usize) -> (r: Vec<u8>)
    requires
        n <= buf@.len(),
    ensures
        r@ == buf@.take(n as int),
{
    let mut r: Vec<u8> = Vec::new();
    let mut i: usize = 0;
    while i < n
        invariant
            n <= buf@.len(),
            i <= n,
            r@ == buf@.take(i as int),
        decreases n - i,
    {
        r.push(buf[i]);
        i += 1;
        assert(r@ =~= buf@.take(i as int));
    }
    r
}

/// `a` followed by `b`.
pub fn concat_bytes(a: &[u8], b: &[u8]) -> (r: Vec<u8>)
    ensures
        r@ == a@ + b@,
{
    let mut r = prefix(a, a.len());
    assert(a@.take(a@.len() as int) =~= a@);
    let mut i: usize = 0;
    while i < b.len()
        invariant
            i <= b@.len(),
            r@ == a@ + b@.take(i as int),
        decreases b@.len() - i,
    {
        r.push(b[i]);
        i += 1;
        assert(r@ =~= a@ + b@.take(i as int));
    }
    assert(b@.take(b@.len() as int) =~= b@);
    r
}

/// Byte-exact equality of two strings.
pub fn bytes_eq(a: &[u8], b: &[u8]) -> (r: bool)
    ensures
        r == (a@ == b@),
{
    if a.len() != b.len() {
        return false;
    }
    let mut i: usize = 0;
    while i < a.len()
        invariant
            a@.len() == b@.len(),
            i <= a@.len(),
            forall|j: int| 0 <= j < i ==> a@[j] == b@[j],
        decreases a@.len() - i,
    {
        if a[i] != b[i] {
            return false;
        }
        i += 1;
    }
    assert(a@ =~= b@);
    true
}

/// A text handed to the host's alert suite.
pub struct UnicodeString {
    pub text: String,
}

impl UnicodeString {
    pub fn new(s: &str) -> (r: UnicodeString)
        ensures
            r.text@ == s@,
    {
        UnicodeString { text: s.to_owned() }
    }
}

} // verus!
