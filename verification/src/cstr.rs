use vstd::prelude::*;

verus! {

/// Whether no byte of `s` is NUL.
pub open spec fn no_nul(s: Seq<u8>) -> bool {
    forall|i: int| 0 <= i < s.len() ==> s[i] != 0u8
}

/// The length of the C string stored in the fixed buffer `buf`: the position of its first
/// NUL byte, or the whole buffer when it holds none.
pub open spec fn c_str_len(buf: Seq<u8>) -> nat
    decreases buf.len(),
{
    if buf.len() == 0 {
        0
    } else if buf[0] == 0u8 {
        0
    } else {
        1 + c_str_len(buf.drop_first())
    }
}

/// The bytes of the C string stored in the fixed buffer `buf`, without its NUL.
pub open spec fn c_str(buf: Seq<u8>) -> Seq<u8> {
    buf.take(c_str_len(buf) as int)
}

/// The ASCII lower-case form of a byte; other bytes stay as they are.
pub open spec fn ascii_lower(b: u8) -> u8 {
    if 65 <= b <= 90 {
        (b + 32) as u8
    } else {
        b
    }
}

/// Whether two byte strings are equal when ASCII letters are compared without case.
pub open spec fn eq_ignore_ascii_case(a: Seq<u8>, b: Seq<u8>) -> bool {
    &&& a.len() == b.len()
    &&& forall|i: int| 0 <= i < a.len() ==> ascii_lower(a[i]) == ascii_lower(b[i])
}

proof fn lemma_c_str_len_bound(buf: Seq<u8>)
    ensures
        c_str_len(buf) <= buf.len(),
    decreases buf.len(),
{
    if buf.len() > 0 && buf[0] != 0u8 {
        lemma_c_str_len_bound(buf.drop_first());
    }
}

/// The C string held in a buffer is the longest prefix of it without a NUL byte: it is a
/// prefix of the buffer, none of its bytes is NUL, and the byte after it, if any, is NUL.
pub proof fn law_c_str(buf: Seq<u8>)
    ensures
        c_str(buf).len() <= buf.len(),
        forall|i: int| 0 <= i < c_str(buf).len() ==> #[trigger] c_str(buf)[i] == buf[i],
        forall|i: int| 0 <= i < c_str(buf).len() ==> #[trigger] c_str(buf)[i] != 0u8,
        c_str(buf).len() < buf.len() ==> buf[c_str(buf).len() as int] == 0u8,
    decreases buf.len(),
{
    lemma_c_str_len_bound(buf);
    if buf.len() > 0 && buf[0] != 0u8 {
        let rest = buf.drop_first();
        law_c_str(rest);
        lemma_c_str_len_bound(rest);
        let n: int = c_str_len(rest) as int;
        assert(c_str_len(buf) == 1 + n);
        assert forall|i: int| 0 <= i < c_str(buf).len() implies #[trigger] c_str(buf)[i] != 0u8 by {
            if i > 0 {
                assert(c_str(buf)[i] == buf[i]);
                assert(buf[i] == rest[i - 1]);
                assert(rest[i - 1] == c_str(rest)[i - 1]);
            }
        }
        if c_str(buf).len() < buf.len() {
            assert(buf[n + 1] == rest[n]);
        }
    }
}

/// Case folding changes only the ASCII capitals `A` to `Z`, each into its small letter;
/// every other byte, digits and punctuation among them, stays as it is.
pub proof fn law_ascii_lower(b: u8)
    ensures
        65 <= b <= 90 ==> ascii_lower(b) == b + 32,
        !(65 <= b <= 90) ==> ascii_lower(b) == b,
{
}

/// Two byte strings are equal ignoring ASCII case exactly when they have the same length and,
/// at each position, the bytes are equal or are the capital and the small form of one
/// letter.
pub proof fn law_eq_ignore_ascii_case(a: Seq<u8>, b: Seq<u8>)
    ensures
        eq_ignore_ascii_case(a, b) <==> (a.len() == b.len() && forall|i: int|
            0 <= i < a.len() ==> (#[trigger] a[i] == b[i] || (65 <= a[i] <= 90 && b[i] == a[i] + 32)
                || (65 <= b[i] <= 90 && a[i] == b[i] + 32))),
{
    if a.len() == b.len() {
        assert forall|i: int| 0 <= i < a.len() implies (ascii_lower(a[i]) == ascii_lower(b[i])
            <==> (#[trigger] a[i] == b[i] || (65 <= a[i] <= 90 && b[i] == a[i] + 32) || (65 <= b[i]
            <= 90 && a[i] == b[i] + 32))) by {}
    }
}

/// Finds the length of the C string held in `buf`.
pub fn c_str_len_exec(buf: &[u8]) -> (n: usize)
    ensures
        n == c_str_len(buf@),
        n <= buf@.len(),
{
    let mut i: usize = 0;
    while i < buf.len()
        invariant
            i <= buf@.len(),
            no_nul(buf@.take(i as int)),
        ensures
            i <= buf@.len(),
            no_nul(buf@.take(i as int)),
            i < buf@.len() ==> buf@[i as int] == 0u8,
        decreases buf.len() - i,
    {
        if buf[i] == 0 {
            break;
        }
        assert(buf@.take(i + 1) =~= buf@.take(i as int).push(buf@[i as int]));
        i = i + 1;
    }
    proof {
        lemma_c_str_len_unique(buf@, i as nat);
    }
    i
}

/// A position that ends a NUL-free prefix and stands on a NUL (or at the end) is the
/// length of the C string.
pub proof fn lemma_c_str_len_unique(buf: Seq<u8>, n: nat)
    requires
        n <= buf.len(),
        no_nul(buf.take(n as int)),
        n < buf.len() ==> buf[n as int] == 0u8,
    ensures
        c_str_len(buf) == n,
    decreases buf.len(),
{
    if n > 0 {
        assert(buf.take(n as int)[0] == buf[0]);
        let rest = buf.drop_first();
        let t = rest.take(n - 1);
        assert forall|i: int| 0 <= i < n - 1 implies #[trigger] t[i] != 0u8 by {
            assert(t[i] == buf.take(n as int)[i + 1]);
        }
        if n < buf.len() {
            assert(rest[n - 1] == buf[n as int]);
        }
        lemma_c_str_len_unique(rest, (n - 1) as nat);
    }
}

/// The bytes of the C string held in `buf`, without its NUL.
pub fn c_str_bytes(buf: &[u8]) -> (r: &[u8])
    ensures
        r@ == c_str(buf@),
{
    let n = c_str_len_exec(buf);
    &buf[0..n]
}

fn ascii_lower_exec(b: u8) -> (r: u8)
    ensures
        r == ascii_lower(b),
{
    if 65 <= b && b <= 90 {
        b + 32
    } else {
        b
    }
}

/// Compares two byte strings, ASCII letters without case.
pub fn bytes_eq_ignore_ascii_case(a: &[u8], b: &[u8]) -> (r: bool)
    ensures
        r == eq_ignore_ascii_case(a@, b@),
{
    if a.len() != b.len() {
        return false;
    }
    let mut i: usize = 0;
    while i < a.len()
        invariant
            a@.len() == b@.len(),
            i <= a@.len(),
            forall|j: int| 0 <= j < i ==> ascii_lower(a@[j]) == ascii_lower(b@[j]),
        decreases a.len() - i,
    {
        if ascii_lower_exec(a[i]) != ascii_lower_exec(b[i]) {
            return false;
        }
        i = i + 1;
    }
    true
}

} // verus!
