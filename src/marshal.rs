//! Conversions between managed text and native NUL-terminated byte strings.
use vstd::prelude::*;
use vstd::utf8::*;
use vstd::slice::slice_to_vec;

verus! {

/// Length of the text in `b` that a native reader sees: the bytes before the
/// first NUL, or all of `b` when it holds none.
pub open spec fn first_nul(b: Seq<u8>) -> nat
    decreases b.len(),
{
    if b.len() == 0 || b[0] == 0 {
        0
    } else {
        1 + first_nul(b.drop_first())
    }
}

/// The bytes of the native string that starts at `b`.
pub open spec fn c_str_content(b: Seq<u8>) -> Seq<u8> {
    b.subrange(0, first_nul(b) as int)
}

/// `n` is the offset of the first NUL in `b`, or `b.len()` when there is none.
pub open spec fn is_nul_offset(b: Seq<u8>, n: int) -> bool {
    &&& 0 <= n <= b.len()
    &&& forall|i: int| 0 <= i < n ==> b[i] != 0
    &&& n == b.len() || b[n] == 0
}

/// What `String::from_utf8_lossy` makes of bytes that are not valid UTF-8.
pub uninterp spec fn lossy_decode(b: Seq<u8>) -> Seq<char>;

/// Text read from bytes: decoded exactly when they are valid UTF-8, with
/// invalid sequences replaced otherwise.
pub open spec fn decoded_text(b: Seq<u8>) -> Seq<char> {
    if valid_utf8(b) {
        decode_utf8(b)
    } else {
        lossy_decode(b)
    }
}

pub proof fn lemma_first_nul(b: Seq<u8>, n: int)
    requires
        is_nul_offset(b, n),
    ensures
        first_nul(b) == n,
    decreases b.len(),
{
    if b.len() != 0 && b[0] != 0 {
        let rest = b.drop_first();
        assert(is_nul_offset(rest, n - 1)) by {
            assert forall|i: int| 0 <= i < n - 1 implies rest[i] != 0 by {
                assert(b[i + 1] != 0);
            }
        }
        lemma_first_nul(rest, n - 1);
    }
}

/// Relies on `String::from_utf8_lossy`: valid UTF-8 is decoded as it is,
/// and the result depends on the bytes alone.
#[verifier::external_body]
pub(crate) fn lossy_string(b: &[u8]) -> (r: String)
    ensures
        valid_utf8(b@) ==> r@ == decode_utf8(b@),
        !valid_utf8(b@) ==> r@ == lossy_decode(b@),
{
    String::from_utf8_lossy(b).into_owned()
}

/// Offset of the first NUL byte in `b`, or `b.len()` when there is none.
pub fn nul_offset(b: &[u8]) -> (n: usize)
    ensures
        is_nul_offset(b@, n as int),
        n == first_nul(b@),
{
    let mut i: usize = 0;
    while i < b.len()
        invariant
            i <= b@.len(),
            forall|j: int| 0 <= j < i ==> b@[j] != 0,
        decreases b@.len() - i,
    {
        if b[i] == 0 {
            proof {
                lemma_first_nul(b@, i as int);
            }
            return i;
        }
        i = i + 1;
    }
    proof {
        lemma_first_nul(b@, i as int);
    }
    i
}

/// A managed string that contained a NUL byte and so has no native form.
#[derive(Debug, Clone, PartialEq, Eq)]
pub struct NulError {
    /// Offset of the first NUL byte.
    pub position: usize,
    /// The bytes of the rejected string.
    pub bytes: Vec<u8>,
}

/// A NUL-terminated byte string that a native call may borrow.
///
/// It owns its bytes, so a pointer into it stays valid for as long as the
/// value lives. No byte before the terminator is NUL.
#[derive(Debug)]
pub struct NativeString {
    bytes: Vec<u8>,
}

impl View for NativeString {
    type V = Seq<u8>;

    /// All bytes, the terminating NUL included.
    closed spec fn view(&self) -> Seq<u8> {
        self.bytes@
    }
}

impl NativeString {
    #[verifier::type_invariant]
    spec fn well_formed(&self) -> bool {
        &&& self.bytes@.len() > 0
        &&& self.bytes@.last() == 0
        &&& forall|i: int| 0 <= i < self.bytes@.len() - 1 ==> self.bytes@[i] != 0
    }

    /// Makes the native form of `s`; fails where `s` holds a NUL byte.
    pub fn new(s: &str) -> (r: Result<NativeString, NulError>)
        ensures
            r is Ok <==> !encode_utf8(s@).contains(0u8),
            r matches Ok(ns) ==> ns@ == encode_utf8(s@).push(0u8),
            r matches Err(e) ==> e.bytes@ == encode_utf8(s@) && is_nul_offset(
                encode_utf8(s@),
                e.position as int,
            ),
    {
        to_native_string(s)
    }

    /// The bytes, terminating NUL included, for a native call to borrow.
    pub fn as_bytes_with_nul(&self) -> (r: &[u8])
        ensures
            r@ == self@,
    {
        self.bytes.as_slice()
    }

    /// Number of bytes before the terminating NUL.
    pub fn len(&self) -> (r: usize)
        ensures
            r == self@.len() - 1,
            r == first_nul(self@),
    {
        proof {
            use_type_invariant(self);
            lemma_first_nul(self.bytes@, self.bytes@.len() - 1);
        }
        self.bytes.len() - 1
    }
}

/// Makes the native form of `s`: its UTF-8 bytes followed by a NUL.
/// Fails where `s` itself holds a NUL byte, naming the first one.
pub fn to_native_string(s: &str) -> (r: Result<NativeString, NulError>)
    ensures
        r is Ok <==> !encode_utf8(s@).contains(0u8),
        r matches Ok(ns) ==> ns@ == encode_utf8(s@).push(0u8),
        r matches Err(e) ==> e.bytes@ == encode_utf8(s@) && is_nul_offset(
            encode_utf8(s@),
            e.position as int,
        ),
{
    let b = s.as_bytes();
    let n = nul_offset(b);
    let mut v = slice_to_vec(b);
    if n < b.len() {
        assert(b@[n as int] == 0);
        Err(NulError { position: n, bytes: v })
    } else {
        assert(!b@.contains(0u8));
        v.push(0u8);
        let ns = NativeString { bytes: v };
        Ok(ns)
    }
}

/// Copies a native string into a managed one. `raw` is `None` for a null
/// pointer, else the readable bytes it points to; the text ends at the
/// first NUL. Invalid UTF-8 is replaced, never rejected.
pub fn from_native_string(raw: Option<&[u8]>) -> (r: String)
    ensures
        raw is None ==> r@ == Seq::<char>::empty(),
        raw matches Some(b) ==> r@ == decoded_text(c_str_content(b@)),
{
    match raw {
        None => String::new(),
        Some(b) => {
            let n = nul_offset(b);
            let content = slice_subrange(b, n);
            lossy_string(content)
        },
    }
}

/// The first `n` elements of `b`.
fn slice_subrange(b: &[u8], n: usize) -> (r: &[u8])
    requires
        n <= b@.len(),
    ensures
        r@ == b@.subrange(0, n as int),
{
    let (front, _) = b.split_at(n);
    front
}

/// A managed string without NUL bytes comes back unchanged from its native
/// form.
pub proof fn lemma_string_round_trip(s: Seq<char>)
    requires
        !encode_utf8(s).contains(0u8),
    ensures
        decoded_text(c_str_content(encode_utf8(s).push(0u8))) == s,
{
    let b = encode_utf8(s);
    let nb = b.push(0u8);
    assert(is_nul_offset(nb, b.len() as int)) by {
        assert forall|i: int| 0 <= i < b.len() implies nb[i] != 0 by {
            assert(nb[i] == b[i]);
            if b[i] == 0 {
                assert(b.contains(0u8));
            }
        }
    }
    lemma_first_nul(nb, b.len() as int);
    assert(c_str_content(nb) =~= b);
    encode_utf8_valid_utf8(s);
    encode_utf8_decode_utf8(s);
}

} // verus!
