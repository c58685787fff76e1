//! NUL-terminated strings: the form in which text crosses to and from the
//! native store.
use vstd::prelude::*;
use vstd::utf8::*;

verus! {

broadcast use {vstd::utf8::encode_utf8_valid_utf8, vstd::utf8::encode_utf8_decode_utf8};

/// Whether `i` is the position of the first NUL byte of `s`.
pub open spec fn is_first_nul(s: Seq<u8>, i: int) -> bool {
    &&& 0 <= i < s.len()
    &&& s[i] == 0
    &&& forall|j: int| 0 <= j < i ==> s[j] != 0
}

/// Whether `s` holds a NUL byte.
pub open spec fn has_nul(s: Seq<u8>) -> bool {
    exists|i: int| 0 <= i < s.len() && s[i] == 0
}

/// The bytes of the C string at the start of `s`: those before its first NUL byte,
/// if it has one.
pub open spec fn c_str_bytes(s: Seq<u8>) -> Option<Seq<u8>> {
    if exists|i: int| is_first_nul(s, i) {
        Some(s.take(choose|i: int| is_first_nul(s, i)))
    } else {
        None
    }
}

/// The text of the C string at the start of `s`, where its bytes are valid UTF-8.
pub open spec fn c_str_text_of(s: Seq<u8>) -> Option<Seq<char>> {
    match c_str_bytes(s) {
        Some(b) => if valid_utf8(b) {
            Some(decode_utf8(b))
        } else {
            None
        },
        None => None,
    }
}

/// The NUL-terminated UTF-8 encoding of `text`, unless the encoding itself holds a NUL byte.
pub open spec fn c_string_of(text: Seq<char>) -> Option<Seq<u8>> {
    if has_nul(encode_utf8(text)) {
        None
    } else {
        Some(encode_utf8(text).push(0))
    }
}

/// Whether `text` can be handed over as a C string: its encoding holds no NUL byte.
pub open spec fn nul_free(text: Seq<char>) -> bool {
    !has_nul(encode_utf8(text))
}

/// `String::from_utf8`, keeping only the success case: the bytes become a string
/// exactly when they are valid UTF-8, and the string then holds the characters they
/// encode.
#[verifier::external_body]
fn string_from_utf8(bytes: Vec<u8>) -> (s: Option<String>)
    ensures
        s is Some <==> valid_utf8(bytes@),
        s matches Some(t) ==> t@ == decode_utf8(bytes@),
{
    String::from_utf8(bytes).ok()
}

proof fn lemma_first_nul_unique(s: Seq<u8>, i: int)
    requires
        is_first_nul(s, i),
    ensures
        c_str_bytes(s) == Some(s.take(i)),
{
    let k = choose|k: int| is_first_nul(s, k);
    assert(is_first_nul(s, k));
    if k < i {
        assert(s[k] != 0);
    } else if i < k {
        assert(s[i] != 0);
    }
}

/// The text of the C string that starts at position `start` of `buf`, or `None`
/// where no NUL byte follows `start` or the bytes before it are not valid UTF-8.
pub fn c_str_text_at(buf: &[u8], start: usize) -> (r: Option<String>)
    requires
        start <= buf@.len(),
    ensures
        match r {
            Some(s) => c_str_text_of(buf@.skip(start as int)) == Some(s@),
            None => c_str_text_of(buf@.skip(start as int)) is None,
        },
{
    let ghost s = buf@.skip(start as int);
    let mut i: usize = start;
    while i < buf.len() && buf[i] != 0
        invariant
            start <= i <= buf@.len(),
            s == buf@.skip(start as int),
            forall|j: int| 0 <= j < i - start ==> s[j] != 0,
        decreases buf.len() - i,
    {
        i += 1;
    }
    if i == buf.len() {
        assert(!exists|k: int| is_first_nul(s, k)) by {
            if exists|k: int| is_first_nul(s, k) {
                let k = choose|k: int| is_first_nul(s, k);
                assert(s[k] != 0);
            }
        }
        return None;
    }
    proof {
        assert(is_first_nul(s, i - start));
        lemma_first_nul_unique(s, i - start);
    }
    let mut bytes: Vec<u8> = Vec::new();
    let mut j: usize = start;
    while j < i
        invariant
            start <= j <= i < buf@.len(),
            bytes@ == buf@.subrange(start as int, j as int),
        decreases i - j,
    {
        bytes.push(buf[j]);
        j += 1;
        assert(bytes@ =~= buf@.subrange(start as int, j as int));
    }
    assert(bytes@ =~= s.take(i - start));
    string_from_utf8(bytes)
}

/// The text of the C string at the start of `buf`.
pub fn c_str_text(buf: &[u8]) -> (r: Option<String>)
    ensures
        match r {
            Some(s) => c_str_text_of(buf@) == Some(s@),
            None => c_str_text_of(buf@) is None,
        },
{
    assert(buf@.skip(0) =~= buf@);
    c_str_text_at(buf, 0)
}

/// The NUL-terminated UTF-8 encoding of `text`, or `None` where `text` holds a NUL
/// character.
pub fn c_string_bytes(text: &str) -> (r: Option<Vec<u8>>)
    ensures
        match r {
            Some(v) => c_string_of(text@) == Some(v@),
            None => c_string_of(text@) is None,
        },
{
    let bytes = text.as_bytes();
    let ghost e = encode_utf8(text@);
    assert(bytes@ == e);
    let mut out: Vec<u8> = Vec::new();
    let mut i: usize = 0;
    while i < bytes.len()
        invariant
            i <= bytes@.len(),
            bytes@ == e,
            e == encode_utf8(text@),
            out@ == e.take(i as int),
            forall|j: int| 0 <= j < i ==> e[j] != 0,
        decreases bytes.len() - i,
    {
        if bytes[i] == 0 {
            assert(e[i as int] == 0);
            assert(has_nul(e));
            assert(has_nul(encode_utf8(text@)));
            return None;
        }
        out.push(bytes[i]);
        i += 1;
        assert(out@ =~= e.take(i as int));
    }
    assert(!has_nul(e));
    assert(out@ =~= e);
    out.push(0);
    Some(out)
}

/// Handing a NUL-free text over as a C string and reading the C string back yields
/// the text again.
pub proof fn lemma_c_string_round_trip(text: Seq<char>)
    requires
        nul_free(text),
    ensures
        c_string_of(text) matches Some(bytes) && c_str_text_of(bytes) == Some(text),
{
    let e = encode_utf8(text);
    let s = e.push(0);
    assert(is_first_nul(s, e.len() as int));
    lemma_first_nul_unique(s, e.len() as int);
    assert(s.take(e.len() as int) =~= e);
}

/// Distance between consecutive session identifiers in a recovery result.
pub const SESSION_ID_STRIDE: usize = 37;

/// Whether each of the first `count` session identifiers laid out in `buf`, one
/// every [`SESSION_ID_STRIDE`] bytes, is a valid C string.
pub open spec fn session_ids_readable(buf: Seq<u8>, count: nat) -> bool {
    forall|i: int|
        0 <= i < count ==> #[trigger] c_str_text_of(buf.skip(i * SESSION_ID_STRIDE)) is Some
}

/// The session identifiers laid out in `buf`, one every [`SESSION_ID_STRIDE`] bytes,
/// or `None` where one of them is not a valid C string.
pub fn session_ids(buf: &[u8], count: usize) -> (r: Option<Vec<String>>)
    requires
        count * SESSION_ID_STRIDE <= buf@.len(),
    ensures
        r is Some <==> session_ids_readable(buf@, count as nat),
        r matches Some(ids) ==> {
            &&& ids@.len() == count
            &&& forall|i: int|
                0 <= i < count ==> c_str_text_of(buf@.skip(i * SESSION_ID_STRIDE)) == Some(
                    #[trigger] ids@[i]@,
                )
        },
{
    let len = buf.len();
    let mut ids: Vec<String> = Vec::new();
    let mut i: usize = 0;
    while i < count
        invariant
            i <= count,
            count * SESSION_ID_STRIDE <= buf@.len(),
            len == buf@.len(),
            ids@.len() == i,
            forall|k: int|
                0 <= k < i ==> c_str_text_of(buf@.skip(k * SESSION_ID_STRIDE)) == Some(
                    #[trigger] ids@[k]@,
                ),
        decreases count - i,
    {
        assert((i as int) * 37 <= (count as int) * 37) by (nonlinear_arith)
            requires
                i < count,
        ;
        match c_str_text_at(buf, i * SESSION_ID_STRIDE) {
            Some(id) => {
                ids.push(id);
            },
            None => {
                assert(!session_ids_readable(buf@, count as nat)) by {
                    assert(c_str_text_of(buf@.skip(i * SESSION_ID_STRIDE)) is None);
                }
                return None;
            },
        }
        i += 1;
    }
    assert(session_ids_readable(buf@, count as nat)) by {
        assert forall|k: int| 0 <= k < count implies #[trigger] c_str_text_of(
            buf@.skip(k * SESSION_ID_STRIDE),
        ) is Some by {
            assert(c_str_text_of(buf@.skip(k * SESSION_ID_STRIDE)) == Some(ids@[k]@));
        }
    }
    Some(ids)
}

} // verus!
