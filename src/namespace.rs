//! Namespace scoping of etcd keys, done on raw bytes by the namespace's length.

use vstd::prelude::*;
use vstd::utf8::{
    encode_scalar, encode_utf8, last_continuation_byte, leading_byte_width_1, leading_byte_width_2,
    leading_byte_width_3, leading_byte_width_4, second_last_continuation_byte,
    third_last_continuation_byte,
};

verus! {

/// `s` begins with the bytes of `p`.
pub open spec fn starts_with(s: Seq<u8>, p: Seq<u8>) -> bool {
    p.len() <= s.len() && forall|i: int| 0 <= i < p.len() ==> s[i] == p[i]
}

/// Strict lexicographic order on byte strings, the order etcd keeps its keys in.
pub open spec fn lex_lt(a: Seq<u8>, b: Seq<u8>) -> bool {
    (starts_with(b, a) && a.len() < b.len()) || exists|i: int|
        0 <= i < a.len() && i < b.len() && a[i] < b[i] && (forall|k: int|
            0 <= k < i ==> a[k] == b[k])
}

/// A caller's key as it is sent to the server.
pub open spec fn prefixed(ns: Seq<u8>, key: Seq<u8>) -> Seq<u8> {
    ns + key
}

/// A server key with the first `ns_len` bytes taken off.
pub open spec fn stripped(ns_len: nat, key: Seq<u8>) -> Seq<u8> {
    key.subrange(ns_len as int, key.len() as int)
}

/// The last byte raised by one; a last byte of 0xFF gets a 0x00 appended instead.
pub open spec fn incremented(p: Seq<u8>) -> Seq<u8>
    recommends
        p.len() > 0,
{
    if p.last() == 0xFF {
        p.push(0)
    } else {
        p.update(p.len() - 1, (p.last() + 1) as u8)
    }
}

/// The range end sent for `end_key` under the namespace `ns`: the single byte
/// 0x00 ("to the end") becomes the namespace's own upper bound.
pub open spec fn scoped_range_end(ns: Seq<u8>, end_key: Seq<u8>) -> Seq<u8> {
    if ns.len() > 0 {
        if end_key == seq![0u8] {
            incremented(ns)
        } else {
            ns + end_key
        }
    } else {
        end_key
    }
}

/// Replaces `key` by its successor bound: see `incremented`.
pub fn key_next(key: &mut Vec<u8>)
    requires
        old(key).len() > 0,
    ensures
        final(key)@ == incremented(old(key)@),
{
    let len = key.len();
    let last = key[len - 1];
    if last == 255u8 {
        key.push(0u8);
    } else {
        key.set(len - 1, last + 1);
    }
}

/// Copies a byte slice into a fresh vector.
pub fn bytes_of(b: &[u8]) -> (r: Vec<u8>)
    ensures
        r@ == b@,
{
    let mut r: Vec<u8> = Vec::new();
    let mut i: usize = 0;
    while i < b.len()
        invariant
            i <= b@.len(),
            r@ == b@.subrange(0, i as int),
        decreases b@.len() - i,
    {
        r.push(b[i]);
        i = i + 1;
        assert(r@ =~= b@.subrange(0, i as int));
    }
    assert(r@ =~= b@);
    r
}

/// Appends the bytes of `tail` to `head`.
pub fn concat_bytes(head: &[u8], tail: &[u8]) -> (r: Vec<u8>)
    ensures
        r@ == head@ + tail@,
{
    let mut r = bytes_of(head);
    let mut i: usize = 0;
    while i < tail.len()
        invariant
            i <= tail@.len(),
            r@ == head@ + tail@.subrange(0, i as int),
        decreases tail@.len() - i,
    {
        r.push(tail[i]);
        i = i + 1;
        assert(r@ =~= head@ + tail@.subrange(0, i as int));
    }
    assert(tail@.subrange(0, tail@.len() as int) =~= tail@);
    r
}

/// The bytes `key[from..]`.
pub fn bytes_from(key: &[u8], from: usize) -> (r: Vec<u8>)
    requires
        from <= key@.len(),
    ensures
        r@ == key@.subrange(from as int, key@.len() as int),
{
    let mut r: Vec<u8> = Vec::new();
    let mut i: usize = from;
    while i < key.len()
        invariant
            from <= i <= key@.len(),
            r@ == key@.subrange(from as int, i as int),
        decreases key@.len() - i,
    {
        r.push(key[i]);
        i = i + 1;
        assert(r@ =~= key@.subrange(from as int, i as int));
    }
    r
}

/// The namespace of one connection, held as the bytes of its UTF-8 text.
pub struct Namespace {
    prefix: Vec<u8>,
}

impl View for Namespace {
    type V = Seq<u8>;

    closed spec fn view(&self) -> Seq<u8> {
        self.prefix@
    }
}

impl Namespace {
    /// The namespace of a connection; none, or an empty one, scopes nothing.
    pub fn new(namespace: &Option<String>) -> (r: Namespace)
        ensures
            r@ == match namespace {
                Some(s) => encode_utf8(s@),
                None => Seq::<u8>::empty(),
            },
    {
        match namespace {
            Some(s) => Namespace { prefix: bytes_of(s.as_str().as_bytes()) },
            None => Namespace { prefix: Vec::new() },
        }
    }

    /// A namespace given by its bytes.
    pub fn from_bytes(prefix: Vec<u8>) -> (r: Namespace)
        ensures
            r@ == prefix@,
    {
        Namespace { prefix }
    }

    /// Whether keys are scoped at all.
    pub fn has_namespace(&self) -> (r: bool)
        ensures
            r == (self@.len() > 0),
    {
        self.prefix.len() > 0
    }

    /// The byte length by which returned keys are stripped.
    pub fn byte_len(&self) -> (r: usize)
        ensures
            r == self@.len(),
    {
        self.prefix.len()
    }

    /// The namespace itself, the root of every key of the connection.
    pub fn root_key(&self) -> (r: Vec<u8>)
        ensures
            r@ == self@,
    {
        bytes_of(self.prefix.as_slice())
    }

    /// A caller's key as it is sent to the server.
    pub fn prefix_namespace(&self, key: &[u8]) -> (r: Vec<u8>)
        ensures
            r@ == prefixed(self@, key@),
    {
        concat_bytes(self.prefix.as_slice(), key)
    }

    /// A server key as it is handed back to the caller: the namespace's byte
    /// length is taken off the front, whatever the rest holds.
    pub fn strip_namespace(&self, key: &[u8]) -> (r: Vec<u8>)
        requires
            self@.len() <= key@.len(),
        ensures
            r@ == stripped(self@.len(), key@),
    {
        bytes_from(key, self.prefix.len())
    }

    /// The range end sent for `end_key`.
    pub fn prefix_namespace_to_range_end(&self, end_key: &[u8]) -> (r: Vec<u8>)
        ensures
            r@ == scoped_range_end(self@, end_key@),
    {
        if self.prefix.len() > 0 {
            if end_key.len() == 1 && end_key[0] == 0u8 {
                assert(end_key@ =~= seq![0u8]);
                let mut p = bytes_of(self.prefix.as_slice());
                key_next(&mut p);
                p
            } else {
                proof {
                    if end_key@ == seq![0u8] {
                        assert(end_key@[0] == 0u8);
                    }
                }
                concat_bytes(self.prefix.as_slice(), end_key)
            }
        } else {
            bytes_of(end_key)
        }
    }

    /// The key range of one page of a key listing: from just after `cursor`
    /// (the cursor followed by a 0x00 byte) to the end of the namespace.
    pub fn page_range(&self, cursor: &[u8]) -> (r: (Vec<u8>, Vec<u8>))
        ensures
            r.0@ == prefixed(self@, cursor@.push(0u8)),
            r.1@ == scoped_range_end(self@, seq![0u8]),
    {
        let mut start = bytes_of(cursor);
        start.push(0u8);
        let key = self.prefix_namespace(start.as_slice());
        let zero: Vec<u8> = vec![0u8];
        assert(zero@ =~= seq![0u8]);
        let end = self.prefix_namespace_to_range_end(zero.as_slice());
        (key, end)
    }
}

/// Stripping a namespace from a key that was scoped by it gives the key back,
/// also where the key holds the namespace's bytes further on.
pub proof fn lemma_strip_prefixed(ns: Seq<u8>, key: Seq<u8>)
    ensures
        stripped(ns.len(), prefixed(ns, key)) == key,
{
    assert(stripped(ns.len(), prefixed(ns, key)) =~= key);
}

/// Incrementing changes no byte but the last one, and on 0xFF keeps every
/// byte and appends 0x00.
pub proof fn lemma_increment_keeps_bytes(p: Seq<u8>)
    requires
        p.len() > 0,
    ensures
        incremented(p).len() >= p.len(),
        forall|i: int| 0 <= i < p.len() - 1 ==> incremented(p)[i] == p[i],
        p.last() == 0xFF ==> incremented(p) == p.push(0),
        p.last() != 0xFF ==> incremented(p).len() == p.len() && incremented(p).last() == p.last()
            + 1,
{
}

/// Where the last byte is not 0xFF, the incremented prefix is the least byte
/// string above every key that begins with the prefix.
pub proof fn lemma_increment_least_upper_bound(p: Seq<u8>)
    requires
        p.len() > 0,
        p.last() != 0xFF,
    ensures
        forall|s: Seq<u8>| starts_with(s, p) ==> lex_lt(s, incremented(p)),
        forall|t: Seq<u8>|
            (forall|s: Seq<u8>| starts_with(s, p) ==> lex_lt(s, t)) ==> !lex_lt(
                t,
                incremented(p),
            ),
{
    let q = incremented(p);
    let n = p.len() - 1;
    assert forall|s: Seq<u8>| starts_with(s, p) implies lex_lt(s, q) by {
        assert(s[n] == p[n]);
        assert(forall|k: int| 0 <= k < n ==> s[k] == q[k]);
        assert(0 <= n < s.len() && n < q.len() && s[n] < q[n]);
    }
    assert forall|t: Seq<u8>|
        (forall|s: Seq<u8>| starts_with(s, p) ==> lex_lt(s, t)) implies !lex_lt(t, q) by {
        if lex_lt(t, q) {
            if starts_with(t, p) {
                assert(lex_lt(t, t));
                if starts_with(t, t) && t.len() < t.len() {
                } else {
                    let i = choose|i: int|
                        0 <= i < t.len() && i < t.len() && t[i] < t[i] && (forall|k: int|
                            0 <= k < i ==> t[k] == t[k]);
                }
            } else {
                assert(starts_with(p, p));
                assert(lex_lt(p, t));
                assert(!(starts_with(t, p) && p.len() < t.len()));
                let i = choose|i: int|
                    0 <= i < p.len() && i < t.len() && p[i] < t[i] && (forall|k: int|
                        0 <= k < i ==> p[k] == t[k]);
                if starts_with(q, t) && t.len() < q.len() {
                    assert(t[i] == q[i]);
                } else {
                    let j = choose|j: int|
                        0 <= j < t.len() && j < q.len() && t[j] < q[j] && (forall|k: int|
                            0 <= k < j ==> t[k] == q[k]);
                    if j < i {
                        assert(t[j] == p[j]);
                    } else if j > i {
                        assert(t[i] == q[i]);
                    }
                }
            }
        }
    }
}

/// No byte of a character's UTF-8 encoding is 0xFF.
proof fn lemma_scalar_no_ff(v: u32)
    ensures
        forall|i: int| 0 <= i < encode_scalar(v).len() ==> encode_scalar(v)[i] != 0xFF,
{
    assert(leading_byte_width_1(v) != 0xFF) by (bit_vector);
    assert(leading_byte_width_2(v) != 0xFF) by (bit_vector);
    assert(leading_byte_width_3(v) != 0xFF) by (bit_vector);
    assert(leading_byte_width_4(v) != 0xFF) by (bit_vector);
    assert(last_continuation_byte(v) != 0xFF) by (bit_vector);
    assert(second_last_continuation_byte(v) != 0xFF) by (bit_vector);
    assert(third_last_continuation_byte(v) != 0xFF) by (bit_vector);
}

/// UTF-8 text holds no byte 0xFF.
pub proof fn lemma_utf8_no_ff(chars: Seq<char>)
    ensures
        forall|i: int| 0 <= i < encode_utf8(chars).len() ==> encode_utf8(chars)[i] != 0xFF,
    decreases chars.len(),
{
    if chars.len() > 0 {
        lemma_scalar_no_ff(chars[0] as u32);
        lemma_utf8_no_ff(chars.drop_first());
        let head = encode_scalar(chars[0] as u32);
        let tail = encode_utf8(chars.drop_first());
        assert forall|i: int| 0 <= i < encode_utf8(chars).len() implies encode_utf8(chars)[i]
            != 0xFF by {
            if i < head.len() {
                assert(encode_utf8(chars)[i] == head[i]);
            } else {
                assert(encode_utf8(chars)[i] == tail[i - head.len()]);
            }
        }
    }
}

/// A namespace given as text has an upper bound that is exactly the least
/// byte string above all of its keys: its last byte is never 0xFF.
pub proof fn lemma_text_namespace_range_end(name: Seq<char>)
    requires
        encode_utf8(name).len() > 0,
    ensures
        forall|s: Seq<u8>| starts_with(s, encode_utf8(name)) ==> lex_lt(s, incremented(encode_utf8(name))),
        forall|t: Seq<u8>|
            (forall|s: Seq<u8>| starts_with(s, encode_utf8(name)) ==> lex_lt(s, t)) ==> !lex_lt(
                t,
                incremented(encode_utf8(name)),
            ),
{
    let p = encode_utf8(name);
    lemma_utf8_no_ff(name);
    assert(p.last() == p[p.len() - 1]);
    lemma_increment_least_upper_bound(p);
}

} // verus!
