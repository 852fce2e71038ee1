//! Password buffer whose storage is wiped when it is dropped.
//!
//! The password is kept as UTF-8 bytes in a fixed-size buffer. Every byte past
//! the end of the password is zero, removed characters are overwritten with
//! zeros, and the storage itself is a `zeroize::Zeroizing` vector, so no copy
//! of the password survives the buffer.

use vstd::prelude::*;
use vstd::string::StrSliceExecFns;
use vstd::utf8::*;
use zeroize::{Zeroize, Zeroizing};

verus! {

broadcast use vstd::utf8::encode_utf8_valid_utf8, vstd::utf8::encode_utf8_decode_utf8;

/// Byte storage that the `zeroize` crate wipes when it is dropped.
/// It holds a `Zeroizing<Vec<u8>>`, whose `Drop` zeroizes the vector.
#[verifier::external_body]
pub struct SecretBytes {
    inner: Zeroizing<Vec<u8>>,
}

/// The bytes held by a `SecretBytes`.
pub uninterp spec fn secret_bytes(s: SecretBytes) -> Seq<u8>;

/// `Zeroizing::new`: wraps the vector; the bytes are the vector's bytes.
#[verifier::external_body]
fn secret_new(v: Vec<u8>) -> (s: SecretBytes)
    ensures
        secret_bytes(s) == v@,
{
    SecretBytes { inner: Zeroizing::new(v) }
}

/// `Deref::deref` of `Zeroizing`: a shared borrow of the wrapped vector.
#[verifier::external_body]
fn secret_deref(s: &SecretBytes) -> (v: &Vec<u8>)
    ensures
        v@ == secret_bytes(*s),
{
    std::ops::Deref::deref(&s.inner)
}

/// `DerefMut::deref_mut` of `Zeroizing`: a mutable borrow of the wrapped
/// vector; what the vector holds when the borrow ends is what the wrapper holds.
#[verifier::external_body]
fn secret_deref_mut(s: &mut SecretBytes) -> (v: &mut Vec<u8>)
    ensures
        (*v)@ == secret_bytes(*old(s)),
        secret_bytes(*final(s)) == (*final(v))@,
{
    std::ops::DerefMut::deref_mut(&mut s.inner)
}

/// `Zeroize::zeroize` on the byte slice `v[..n]`: those bytes become zero,
/// the others and the length are unchanged.
#[verifier::external_body]
fn zeroize_prefix(v: &mut Vec<u8>, n: usize)
    requires
        n <= old(v)@.len(),
    ensures
        final(v)@ == Seq::new(n as nat, |i: int| 0u8) + old(v)@.skip(n as int),
{
    v[..n].zeroize();
}

/// `Zeroize::zeroize` on a `Vec<u8>`: zeroes the elements and the spare
/// capacity, then clears the vector, which is left empty.
#[verifier::external_body]
fn zeroize_vec(v: &mut Vec<u8>)
    ensures
        final(v)@ == Seq::<u8>::empty(),
{
    v.zeroize();
}

/// `std::str::from_utf8` on `v[..n]`: a string exactly when those bytes are
/// valid UTF-8, and then the string whose encoding they are.
#[verifier::external_body]
fn utf8_prefix<'a>(v: &'a Vec<u8>, n: usize) -> (r: Option<&'a str>)
    requires
        n <= v@.len(),
    ensures
        r is Some <==> valid_utf8(v@.take(n as int)),
        r matches Some(s) ==> encode_utf8(s@) == v@.take(n as int),
{
    std::str::from_utf8(&v[..n]).ok()
}

/// Capacity, in bytes, of a buffer made by `Password::new`.
pub const DEFAULT_CAPACITY: usize = 256;

/// A bounded password buffer.
pub struct Password {
    /// UTF-8 bytes of the password, followed by zeros.
    buffer: SecretBytes,
    /// Length of the password in bytes.
    len: usize,
}

/// Byte length of the UTF-8 encoding of one character.
pub open spec fn char_utf8_len(c: char) -> nat {
    encode_scalar(c as u32).len()
}

/// The leading byte of a character's encoding is no continuation byte, the
/// others are; an encoding has 1 to 4 bytes.
proof fn lemma_encode_scalar_shape(c: char)
    ensures
        1 <= encode_scalar(c as u32).len() <= 4,
        !is_continuation_byte(encode_scalar(c as u32)[0]),
        forall|i: int|
            1 <= i < encode_scalar(c as u32).len() ==> is_continuation_byte(
                #[trigger] encode_scalar(c as u32)[i],
            ),
{
    let s = seq![c];
    encode_utf8_first_scalar(s);
    lemma_encode_single(c);
}

/// The encoding of a one-character sequence is that character's encoding.
proof fn lemma_encode_single(c: char)
    ensures
        encode_utf8(seq![c]) == encode_scalar(c as u32),
{
    let s = seq![c];
    assert(s.drop_first() =~= Seq::<char>::empty());
    assert(encode_utf8(Seq::<char>::empty()) =~= Seq::<u8>::empty());
    assert(encode_utf8(s) =~= encode_scalar(c as u32) + encode_utf8(s.drop_first()));
    assert(encode_utf8(s) =~= encode_scalar(c as u32));
}

/// Encoding a sequence with one more character appends that character's encoding.
proof fn lemma_encode_push(s: Seq<char>, c: char)
    ensures
        encode_utf8(s.push(c)) == encode_utf8(s) + encode_scalar(c as u32),
    decreases s.len(),
{
    if s.len() == 0 {
        assert(s.push(c) =~= seq![c]);
        lemma_encode_single(c);
        assert(encode_utf8(s) =~= Seq::<u8>::empty());
        assert(encode_utf8(s.push(c)) =~= encode_utf8(s) + encode_scalar(c as u32));
    } else {
        lemma_encode_push(s.drop_first(), c);
        assert(s.push(c).drop_first() =~= s.drop_first().push(c));
        assert(encode_utf8(s.push(c)) =~= encode_utf8(s) + encode_scalar(c as u32));
    }
}

/// The encoding is empty exactly when the sequence is.
proof fn lemma_encode_empty(s: Seq<char>)
    ensures
        (encode_utf8(s).len() == 0) == (s.len() == 0),
{
    if s.len() > 0 {
        lemma_encode_scalar_shape(s[0]);
    }
}

/// The UTF-8 bytes of `c`, in the first `n` places of the array.
fn encode_char(c: char) -> (out: ([u8; 4], usize))
    ensures
        out.1 == char_utf8_len(c),
        forall|i: int| 0 <= i < out.1 ==> out.0@[i] == encode_scalar(c as u32)[i],
{
    proof {
        char_is_scalar(c);
    }
    let v: u32 = c as u32;
    if v <= 0x7F {
        ([(v & 0x7F) as u8, 0, 0, 0], 1)
    } else if v <= 0x7FF {
        ([0xC0 | ((v >> 6) & 0x1F) as u8, 0x80 | (v & 0x3F) as u8, 0, 0], 2)
    } else if v <= 0xFFFF {
        (
            [
                0xE0 | ((v >> 12) & 0x0F) as u8,
                0x80 | ((v >> 6) & 0x3F) as u8,
                0x80 | (v & 0x3F) as u8,
                0,
            ],
            3,
        )
    } else {
        (
            [
                0xF0 | ((v >> 18) & 0x7) as u8,
                0x80 | ((v >> 12) & 0x3F) as u8,
                0x80 | ((v >> 6) & 0x3F) as u8,
                0x80 | (v & 0x3F) as u8,
            ],
            4,
        )
    }
}

/// Writes `bytes[..n]` into `v` at `at`.
fn write_bytes(v: &mut Vec<u8>, at: usize, bytes: &[u8; 4], n: usize)
    requires
        n <= 4,
        at + n <= old(v).len(),
    ensures
        final(v)@.len() == old(v)@.len(),
        forall|i: int|
            0 <= i < final(v)@.len() ==> #[trigger] final(v)@[i] == if at <= i < at + n {
                bytes@[i - at]
            } else {
                old(v)@[i]
            },
{
    let mut k: usize = 0;
    while k < n
        invariant
            k <= n <= 4,
            at + n <= old(v).len(),
            v@.len() == old(v)@.len(),
            forall|i: int|
                0 <= i < v@.len() ==> #[trigger] v@[i] == if at <= i < at + k {
                    bytes@[i - at]
                } else {
                    old(v)@[i]
                },
        decreases n - k,
    {
        v.set(at + k, bytes[k]);
        k = k + 1;
    }
}

/// Overwrites `v[from..to]` with zeros.
fn zero_range(v: &mut Vec<u8>, from: usize, to: usize)
    requires
        from <= to <= old(v)@.len(),
    ensures
        final(v)@.len() == old(v)@.len(),
        forall|i: int|
            0 <= i < final(v)@.len() ==> #[trigger] final(v)@[i] == if from <= i < to {
                0u8
            } else {
                old(v)@[i]
            },
{
    let mut k: usize = from;
    while k < to
        invariant
            from <= k <= to <= old(v)@.len(),
            v@.len() == old(v)@.len(),
            forall|i: int|
                0 <= i < v@.len() ==> #[trigger] v@[i] == if from <= i < k {
                    0u8
                } else {
                    old(v)@[i]
                },
        decreases to - k,
    {
        v.set(k, 0);
        k = k + 1;
    }
}

impl View for Password {
    type V = Seq<char>;

    /// The characters of the password.
    closed spec fn view(&self) -> Seq<char> {
        decode_utf8(secret_bytes(self.buffer).take(self.len as int))
    }
}

impl Password {
    /// Every byte of the buffer, the password and the zeros after it.
    pub closed spec fn storage(&self) -> Seq<u8> {
        secret_bytes(self.buffer)
    }

    /// Number of bytes the buffer can hold.
    pub open spec fn capacity(&self) -> nat {
        self.storage().len()
    }

    /// Length in bytes of the UTF-8 encoding of the password.
    pub open spec fn byte_len(&self) -> nat {
        encode_utf8(self@).len()
    }

    /// The buffer holds the UTF-8 encoding of the password and zeros after it.
    pub closed spec fn wf(&self) -> bool {
        &&& self.len <= self.storage().len()
        &&& valid_utf8(self.storage().take(self.len as int))
        &&& forall|i: int| self.len <= i < self.storage().len() ==> #[trigger] self.storage()[i] == 0
    }

    /// In a well-formed buffer, the password's encoding is the first `byte_len`
    /// bytes of the storage and everything after it is zero.
    pub proof fn lemma_layout(&self)
        requires
            self.wf(),
        ensures
            self.byte_len() <= self.capacity(),
            self.storage().take(self.byte_len() as int) == encode_utf8(self@),
            forall|i: int|
                self.byte_len() <= i < self.capacity() ==> #[trigger] self.storage()[i] == 0,
    {
        decode_utf8_encode_utf8(self.storage().take(self.len as int));
    }

    /// The stored length is the byte length of the password.
    proof fn lemma_len(&self)
        requires
            self.wf(),
        ensures
            self.len == self.byte_len(),
            self.storage().take(self.len as int) == encode_utf8(self@),
    {
        decode_utf8_encode_utf8(self.storage().take(self.len as int));
    }

    /// Creates an empty buffer of the default capacity.
    pub fn new() -> (pw: Self)
        ensures
            pw.wf(),
            pw@ == Seq::<char>::empty(),
            pw.capacity() == DEFAULT_CAPACITY,
            pw.storage() == Seq::new(DEFAULT_CAPACITY as nat, |i: int| 0u8),
    {
        Self::with_capacity(DEFAULT_CAPACITY)
    }

    /// Creates an empty buffer that holds up to `capacity` bytes; no
    /// allocation can exceed `isize::MAX` bytes.
    pub fn with_capacity(capacity: usize) -> (pw: Self)
        requires
            capacity <= isize::MAX,
        ensures
            pw.wf(),
            pw@ == Seq::<char>::empty(),
            pw.capacity() == capacity,
            pw.storage() == Seq::new(capacity as nat, |i: int| 0u8),
    {
        let mut v: Vec<u8> = Vec::new();
        let mut k: usize = 0;
        while k < capacity
            invariant
                k <= capacity,
                v@ == Seq::new(k as nat, |i: int| 0u8),
            decreases capacity - k,
        {
            v.push(0u8);
            k = k + 1;
        }
        let pw = Password { buffer: secret_new(v), len: 0 };
        proof {
            assert(pw.storage().take(0) =~= Seq::<u8>::empty());
            assert(decode_utf8(Seq::<u8>::empty()) =~= Seq::<char>::empty());
        }
        pw
    }

    /// Appends a character. Returns `false`, leaving the password unchanged,
    /// when its encoding does not fit in the remaining capacity.
    pub fn push(&mut self, c: char) -> (added: bool)
        requires
            old(self).wf(),
        ensures
            final(self).wf(),
            final(self).capacity() == old(self).capacity(),
            added == (old(self).byte_len() + char_utf8_len(c) <= old(self).capacity()),
            final(self)@ == if added {
                old(self)@.push(c)
            } else {
                old(self)@
            },
    {
        proof {
            self.lemma_len();
        }
        let (bytes, n) = encode_char(c);
        let cap = secret_deref(&self.buffer).len();
        if cap - self.len < n {
            return false;
        }
        let ghost old_storage = self.storage();
        let ghost old_view = self@;
        let at = self.len;
        let v = secret_deref_mut(&mut self.buffer);
        write_bytes(v, at, &bytes, n);
        self.len = at + n;
        proof {
            let new_storage = self.storage();
            lemma_encode_push(old_view, c);
            assert(new_storage.take(self.len as int) =~= encode_utf8(old_view.push(c))) by {
                assert(old_storage.take(at as int) == encode_utf8(old_view));
            }
        }
        true
    }

    /// Removes the last character. Returns `false` when the password is empty.
    /// The bytes of the removed character are overwritten with zeros.
    pub fn pop(&mut self) -> (removed: bool)
        requires
            old(self).wf(),
        ensures
            final(self).wf(),
            final(self).capacity() == old(self).capacity(),
            removed == (old(self)@.len() > 0),
            final(self)@ == if removed {
                old(self)@.drop_last()
            } else {
                old(self)@
            },
    {
        proof {
            self.lemma_len();
            lemma_encode_empty(self@);
        }
        if self.len == 0 {
            return false;
        }
        let ghost s = self@;
        let ghost last = s.last();
        let ghost k = char_utf8_len(last) as int;
        proof {
            assert(s =~= s.drop_last().push(last));
            lemma_encode_push(s.drop_last(), last);
            lemma_encode_scalar_shape(last);
        }
        let ghost enc = encode_utf8(s.drop_last());
        assert(self.storage().take(self.len as int) == enc + encode_scalar(last as u32));
        let mut char_start: usize = self.len - 1;
        let buf = secret_deref(&self.buffer);
        while char_start > 0 && (buf[char_start] & 0xC0) == 0x80
            invariant
                buf@ == self.storage(),
                self.len <= buf@.len(),
                self.len - k <= char_start < self.len,
                self.storage().take(self.len as int) == enc + encode_scalar(last as u32),
                enc.len() == self.len - k,
                !is_continuation_byte(encode_scalar(last as u32)[0]),
                forall|i: int|
                    1 <= i < k ==> is_continuation_byte(#[trigger] encode_scalar(last as u32)[i]),
            decreases char_start,
        {
            proof {
                let b = buf@[char_start as int];
                assert((b & 0xC0u8) == 0x80u8 ==> (0x80u8 <= b && b <= 0xbfu8)) by (bit_vector);
                if char_start == self.len - k {
                    assert(b == self.storage().take(self.len as int)[char_start as int]);
                    assert(b == (enc + encode_scalar(last as u32))[char_start as int]);
                }
            }
            char_start = char_start - 1;
        }
        proof {
            if char_start > self.len - k {
                let b = buf@[char_start as int];
                assert(b == self.storage().take(self.len as int)[char_start as int]);
                assert(b == encode_scalar(last as u32)[char_start - (self.len - k)]);
                assert(is_continuation_byte(b));
                assert((b & 0xC0u8) == 0x80u8 <==> (0x80u8 <= b && b <= 0xbfu8)) by (bit_vector);
            } else if char_start < self.len - k {
            }
            assert(char_start == self.len - k) by {
                if char_start > self.len - k {
                } else if char_start == 0 {
                } else {
                    let b = buf@[char_start as int];
                    assert(b == self.storage().take(self.len as int)[char_start as int]);
                    assert(b == encode_scalar(last as u32)[0]);
                    assert((b & 0xC0u8) == 0x80u8 <==> (0x80u8 <= b && b <= 0xbfu8))
                        by (bit_vector);
                }
            }
        }
        let ghost old_storage = self.storage();
        let end = self.len;
        let v = secret_deref_mut(&mut self.buffer);
        zero_range(v, char_start, end);
        self.len = char_start;
        proof {
            let new_storage = self.storage();
            assert(new_storage.take(char_start as int) =~= old_storage.take(end as int).take(
                char_start as int,
            ));
            assert(new_storage.take(char_start as int) =~= enc);
            assert(decode_utf8(enc) == s.drop_last());
        }
        true
    }

    /// Empties the password, overwriting all of its bytes with zeros.
    pub fn clear(&mut self)
        requires
            old(self).wf(),
        ensures
            final(self).wf(),
            final(self)@ == Seq::<char>::empty(),
            final(self).capacity() == old(self).capacity(),
            final(self).storage() == Seq::new(old(self).capacity(), |i: int| 0u8),
    {
        let ghost old_storage = self.storage();
        let n = self.len;
        let v = secret_deref_mut(&mut self.buffer);
        zeroize_prefix(v, n);
        self.len = 0;
        proof {
            assert(self.storage() =~= Seq::new(old_storage.len(), |i: int| 0u8));
            assert(self.storage().take(0) =~= Seq::<u8>::empty());
            assert(decode_utf8(Seq::<u8>::empty()) =~= Seq::<char>::empty());
        }
    }

    /// Wipes the whole buffer. The storage is released, so the capacity
    /// becomes zero and no character can be pushed afterwards.
    pub fn zeroize(&mut self)
        ensures
            final(self).wf(),
            final(self)@ == Seq::<char>::empty(),
            final(self).capacity() == 0,
    {
        let v = secret_deref_mut(&mut self.buffer);
        zeroize_vec(v);
        self.len = 0;
        proof {
            assert(self.storage().take(0) =~= Seq::<u8>::empty());
            assert(decode_utf8(Seq::<u8>::empty()) =~= Seq::<char>::empty());
        }
    }

    /// Whether the password is empty.
    pub fn is_empty(&self) -> (r: bool)
        requires
            self.wf(),
        ensures
            r == (self@.len() == 0),
    {
        proof {
            self.lemma_len();
            lemma_encode_empty(self@);
        }
        self.len == 0
    }

    /// Length of the password in bytes.
    pub fn len(&self) -> (r: usize)
        requires
            self.wf(),
        ensures
            r == self.byte_len(),
    {
        proof {
            self.lemma_len();
        }
        self.len
    }

    /// Number of characters in the password.
    pub fn char_count(&self) -> (r: usize)
        requires
            self.wf(),
        ensures
            r == self@.len(),
    {
        self.as_str().unicode_len()
    }

    /// The password as a string slice.
    pub fn as_str(&self) -> (s: &str)
        requires
            self.wf(),
        ensures
            s@ == self@,
    {
        let buf = secret_deref(&self.buffer);
        match utf8_prefix(buf, self.len) {
            Some(s) => s,
            None => "",
        }
    }
}

impl Default for Password {
    fn default() -> (pw: Self)
        ensures
            pw.wf(),
            pw@ == Seq::<char>::empty(),
            pw.capacity() == DEFAULT_CAPACITY,
    {
        Self::new()
    }
}

/// Removing the last character undoes appending it.
pub proof fn law_pop_undoes_push(pw: Seq<char>, c: char)
    ensures
        pw.push(c).drop_last() == pw,
        pw.push(c).len() > 0,
{
    assert(pw.push(c).drop_last() =~= pw);
}

} // verus!
