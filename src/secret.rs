//! Containers for secret bytes that overwrite their memory with zeros when
//! they are dropped.

use std::mem::MaybeUninit;

use vstd::prelude::*;
use vstd::std_specs::maybe_uninit::MaybeUninitAdditionalSpecFns;
use vstd::utf8::{encode_scalar, encode_utf8};

verus! {

/// Every byte of `b` is zero.
pub open spec fn all_zero(b: Seq<u8>) -> bool {
    forall|i: int| 0 <= i < b.len() ==> b[i] == 0
}

/// Relies on `std::hint::black_box`: the optimizer has to assume that the
/// bytes are read, so the zeros written before are not dropped as dead
/// stores ahead of the deallocation.
#[verifier::external_body]
fn keep_writes(bytes: &Vec<u8>)
    opens_invariants none
    no_unwind
{
    std::hint::black_box(bytes);
}

/// Relies on `std::sync::atomic::compiler_fence`: no memory access is moved
/// across this point by the compiler.
#[verifier::external_body]
fn fence_writes()
    opens_invariants none
    no_unwind
{
    std::sync::atomic::compiler_fence(std::sync::atomic::Ordering::SeqCst);
}

/// Relies on `std::mem::take`: it hands back the string and leaves an empty
/// one in its place.
#[verifier::external_body]
fn take_string(s: &mut String) -> (r: String)
    ensures
        r@ == old(s)@,
        final(s)@ == Seq::<char>::empty(),
    opens_invariants none
    no_unwind
{
    std::mem::take(s)
}

/// Every character of `s` is U+0000, the character of a zero byte.
pub open spec fn all_nul(s: Seq<char>) -> bool {
    forall|i: int| 0 <= i < s.len() ==> s[i] == '\0'
}

/// Relies on `String::into_bytes`: the string's UTF-8 bytes come back in
/// the same buffer, without a copy, so wiping them wipes the string's own
/// storage.
#[verifier::external_body]
fn into_bytes(s: String) -> (r: Vec<u8>)
    ensures
        r@ == encode_utf8(s@),
    opens_invariants none
    no_unwind
{
    s.into_bytes()
}

/// Relies on `String::from_utf8`: valid UTF-8 is taken over in the same
/// buffer, without a copy. Zero bytes are valid UTF-8, each one the
/// character U+0000, so the conversion cannot fail here.
#[verifier::external_body]
fn zeros_into_string(bytes: Vec<u8>) -> (r: String)
    requires
        all_zero(bytes@),
    ensures
        r@.len() == bytes@.len(),
        all_nul(r@),
    opens_invariants none
    no_unwind
{
    match String::from_utf8(bytes) {
        Ok(s) => s,
        Err(_) => String::new(),
    }
}

/// Relies on `Vec::spare_capacity_mut`: the storage that the vector holds
/// beyond its length, which leaves the elements as they are.
#[verifier::external_body]
fn spare_capacity(bytes: &mut Vec<u8>) -> (r: &mut [MaybeUninit<u8>])
    ensures
        final(bytes)@ == old(bytes)@,
    opens_invariants none
    no_unwind
{
    bytes.spare_capacity_mut()
}

/// Relies on `slice::fill`: every slot of `slots` is written with a zero.
#[verifier::external_body]
fn fill_zero(slots: &mut [MaybeUninit<u8>])
    ensures
        final(slots)@.len() == old(slots)@.len(),
        forall|i: int| 0 <= i < final(slots)@.len() ==> (#[trigger] final(slots)@[i]).as_option() == Some(0u8),
    opens_invariants none
    no_unwind
{
    slots.fill(MaybeUninit::new(0));
}

/// Relies on `Vec::len`. A destructor may call only functions that open no
/// invariants, which vstd's own specification of `len` does not state.
#[verifier::external_body]
fn byte_count(bytes: &Vec<u8>) -> (n: usize)
    ensures
        n == bytes@.len(),
    opens_invariants none
    no_unwind
{
    bytes.len()
}

/// Relies on indexing a `Vec` mutably (`IndexMut`), which panics only on an
/// index out of bounds. Like [`byte_count`], it is here for a destructor.
#[verifier::external_body]
fn clear_byte(bytes: &mut Vec<u8>, i: usize)
    requires
        i < old(bytes)@.len(),
    ensures
        final(bytes)@ == old(bytes)@.update(i as int, 0u8),
    opens_invariants none
    no_unwind
{
    bytes[i] = 0;
}

/// Overwrites every byte of `bytes` with zero and keeps its length.
///
/// The writes are kept from being optimized away, so the zeros are in memory
/// when the buffer is freed afterwards.
pub fn zero_bytes(bytes: &mut Vec<u8>)
    ensures
        final(bytes)@.len() == old(bytes)@.len(),
        all_zero(final(bytes)@),
    opens_invariants none
    no_unwind
{
    let n = byte_count(bytes);
    let mut i: usize = 0;
    while i < n
        invariant
            n == bytes@.len(),
            n == old(bytes)@.len(),
            i <= n,
            forall|j: int| 0 <= j < i ==> bytes@[j] == 0,
        decreases n - i,
    {
        clear_byte(bytes, i);
        i = i + 1;
    }
    keep_writes(bytes);
    fence_writes();
}

/// Overwrites with zero all the storage that `bytes` holds: the spare
/// capacity behind the elements, where bytes of earlier contents may
/// linger, and then the elements themselves.
fn wipe_storage(bytes: &mut Vec<u8>)
    ensures
        final(bytes)@.len() == old(bytes)@.len(),
        all_zero(final(bytes)@),
    opens_invariants none
    no_unwind
{
    fill_zero(spare_capacity(bytes));
    zero_bytes(bytes);
}

/// UTF-8 takes at least one byte for each character.
proof fn lemma_encoding_no_shorter(chars: Seq<char>)
    ensures
        encode_utf8(chars).len() >= chars.len(),
    decreases chars.len(),
{
    if chars.len() > 0 {
        lemma_encoding_no_shorter(chars.drop_first());
        assert(encode_scalar(chars[0] as u32).len() >= 1);
    }
}

/// Wipes the storage of `s` in place: each of its bytes becomes zero, and
/// `s` keeps them, one U+0000 for each byte of its old UTF-8 encoding, and
/// so at least as many characters as it held.
fn wipe_string(s: &mut String)
    ensures
        final(s)@.len() == encode_utf8(old(s)@).len(),
        final(s)@.len() >= old(s)@.len(),
        all_nul(final(s)@),
    opens_invariants none
    no_unwind
{
    let ghost chars = s@;
    let mut bytes = into_bytes(take_string(s));
    proof {
        lemma_encoding_no_shorter(chars);
    }
    wipe_storage(&mut bytes);
    let mut zeros = zeros_into_string(bytes);
    std::mem::swap(s, &mut zeros);
}

/// A string that is zeroed when dropped.
///
/// It offers no clone: the only way to take the text out is
/// [`SafeString::into_inner`], after which the caller answers for it.
#[derive(Debug, PartialEq, Eq)]
pub struct SafeString {
    inner: String,
}

impl View for SafeString {
    type V = Seq<char>;

    closed spec fn view(&self) -> Seq<char> {
        self.inner@
    }
}

impl SafeString {
    /// An empty secret string.
    pub fn new() -> (r: SafeString)
        ensures
            r@ == Seq::<char>::empty(),
    {
        SafeString { inner: String::new() }
    }

    /// Takes `inner` into a secret string.
    pub fn from_string(inner: String) -> (r: SafeString)
        ensures
            r@ == inner@,
    {
        SafeString { inner }
    }

    /// Moves the text out. What is left behind is empty, so nothing of the
    /// secret stays in this buffer's memory.
    pub fn into_inner(self) -> (r: String)
        ensures
            r@ == self@,
    {
        let mut this = self;
        let mut out = String::new();
        std::mem::swap(&mut this.inner, &mut out);
        out
    }

    /// The text, borrowed.
    pub fn as_str(&self) -> (r: &str)
        ensures
            r@ == self@,
    {
        self.inner.as_str()
    }

    /// The string that holds the text, to be filled in place.
    pub(crate) fn as_mut_string(&mut self) -> (r: &mut String)
        ensures
            r@ == old(self)@,
            final(self)@ == final(r)@,
    {
        &mut self.inner
    }
}

impl std::ops::Deref for SafeString {
    type Target = String;

    fn deref(&self) -> (r: &String)
        ensures
            r@ == self@,
    {
        &self.inner
    }
}

impl std::ops::DerefMut for SafeString {
    fn deref_mut(&mut self) -> (r: &mut String)
        ensures
            r@ == old(self)@,
            final(self)@ == final(r)@,
    {
        &mut self.inner
    }
}

impl From<String> for SafeString {
    fn from(inner: String) -> (r: SafeString)
        ensures
            r@ == inner@,
    {
        SafeString { inner }
    }
}

impl<'a> From<&'a str> for SafeString {
    fn from(text: &'a str) -> (r: SafeString)
        ensures
            r@ == text@,
    {
        SafeString { inner: text.to_owned() }
    }
}

impl<'a> vstd::std_specs::convert::FromSpecImpl<&'a str> for SafeString {
    /// A `String` cannot be made from a `&str` in a specification, so the
    /// result is stated by the `ensures` of `from` alone.
    open spec fn obeys_from_spec() -> bool {
        false
    }

    closed spec fn from_spec(text: &'a str) -> SafeString {
        vstd::pervasive::arbitrary()
    }
}

impl vstd::std_specs::convert::FromSpecImpl<String> for SafeString {
    open spec fn obeys_from_spec() -> bool {
        true
    }

    closed spec fn from_spec(inner: String) -> SafeString {
        SafeString { inner }
    }
}

impl Drop for SafeString {
    /// Zeroes every byte of the storage; the string is left with one U+0000
    /// for each byte of the secret.
    fn drop(&mut self)
        ensures
            final(self)@.len() == encode_utf8(old(self)@).len(),
            final(self)@.len() >= old(self)@.len(),
            all_nul(final(self)@),
        opens_invariants none
        no_unwind
    {
        wipe_string(&mut self.inner);
    }
}

/// A byte vector that is zeroed when dropped.
#[derive(Debug, PartialEq, Eq)]
pub struct SafeVec {
    pub inner: Vec<u8>,
}

impl SafeVec {
    /// Takes `inner` into a secret byte vector.
    pub fn new(inner: Vec<u8>) -> (r: SafeVec)
        ensures
            r.inner == inner,
    {
        SafeVec { inner }
    }

    /// The bytes, to be changed in place.
    pub fn inner_mut(&mut self) -> (r: &mut Vec<u8>)
        ensures
            *r == old(self).inner,
            final(self).inner == *final(r),
    {
        &mut self.inner
    }
}

impl std::ops::Deref for SafeVec {
    type Target = [u8];

    fn deref(&self) -> (r: &[u8])
        ensures
            r@ == self.inner@,
    {
        self.inner.as_slice()
    }
}

impl std::ops::DerefMut for SafeVec {
    fn deref_mut(&mut self) -> (r: &mut [u8])
        ensures
            r@ == old(self).inner@,
            final(self).inner@ == final(r)@,
    {
        self.inner.as_mut_slice()
    }
}

impl Drop for SafeVec {
    /// Zeroes every byte of the storage, spare capacity included.
    fn drop(&mut self)
        ensures
            final(self).inner@.len() == old(self).inner@.len(),
            all_zero(final(self).inner@),
        opens_invariants none
        no_unwind
    {
        wipe_storage(&mut self.inner);
    }
}

/// Holds a string and zeroes it when done.
pub struct ZeroOnDrop {
    inner: Inner,
}

/// The string that [`ZeroOnDrop`] holds; wiping it is its own drop.
struct Inner(String);

impl View for ZeroOnDrop {
    type V = Seq<char>;

    closed spec fn view(&self) -> Seq<char> {
        self.inner.0@
    }
}

impl ZeroOnDrop {
    /// An empty string.
    pub fn new() -> (r: ZeroOnDrop)
        ensures
            r@ == Seq::<char>::empty(),
    {
        ZeroOnDrop { inner: Inner(String::new()) }
    }

    /// Moves the text out and leaves an empty string behind.
    pub fn into_inner(self) -> (r: String)
        ensures
            r@ == self@,
    {
        let mut this = self;
        let mut out = String::new();
        std::mem::swap(&mut this.inner.0, &mut out);
        out
    }
}

impl std::ops::Deref for ZeroOnDrop {
    type Target = String;

    fn deref(&self) -> (r: &String)
        ensures
            r@ == self@,
    {
        &self.inner.0
    }
}

impl std::ops::DerefMut for ZeroOnDrop {
    fn deref_mut(&mut self) -> (r: &mut String)
        ensures
            r@ == old(self)@,
            final(self)@ == final(r)@,
    {
        &mut self.inner.0
    }
}

impl Inner {
    /// Sets all bytes of the string to zero, in place: the string keeps one
    /// U+0000 for each of its bytes.
    fn zero_memory(&mut self)
        ensures
            final(self).0@.len() == encode_utf8(old(self).0@).len(),
            final(self).0@.len() >= old(self).0@.len(),
            all_nul(final(self).0@),
        opens_invariants none
        no_unwind
    {
        wipe_string(&mut self.0);
    }
}

impl View for Inner {
    type V = Seq<char>;

    closed spec fn view(&self) -> Seq<char> {
        self.0@
    }
}

impl Drop for Inner {
    fn drop(&mut self)
        ensures
            final(self)@.len() == encode_utf8(old(self)@).len(),
            final(self)@.len() >= old(self)@.len(),
            all_nul(final(self)@),
        opens_invariants none
        no_unwind
    {
        self.zero_memory();
    }
}

} // verus!
