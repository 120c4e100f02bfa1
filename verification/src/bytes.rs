use vstd::prelude::*;
use std::cmp::Ordering;

verus! {

/// Sign of the lexicographic comparison of two byte sequences: the first
/// differing byte decides, and when one sequence is a prefix of the other the
/// shorter one is smaller. `-1` means less, `0` equal, `1` greater.
pub open spec fn lex_sign(a: Seq<u8>, b: Seq<u8>) -> int
    decreases a.len(),
{
    if a.len() == 0 {
        if b.len() == 0 {
            0
        } else {
            -1
        }
    } else if b.len() == 0 {
        1
    } else if a[0] < b[0] {
        -1
    } else if a[0] > b[0] {
        1
    } else {
        lex_sign(a.drop_first(), b.drop_first())
    }
}

/// The ordering named by a comparison sign.
pub open spec fn sign_order(s: int) -> Ordering {
    if s < 0 {
        Ordering::Less
    } else if s == 0 {
        Ordering::Equal
    } else {
        Ordering::Greater
    }
}

/// Lexicographic order of two byte sequences.
pub open spec fn lex_order(a: Seq<u8>, b: Seq<u8>) -> Ordering {
    sign_order(lex_sign(a, b))
}

/// Swapping the operands of a comparison flips its sign.
pub proof fn law_lex_sign_antisymmetric(a: Seq<u8>, b: Seq<u8>)
    ensures
        lex_sign(a, b) == -lex_sign(b, a),
    decreases a.len(),
{
    if a.len() > 0 && b.len() > 0 && a[0] == b[0] {
        law_lex_sign_antisymmetric(a.drop_first(), b.drop_first());
    }
}

/// A comparison says "equal" exactly when the sequences are equal.
pub proof fn law_lex_sign_zero_iff_equal(a: Seq<u8>, b: Seq<u8>)
    ensures
        (lex_sign(a, b) == 0) <==> (a == b),
    decreases a.len(),
{
    if a.len() > 0 && b.len() > 0 && a[0] == b[0] {
        law_lex_sign_zero_iff_equal(a.drop_first(), b.drop_first());
        if a.drop_first() == b.drop_first() {
            assert(a =~= seq![a[0]].add(a.drop_first()));
            assert(b =~= seq![b[0]].add(b.drop_first()));
        }
    } else if a.len() > 0 && b.len() > 0 {
        assert(a[0] != b[0]);
    } else if a.len() == 0 && b.len() == 0 {
        assert(a =~= b);
    }
}

/// The order is transitive: less than a lesser sequence is lesser still.
pub proof fn law_lex_sign_transitive(a: Seq<u8>, b: Seq<u8>, c: Seq<u8>)
    requires
        lex_sign(a, b) < 0,
        lex_sign(b, c) < 0,
    ensures
        lex_sign(a, c) < 0,
    decreases a.len(),
{
    if a.len() > 0 && b.len() > 0 && c.len() > 0 && a[0] == b[0] && b[0] == c[0] {
        law_lex_sign_transitive(a.drop_first(), b.drop_first(), c.drop_first());
    }
}

/// Every comparison answers less, equal or greater.
pub proof fn law_lex_sign_range(a: Seq<u8>, b: Seq<u8>)
    ensures
        -1 <= lex_sign(a, b) <= 1,
    decreases a.len(),
{
    if a.len() > 0 && b.len() > 0 && a[0] == b[0] {
        law_lex_sign_range(a.drop_first(), b.drop_first());
    }
}

/// The order of byte sequences agrees with their equality, and swapping
/// the operands swaps less and greater.
pub proof fn law_lex_order_consistent(a: Seq<u8>, b: Seq<u8>)
    ensures
        (lex_order(a, b) == Ordering::Equal) <==> (a == b),
        (lex_order(a, b) == Ordering::Less) <==> (lex_order(b, a) == Ordering::Greater),
{
    law_lex_sign_zero_iff_equal(a, b);
    law_lex_sign_antisymmetric(a, b);
}

/// The first differing byte decides the order, whatever the lengths: where
/// the sequences agree before position `k` and differ at `k`, the one with
/// the smaller byte at `k` comes first.
pub proof fn law_lex_first_difference(a: Seq<u8>, b: Seq<u8>, k: int)
    requires
        0 <= k < a.len(),
        k < b.len(),
        a[k] != b[k],
        forall|j: int| 0 <= j < k ==> a[j] == b[j],
    ensures
        lex_sign(a, b) == (if a[k] < b[k] { -1int } else { 1int }),
    decreases k,
{
    if k > 0 {
        assert(a[0] == b[0]);
        let a1 = a.drop_first();
        let b1 = b.drop_first();
        assert forall|j: int| 0 <= j < k - 1 implies a1[j] == b1[j] by {
            assert(a1[j] == a[j + 1]);
            assert(b1[j] == b[j + 1]);
        };
        law_lex_first_difference(a1, b1, k - 1);
    }
}

/// A proper prefix comes before the longer sequence.
pub proof fn law_lex_proper_prefix(a: Seq<u8>, b: Seq<u8>)
    requires
        a.len() < b.len(),
        forall|j: int| 0 <= j < a.len() ==> a[j] == b[j],
    ensures
        lex_sign(a, b) == -1,
    decreases a.len(),
{
    if a.len() > 0 {
        assert(a[0] == b[0]);
        let a1 = a.drop_first();
        let b1 = b.drop_first();
        assert forall|j: int| 0 <= j < a1.len() implies a1[j] == b1[j] by {
            assert(a1[j] == a[j + 1]);
            assert(b1[j] == b[j + 1]);
        };
        law_lex_proper_prefix(a1, b1);
    }
}

/// Copies a byte slice into a fresh vector.
pub fn copy_bytes(data: &[u8]) -> (r: Vec<u8>)
    ensures
        r@ == data@,
{
    let mut out: Vec<u8> = Vec::new();
    let mut i: usize = 0;
    while i < data.len()
        invariant
            i <= data@.len(),
            out@ == data@.subrange(0, i as int),
        decreases data@.len() - i,
    {
        out.push(data[i]);
        i = i + 1;
        assert(out@ =~= data@.subrange(0, i as int));
    }
    assert(out@ =~= data@);
    out
}

/// Byte-wise equality of two slices.
pub fn bytes_equal(a: &[u8], b: &[u8]) -> (r: bool)
    ensures
        r == (a@ == b@),
{
    if a.len() != b.len() {
        return false;
    }
    let mut i: usize = 0;
    while i < a.len()
        invariant
            a@.len() == b@.len(),
            i <= a@.len(),
            forall|j: int| 0 <= j < i ==> a@[j] == b@[j],
        decreases a@.len() - i,
    {
        if a[i] != b[i] {
            return false;
        }
        i = i + 1;
    }
    assert(a@ =~= b@);
    true
}

proof fn lemma_lex_order_skip(a: Seq<u8>, b: Seq<u8>, i: int)
    requires
        0 <= i <= a.len(),
        i <= b.len(),
        forall|j: int| 0 <= j < i ==> a[j] == b[j],
    ensures
        lex_sign(a, b) == lex_sign(a.subrange(i, a.len() as int), b.subrange(i, b.len() as int)),
    decreases i,
{
    if i > 0 {
        lemma_lex_order_skip(a.drop_first(), b.drop_first(), i - 1);
        assert(a.drop_first().subrange(i - 1, a.drop_first().len() as int) =~= a.subrange(
            i,
            a.len() as int,
        ));
        assert(b.drop_first().subrange(i - 1, b.drop_first().len() as int) =~= b.subrange(
            i,
            b.len() as int,
        ));
    } else {
        assert(a.subrange(0, a.len() as int) =~= a);
        assert(b.subrange(0, b.len() as int) =~= b);
    }
}

/// Sign of the lexicographic comparison of two byte slices.
pub fn compare_sign(a: &[u8], b: &[u8]) -> (r: i8)
    ensures
        r == lex_sign(a@, b@),
{
    let mut i: usize = 0;
    while i < a.len() && i < b.len() && a[i] == b[i]
        invariant
            i <= a@.len(),
            i <= b@.len(),
            forall|j: int| 0 <= j < i ==> a@[j] == b@[j],
        decreases a@.len() - i,
    {
        i = i + 1;
    }
    proof {
        lemma_lex_order_skip(a@, b@, i as int);
    }
    let ghost ra = a@.subrange(i as int, a@.len() as int);
    let ghost rb = b@.subrange(i as int, b@.len() as int);
    assert(ra.len() == a@.len() - i);
    assert(rb.len() == b@.len() - i);
    if i < a.len() && i < b.len() {
        assert(ra[0] == a@[i as int]);
        assert(rb[0] == b@[i as int]);
        assert(a@[i as int] != b@[i as int]);
        if a[i] < b[i] {
            -1
        } else {
            1
        }
    } else if i < a.len() {
        1
    } else if i < b.len() {
        -1
    } else {
        0
    }
}

/// Three-way lexicographic comparison of two byte slices.
pub fn bytes_compare(a: &[u8], b: &[u8]) -> (r: Ordering)
    ensures
        r == lex_order(a@, b@),
{
    let s = compare_sign(a, b);
    if s < 0 {
        Ordering::Less
    } else if s == 0 {
        Ordering::Equal
    } else {
        Ordering::Greater
    }
}

/// Two strings are equal exactly when their UTF-8 encodings are.
proof fn lemma_same_bytes_same_chars(a: Seq<char>, b: Seq<char>)
    ensures
        (vstd::utf8::encode_utf8(a) == vstd::utf8::encode_utf8(b)) <==> (a == b),
{
    if vstd::utf8::encode_utf8(a) == vstd::utf8::encode_utf8(b) {
        vstd::utf8::encode_utf8_decode_utf8(a);
        vstd::utf8::encode_utf8_decode_utf8(b);
    }
}

/// Whether two strings hold the same characters, compared byte by byte.
pub fn text_equal(a: &str, b: &str) -> (r: bool)
    ensures
        r == (a@ == b@),
{
    let r = bytes_equal(a.as_bytes(), b.as_bytes());
    proof {
        lemma_same_bytes_same_chars(a@, b@);
    }
    r
}

/// A shared immutable byte sequence.
///
/// Constructors that take references copy the data.
#[derive(Debug, Hash, Eq, Ord)]
pub struct Bytes {
    data: Vec<u8>,
}

impl View for Bytes {
    type V = Seq<u8>;

    closed spec fn view(&self) -> Seq<u8> {
        self.data@
    }
}

impl Bytes {
    /// Copies `data` into a new byte sequence.
    pub fn new(data: &[u8]) -> (r: Bytes)
        ensures
            r@ == data@,
    {
        Bytes { data: copy_bytes(data) }
    }

    /// Creates a byte sequence holding the static `data`.
    pub fn from_static(data: &'static [u8]) -> (r: Bytes)
        ensures
            r@ == data@,
    {
        Bytes::new(data)
    }

    /// Takes ownership of `data` without copying it.
    pub fn from_owned(data: Vec<u8>) -> (r: Bytes)
        ensures
            r@ == data@,
    {
        Bytes { data }
    }

    /// The bytes held.
    pub fn as_slice(&self) -> (r: &[u8])
        ensures
            r@ == self@,
    {
        self.data.as_slice()
    }

    /// Number of bytes held.
    pub fn len(&self) -> (r: usize)
        ensures
            r == self@.len(),
    {
        self.data.len()
    }

    /// Whether no byte is held.
    pub fn is_empty(&self) -> (r: bool)
        ensures
            r == (self@.len() == 0),
    {
        self.data.len() == 0
    }
}

impl PartialEq for Bytes {
    fn eq(&self, other: &Bytes) -> (r: bool) {
        bytes_equal(self.data.as_slice(), other.data.as_slice())
    }
}

impl vstd::std_specs::cmp::PartialEqSpecImpl for Bytes {
    open spec fn obeys_eq_spec() -> bool {
        true
    }

    open spec fn eq_spec(&self, other: &Bytes) -> bool {
        self@ == other@
    }
}

impl PartialOrd for Bytes {
    fn partial_cmp(&self, other: &Bytes) -> (r: Option<Ordering>) {
        Some(bytes_compare(self.data.as_slice(), other.data.as_slice()))
    }
}

impl vstd::std_specs::cmp::PartialOrdSpecImpl for Bytes {
    open spec fn obeys_partial_cmp_spec() -> bool {
        true
    }

    open spec fn partial_cmp_spec(&self, other: &Bytes) -> Option<Ordering> {
        Some(lex_order(self@, other@))
    }
}

impl PartialEq<[u8]> for Bytes {
    fn eq(&self, other: &[u8]) -> (r: bool) {
        bytes_equal(self.data.as_slice(), other)
    }
}

impl vstd::std_specs::cmp::PartialEqSpecImpl<[u8]> for Bytes {
    open spec fn obeys_eq_spec() -> bool {
        true
    }

    open spec fn eq_spec(&self, other: &[u8]) -> bool {
        self@ == other@
    }
}

impl<'a> PartialEq<&'a [u8]> for Bytes {
    fn eq(&self, other: &&'a [u8]) -> (r: bool) {
        bytes_equal(self.data.as_slice(), *other)
    }
}

impl<'a> vstd::std_specs::cmp::PartialEqSpecImpl<&'a [u8]> for Bytes {
    open spec fn obeys_eq_spec() -> bool {
        true
    }

    open spec fn eq_spec(&self, other: &&'a [u8]) -> bool {
        self@ == (*other)@
    }
}

impl<'a> PartialEq<Bytes> for &'a [u8] {
    fn eq(&self, other: &Bytes) -> (r: bool) {
        bytes_equal(*self, other.data.as_slice())
    }
}

impl<'a> vstd::std_specs::cmp::PartialEqSpecImpl<Bytes> for &'a [u8] {
    open spec fn obeys_eq_spec() -> bool {
        true
    }

    open spec fn eq_spec(&self, other: &Bytes) -> bool {
        (*self)@ == other@
    }
}

impl PartialEq<Vec<u8>> for Bytes {
    fn eq(&self, other: &Vec<u8>) -> (r: bool) {
        bytes_equal(self.data.as_slice(), other.as_slice())
    }
}

impl vstd::std_specs::cmp::PartialEqSpecImpl<Vec<u8>> for Bytes {
    open spec fn obeys_eq_spec() -> bool {
        true
    }

    open spec fn eq_spec(&self, other: &Vec<u8>) -> bool {
        self@ == other@
    }
}

impl<'a> PartialOrd<&'a [u8]> for Bytes {
    fn partial_cmp(&self, other: &&'a [u8]) -> (r: Option<Ordering>) {
        Some(bytes_compare(self.data.as_slice(), *other))
    }
}

impl<'a> vstd::std_specs::cmp::PartialOrdSpecImpl<&'a [u8]> for Bytes {
    open spec fn obeys_partial_cmp_spec() -> bool {
        true
    }

    open spec fn partial_cmp_spec(&self, other: &&'a [u8]) -> Option<Ordering> {
        Some(lex_order(self@, (*other)@))
    }
}

impl<'a> PartialOrd<Bytes> for &'a [u8] {
    fn partial_cmp(&self, other: &Bytes) -> (r: Option<Ordering>) {
        Some(bytes_compare(*self, other.data.as_slice()))
    }
}

impl<'a> vstd::std_specs::cmp::PartialOrdSpecImpl<Bytes> for &'a [u8] {
    open spec fn obeys_partial_cmp_spec() -> bool {
        true
    }

    open spec fn partial_cmp_spec(&self, other: &Bytes) -> Option<Ordering> {
        Some(lex_order((*self)@, other@))
    }
}

impl<'a> From<&'a [u8]> for Bytes {
    fn from(value: &'a [u8]) -> (r: Bytes)
        ensures
            r@ == value@,
    {
        Bytes::new(value)
    }
}

impl<'a> vstd::std_specs::convert::FromSpecImpl<&'a [u8]> for Bytes {
    // Two `Bytes` with equal contents need not be equal values in the spec
    // language (they own distinct vectors), so the result is described by the
    // `ensures` of `from` itself rather than by a single spec value.
    open spec fn obeys_from_spec() -> bool {
        false
    }

    closed spec fn from_spec(v: &'a [u8]) -> Bytes {
        arbitrary()
    }
}

impl<'a, const N: usize> From<&'a [u8; N]> for Bytes {
    fn from(value: &'a [u8; N]) -> (r: Bytes)
        ensures
            r@ == value@,
    {
        Bytes::new(value.as_slice())
    }
}

impl<'a, const N: usize> vstd::std_specs::convert::FromSpecImpl<&'a [u8; N]> for Bytes {
    // As for slices, the result is described by the `ensures` of `from`.
    open spec fn obeys_from_spec() -> bool {
        false
    }

    closed spec fn from_spec(v: &'a [u8; N]) -> Bytes {
        arbitrary()
    }
}

impl<'a> From<&'a Vec<u8>> for Bytes {
    fn from(value: &'a Vec<u8>) -> (r: Bytes)
        ensures
            r@ == value@,
    {
        Bytes::new(value.as_slice())
    }
}

impl<'a> vstd::std_specs::convert::FromSpecImpl<&'a Vec<u8>> for Bytes {
    // As for slices, the result is described by the `ensures` of `from`.
    open spec fn obeys_from_spec() -> bool {
        false
    }

    closed spec fn from_spec(v: &'a Vec<u8>) -> Bytes {
        arbitrary()
    }
}

} // verus!
