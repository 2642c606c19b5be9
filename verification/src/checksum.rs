//! SHA-256 checksums.

use crate::text::{alike, ascii_lower_text, law_same_lower_case, same_but_case};
use sha2::{Digest, Sha256};
use vstd::prelude::*;

verus! {

/// A `sha2::Sha256`: the bytes that it has been fed so far, on their way to a hash.
#[verifier::external_body]
pub struct Hasher {
    inner: Sha256,
}

/// The bytes that a hasher has been fed.
pub uninterp spec fn fed(hasher: Hasher) -> Seq<u8>;

/// The SHA-256 hash of the bytes that a `sha2::Sha256` was fed.
pub uninterp spec fn sha256(bytes: Seq<u8>) -> Seq<u8>;

/// `sha2::Sha256::new` makes a hasher that has been fed nothing.
#[verifier::external_body]
fn new_hasher() -> (r: Hasher)
    ensures
        fed(r) == Seq::<u8>::empty(),
{
    Hasher { inner: Sha256::new() }
}

/// `sha2::Sha256::update` feeds a hasher more bytes, behind those it has been fed
/// before.
#[verifier::external_body]
fn feed_hasher(hasher: &mut Hasher, bytes: &[u8])
    ensures
        fed(*final(hasher)) == fed(*old(hasher)) + bytes@,
{
    hasher.inner.update(bytes);
}

/// `sha2::Sha256::finalize` gives the hash of all that the hasher was fed, which
/// is 32 bytes long.
#[verifier::external_body]
fn finish_hasher(hasher: Hasher) -> (r: Vec<u8>)
    ensures
        r@ == sha256(fed(hasher)),
        r@.len() == 32,
{
    hasher.inner.finalize().to_vec()
}

/// The lower-case hexadecimal digit for `n`, below sixteen.
pub open spec fn hex_digit(n: int) -> char {
    if n < 10 {
        (48 + n) as char
    } else {
        (87 + n) as char
    }
}

/// Bytes in hexadecimal notation: two lower-case digits for each.
pub open spec fn hex_text(bytes: Seq<u8>) -> Seq<char> {
    Seq::new(
        2 * bytes.len(),
        |i: int|
            if i % 2 == 0 {
                hex_digit(bytes[i / 2] as int / 16)
            } else {
                hex_digit(bytes[i / 2] as int % 16)
            },
    )
}

/// `hex::encode` writes each byte as two lower-case hexadecimal digits, the higher
/// one first.
#[verifier::external_body]
fn hex_encode(bytes: &Vec<u8>) -> (r: String)
    ensures
        r@ == hex_text(bytes@),
{
    hex::encode(bytes)
}

/// The checksum of some bytes: their SHA-256 hash in hexadecimal notation.
pub open spec fn checksum_of(bytes: Seq<u8>) -> Seq<char> {
    hex_text(sha256(bytes))
}

/// Whether a checksum is the one that was expected: the case of its letters does
/// not matter.
pub open spec fn is_expected(actual: Seq<char>, expected: Seq<char>) -> bool {
    ascii_lower_text(actual) == ascii_lower_text(expected)
}

/// Whether a checksum is the one that was expected.
pub fn checksum_matches(actual: &str, expected: &str) -> (r: bool)
    ensures
        r == is_expected(actual@, expected@),
{
    same_but_case(actual, expected)
}

/// Computes the checksum of bytes that come in chunks.
pub struct Checksum {
    hasher: Hasher,
}

impl View for Checksum {
    type V = Seq<u8>;

    /// The bytes so far.
    closed spec fn view(&self) -> Seq<u8> {
        fed(self.hasher)
    }
}

impl Checksum {
    /// A checksum of nothing yet.
    pub fn new() -> (r: Self)
        ensures
            r@ == Seq::<u8>::empty(),
    {
        Checksum { hasher: new_hasher() }
    }

    /// Take the next chunk.
    pub fn update(&mut self, chunk: &[u8])
        ensures
            final(self)@ == old(self)@ + chunk@,
    {
        feed_hasher(&mut self.hasher, chunk);
    }

    /// The checksum of all the chunks.
    pub fn finish(self) -> (r: String)
        ensures
            r@ == checksum_of(self@),
            r@ == hex_text(sha256(self@)),
            r@.len() == 64,
    {
        hex_encode(&finish_hasher(self.hasher))
    }
}

// ----------------------------------------------------------------------- laws

/// All the chunks in a row.
pub open spec fn in_a_row(chunks: Seq<Seq<u8>>) -> Seq<u8>
    decreases chunks.len(),
{
    if chunks.len() == 0 {
        Seq::empty()
    } else {
        in_a_row(chunks.drop_last()) + chunks.last()
    }
}

/// How bytes are cut into chunks does not matter for their checksum: splitting
/// the chunk at `i` in two changes nothing.
pub proof fn law_chunks_do_not_matter(chunks: Seq<Seq<u8>>, i: int, at: int)
    requires
        0 <= i < chunks.len(),
        0 <= at <= chunks[i].len(),
    ensures
        checksum_of(
            in_a_row(
                chunks.take(i) + seq![chunks[i].take(at), chunks[i].skip(at)] + chunks.skip(i + 1),
            ),
        ) == checksum_of(in_a_row(chunks)),
{
    let cut = chunks.take(i) + seq![chunks[i].take(at), chunks[i].skip(at)];
    assert(cut.drop_last() =~= chunks.take(i).push(chunks[i].take(at)));
    assert(cut.drop_last().drop_last() =~= chunks.take(i));
    assert(in_a_row(cut.drop_last()) == in_a_row(chunks.take(i)) + chunks[i].take(at));
    assert(in_a_row(cut) =~= in_a_row(chunks.take(i)) + chunks[i]);
    assert(chunks.take(i + 1).drop_last() =~= chunks.take(i));
    assert(in_a_row(cut) == in_a_row(chunks.take(i + 1)));
    lemma_same_rest(cut, chunks.take(i + 1), chunks.skip(i + 1));
    assert(chunks.take(i + 1) + chunks.skip(i + 1) =~= chunks);
}

proof fn lemma_same_rest(a: Seq<Seq<u8>>, b: Seq<Seq<u8>>, rest: Seq<Seq<u8>>)
    requires
        in_a_row(a) == in_a_row(b),
    ensures
        in_a_row(a + rest) == in_a_row(b + rest),
    decreases rest.len(),
{
    if rest.len() == 0 {
        assert(a + rest =~= a);
        assert(b + rest =~= b);
    } else {
        lemma_same_rest(a, b, rest.drop_last());
        assert((a + rest).drop_last() =~= a + rest.drop_last());
        assert((b + rest).drop_last() =~= b + rest.drop_last());
    }
}

/// A checksum is the expected one whatever the case of either.
pub proof fn law_case_does_not_matter(actual: Seq<char>, expected: Seq<char>)
    ensures
        is_expected(actual, expected) <==> is_expected(ascii_lower_text(actual), expected),
        is_expected(actual, expected) <==> is_expected(expected, actual),
{
    assert(ascii_lower_text(ascii_lower_text(actual)) =~= ascii_lower_text(actual));
}

/// Whether two checksums are equally long and the same at every place, but for the
/// case of letters.
pub open spec fn same_checksum(actual: Seq<char>, expected: Seq<char>) -> bool {
    &&& actual.len() == expected.len()
    &&& forall|i: int| 0 <= i < actual.len() ==> alike(#[trigger] actual[i], expected[i])
}

/// A checksum is the expected one exactly when the two are the same up to case:
/// neither a part of it nor one with more behind it will do.
pub proof fn law_expected_up_to_case(actual: Seq<char>, expected: Seq<char>)
    ensures
        is_expected(actual, expected) <==> same_checksum(actual, expected),
{
    law_same_lower_case(actual, expected);
}

/// The comparison of checksums says yes exactly when they are the same up to case.
pub proof fn law_comparison_of_checksums(actual: &str, expected: &str, r: bool)
    requires
        call_ensures(checksum_matches, (actual, expected), r),
    ensures
        r <==> same_checksum(actual@, expected@),
{
    law_expected_up_to_case(actual@, expected@);
}

/// What a hexadecimal digit stands for.
pub open spec fn hex_value(c: char) -> int {
    if '0' <= c <= '9' {
        c as u32 - '0' as u32
    } else {
        c as u32 - 'a' as u32 + 10
    }
}

/// A checksum reads back as the hash: two digits for each byte, the higher one first,
/// all of them decimal digits or lower-case letters up to `f`.
pub proof fn law_checksum_reads_back(checksum: Checksum, r: String, i: int)
    requires
        call_ensures(Checksum::finish, (checksum,), r),
        0 <= i < sha256(checksum@).len(),
    ensures
        r@.len() == 2 * sha256(checksum@).len(),
        16 * hex_value(r@[2 * i]) + hex_value(r@[2 * i + 1]) == sha256(checksum@)[i],
        '0' <= r@[2 * i] <= '9' || 'a' <= r@[2 * i] <= 'f',
        '0' <= r@[2 * i + 1] <= '9' || 'a' <= r@[2 * i + 1] <= 'f',
{
    let byte = sha256(checksum@)[i] as int;
    assert((2 * i) / 2 == i && (2 * i + 1) / 2 == i);
    assert(r@[2 * i] == hex_digit(byte / 16));
    assert(r@[2 * i + 1] == hex_digit(byte % 16));
    lemma_hex_digit(byte / 16);
    lemma_hex_digit(byte % 16);
}

proof fn lemma_hex_digit(n: int)
    requires
        0 <= n < 16,
    ensures
        hex_value(hex_digit(n)) == n,
        '0' <= hex_digit(n) <= '9' || 'a' <= hex_digit(n) <= 'f',
{
}

/// The checksum of bytes that came in chunks is that of all of them in a row.
pub proof fn law_checksum_of_chunks(chunks: Seq<Seq<u8>>, more: Seq<Seq<u8>>)
    ensures
        in_a_row(chunks + more) == in_a_row(chunks) + in_a_row(more),
        chunks.len() == 1 ==> in_a_row(chunks) == chunks[0],
    decreases more.len(),
{
    reveal_with_fuel(in_a_row, 2);
    if chunks.len() == 1 {
        assert(in_a_row(chunks) =~= chunks[0]);
    }
    if more.len() == 0 {
        assert(chunks + more =~= chunks);
        assert(in_a_row(chunks) + in_a_row(more) =~= in_a_row(chunks));
    } else {
        law_checksum_of_chunks(chunks, more.drop_last());
        assert((chunks + more).drop_last() =~= chunks + more.drop_last());
        assert(in_a_row(chunks + more) =~= in_a_row(chunks) + in_a_row(more));
    }
}

} // verus!
