//! Content digests: SHA-256 of a file's bytes, as lowercase hexadecimal text.

use vstd::prelude::*;

use sha2::Digest;

verus! {

/// The bytes that a SHA-256 state has absorbed so far.
pub uninterp spec fn absorbed(state: ContentHasher) -> Seq<u8>;

/// The SHA-256 digest of a byte sequence.
pub uninterp spec fn sha256(data: Seq<u8>) -> Seq<u8>;

/// The lowercase hexadecimal digit of a value below 16.
pub open spec fn hex_digit(n: int) -> char {
    if n == 0 { '0' } else if n == 1 { '1' } else if n == 2 { '2' } else if n == 3 { '3' }
    else if n == 4 { '4' } else if n == 5 { '5' } else if n == 6 { '6' } else if n == 7 { '7' }
    else if n == 8 { '8' } else if n == 9 { '9' } else if n == 10 { 'a' } else if n == 11 { 'b' }
    else if n == 12 { 'c' } else if n == 13 { 'd' } else if n == 14 { 'e' } else { 'f' }
}

/// Bytes in lowercase hexadecimal, two digits per byte, high digit first.
pub open spec fn hex_of(bytes: Seq<u8>) -> Seq<char>
    decreases bytes.len(),
{
    if bytes.len() == 0 {
        Seq::empty()
    } else {
        hex_of(bytes.drop_last()) + seq![
            hex_digit(bytes.last() as int / 16),
            hex_digit(bytes.last() as int % 16),
        ]
    }
}

/// The lowercase hexadecimal SHA-256 digest of a byte sequence.
pub open spec fn sha256_hex(data: Seq<u8>) -> Seq<char> {
    hex_of(sha256(data))
}

/// Hexadecimal text has two digits per byte.
pub proof fn lemma_hex_len(bytes: Seq<u8>)
    ensures
        hex_of(bytes).len() == 2 * bytes.len(),
    decreases bytes.len(),
{
    if bytes.len() > 0 {
        lemma_hex_len(bytes.drop_last());
    }
}

/// The digit of a value below 16, as a string.
fn digit_str(n: u8) -> (r: &'static str)
    requires
        n < 16,
    ensures
        r@ == seq![hex_digit(n as int)],
{
    proof {
        reveal_strlit("0"); reveal_strlit("1"); reveal_strlit("2"); reveal_strlit("3");
        reveal_strlit("4"); reveal_strlit("5"); reveal_strlit("6"); reveal_strlit("7");
        reveal_strlit("8"); reveal_strlit("9"); reveal_strlit("a"); reveal_strlit("b");
        reveal_strlit("c"); reveal_strlit("d"); reveal_strlit("e"); reveal_strlit("f");
    }
    let r = match n {
        0 => "0", 1 => "1", 2 => "2", 3 => "3", 4 => "4", 5 => "5", 6 => "6", 7 => "7",
        8 => "8", 9 => "9", 10 => "a", 11 => "b", 12 => "c", 13 => "d", 14 => "e", _ => "f",
    };
    assert(r@ =~= seq![hex_digit(n as int)]);
    r
}

/// Bytes in lowercase hexadecimal.
pub fn to_hex(bytes: &[u8]) -> (r: String)
    ensures
        r@ == hex_of(bytes@),
        r@.len() == 2 * bytes@.len(),
{
    let mut s = String::new();
    let mut i: usize = 0;
    while i < bytes.len()
        invariant
            0 <= i <= bytes@.len(),
            s@ == hex_of(bytes@.take(i as int)),
        decreases bytes@.len() - i,
    {
        let b = bytes[i];
        proof {
            assert(bytes@.take(i as int + 1).drop_last() =~= bytes@.take(i as int));
            assert(bytes@.take(i as int + 1).last() == b);
        }
        s.append(digit_str(b / 16));
        s.append(digit_str(b % 16));
        assert(s@ =~= hex_of(bytes@.take(i as int + 1)));
        i = i + 1;
    }
    assert(bytes@.take(bytes@.len() as int) =~= bytes@);
    proof {
        lemma_hex_len(bytes@);
    }
    s
}

/// A streaming SHA-256 state; bytes are fed in chunks of any size.
#[verifier::external_body]
pub struct ContentHasher {
    state: sha2::Sha256,
}

impl ContentHasher {
    /// Relies on `sha2::Sha256::new`: a state that has absorbed nothing.
    #[verifier::external_body]
    pub fn new() -> (r: ContentHasher)
        ensures
            absorbed(r) == Seq::<u8>::empty(),
    {
        ContentHasher { state: sha2::Sha256::new() }
    }

    /// Relies on `sha2::Sha256::update`: the chunk is appended to the absorbed bytes.
    #[verifier::external_body]
    pub fn update(&mut self, chunk: &[u8])
        ensures
            absorbed(*final(self)) == absorbed(*old(self)) + chunk@,
    {
        self.state.update(chunk)
    }

    /// Relies on `sha2::Sha256::finalize`: the 32-byte digest of the absorbed bytes.
    #[verifier::external_body]
    pub fn finalize_bytes(self) -> (r: Vec<u8>)
        ensures
            r@ == sha256(absorbed(self)),
            r@.len() == 32,
    {
        self.state.finalize().to_vec()
    }

    /// The digest of the absorbed bytes: 64 lowercase hexadecimal digits.
    pub fn finalize(self) -> (r: String)
        ensures
            r@ == sha256_hex(absorbed(self)),
            r@.len() == 64,
    {
        let d = self.finalize_bytes();
        to_hex(d.as_slice())
    }
}

/// All chunks, concatenated in order.
pub open spec fn concat_chunks(chunks: Seq<Seq<u8>>) -> Seq<u8>
    decreases chunks.len(),
{
    if chunks.len() == 0 {
        Seq::empty()
    } else {
        concat_chunks(chunks.drop_last()) + chunks.last()
    }
}

/// The views of a list of chunks.
pub open spec fn chunks_view(chunks: Seq<Vec<u8>>) -> Seq<Seq<u8>> {
    chunks.map_values(|c: Vec<u8>| c@)
}

/// The digest of a byte sequence held in memory.
pub fn hash_bytes(data: &[u8]) -> (r: String)
    ensures
        r@ == sha256_hex(data@),
        r@.len() == 64,
{
    let mut h = ContentHasher::new();
    h.update(data);
    assert(Seq::<u8>::empty() + data@ =~= data@);
    h.finalize()
}

/// The digest of the bytes of `chunks` taken in order, fed one chunk at a time
/// as a file is read.
pub fn hash_chunks(chunks: &Vec<Vec<u8>>) -> (r: String)
    ensures
        r@ == sha256_hex(concat_chunks(chunks_view(chunks@))),
        r@.len() == 64,
{
    let mut h = ContentHasher::new();
    let mut i: usize = 0;
    while i < chunks.len()
        invariant
            0 <= i <= chunks@.len(),
            absorbed(h) == concat_chunks(chunks_view(chunks@).take(i as int)),
        decreases chunks@.len() - i,
    {
        proof {
            let cv = chunks_view(chunks@);
            assert(cv.take(i as int + 1).drop_last() =~= cv.take(i as int));
            assert(cv.take(i as int + 1).last() == chunks@[i as int]@);
        }
        h.update(chunks[i].as_slice());
        i = i + 1;
    }
    assert(chunks_view(chunks@).take(chunks@.len() as int) =~= chunks_view(chunks@));
    h.finalize()
}

/// The digest depends on the content alone: two ways of cutting the same bytes
/// into chunks give the same digest, and equal to the digest of the bytes whole.
pub proof fn lemma_digest_content_only(a: Seq<Seq<u8>>, b: Seq<Seq<u8>>)
    requires
        concat_chunks(a) == concat_chunks(b),
    ensures
        sha256_hex(concat_chunks(a)) == sha256_hex(concat_chunks(b)),
        sha256_hex(concat_chunks(a)) == sha256_hex(concat_chunks(seq![concat_chunks(b)])),
{
    assert(seq![concat_chunks(b)].drop_last() =~= Seq::<Seq<u8>>::empty());
    assert(Seq::<u8>::empty() + concat_chunks(b) =~= concat_chunks(b));
    assert(concat_chunks(Seq::<Seq<u8>>::empty()) == Seq::<u8>::empty());
    assert(concat_chunks(seq![concat_chunks(b)]) == concat_chunks(b));
}

} // verus!
