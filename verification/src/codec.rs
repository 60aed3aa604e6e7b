//! The module buffer codec: bijective conversion between a module's native
//! word-sequence form and the byte-sequence form used for storage and
//! transfer. Words are laid out least-significant byte first; readers deduce
//! the word order from the fixed magic constant that every assembled module
//! starts with, so the codec itself never reorders or fails on words.

use vstd::prelude::*;

verus! {

/// The bytes of one word, least significant first.
pub open spec fn word_bytes(w: u32) -> Seq<u8> {
    seq![
        (w & 0xff) as u8,
        ((w >> 8) & 0xff) as u8,
        ((w >> 16) & 0xff) as u8,
        ((w >> 24) & 0xff) as u8,
    ]
}

/// The byte-sequence form of a word sequence.
pub open spec fn words_to_bytes(ws: Seq<u32>) -> Seq<u8>
    decreases ws.len(),
{
    if ws.len() == 0 {
        Seq::empty()
    } else {
        word_bytes(ws[0]) + words_to_bytes(ws.subrange(1, ws.len() as int))
    }
}

/// The word formed from four bytes, least significant first.
pub open spec fn word_of_bytes(b0: u8, b1: u8, b2: u8, b3: u8) -> u32 {
    (b0 as u32) | ((b1 as u32) << 8) | ((b2 as u32) << 16) | ((b3 as u32) << 24)
}

/// The word-sequence form of a byte sequence; meaningful when the length is
/// a multiple of the word size.
pub open spec fn bytes_to_words(bs: Seq<u8>) -> Seq<u32>
    decreases bs.len(),
{
    if bs.len() < 4 {
        Seq::empty()
    } else {
        seq![word_of_bytes(bs[0], bs[1], bs[2], bs[3])] + bytes_to_words(
            bs.subrange(4, bs.len() as int),
        )
    }
}

/// Reassembling the four bytes of a word gives the word back.
proof fn lemma_word_round_trip(w: u32)
    ensures
        word_of_bytes(
            (w & 0xff) as u8,
            ((w >> 8) & 0xff) as u8,
            ((w >> 16) & 0xff) as u8,
            ((w >> 24) & 0xff) as u8,
        ) == w,
{
    assert(((w & 0xff) as u8 as u32) | (((w >> 8) & 0xff) as u8 as u32) << 8 | (((w >> 16)
        & 0xff) as u8 as u32) << 16 | (((w >> 24) & 0xff) as u8 as u32) << 24 == w)
        by (bit_vector);
}

/// Encoding distributes over concatenation of word sequences.
proof fn lemma_words_to_bytes_append(a: Seq<u32>, b: Seq<u32>)
    ensures
        words_to_bytes(a + b) == words_to_bytes(a) + words_to_bytes(b),
    decreases a.len(),
{
    if a.len() == 0 {
        assert(a + b =~= b);
        assert(Seq::<u8>::empty() + words_to_bytes(b) =~= words_to_bytes(b));
    } else {
        let tail = a.subrange(1, a.len() as int);
        lemma_words_to_bytes_append(tail, b);
        assert((a + b).subrange(1, (a + b).len() as int) =~= tail + b);
        assert((a + b)[0] == a[0]);
        assert(word_bytes(a[0]) + (words_to_bytes(tail) + words_to_bytes(b)) =~= (word_bytes(a[0])
            + words_to_bytes(tail)) + words_to_bytes(b));
    }
}

/// Encoding yields four bytes per word.
pub proof fn lemma_words_to_bytes_len(ws: Seq<u32>)
    ensures
        words_to_bytes(ws).len() == 4 * ws.len(),
    decreases ws.len(),
{
    if ws.len() > 0 {
        lemma_words_to_bytes_len(ws.subrange(1, ws.len() as int));
    }
}

/// Decoding distributes over concatenation after any whole number of words.
proof fn lemma_bytes_to_words_append(a: Seq<u8>, b: Seq<u8>)
    requires
        a.len() % 4 == 0,
    ensures
        bytes_to_words(a + b) == bytes_to_words(a) + bytes_to_words(b),
    decreases a.len(),
{
    if a.len() == 0 {
        assert(a + b =~= b);
        assert(Seq::<u32>::empty() + bytes_to_words(b) =~= bytes_to_words(b));
    } else {
        let tail = a.subrange(4, a.len() as int);
        lemma_bytes_to_words_append(tail, b);
        assert((a + b).subrange(4, (a + b).len() as int) =~= tail + b);
        assert(seq![word_of_bytes(a[0], a[1], a[2], a[3])] + (bytes_to_words(tail)
            + bytes_to_words(b)) =~= (seq![word_of_bytes(a[0], a[1], a[2], a[3])]
            + bytes_to_words(tail)) + bytes_to_words(b));
    }
}

/// The codec is a bijection on well-formed data: decoding an encoded word
/// sequence gives the original back, for every finite word sequence
/// including the empty one.
pub proof fn lemma_codec_round_trip(ws: Seq<u32>)
    ensures
        words_to_bytes(ws).len() == 4 * ws.len(),
        bytes_to_words(words_to_bytes(ws)) == ws,
    decreases ws.len(),
{
    lemma_words_to_bytes_len(ws);
    if ws.len() == 0 {
    } else {
        let tail = ws.subrange(1, ws.len() as int);
        lemma_codec_round_trip(tail);
        lemma_word_round_trip(ws[0]);
        let bs = words_to_bytes(ws);
        lemma_words_to_bytes_len(tail);
        assert(bs.subrange(4, bs.len() as int) =~= words_to_bytes(tail));
        assert(bs[0] == (ws[0] & 0xff) as u8);
        assert(bs[1] == ((ws[0] >> 8) & 0xff) as u8);
        assert(bs[2] == ((ws[0] >> 16) & 0xff) as u8);
        assert(bs[3] == ((ws[0] >> 24) & 0xff) as u8);
        assert(bytes_to_words(bs) =~= ws);
    }
}

/// The bytes of a reassembled word are the four bytes it came from.
proof fn lemma_byte_round_trip(b0: u8, b1: u8, b2: u8, b3: u8)
    ensures
        word_bytes(word_of_bytes(b0, b1, b2, b3)) == seq![b0, b1, b2, b3],
{
    let w = word_of_bytes(b0, b1, b2, b3);
    assert({
        let v = (b0 as u32) | ((b1 as u32) << 8) | ((b2 as u32) << 16) | ((b3 as u32) << 24);
        (v & 0xff) as u8 == b0 && ((v >> 8) & 0xff) as u8 == b1 && ((v >> 16) & 0xff) as u8 == b2
            && ((v >> 24) & 0xff) as u8 == b3
    }) by (bit_vector);
    assert(word_bytes(w) =~= seq![b0, b1, b2, b3]);
}

/// The other direction of the bijection: re-encoding the words decoded
/// from a whole number of bytes gives the byte stream back.
pub proof fn lemma_codec_round_trip_bytes(bs: Seq<u8>)
    requires
        bs.len() % 4 == 0,
    ensures
        words_to_bytes(bytes_to_words(bs)) == bs,
    decreases bs.len(),
{
    if bs.len() == 0 {
        assert(words_to_bytes(bytes_to_words(bs)) =~= bs);
    } else {
        let tail = bs.subrange(4, bs.len() as int);
        lemma_codec_round_trip_bytes(tail);
        lemma_byte_round_trip(bs[0], bs[1], bs[2], bs[3]);
        let ws = bytes_to_words(bs);
        assert(ws == seq![word_of_bytes(bs[0], bs[1], bs[2], bs[3])] + bytes_to_words(tail));
        lemma_words_to_bytes_append(
            seq![word_of_bytes(bs[0], bs[1], bs[2], bs[3])],
            bytes_to_words(tail),
        );
        assert(seq![word_of_bytes(bs[0], bs[1], bs[2], bs[3])].subrange(1, 1) =~= Seq::<
            u32,
        >::empty());
        assert(words_to_bytes(Seq::<u32>::empty()) =~= Seq::<u8>::empty());
        assert(words_to_bytes(seq![word_of_bytes(bs[0], bs[1], bs[2], bs[3])]) =~= word_bytes(
            word_of_bytes(bs[0], bs[1], bs[2], bs[3]),
        ));
        assert(words_to_bytes(ws) =~= bs);
    }
}

/// Encode a word sequence into its byte form.
pub fn encode(words: &Vec<u32>) -> (r: Vec<u8>)
    ensures
        r@ == words_to_bytes(words@),
{
    let n = words.len();
    let mut r: Vec<u8> = Vec::new();
    let mut i: usize = 0;
    while i < n
        invariant
            i <= n,
            n == words@.len(),
            r@ == words_to_bytes(words@.subrange(0, i as int)),
        decreases n - i,
    {
        let w = words[i];
        proof {
            assert(w & 0xff < 256 && (w >> 8) & 0xff < 256 && (w >> 16) & 0xff < 256 && (w >> 24)
                & 0xff < 256) by (bit_vector);
        }
        r.push((w & 0xff) as u8);
        r.push(((w >> 8) & 0xff) as u8);
        r.push(((w >> 16) & 0xff) as u8);
        r.push(((w >> 24) & 0xff) as u8);
        proof {
            let pre = words@.subrange(0, i as int);
            lemma_words_to_bytes_append(pre, seq![w]);
            assert(seq![w].subrange(1, 1) =~= Seq::<u32>::empty());
            assert(words_to_bytes(Seq::<u32>::empty()) =~= Seq::<u8>::empty());
            assert(words_to_bytes(seq![w]) =~= word_bytes(w));
            assert(pre + seq![w] =~= words@.subrange(0, i as int + 1));
            assert(r@ =~= words_to_bytes(words@.subrange(0, i as int + 1)));
        }
        i += 1;
    }
    proof {
        assert(words@.subrange(0, n as int) =~= words@);
    }
    r
}

/// Decode a byte sequence back into words. A stream whose length is not a
/// whole number of words is malformed; the codec reports it and the caller
/// decides how to fail.
pub fn decode(bytes: &Vec<u8>) -> (r: Option<Vec<u32>>)
    ensures
        match r {
            Some(ws) => bytes@.len() % 4 == 0 && ws@ == bytes_to_words(bytes@),
            None => bytes@.len() % 4 != 0,
        },
{
    let n = bytes.len();
    if n % 4 != 0 {
        return None;
    }
    let mut r: Vec<u32> = Vec::new();
    let mut i: usize = 0;
    while i < n
        invariant
            i <= n,
            i % 4 == 0,
            n % 4 == 0,
            n == bytes@.len(),
            r@ == bytes_to_words(bytes@.subrange(0, i as int)),
        decreases n - i,
    {
        let b0 = bytes[i];
        let b1 = bytes[i + 1];
        let b2 = bytes[i + 2];
        let b3 = bytes[i + 3];
        let w = (b0 as u32) | ((b1 as u32) << 8) | ((b2 as u32) << 16) | ((b3 as u32) << 24);
        r.push(w);
        proof {
            let pre = bytes@.subrange(0, i as int);
            let chunk = bytes@.subrange(i as int, i as int + 4);
            lemma_bytes_to_words_append(pre, chunk);
            assert(pre + chunk =~= bytes@.subrange(0, i as int + 4));
            assert(chunk.subrange(4, 4) =~= Seq::<u8>::empty());
            assert(bytes_to_words(Seq::<u8>::empty()) =~= Seq::<u32>::empty());
            assert(chunk[0] == b0 && chunk[1] == b1 && chunk[2] == b2 && chunk[3] == b3);
            assert(bytes_to_words(chunk) =~= seq![word_of_bytes(b0, b1, b2, b3)]);
            assert(r@ =~= bytes_to_words(bytes@.subrange(0, i as int + 4)));
        }
        i += 4;
    }
    proof {
        assert(bytes@.subrange(0, n as int) =~= bytes@);
    }
    Some(r)
}

/// The finalized word form of one compiled module, awaiting serialization.
pub struct SpirvModuleBuffer {
    words: Vec<u32>,
}

/// The word form of a module deferred to the thin linking stage. It is
/// structurally identical to a full module buffer; only the pipeline stage
/// that consumes it differs.
pub struct SpirvThinBuffer {
    words: Vec<u32>,
}

impl SpirvModuleBuffer {
    /// The words this buffer holds.
    pub closed spec fn words_spec(&self) -> Seq<u32> {
        self.words@
    }

    /// Wrap a finalized module's words.
    pub fn new(words: Vec<u32>) -> (r: SpirvModuleBuffer)
        ensures
            r.words_spec() == words@,
    {
        SpirvModuleBuffer { words }
    }

    /// The byte form of this buffer.
    pub fn data(&self) -> (r: Vec<u8>)
        ensures
            r@ == words_to_bytes(self.words_spec()),
    {
        encode(&self.words)
    }
}

impl SpirvThinBuffer {
    /// The words this buffer holds.
    pub closed spec fn words_spec(&self) -> Seq<u32> {
        self.words@
    }

    /// Wrap a module's words for the thin linking stage.
    pub fn new(words: Vec<u32>) -> (r: SpirvThinBuffer)
        ensures
            r.words_spec() == words@,
    {
        SpirvThinBuffer { words }
    }

    /// The byte form of this buffer.
    pub fn data(&self) -> (r: Vec<u8>)
        ensures
            r@ == words_to_bytes(self.words_spec()),
    {
        encode(&self.words)
    }
}

} // verus!
