//! Decoding simple ciphers: the kata shows a word in cipher, the player types
//! the word.

use base64::engine::general_purpose::STANDARD;
use base64::Engine;
use vstd::prelude::*;
use vstd::string::*;
use vstd::utf8::*;

use super::{GameModule, GameState, GameStateView};
use crate::chance::{pick, random_in};
use crate::text::{answer_matches, matches_answer};

verus! {

/// The ciphers in which the kata writes a word.
#[derive(Clone, Copy, Debug, PartialEq, Eq, Structural)]
pub enum CipherKind {
    /// Every capital moved three places on in the alphabet, round from Z to A.
    Caesar,
    /// Every byte combined with `0x2A` by exclusive or.
    XOR,
    /// Base64 in the standard alphabet, with padding.
    Base64,
}

/// The words that the kata enciphers.
pub const WORDS: [&'static str; 5] = ["HELLO", "MEMORY", "RUST", "KATA", "BRAIN"];

/// The byte with which the XOR cipher combines every byte.
pub const XOR_KEY: u8 = 0x2A;

/// Whether `c` is an ASCII capital.
pub open spec fn is_capital(c: char) -> bool {
    'A' <= c <= 'Z'
}

/// Whether `text` holds ASCII capitals only.
pub open spec fn is_capitals(text: Seq<char>) -> bool {
    forall|i: int| 0 <= i < text.len() ==> is_capital(#[trigger] text[i])
}

/// Whether `text` is one of the words that the kata enciphers.
pub open spec fn is_word(text: Seq<char>) -> bool {
    exists|i: int| 0 <= i < WORDS@.len() && (#[trigger] WORDS@[i])@ == text
}

/// The capital three places after `c`, round from Z to A.
pub open spec fn caesar_shift(c: char) -> char {
    ((((c as u8 - 'A' as u8 + 3) % 26) + 'A' as u8) as u8) as char
}

/// The capital three places before `c`, round from A to Z.
pub open spec fn caesar_unshift(c: char) -> char {
    ((((c as u8 - 'A' as u8 + 23) % 26) + 'A' as u8) as u8) as char
}

/// `text` with every capital shifted on.
pub open spec fn caesar(text: Seq<char>) -> Seq<char> {
    Seq::new(text.len(), |i: int| caesar_shift(text[i]))
}

/// `text` with every capital shifted back.
pub open spec fn caesar_back(text: Seq<char>) -> Seq<char> {
    Seq::new(text.len(), |i: int| caesar_unshift(text[i]))
}

/// `b` combined with the key.
pub open spec fn xor_byte(b: u8) -> u8 {
    b ^ XOR_KEY
}

/// The bytes of `text`, each combined with the key and read as the character
/// of that number.
pub open spec fn xor_cipher(text: Seq<char>) -> Seq<char> {
    Seq::new(encode_utf8(text).len(), |i: int| xor_byte(encode_utf8(text)[i]) as char)
}

/// The character that stands for the six-bit value `v`.
pub open spec fn base64_symbol(v: int) -> char {
    if v < 26 {
        (('A' as u8 + v) as u8) as char
    } else if v < 52 {
        (('a' as u8 + v - 26) as u8) as char
    } else if v < 62 {
        (('0' as u8 + v - 52) as u8) as char
    } else if v == 62 {
        '+'
    } else {
        '/'
    }
}

/// The four symbols that stand for the twenty-four bits of `b0`, `b1`, `b2`.
pub open spec fn base64_group(b0: int, b1: int, b2: int) -> Seq<char> {
    seq![
        base64_symbol(b0 / 4),
        base64_symbol(b0 % 4 * 16 + b1 / 16),
        base64_symbol(b1 % 16 * 4 + b2 / 64),
        base64_symbol(b2 % 64),
    ]
}

/// `bytes` in Base64: every three bytes give four symbols of six bits each;
/// a last group of one or two bytes is filled up with zero bits, and `=`
/// stands in place of the symbols that hold none of its bits.
pub open spec fn base64_text(bytes: Seq<u8>) -> Seq<char>
    decreases bytes.len(),
{
    if bytes.len() == 0 {
        Seq::empty()
    } else if bytes.len() == 1 {
        base64_group(bytes[0] as int, 0, 0).take(2) + seq!['=', '=']
    } else if bytes.len() == 2 {
        base64_group(bytes[0] as int, bytes[1] as int, 0).take(3) + seq!['=']
    } else {
        base64_group(bytes[0] as int, bytes[1] as int, bytes[2] as int) + base64_text(
            bytes.skip(3),
        )
    }
}

/// The six-bit value that `c` stands for, if `c` is a symbol of the alphabet.
pub open spec fn base64_value(c: char) -> Option<int> {
    if 'A' <= c <= 'Z' {
        Some(c as int - 'A' as int)
    } else if 'a' <= c <= 'z' {
        Some(c as int - 'a' as int + 26)
    } else if '0' <= c <= '9' {
        Some(c as int - '0' as int + 52)
    } else if c == '+' {
        Some(62)
    } else if c == '/' {
        Some(63)
    } else {
        None
    }
}

/// The bytes that `text` stands for in Base64, if it stands for any: the
/// text comes in groups of four symbols, the last of which may end in one or
/// two `=`, and the bits that a last group fills up with must be zero.
pub open spec fn base64_decoded(text: Seq<char>) -> Option<Seq<u8>>
    decreases text.len(),
{
    if text.len() == 0 {
        Some(Seq::empty())
    } else if text.len() < 4 {
        None
    } else {
        match (base64_value(text[0]), base64_value(text[1])) {
            (Some(v0), Some(v1)) => {
                if text.len() == 4 && text[2] == '=' && text[3] == '=' {
                    if v1 % 16 == 0 {
                        Some(seq![(v0 * 4 + v1 / 16) as u8])
                    } else {
                        None
                    }
                } else {
                    match base64_value(text[2]) {
                        Some(v2) => {
                            if text.len() == 4 && text[3] == '=' {
                                if v2 % 4 == 0 {
                                    Some(
                                        seq![
                                            (v0 * 4 + v1 / 16) as u8,
                                            (v1 % 16 * 16 + v2 / 4) as u8,
                                        ],
                                    )
                                } else {
                                    None
                                }
                            } else {
                                match (base64_value(text[3]), base64_decoded(text.skip(4))) {
                                    (Some(v3), Some(rest)) => Some(
                                        seq![
                                            (v0 * 4 + v1 / 16) as u8,
                                            (v1 % 16 * 16 + v2 / 4) as u8,
                                            (v2 % 4 * 64 + v3) as u8,
                                        ] + rest,
                                    ),
                                    _ => None,
                                }
                            }
                        },
                        None => None,
                    }
                }
            },
            _ => None,
        }
    }
}

/// How many characters `n` bytes take in Base64.
pub open spec fn base64_length(n: nat) -> nat {
    (n + 2) / 3 * 4
}

/// `plaintext` written in `cipher`.
pub open spec fn encipher(cipher: CipherKind, plaintext: Seq<char>) -> Seq<char> {
    match cipher {
        CipherKind::Caesar => caesar(plaintext),
        CipherKind::XOR => xor_cipher(plaintext),
        CipherKind::Base64 => base64_text(encode_utf8(plaintext)),
    }
}

/// The bytes behind `text`, a text in the XOR cipher: the number of every
/// character, combined with the key again.
pub open spec fn xor_back(text: Seq<char>) -> Seq<u8> {
    Seq::new(text.len(), |i: int| xor_byte(text[i] as u8))
}

/// The bytes of the plain text behind `ciphertext`, if it is a text in
/// `cipher`.
pub open spec fn decipher(cipher: CipherKind, ciphertext: Seq<char>) -> Option<Seq<u8>> {
    match cipher {
        CipherKind::Caesar => Some(encode_utf8(caesar_back(ciphertext))),
        CipherKind::XOR => Some(xor_back(ciphertext)),
        CipherKind::Base64 => base64_decoded(ciphertext),
    }
}

/// Whether `plaintext` can be written in `cipher`: the Caesar cipher takes
/// capitals only, and a text in Base64 must not be longer than a `usize`
/// counts.
pub open spec fn can_encipher(cipher: CipherKind, plaintext: Seq<char>) -> bool {
    match cipher {
        CipherKind::Caesar => is_capitals(plaintext),
        CipherKind::XOR => true,
        CipherKind::Base64 => base64_length(encode_utf8(plaintext).len()) <= usize::MAX,
    }
}

/// A word, the cipher chosen for it, and the word in that cipher.
pub struct Cryptogram {
    pub cipher: CipherKind,
    pub plaintext: Seq<char>,
    pub ciphertext: Seq<char>,
}

/// What an entry brings: four if it names the plain word, minus one if not.
pub open spec fn crypto_reward(plaintext: Seq<char>, entry: Seq<char>) -> int {
    if answer_matches(entry, plaintext) {
        4
    } else {
        -1
    }
}

/// Shifting a capital on and then back gives the capital again, and both
/// shifts give capitals.
pub proof fn lemma_caesar_letter(c: char)
    requires
        is_capital(c),
    ensures
        is_capital(caesar_shift(c)),
        caesar_unshift(caesar_shift(c)) == c,
{
}

/// Shifting a text of capitals on and then back gives the text again.
pub proof fn lemma_caesar_round_trip(text: Seq<char>)
    requires
        is_capitals(text),
    ensures
        is_capitals(caesar(text)),
        caesar_back(caesar(text)) == text,
{
    assert forall|i: int| 0 <= i < text.len() implies is_capital(#[trigger] caesar(text)[i])
        && caesar_unshift(caesar(text)[i]) == text[i] by {
        lemma_caesar_letter(text[i]);
    }
    assert(caesar_back(caesar(text)) =~= text);
}

/// Combining a byte with the key twice gives the byte again.
pub proof fn lemma_xor_involution(b: u8)
    ensures
        xor_byte(xor_byte(b)) == b,
{
    assert((b ^ 0x2Au8) ^ 0x2Au8 == b) by (bit_vector);
}

/// A six-bit value is read back from the symbol that stands for it, and no
/// symbol is the padding character.
pub proof fn lemma_base64_symbol(v: int)
    requires
        0 <= v < 64,
    ensures
        base64_value(base64_symbol(v)) == Some(v),
        base64_symbol(v) != '=',
{
}

/// Decoding the Base64 text of any bytes gives the bytes again.
pub proof fn lemma_base64_round_trip(bytes: Seq<u8>)
    ensures
        base64_decoded(base64_text(bytes)) == Some(bytes),
    decreases bytes.len(),
{
    let text = base64_text(bytes);
    if bytes.len() == 0 {
    } else if bytes.len() == 1 {
        let b0 = bytes[0] as int;
        lemma_base64_symbol(b0 / 4);
        lemma_base64_symbol(b0 % 4 * 16);
        assert(text =~= seq![base64_symbol(b0 / 4), base64_symbol(b0 % 4 * 16), '=', '=']);
        assert(seq![((b0 / 4) * 4 + (b0 % 4 * 16) / 16) as u8] =~= bytes);
    } else if bytes.len() == 2 {
        let b0 = bytes[0] as int;
        let b1 = bytes[1] as int;
        lemma_base64_symbol(b0 / 4);
        lemma_base64_symbol(b0 % 4 * 16 + b1 / 16);
        lemma_base64_symbol(b1 % 16 * 4);
        assert(text =~= seq![
            base64_symbol(b0 / 4),
            base64_symbol(b0 % 4 * 16 + b1 / 16),
            base64_symbol(b1 % 16 * 4),
            '=',
        ]);
        let v1 = b0 % 4 * 16 + b1 / 16;
        let v2 = b1 % 16 * 4;
        assert(seq![((b0 / 4) * 4 + v1 / 16) as u8, (v1 % 16 * 16 + v2 / 4) as u8] =~= bytes);
    } else {
        let b0 = bytes[0] as int;
        let b1 = bytes[1] as int;
        let b2 = bytes[2] as int;
        let v0 = b0 / 4;
        let v1 = b0 % 4 * 16 + b1 / 16;
        let v2 = b1 % 16 * 4 + b2 / 64;
        let v3 = b2 % 64;
        lemma_base64_symbol(v0);
        lemma_base64_symbol(v1);
        lemma_base64_symbol(v2);
        lemma_base64_symbol(v3);
        let rest = base64_text(bytes.skip(3));
        lemma_base64_round_trip(bytes.skip(3));
        assert(text == base64_group(b0, b1, b2) + rest);
        assert(text[0] == base64_symbol(v0));
        assert(text[1] == base64_symbol(v1));
        assert(text[2] == base64_symbol(v2));
        assert(text[3] == base64_symbol(v3));
        assert(text.skip(4) =~= rest);
        assert(seq![
            (v0 * 4 + v1 / 16) as u8,
            (v1 % 16 * 16 + v2 / 4) as u8,
            (v2 % 4 * 64 + v3) as u8,
        ] + bytes.skip(3) =~= bytes);
    }
}

/// Whatever is written in one of the ciphers reads back: deciphering gives
/// the bytes of the plain text, and these give the plain text.
pub proof fn lemma_decipher_round_trip(cipher: CipherKind, plaintext: Seq<char>)
    requires
        cipher is Caesar ==> is_capitals(plaintext),
    ensures
        decipher(cipher, encipher(cipher, plaintext)) == Some(encode_utf8(plaintext)),
        decode_utf8(encode_utf8(plaintext)) == plaintext,
{
    encode_utf8_decode_utf8(plaintext);
    match cipher {
        CipherKind::Caesar => {
            lemma_caesar_round_trip(plaintext);
        },
        CipherKind::XOR => {
            let bytes = encode_utf8(plaintext);
            assert forall|i: int| 0 <= i < bytes.len() implies xor_byte(
                (xor_byte(bytes[i]) as char) as u8,
            ) == bytes[i] by {
                lemma_xor_involution(bytes[i]);
            }
            assert(xor_back(xor_cipher(plaintext)) =~= bytes);
        },
        CipherKind::Base64 => {
            lemma_base64_round_trip(encode_utf8(plaintext));
        },
    }
}

/// Every word of the kata reads back from each of the three ciphers.
pub proof fn lemma_words_read_back(cipher: CipherKind, word: Seq<char>)
    requires
        is_word(word),
    ensures
        decipher(cipher, encipher(cipher, word)) == Some(encode_utf8(word)),
        decode_utf8(encode_utf8(word)) == word,
{
    lemma_words(word);
    lemma_decipher_round_trip(cipher, word);
}

/// Every word of the kata holds capitals only, six at most.
pub proof fn lemma_words(text: Seq<char>)
    requires
        is_word(text),
    ensures
        is_capitals(text),
        text.len() <= 6,
        is_ascii_chars(text),
        encode_utf8(text).len() == text.len(),
{
    reveal_strlit("HELLO");
    reveal_strlit("MEMORY");
    reveal_strlit("RUST");
    reveal_strlit("KATA");
    reveal_strlit("BRAIN");
    let i = choose|i: int| 0 <= i < WORDS@.len() && (#[trigger] WORDS@[i])@ == text;
    if i == 0 {
        assert(text =~= seq!['H', 'E', 'L', 'L', 'O']);
    } else if i == 1 {
        assert(text =~= seq!['M', 'E', 'M', 'O', 'R', 'Y']);
    } else if i == 2 {
        assert(text =~= seq!['R', 'U', 'S', 'T']);
    } else if i == 3 {
        assert(text =~= seq!['K', 'A', 'T', 'A']);
    } else {
        assert(text =~= seq!['B', 'R', 'A', 'I', 'N']);
    }
    is_ascii_chars_encode_utf8(text);
}

/// `Engine::encode` of `general_purpose::STANDARD` writes the bytes of its
/// argument in Base64 as RFC 4648 gives it, in the alphabet `A`-`Z`, `a`-`z`,
/// `0`-`9`, `+`, `/` and padded with `=`. It panics where the length of the
/// result does not fit in `usize`, which the precondition leaves out.
#[verifier::external_body]
fn base64_encode(text: &str) -> (r: String)
    requires
        base64_length(text.spec_bytes().len()) <= usize::MAX,
    ensures
        r@ == base64_text(text.spec_bytes()),
{
    STANDARD.encode(text)
}

impl CipherKind {
    /// How the cipher is announced to the player.
    pub open spec fn label_text(self) -> Seq<char> {
        match self {
            CipherKind::Caesar => "Caesar shift +3"@,
            CipherKind::XOR => "XOR key 0x2A"@,
            CipherKind::Base64 => "Base64 ✱"@,
        }
    }

    /// How the cipher is announced to the player.
    pub fn label(&self) -> (r: &'static str)
        ensures
            r@ == self.label_text(),
    {
        match self {
            CipherKind::Caesar => "Caesar shift +3",
            CipherKind::XOR => "XOR key 0x2A",
            CipherKind::Base64 => "Base64 ✱",
        }
    }

    /// The cipher that stands for the outcome `draw` of a draw among three.
    pub open spec fn of_draw(draw: int) -> CipherKind {
        if draw == 0 {
            CipherKind::Caesar
        } else if draw == 1 {
            CipherKind::XOR
        } else {
            CipherKind::Base64
        }
    }

    /// The cipher that stands for the outcome `draw` of a draw among three.
    pub fn from_draw(draw: i32) -> (r: CipherKind)
        ensures
            r == CipherKind::of_draw(draw as int),
    {
        if draw == 0 {
            CipherKind::Caesar
        } else if draw == 1 {
            CipherKind::XOR
        } else {
            CipherKind::Base64
        }
    }
}

/// The cipher kata: the cipher, the word in plain and in cipher, the answer
/// typed so far, its counters.
#[derive(Debug)]
pub struct CryptoPuzzle {
    cipher: CipherKind,
    plaintext: String,
    ciphertext: String,
    answer: String,
    state: GameState,
}

impl CryptoPuzzle {
    /// A kata that was never played, showing some word in some cipher.
    pub fn new() -> (r: Self)
        ensures
            r.well_formed(),
            r.entry() == Seq::<char>::empty(),
            r.counters() == (GameStateView {
                score: 0,
                attempts: 0,
                description: "Decode simple ciphers"@,
            }),
    {
        let mut module = Self {
            cipher: CipherKind::Caesar,
            plaintext: String::new(),
            ciphertext: String::new(),
            answer: String::new(),
            state: GameState {
                score: 0,
                attempts: 0,
                description: String::from_str("Decode simple ciphers"),
            },
        };
        module.generate_puzzle();
        module.answer.clear();
        module
    }

    /// `plaintext` written in `cipher`.
    pub fn encipher(cipher: CipherKind, plaintext: &str) -> (r: String)
        requires
            can_encipher(cipher, plaintext@),
        ensures
            r@ == encipher(cipher, plaintext@),
    {
        match cipher {
            CipherKind::Caesar => {
                let bytes = plaintext.as_bytes();
                proof {
                    assert(is_ascii_chars(plaintext@));
                    is_ascii_chars_encode_utf8(plaintext@);
                }
                let mut out = String::new();
                let mut i: usize = 0;
                while i < bytes.len()
                    invariant
                        i <= bytes.len(),
                        bytes@ == encode_utf8(plaintext@),
                        bytes@.len() == plaintext@.len(),
                        is_capitals(plaintext@),
                        forall|j: int|
                            0 <= j < plaintext@.len() ==> plaintext@[j] as u8 == #[trigger] bytes@[j],
                        out@ == caesar(plaintext@).take(i as int),
                    decreases bytes.len() - i,
                {
                    let c = bytes[i];
                    let shifted: u8 = ((c - 'A' as u8 + 3) % 26) + 'A' as u8;
                    out.push(shifted as char);
                    i += 1;
                    assert(out@ =~= caesar(plaintext@).take(i as int));
                }
                out
            },
            CipherKind::XOR => {
                let bytes = plaintext.as_bytes();
                let mut out = String::new();
                let mut i: usize = 0;
                while i < bytes.len()
                    invariant
                        i <= bytes.len(),
                        bytes@ == encode_utf8(plaintext@),
                        out@ == xor_cipher(plaintext@).take(i as int),
                    decreases bytes.len() - i,
                {
                    out.push((bytes[i] ^ XOR_KEY) as char);
                    i += 1;
                    assert(out@ =~= xor_cipher(plaintext@).take(i as int));
                }
                out
            },
            CipherKind::Base64 => base64_encode(plaintext),
        }
    }

    /// The cipher in which the word is shown.
    pub fn cipher(&self) -> (r: CipherKind)
        ensures
            r == self.puzzle().cipher,
    {
        self.cipher
    }

    /// The word as shown, in cipher.
    pub fn ciphertext(&self) -> (r: &str)
        ensures
            r@ == self.puzzle().ciphertext,
    {
        self.ciphertext.as_str()
    }

    /// The word in plain.
    pub fn plaintext(&self) -> (r: &str)
        ensures
            r@ == self.puzzle().plaintext,
    {
        self.plaintext.as_str()
    }

    /// Shows `word`, one of the kata's words, in `cipher`, and empties the
    /// answer field.
    pub fn pose(&mut self, cipher: CipherKind, word: &str)
        requires
            is_word(word@),
        ensures
            final(self).well_formed(),
            final(self).puzzle() == (Cryptogram {
                cipher,
                plaintext: word@,
                ciphertext: encipher(cipher, word@),
            }),
            final(self).entry() == Seq::<char>::empty(),
            final(self).counters() == old(self).counters(),
    {
        proof {
            lemma_words(word@);
        }
        self.plaintext = String::from_str(word);
        self.cipher = cipher;
        self.ciphertext = Self::encipher(cipher, word);
        self.answer.clear();
    }

    /// Shows a word picked at random in a cipher picked at random.
    fn generate_puzzle(&mut self)
        ensures
            final(self).well_formed(),
            final(self).entry() == Seq::<char>::empty(),
            final(self).counters() == old(self).counters(),
    {
        let word: &'static str = match pick(WORDS.as_slice()) {
            Some(word) => *word,
            None => "RUST",
        };
        let cipher = CipherKind::from_draw(random_in(0, 3));
        self.pose(cipher, word);
    }
}

impl Clone for CryptoPuzzle {
    fn clone(&self) -> (r: Self)
        ensures
            r.puzzle() == self.puzzle(),
            r.entry() == self.entry(),
            r.counters() == self.counters(),
            r.well_formed() == self.well_formed(),
    {
        Self {
            cipher: self.cipher,
            plaintext: self.plaintext.clone(),
            ciphertext: self.ciphertext.clone(),
            answer: self.answer.clone(),
            state: self.state.clone(),
        }
    }
}

impl Default for CryptoPuzzle {
    fn default() -> (r: Self)
        ensures
            r.well_formed(),
            r.entry() == Seq::<char>::empty(),
            r.counters() == (GameStateView {
                score: 0,
                attempts: 0,
                description: "Decode simple ciphers"@,
            }),
    {
        Self::new()
    }
}

impl GameModule for CryptoPuzzle {
    type Puzzle = Cryptogram;

    open spec fn title(&self) -> Seq<char> {
        "Crypto Puzzle"@
    }

    closed spec fn puzzle(&self) -> Cryptogram {
        Cryptogram {
            cipher: self.cipher,
            plaintext: self.plaintext@,
            ciphertext: self.ciphertext@,
        }
    }

    closed spec fn entry(&self) -> Seq<char> {
        self.answer@
    }

    closed spec fn counters(&self) -> GameStateView {
        self.state@
    }

    open spec fn well_formed(&self) -> bool {
        &&& is_word(self.puzzle().plaintext)
        &&& self.puzzle().ciphertext == encipher(self.puzzle().cipher, self.puzzle().plaintext)
    }

    open spec fn reward_for(puzzle: Cryptogram, entry: Seq<char>) -> int {
        crypto_reward(puzzle.plaintext, entry)
    }

    fn name(&self) -> (r: &str) {
        "Crypto Puzzle"
    }

    fn description(&self) -> (r: &str) {
        self.state.description.as_str()
    }

    fn state(&self) -> (r: &GameState) {
        &self.state
    }

    fn state_mut(&mut self) -> (r: &mut GameState) {
        &mut self.state
    }

    fn answer(&self) -> (r: &str) {
        self.answer.as_str()
    }

    fn set_answer(&mut self, text: String) {
        self.answer = text;
    }

    fn reward_of(&self, entry: &str) -> (r: i32) {
        if matches_answer(entry, self.plaintext.as_str()) {
            4
        } else {
            -1
        }
    }

    /// Shows another word in another cipher and empties the answer field; the
    /// counters stay.
    fn reset(&mut self)
        ensures
            final(self).counters() == old(self).counters(),
    {
        self.generate_puzzle();
        self.answer.clear();
    }

    fn check_answer(&mut self) {
        let reward = self.reward_of(self.answer.as_str());
        self.state.record_round(reward);
        self.reset();
    }
}

} // verus!
