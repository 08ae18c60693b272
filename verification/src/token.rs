//! Words of a dump line and the numeric readings taken from them.
//!
//! Two ways of reading exist side by side. The lenient one walks over a run
//! of tokens and keeps whatever reads as a number, silently dropping the
//! rest. The strict one reads a single token at a fixed position and reports
//! when it does not read.

use vstd::prelude::*;
use vstd::string::*;
use crate::number::Single;
use crate::words::same_text;

verus! {

/// One word of a line, together with its reading as a single-precision
/// number where it has one. The library never reads such numbers itself:
/// whoever builds the token supplies the reading.
#[derive(Debug)]
pub struct Token {
    pub text: String,
    pub number: Option<Single>,
}

/// Whether a character is one of the ten decimal digits.
pub open spec fn is_digit(c: char) -> bool {
    '0' <= c && c <= '9'
}

/// Whether a text is a run of one or more decimal digits.
pub open spec fn is_digits(text: Seq<char>) -> bool {
    text.len() > 0 && forall|i: int| 0 <= i < text.len() ==> is_digit(#[trigger] text[i])
}

/// The number that a run of decimal digits writes.
pub open spec fn digits_value(text: Seq<char>) -> nat
    decreases text.len(),
{
    if text.len() == 0 {
        0
    } else {
        (10 * digits_value(text.drop_last()) + (text.last() as nat - '0' as nat)) as nat
    }
}

/// The reading of a text as an unsigned whole number: the text is a run of
/// decimal digits, a plus sign may stand before it, and the number fits in 64
/// bits. Any other text has no reading.
pub open spec fn decimal_of(text: Seq<char>) -> Option<u64> {
    let digits = if text.len() > 0 && text[0] == '+' {
        text.subrange(1, text.len() as int)
    } else {
        text
    };
    if is_digits(digits) && digits_value(digits) <= u64::MAX {
        Some(digits_value(digits) as u64)
    } else {
        None
    }
}

/// Calls `str::parse::<u64>`, which reads an optional plus sign followed by
/// decimal digits and fails on any other character, on an empty run of
/// digits and on a number beyond 64 bits.
#[verifier::external_body]
fn read_decimal(text: &str) -> (r: Option<u64>)
    ensures
        r == decimal_of(text@),
{
    text.parse::<u64>().ok()
}

impl Token {
    /// The token's reading as an unsigned whole number.
    pub open spec fn spec_natural(self) -> Option<u64> {
        decimal_of(self.text@)
    }

    /// The reading, as an unsigned whole number, of what follows the token's
    /// first character. An empty token has no such reading.
    pub open spec fn spec_tagged_natural(self) -> Option<u64> {
        if self.text@.len() == 0 {
            None
        } else {
            decimal_of(self.text@.subrange(1, self.text@.len() as int))
        }
    }

    /// Puts a word and its numeric reading together.
    pub fn new(text: String, number: Option<Single>) -> (t: Token)
        ensures
            t.text == text,
            t.number == number,
    {
        Token { text, number }
    }

    /// Tells whether the token is exactly `word`.
    pub fn is(&self, word: &str) -> (r: bool)
        ensures
            r == (self.text@ == word@),
    {
        same_text(self.text.as_str(), word)
    }

    /// Strict reading as an unsigned whole number.
    pub fn natural(&self) -> (r: Option<u64>)
        ensures
            r == self.spec_natural(),
    {
        read_decimal(self.text.as_str())
    }

    /// Strict reading of a tagged identifier such as `#6`: the first
    /// character is set aside and the rest is read as an unsigned whole
    /// number.
    pub fn tagged_natural(&self) -> (r: Option<u64>)
        ensures
            r == self.spec_tagged_natural(),
    {
        let s = self.text.as_str();
        let n = s.unicode_len();
        if n == 0 {
            None
        } else {
            read_decimal(s.substring_char(1, n))
        }
    }
}

/// The tokens from position `from` on; none where the line is shorter.
pub open spec fn fields_from(tokens: Seq<Token>, from: int) -> Seq<Token> {
    if 0 <= from <= tokens.len() {
        tokens.subrange(from, tokens.len() as int)
    } else {
        Seq::empty()
    }
}

/// Lenient extraction of single-precision numbers: the readings of the tokens
/// that have one, in order.
pub open spec fn lenient_numbers(tokens: Seq<Token>) -> Seq<Single>
    decreases tokens.len(),
{
    if tokens.len() == 0 {
        Seq::empty()
    } else {
        let before = lenient_numbers(tokens.drop_last());
        match tokens.last().number {
            Some(x) => before.push(x),
            None => before,
        }
    }
}

/// Lenient extraction of unsigned whole numbers: the readings of the tokens
/// that have one, in order.
pub open spec fn lenient_naturals(tokens: Seq<Token>) -> Seq<u64>
    decreases tokens.len(),
{
    if tokens.len() == 0 {
        Seq::empty()
    } else {
        let before = lenient_naturals(tokens.drop_last());
        match tokens.last().spec_natural() {
            Some(x) => before.push(x),
            None => before,
        }
    }
}

/// Extracts leniently the single-precision numbers among the tokens from
/// position `from` on.
pub fn extract_numbers(tokens: &Vec<Token>, from: usize) -> (out: Vec<Single>)
    ensures
        out@ == lenient_numbers(fields_from(tokens@, from as int)),
        out@.len() <= fields_from(tokens@, from as int).len(),
{
    let mut out: Vec<Single> = Vec::new();
    if from > tokens.len() {
        return out;
    }
    let ghost fields = fields_from(tokens@, from as int);
    let mut i: usize = from;
    while i < tokens.len()
        invariant
            from <= i <= tokens.len(),
            fields == fields_from(tokens@, from as int),
            out@ == lenient_numbers(fields.take(i - from)),
            out@.len() <= i - from,
        decreases tokens.len() - i,
    {
        proof {
            assert(fields.take(i - from + 1).drop_last() == fields.take(i - from));
        }
        match tokens[i].number {
            Some(x) => out.push(x),
            None => {},
        }
        i = i + 1;
    }
    proof {
        assert(fields.take(i - from) == fields);
    }
    out
}

/// Extracts leniently the unsigned whole numbers among the tokens from
/// position `from` on.
pub fn extract_naturals(tokens: &Vec<Token>, from: usize) -> (out: Vec<u64>)
    ensures
        out@ == lenient_naturals(fields_from(tokens@, from as int)),
        out@.len() <= fields_from(tokens@, from as int).len(),
{
    let mut out: Vec<u64> = Vec::new();
    if from > tokens.len() {
        return out;
    }
    let ghost fields = fields_from(tokens@, from as int);
    let mut i: usize = from;
    while i < tokens.len()
        invariant
            from <= i <= tokens.len(),
            fields == fields_from(tokens@, from as int),
            out@ == lenient_naturals(fields.take(i - from)),
            out@.len() <= i - from,
        decreases tokens.len() - i,
    {
        proof {
            assert(fields.take(i - from + 1).drop_last() == fields.take(i - from));
        }
        match tokens[i].natural() {
            Some(x) => out.push(x),
            None => {},
        }
        i = i + 1;
    }
    proof {
        assert(fields.take(i - from) == fields);
    }
    out
}

} // verus!
