use vstd::prelude::*;

verus! {

/// Whether `c` has the Unicode `White_Space` property.
pub uninterp spec fn white_space(c: char) -> bool;

/// Relies on char::is_whitespace: true exactly for the characters with the
/// Unicode White_Space property.
#[verifier::external_body]
fn is_whitespace(c: char) -> (r: bool)
    ensures
        r == white_space(c),
{
    c.is_whitespace()
}

/// The length of `s` without its trailing whitespace.
pub open spec fn trimmed_len(s: Seq<char>) -> nat
    decreases s.len(),
{
    if s.len() > 0 && white_space(s.last()) {
        trimmed_len(s.drop_last())
    } else {
        s.len()
    }
}

/// One renderable unit: a single character.
#[derive(Debug, Clone, Copy, PartialEq, Eq, Structural)]
pub struct Token(char);

impl Token {
    pub closed spec fn view(self) -> char {
        self.0
    }

    /// The character this token renders as.
    pub fn value(&self) -> (r: char)
        ensures
            r == self@,
    {
        self.0
    }
}

/// Splits text into the units that are typed out one by one.
pub struct Tokenizer;

impl Tokenizer {
    /// The characters of `text` in order, with trailing whitespace removed.
    pub fn tokenize(text: &str) -> (r: Vec<Token>)
        ensures
            r@.map_values(|t: Token| t@) == text@.take(trimmed_len(text@) as int),
    {
        let n = text.unicode_len();
        let mut end: usize = n;
        proof {
            assert(text@.take(n as int) =~= text@);
        }
        while end > 0 && is_whitespace(text.get_char(end - 1))
            invariant
                n == text@.len(),
                end <= n,
                trimmed_len(text@) == trimmed_len(text@.take(end as int)),
            decreases end,
        {
            proof {
                assert(text@.take(end as int).drop_last() =~= text@.take(end - 1));
            }
            end = end - 1;
        }
        proof {
            if end == n {
                assert(text@.take(end as int) =~= text@);
            }
            assert(trimmed_len(text@.take(end as int)) == end);
        }
        let mut tokens: Vec<Token> = Vec::new();
        let mut i: usize = 0;
        while i < end
            invariant
                n == text@.len(),
                i <= end <= n,
                end == trimmed_len(text@),
                tokens@.map_values(|t: Token| t@) =~= text@.take(i as int),
            decreases end - i,
        {
            let c = text.get_char(i);
            let ghost before = tokens@;
            tokens.push(Token(c));
            proof {
                assert(tokens@.map_values(|t: Token| t@) =~= before.map_values(|t: Token| t@).push(
                    c,
                ));
                assert(text@.take(i + 1) =~= text@.take(i as int).push(c));
            }
            i = i + 1;
        }
        tokens
    }
}

} // verus!
