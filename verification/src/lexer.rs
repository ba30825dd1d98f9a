//! Quoted-token lexer for command-line style input.
//!
//! A token is a maximal run of non-whitespace characters, except that a
//! single- or double-quoted section may embed whitespace and the opposite
//! quote character; the quotes themselves are not part of the token. The
//! lexer keeps a history of resume positions so that consumed tokens can be
//! rewound and read again.

use vstd::prelude::*;
use vstd::std_specs::iter::IteratorSpec;

verus! {

broadcast use vstd::string::next_postcondition, vstd::string::axiom_spec_iter;

/// Errors reported by the lexer.
#[derive(Debug, PartialEq, Eq)]
pub enum MError {
    InvalidState(String),
    UnterminatedToken,
    EndOfString,
}

/// The Unicode `White_Space` code points; these separate tokens.
pub open spec fn is_space_char(c: char) -> bool {
    let u = c as u32;
    ||| u == 0x20
    ||| (0x9 <= u && u <= 0xd)
    ||| u == 0x85
    ||| u == 0xa0
    ||| u == 0x1680
    ||| (0x2000 <= u && u <= 0x200a)
    ||| u == 0x2028
    ||| u == 0x2029
    ||| u == 0x202f
    ||| u == 0x205f
    ||| u == 0x3000
}

/// The two characters that open (and close) a quoted section.
pub open spec fn is_quote_char(c: char) -> bool {
    c == '\'' || c == '"'
}

/// Outcome of scanning for one token from a given position: the token's
/// characters together with the position to resume from, or a terminal
/// condition.
#[verifier::ext_equal]
pub enum ScanResult {
    Token { tok: Seq<char>, next: int },
    EndOfString,
    Unterminated,
}

/// Scanning while between tokens: whitespace is skipped; the first other
/// character starts a token, quoted or plain.
pub open spec fn scan_out(s: Seq<char>, i: int) -> ScanResult
    decreases s.len() - i,
{
    if i < 0 || i >= s.len() {
        ScanResult::EndOfString
    } else if is_space_char(s[i]) {
        scan_out(s, i + 1)
    } else if is_quote_char(s[i]) {
        scan_quoted(s, i + 1, s[i], Seq::empty())
    } else {
        scan_plain(s, i + 1, Seq::empty().push(s[i]))
    }
}

/// Scanning inside an unquoted part of a token: whitespace ends the token
/// (and is where scanning resumes), a quote opens a quoted section, anything
/// else is part of the token.
pub open spec fn scan_plain(s: Seq<char>, i: int, tok: Seq<char>) -> ScanResult
    decreases s.len() - i,
{
    if i < 0 || i >= s.len() {
        ScanResult::Token { tok, next: s.len() as int }
    } else if is_space_char(s[i]) {
        ScanResult::Token { tok, next: i }
    } else if is_quote_char(s[i]) {
        scan_quoted(s, i + 1, s[i], tok)
    } else {
        scan_plain(s, i + 1, tok.push(s[i]))
    }
}

/// Scanning inside a quoted section: only the matching quote character ends
/// it; running out of input leaves the token unterminated.
pub open spec fn scan_quoted(s: Seq<char>, i: int, q: char, tok: Seq<char>) -> ScanResult
    decreases s.len() - i,
{
    if i < 0 || i >= s.len() {
        ScanResult::Unterminated
    } else if s[i] == q {
        scan_plain(s, i + 1, tok)
    } else {
        scan_quoted(s, i + 1, q, tok.push(s[i]))
    }
}

/// Splits a string into whitespace-separated, optionally quoted tokens.
/// `history` holds the positions (in characters) at which each consumed
/// token's scan began, newest last; `rewind` drops entries to re-read tokens.
pub struct Lexer {
    pub chars: Vec<char>,
    pub history: Vec<usize>,
}

fn is_space(c: char) -> (r: bool)
    ensures
        r == is_space_char(c),
{
    let u = c as u32;
    u == 0x20 || (0x9 <= u && u <= 0xd) || u == 0x85 || u == 0xa0 || u == 0x1680 || (0x2000 <= u
        && u <= 0x200a) || u == 0x2028 || u == 0x2029 || u == 0x202f || u == 0x205f || u == 0x3000
}

fn chars_of(s: &str) -> (v: Vec<char>)
    ensures
        v@ == s@,
{
    let mut it = s.chars();
    let mut v: Vec<char> = Vec::new();
    loop
        invariant
            it.obeys_prophetic_iter_laws(),
            it.decrease() is Some,
            v@ + it.remaining() == s@,
        ensures
            v@ == s@,
        decreases it.decrease()->0,
    {
        match it.next() {
            Some(c) => {
                v.push(c);
                proof {
                    assert(v@ + it.remaining() =~= s@);
                }
            },
            None => {
                proof {
                    assert(it.remaining().len() == 0);
                    assert(v@ =~= s@);
                }
                break ;
            },
        }
    }
    v
}

/// Relies on `String`'s `FromIterator<char>`: collecting the characters of a
/// vector yields the string holding exactly those characters in order.
#[verifier::external_body]
fn string_from_chars(v: &Vec<char>) -> (s: String)
    ensures
        s@ == v@,
{
    v.iter().collect()
}

/// How `rewind(n)` transforms the history: drop the last `n` entries, but
/// never below one entry (unless the history was already empty).
pub open spec fn rewound_history(h: Seq<usize>, n: int) -> Seq<usize> {
    let new_len = if h.len() >= n { h.len() - n } else { 0 };
    let target = if new_len != 0 { new_len } else { 1 };
    if target >= h.len() {
        h
    } else {
        h.take(target)
    }
}

impl Lexer {
    /// The character sequence under analysis.
    pub open spec fn input(&self) -> Seq<char> {
        self.chars@
    }

    pub fn new(s: &str) -> (r: Lexer)
        ensures
            r.input() == s@,
            r.history@ == seq![0usize],
    {
        let r = Lexer { chars: chars_of(s), history: vec![0usize] };
        proof {
            assert(r.history@ =~= seq![0usize]);
        }
        r
    }

    pub fn reset(&mut self)
        ensures
            final (self).input() == old(self).input(),
            final (self).history@ == seq![0usize],
    {
        self.history = vec![0usize];
        proof {
            assert(self.history@ =~= seq![0usize]);
        }
    }

    pub fn rewind(&mut self, n: usize)
        ensures
            final (self).input() == old(self).input(),
            final (self).history@ == rewound_history(old(self).history@, n as int),
    {
        let len = self.history.len();
        let new_len: usize = if len >= n {
            len - n
        } else {
            0
        };
        let target: usize = if new_len != 0 {
            new_len
        } else {
            1
        };
        self.history.truncate(target);
    }

    /// Scans the next token starting at the newest history position; on
    /// success the resume position is appended to the history, on any error
    /// the lexer is left unchanged.
    #[verifier::loop_isolation(false)]
    pub fn get_token(&mut self) -> (r: Result<String, MError>)
        ensures
            final (self).input() == old(self).input(),
            old(self).history@.len() == 0 ==> (r matches Err(MError::InvalidState(m)) && m@
                == "Empty history"@ && final (self).history@ == old(self).history@),
            old(self).history@.len() > 0 ==> match scan_out(
                old(self).input(),
                old(self).history@.last() as int,
            ) {
                ScanResult::Token { tok, next } => (r matches Ok(t) && t@ == tok
                    && final (self).history@ == old(self).history@.push(next as usize)),
                ScanResult::EndOfString => r == Err::<String, MError>(MError::EndOfString)
                    && final (self).history@ == old(self).history@,
                ScanResult::Unterminated => r == Err::<String, MError>(MError::UnterminatedToken)
                    && final (self).history@ == old(self).history@,
            },
    {
        if self.history.len() == 0 {
            return Err(MError::InvalidState("Empty history".to_owned()));
        }
        let start: usize = self.history[self.history.len() - 1];
        let n = self.chars.len();
        let ghost sq = self.chars@;
        let ghost start_i = start as int;

        let mut i: usize = start;
        while i < n && is_space(self.chars[i])
            invariant
                n == sq.len(),
                self == old(self),
                sq == self.chars@,
                start_i <= i as int,
                scan_out(sq, i as int) == scan_out(sq, start_i),
            decreases sq.len() - i as int,
        {
            i = i + 1;
        }

        if i >= n {
            return Err(MError::EndOfString);
        }

        let c0 = self.chars[i];
        let mut tok: Vec<char> = Vec::new();
        let mut quote: Option<char> = None;
        if c0 == '\'' || c0 == '"' {
            quote = Some(c0);
        } else {
            tok.push(c0);
        }
        i = i + 1;

        while i < n
            invariant
                n == sq.len(),
                self == old(self),
                sq == self.chars@,
                i as int <= sq.len(),
                old(self).history@.len() > 0,
                match quote {
                    Option::None => scan_plain(sq, i as int, tok@) == scan_out(sq, start_i),
                    Option::Some(q) => is_quote_char(q) && scan_quoted(sq, i as int, q, tok@)
                        == scan_out(sq, start_i),
                },
            decreases sq.len() - i as int,
        {
            let c = self.chars[i];
            match quote {
                Option::None => {
                    if is_space(c) {
                        proof {
                            assert(scan_plain(sq, i as int, tok@) == ScanResult::Token {
                                tok: tok@,
                                next: i as int,
                            });
                        }
                        let t = string_from_chars(&tok);
                        self.history.push(i);
                        return Ok(t);
                    }
                    if c == '\'' || c == '"' {
                        quote = Some(c);
                    } else {
                        tok.push(c);
                    }
                },
                Option::Some(q) => {
                    if c == q {
                        quote = None;
                    } else {
                        tok.push(c);
                    }
                },
            }
            i = i + 1;
        }

        match quote {
            Option::Some(q) => {
                proof {
                    assert(scan_quoted(sq, i as int, q, tok@) == ScanResult::Unterminated);
                }
                Err(MError::UnterminatedToken)
            },
            Option::None => {
                proof {
                    assert(scan_plain(sq, i as int, tok@) == ScanResult::Token {
                        tok: tok@,
                        next: sq.len() as int,
                    });
                }
                let t = string_from_chars(&tok);
                self.history.push(n);
                Ok(t)
            },
        }
    }
}

} // verus!

