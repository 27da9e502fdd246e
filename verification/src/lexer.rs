//! The tokenizer for the surface syntax that the interactive front end
//! feeds to the parser: symbols, double-quoted string literals, parentheses
//! and the plus sign.  Whitespace and unrecognized characters are skipped;
//! an unterminated string literal takes the rest of the input.

use vstd::prelude::*;

verus! {

/// One token kind, carrying its text where it has any.
#[derive(Clone, PartialEq, Eq, Debug)]
pub enum TokenType {
    Symbol(String),
    StringLit(String),
    ParenL,
    ParenR,
    Plus,
}

/// One scanned token.
#[derive(Clone, PartialEq, Eq, Debug)]
pub struct Token {
    pub typ: TokenType,
}

/// The mathematical shape of a token.
pub enum TokenV {
    Symbol(Seq<char>),
    StrLit(Seq<char>),
    ParenL,
    ParenR,
    Plus,
}

impl TokenType {
    pub open spec fn tview(self) -> TokenV {
        match self {
            TokenType::Symbol(s) => TokenV::Symbol(s@),
            TokenType::StringLit(s) => TokenV::StrLit(s@),
            TokenType::ParenL => TokenV::ParenL,
            TokenType::ParenR => TokenV::ParenR,
            TokenType::Plus => TokenV::Plus,
        }
    }
}

/// The mathematical shape of a whole token stream.
pub open spec fn tokens_view(ts: Seq<Token>) -> Seq<TokenV> {
    Seq::new(ts.len(), |i: int| ts[i].typ.tview())
}

/// A character that may start a symbol: a letter or an underscore.
pub open spec fn is_symbol_start(c: char) -> bool {
    ('a' <= c && c <= 'z') || ('A' <= c && c <= 'Z') || c == '_'
}

/// A character that may continue a symbol: a letter, a digit or an
/// underscore.
pub open spec fn is_symbol_char(c: char) -> bool {
    is_symbol_start(c) || ('0' <= c && c <= '9')
}

pub fn is_symbol_start_exec(c: char) -> (r: bool)
    ensures
        r == is_symbol_start(c),
{
    ('a' <= c && c <= 'z') || ('A' <= c && c <= 'Z') || c == '_'
}

pub fn is_symbol_char_exec(c: char) -> (r: bool)
    ensures
        r == is_symbol_char(c),
{
    is_symbol_start_exec(c) || ('0' <= c && c <= '9')
}

/// The position of the first double quote at or after `j`, or a position at
/// or past the end where there is none.
pub open spec fn quote_end_at(s: Seq<char>, j: nat) -> nat
    decreases s.len() - j,
{
    if j >= s.len() {
        j
    } else if s[j as int] == '"' {
        j
    } else {
        quote_end_at(s, j + 1)
    }
}

/// The position right after the last symbol character of the run starting
/// at `j`.
pub open spec fn sym_end_at(s: Seq<char>, j: nat) -> nat
    decreases s.len() - j,
{
    if j >= s.len() {
        j
    } else if !is_symbol_char(s[j as int]) {
        j
    } else {
        sym_end_at(s, j + 1)
    }
}

pub proof fn lemma_quote_end_at_bounds(s: Seq<char>, j: nat)
    requires
        j <= s.len(),
    ensures
        j <= quote_end_at(s, j) <= s.len(),
    decreases s.len() - j,
{
    if j < s.len() && s[j as int] != '"' {
        lemma_quote_end_at_bounds(s, j + 1);
    }
}

pub proof fn lemma_sym_end_at_bounds(s: Seq<char>, j: nat)
    requires
        j <= s.len(),
    ensures
        j <= sym_end_at(s, j) <= s.len(),
    decreases s.len() - j,
{
    if j < s.len() && is_symbol_char(s[j as int]) {
        lemma_sym_end_at_bounds(s, j + 1);
    }
}

/// The token stream of the input from position `i` on.
pub open spec fn spec_lex_at(s: Seq<char>, i: nat) -> Seq<TokenV>
    decreases s.len() - i,
    via spec_lex_at_decreases
{
    if i >= s.len() {
        Seq::empty()
    } else {
        let c = s[i as int];
        if c == '(' {
            seq![TokenV::ParenL] + spec_lex_at(s, i + 1)
        } else if c == ')' {
            seq![TokenV::ParenR] + spec_lex_at(s, i + 1)
        } else if c == '+' {
            seq![TokenV::Plus] + spec_lex_at(s, i + 1)
        } else if c == '"' {
            let q = quote_end_at(s, i + 1);
            if q >= s.len() {
                seq![TokenV::StrLit(s.subrange(i as int + 1, s.len() as int))]
            } else {
                seq![TokenV::StrLit(s.subrange(i as int + 1, q as int))] + spec_lex_at(s, q + 1)
            }
        } else if is_symbol_start(c) {
            let e = sym_end_at(s, i);
            seq![TokenV::Symbol(s.subrange(i as int, e as int))] + spec_lex_at(s, e)
        } else {
            spec_lex_at(s, i + 1)
        }
    }
}

#[via_fn]
proof fn spec_lex_at_decreases(s: Seq<char>, i: nat) {
    if i < s.len() {
        let c = s[i as int];
        if c == '"' {
            lemma_quote_end_at_bounds(s, i + 1);
        } else if is_symbol_start(c) {
            assert(is_symbol_char(s[i as int]));
            assert(sym_end_at(s, i) == sym_end_at(s, i + 1));
            lemma_sym_end_at_bounds(s, i + 1);
        }
    }
}

/// The whole input's token stream.
pub open spec fn spec_lex(s: Seq<char>) -> Seq<TokenV> {
    spec_lex_at(s, 0)
}

/// The tokenizer.  It carries no state; every `read` scans one input
/// independently.
pub struct Lexer {}

impl Lexer {
    pub fn new() -> (r: Lexer) {
        Lexer {  }
    }

    /// Scans the whole input into its token stream.
    #[verifier::loop_isolation(false)]
    pub fn read(&self, input: &String) -> (r: Vec<Token>)
        ensures
            tokens_view(r@) == spec_lex(input@),
    {
        let s = input.as_str();
        let n = s.unicode_len();
        let mut tokens: Vec<Token> = Vec::new();
        let mut i: usize = 0;
        proof {
            assert(tokens_view(tokens@) + spec_lex_at(input@, 0) =~= spec_lex_at(input@, 0));
        }
        while i < n
            invariant
                n == input@.len(),
                i <= n,
                s@ == input@,
                spec_lex(input@) =~= tokens_view(tokens@) + spec_lex_at(input@, i as nat),
            decreases n - i,
        {
            let ghost toks_pre = tokens@;
            let ghost i0 = i as nat;
            let c = s.get_char(i);
            if c == '(' {
                tokens.push(Token { typ: TokenType::ParenL });
                i = i + 1;
                proof {
                    assert(tokens_view(tokens@) =~= tokens_view(toks_pre).push(TokenV::ParenL));
                    assert(tokens_view(toks_pre) + spec_lex_at(input@, i0) =~= tokens_view(
                        tokens@,
                    ) + spec_lex_at(input@, i as nat));
                }
            } else if c == ')' {
                tokens.push(Token { typ: TokenType::ParenR });
                i = i + 1;
                proof {
                    assert(tokens_view(tokens@) =~= tokens_view(toks_pre).push(TokenV::ParenR));
                    assert(tokens_view(toks_pre) + spec_lex_at(input@, i0) =~= tokens_view(
                        tokens@,
                    ) + spec_lex_at(input@, i as nat));
                }
            } else if c == '+' {
                tokens.push(Token { typ: TokenType::Plus });
                i = i + 1;
                proof {
                    assert(tokens_view(tokens@) =~= tokens_view(toks_pre).push(TokenV::Plus));
                    assert(tokens_view(toks_pre) + spec_lex_at(input@, i0) =~= tokens_view(
                        tokens@,
                    ) + spec_lex_at(input@, i as nat));
                }
            } else if c == '"' {
                let mut j = i + 1;
                while j < n && s.get_char(j) != '"'
                    invariant
                        i + 1 <= j <= n,
                        quote_end_at(input@, (i + 1) as nat) == quote_end_at(input@, j as nat),
                    decreases n - j,
                {
                    proof {
                        assert(quote_end_at(input@, j as nat) == quote_end_at(
                            input@,
                            (j + 1) as nat,
                        ));
                    }
                    j = j + 1;
                }
                if j < n {
                    // Terminated literal: its text, then on past the quote.
                    proof {
                        assert(quote_end_at(input@, (i + 1) as nat) == j);
                    }
                    let text = s.substring_char(i + 1, j).to_owned();
                    tokens.push(Token { typ: TokenType::StringLit(text) });
                    i = j + 1;
                    proof {
                        let x = TokenV::StrLit(input@.subrange(i0 as int + 1, j as int));
                        assert(tokens_view(tokens@) =~= tokens_view(toks_pre).push(x));
                        assert(spec_lex_at(input@, i0) =~= seq![x] + spec_lex_at(
                            input@,
                            i as nat,
                        ));
                        assert(tokens_view(toks_pre) + spec_lex_at(input@, i0) =~= tokens_view(
                            tokens@,
                        ) + spec_lex_at(input@, i as nat));
                    }
                } else {
                    // Unterminated literal: the rest of the input.
                    proof {
                        assert(quote_end_at(input@, (i + 1) as nat) == n);
                    }
                    let text = s.substring_char(i + 1, n).to_owned();
                    tokens.push(Token { typ: TokenType::StringLit(text) });
                    i = n;
                    proof {
                        let x = TokenV::StrLit(input@.subrange(i0 as int + 1, n as int));
                        assert(tokens_view(tokens@) =~= tokens_view(toks_pre).push(x));
                        assert(spec_lex_at(input@, i0) =~= seq![x]);
                        assert(seq![x] =~= seq![x] + spec_lex_at(input@, i as nat));
                        assert(tokens_view(toks_pre) + spec_lex_at(input@, i0) =~= tokens_view(
                            tokens@,
                        ) + spec_lex_at(input@, i as nat));
                    }
                }
            } else if is_symbol_start_exec(c) {
                let mut j = i;
                while j < n && is_symbol_char_exec(s.get_char(j))
                    invariant
                        i <= j <= n,
                        sym_end_at(input@, i as nat) == sym_end_at(input@, j as nat),
                    decreases n - j,
                {
                    proof {
                        assert(sym_end_at(input@, j as nat) == sym_end_at(input@, (j + 1) as nat));
                    }
                    j = j + 1;
                }
                proof {
                    assert(sym_end_at(input@, i as nat) == j);
                }
                let text = s.substring_char(i, j).to_owned();
                tokens.push(Token { typ: TokenType::Symbol(text) });
                i = j;
                proof {
                    let x = TokenV::Symbol(input@.subrange(i0 as int, j as int));
                    assert(tokens_view(tokens@) =~= tokens_view(toks_pre).push(x));
                    assert(spec_lex_at(input@, i0) =~= seq![x] + spec_lex_at(input@, i as nat));
                    assert(tokens_view(toks_pre) + spec_lex_at(input@, i0) =~= tokens_view(
                        tokens@,
                    ) + spec_lex_at(input@, i as nat));
                }
            } else {
                i = i + 1;
            }
        }
        proof {
            assert(tokens_view(tokens@) + Seq::<TokenV>::empty() =~= tokens_view(tokens@));
        }
        tokens
    }
}

} // verus!
