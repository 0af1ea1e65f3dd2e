//! The message atom: a small closed tagged union of the three value shapes a
//! host message can carry. Floating-point atoms travel through the protocol
//! untouched, so they are carried as their raw IEEE-754 bit pattern; the
//! boundary that talks to the host converts in both directions.

use vstd::prelude::*;

verus! {

/// The raw bit pattern of a 64-bit floating-point atom, carried opaquely.
#[derive(Clone, Copy, PartialEq, Eq, Structural, Debug)]
pub struct FloatBits {
    pub bits: u64,
}

/// One atom of a message: an integer, a float (as raw bits), or a symbol.
#[derive(Clone, Debug)]
pub enum Token {
    Int(i64),
    Float(FloatBits),
    Sym(String),
}

/// The mathematical shape of a token.
pub ghost enum TokenV {
    Int(i64),
    Float(u64),
    Sym(Seq<char>),
}

impl View for Token {
    type V = TokenV;

    open spec fn view(&self) -> TokenV {
        match self {
            Token::Int(i) => TokenV::Int(*i),
            Token::Float(f) => TokenV::Float(f.bits),
            Token::Sym(s) => TokenV::Sym(s@),
        }
    }
}

impl DeepView for Token {
    type V = TokenV;

    open spec fn deep_view(&self) -> TokenV {
        self.view()
    }
}

/// Builds the three-element reply tuple of a read.
pub fn triple(a: Token, b: Token, c: Token) -> (r: Vec<Token>)
    ensures
        r.deep_view() =~~= seq![a@, b@, c@],
{
    let ghost av = a@;
    let ghost bv = b@;
    let ghost cv = c@;
    let mut out: Vec<Token> = Vec::new();
    out.push(a);
    out.push(b);
    out.push(c);
    proof {
        assert(out@.len() == 3);
        assert(out@[0]@ == av && out@[1]@ == bv && out@[2]@ == cv);
    }
    out
}

/// Builds the four-element reply tuple of an element read.
pub fn quad(a: Token, b: Token, c: Token, d: Token) -> (r: Vec<Token>)
    ensures
        r.deep_view() =~~= seq![a@, b@, c@, d@],
{
    let ghost av = a@;
    let ghost bv = b@;
    let ghost cv = c@;
    let ghost dv = d@;
    let mut out: Vec<Token> = Vec::new();
    out.push(a);
    out.push(b);
    out.push(c);
    out.push(d);
    proof {
        assert(out@.len() == 4);
        assert(out@[0]@ == av && out@[1]@ == bv && out@[2]@ == cv && out@[3]@ == dv);
    }
    out
}

/// A numeric value as a field stores it: integers and floats are kept exactly
/// as the message carried them and echoed back unchanged on a read.
#[derive(Clone, Copy, PartialEq, Eq, Structural, Debug)]
pub enum Num {
    Int(i64),
    Float(FloatBits),
}

/// The token a stored numeric value echoes back.
pub open spec fn num_token(n: Num) -> TokenV {
    match n {
        Num::Int(i) => TokenV::Int(i),
        Num::Float(f) => TokenV::Float(f.bits),
    }
}

/// Turns a stored numeric value back into a message token.
pub fn num_to_token(n: Num) -> (t: Token)
    ensures
        t@ == num_token(n),
{
    match n {
        Num::Int(i) => Token::Int(i),
        Num::Float(f) => Token::Float(f),
    }
}

/// The numeric reading of a token, if it has one.
pub open spec fn token_num(t: TokenV) -> Option<Num> {
    match t {
        TokenV::Int(i) => Some(Num::Int(i)),
        TokenV::Float(b) => Some(Num::Float(FloatBits { bits: b })),
        TokenV::Sym(_) => None,
    }
}

/// Reads a token as a numeric parameter; symbols are rejected.
pub fn coerce_num(t: &Token) -> (r: Option<Num>)
    ensures
        r == token_num(t@),
{
    match t {
        Token::Int(i) => Some(Num::Int(*i)),
        Token::Float(f) => Some(Num::Float(*f)),
        Token::Sym(_) => None,
    }
}

/// The boolean reading of a token: exactly the integers 0 and 1 qualify.
pub open spec fn token_bool01(t: TokenV) -> Option<bool> {
    match t {
        TokenV::Int(i) => if i == 0 {
            Some(false)
        } else if i == 1 {
            Some(true)
        } else {
            None
        },
        _ => None,
    }
}

/// Accepts exactly the integer atoms 0 and 1 as a boolean; everything else,
/// floats and symbols included, is rejected.
pub fn coerce_bool01(t: &Token) -> (r: Option<bool>)
    ensures
        r == token_bool01(t@),
{
    match t {
        Token::Int(i) => {
            if *i == 0 {
                Some(false)
            } else if *i == 1 {
                Some(true)
            } else {
                None
            }
        },
        _ => None,
    }
}

/// The integer reading of a token; floats and symbols are rejected.
pub open spec fn token_int(t: TokenV) -> Option<i64> {
    match t {
        TokenV::Int(i) => Some(i),
        _ => None,
    }
}

/// Reads a token as an integer parameter.
pub fn coerce_int(t: &Token) -> (r: Option<i64>)
    ensures
        r == token_int(t@),
{
    match t {
        Token::Int(i) => Some(*i),
        _ => None,
    }
}

/// Whether the boolean echoes back as integer 1 or 0.
pub open spec fn bool01_token(b: bool) -> TokenV {
    TokenV::Int(if b { 1 } else { 0 })
}

/// Turns a stored boolean back into the 0/1 integer token it echoes as.
pub fn bool01_to_token(b: bool) -> (t: Token)
    ensures
        t@ == bool01_token(b),
{
    if b {
        Token::Int(1)
    } else {
        Token::Int(0)
    }
}

} // verus!
