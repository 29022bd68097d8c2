use vstd::prelude::*;
use vstd::std_specs::iter::IteratorSpec;
use ansi_parser::{AnsiParser, AnsiSequence, Output};

verus! {

broadcast use vstd::string::axiom_spec_iter, vstd::string::next_postcondition;

#[verifier::external_type_specification]
#[verifier::external_body]
#[verifier::reject_recursive_types(T)]
pub struct ExHeaplessVec<T, const N: usize>(heapless::Vec<T, N>);

#[verifier::external_type_specification]
pub struct ExAnsiSequence(AnsiSequence);

#[verifier::external_type_specification]
pub struct ExOutput<'a>(Output<'a>);

/// The closed set of control operations the interpreter acts on.
/// Every other escape sequence is `Other`.
#[derive(Clone, Copy, Debug, PartialEq, Eq, Structural)]
pub enum Control {
    /// Puts the cursor at column `col` of row `row`.
    SetCursorPosition { row: u32, col: u32 },
    /// Moves the cursor `n` rows toward row 0, as a terminal does.
    CursorUp(u32),
    /// Moves the cursor `n` rows away from row 0.
    CursorDown(u32),
    /// Moves the cursor `n` columns right.
    CursorForward(u32),
    /// Moves the cursor `n` columns left.
    CursorBackward(u32),
    /// Blanks the cursor's row from the cursor to the row's end.
    EraseToEndOfLine,
    /// Blanks every cell from the cursor to the end of the screen.
    EraseToEndOfDisplay,
    /// Any other escape sequence: applying it changes nothing.
    Other,
}

/// One unit of the byte stream: a run of literal bytes, or one complete
/// control sequence.
#[derive(Debug, PartialEq, Eq)]
pub enum Token {
    Literal(Vec<u8>),
    Control(Control),
}

/// The control operation that an escape sequence stands for.
pub open spec fn control_spec(seq: AnsiSequence) -> Control {
    match seq {
        AnsiSequence::CursorPos(row, col) => Control::SetCursorPosition { row, col },
        AnsiSequence::CursorUp(n) => Control::CursorUp(n),
        AnsiSequence::CursorDown(n) => Control::CursorDown(n),
        AnsiSequence::CursorForward(n) => Control::CursorForward(n),
        AnsiSequence::CursorBackward(n) => Control::CursorBackward(n),
        AnsiSequence::EraseLine => Control::EraseToEndOfLine,
        AnsiSequence::EraseDisplay => Control::EraseToEndOfDisplay,
        _ => Control::Other,
    }
}

/// Bytes travel through the tokenizer as the characters U+0000..=U+00FF,
/// one character per byte; this takes a character back to its byte.
pub open spec fn byte_of_char(c: char) -> u8 {
    (c as u32 % 256) as u8
}

pub open spec fn bytes_of_chars(s: Seq<char>) -> Seq<u8> {
    s.map_values(|c: char| byte_of_char(c))
}

/// `t` is the library's form of the tokenizer output `o`.
pub open spec fn token_of_output_spec(t: Token, o: Output) -> bool {
    match o {
        Output::TextBlock(s) => t is Literal && t->Literal_0@ == bytes_of_chars(s@),
        Output::Escape(seq) => t == Token::Control(control_spec(seq)),
    }
}

/// Maps an escape sequence to the control operation it stands for.
pub fn control_of(seq: &AnsiSequence) -> (c: Control)
    ensures
        c == control_spec(*seq),
{
    match seq {
        AnsiSequence::CursorPos(row, col) => Control::SetCursorPosition { row: *row, col: *col },
        AnsiSequence::CursorUp(n) => Control::CursorUp(*n),
        AnsiSequence::CursorDown(n) => Control::CursorDown(*n),
        AnsiSequence::CursorForward(n) => Control::CursorForward(*n),
        AnsiSequence::CursorBackward(n) => Control::CursorBackward(*n),
        AnsiSequence::EraseLine => Control::EraseToEndOfLine,
        AnsiSequence::EraseDisplay => Control::EraseToEndOfDisplay,
        _ => Control::Other,
    }
}

/// The bytes of a text whose characters each stand for one byte.
pub fn text_bytes(t: &str) -> (r: Vec<u8>)
    ensures
        r@ == bytes_of_chars(t@),
{
    let mut r: Vec<u8> = Vec::new();
    let mut it = t.chars();
    loop
        invariant
            it.decrease() is Some,
            r@ + bytes_of_chars(it.remaining()) == bytes_of_chars(t@),
        decreases it.decrease()->0,
    {
        match it.next() {
            Some(c) => {
                r.push((c as u32 % 256) as u8);
            },
            None => {
                return r;
            },
        }
    }
}

/// Turns one item of the tokenizer's output into a token.
pub fn token_of_output(o: Output) -> (t: Token)
    ensures
        token_of_output_spec(t, o),
{
    match o {
        Output::TextBlock(s) => Token::Literal(text_bytes(s)),
        Output::Escape(seq) => Token::Control(control_of(&seq)),
    }
}

/// The tokens that the ANSI tokenizer finds in a byte string.
pub uninterp spec fn ansi_tokens(bytes: Seq<u8>) -> Seq<Token>;

/// Relies on ansi_parser's `AnsiParser::ansi_parse` for `str` and its iterator:
/// the split into text blocks and escape sequences depends on the text alone,
/// and an empty text yields no item. Each byte is handed over as the
/// character of the same number.
#[verifier::external_body]
pub(crate) fn tokenize(bytes: &[u8]) -> (r: Vec<Token>)
    ensures
        r@ == ansi_tokens(bytes@),
        bytes@.len() == 0 ==> r@.len() == 0,
{
    let text: String = bytes.iter().map(|b| char::from(*b)).collect();
    text.ansi_parse().map(token_of_output).collect()
}

} // verus!
