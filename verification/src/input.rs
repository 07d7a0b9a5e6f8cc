//! The grammar of the file-embedding input: one string literal, the path of
//! the file to embed, or two separated by a comma, the source file that the
//! path is relative to and the path.

use vstd::prelude::*;

verus! {

/// A token of the input, as far as the grammar tells tokens apart.
pub enum MacroToken {
    /// A string literal, with its value.
    StrLit(String),
    /// A `,`.
    Comma,
    /// Any other token.
    Other,
}

/// Why the input does not follow the grammar.
#[derive(Debug, Clone, Copy, PartialEq, Eq, Structural)]
pub enum InputError {
    /// A string literal was expected and something else, or nothing, came.
    ExpectedStringLiteral,
    /// After the first literal, a `,` was expected and something else came.
    ExpectedComma,
    /// Tokens follow the second literal.
    TrailingInput,
}

/// The parsed input: the path to embed, and the source file it is relative
/// to where one is given.
pub struct FileMacroInput {
    pub source_file: Option<String>,
    pub target_path: String,
}

/// The value of a string-literal token.
pub open spec fn literal_value(t: MacroToken) -> Seq<char> {
    match t {
        MacroToken::StrLit(s) => s@,
        _ => Seq::empty(),
    }
}

/// What the grammar makes of a token sequence: the source file (where given)
/// and the target path, or the first error met from the left.
pub open spec fn parse_spec(t: Seq<MacroToken>) -> Result<(Option<Seq<char>>, Seq<char>), InputError> {
    if t.len() == 0 || !(t[0] is StrLit) {
        Err(InputError::ExpectedStringLiteral)
    } else if t.len() == 1 {
        Ok((None, literal_value(t[0])))
    } else if !(t[1] is Comma) {
        Err(InputError::ExpectedComma)
    } else if t.len() == 2 || !(t[2] is StrLit) {
        Err(InputError::ExpectedStringLiteral)
    } else if t.len() > 3 {
        Err(InputError::TrailingInput)
    } else {
        Ok((Some(literal_value(t[0])), literal_value(t[2])))
    }
}

/// The view of a parsed input: its source file and target path as text.
pub open spec fn input_view(i: FileMacroInput) -> (Option<Seq<char>>, Seq<char>) {
    (
        match i.source_file {
            Some(s) => Some(s@),
            None => None,
        },
        i.target_path@,
    )
}

/// The string value of a token known to be a literal.
fn literal_string(t: &MacroToken) -> (s: String)
    requires
        *t is StrLit,
    ensures
        s@ == literal_value(*t),
{
    match t {
        MacroToken::StrLit(s) => s.clone(),
        _ => String::new(),
    }
}

impl FileMacroInput {
    /// Parses the input of a file-embedding call site.
    pub fn parse(tokens: &Vec<MacroToken>) -> (res: Result<FileMacroInput, InputError>)
        ensures
            match parse_spec(tokens@) {
                Ok(v) => res matches Ok(i) && input_view(i) == v,
                Err(e) => res == Err::<FileMacroInput, InputError>(e),
            },
    {
        let n = tokens.len();
        if n == 0 || !matches!(tokens[0], MacroToken::StrLit(_)) {
            return Err(InputError::ExpectedStringLiteral);
        }
        let first = literal_string(&tokens[0]);
        if n == 1 {
            return Ok(FileMacroInput { source_file: None, target_path: first });
        }
        if !matches!(tokens[1], MacroToken::Comma) {
            return Err(InputError::ExpectedComma);
        }
        if n == 2 || !matches!(tokens[2], MacroToken::StrLit(_)) {
            return Err(InputError::ExpectedStringLiteral);
        }
        if n > 3 {
            return Err(InputError::TrailingInput);
        }
        let second = literal_string(&tokens[2]);
        Ok(FileMacroInput { source_file: Some(first), target_path: second })
    }
}

/// A single string literal is the path to embed, with no source file, whatever
/// the text of the literal.
pub proof fn lemma_single_literal_is_the_path(s: String)
    ensures
        parse_spec(seq![MacroToken::StrLit(s)]) == Ok::<(Option<Seq<char>>, Seq<char>), InputError>((None, s@)),
{
}

/// Two literals separated by a comma are the source file and the path, in
/// that order, whatever their text.
pub proof fn lemma_two_literals_are_source_and_path(a: String, b: String)
    ensures
        parse_spec(seq![MacroToken::StrLit(a), MacroToken::Comma, MacroToken::StrLit(b)])
            == Ok::<(Option<Seq<char>>, Seq<char>), InputError>((Some(a@), b@)),
{
}

/// Only these two shapes parse: whatever parses is one literal, or a literal,
/// a comma and a literal, and the parse gives back their values.
pub proof fn lemma_parsed_input_shape(t: Seq<MacroToken>)
    ensures
        parse_spec(t) matches Ok((sf, p)) ==> ((t.len() == 1 && t[0] is StrLit && sf is None
            && p == literal_value(t[0])) || (t.len() == 3 && t[0] is StrLit && t[1] is Comma && t[2] is StrLit
            && sf == Some(literal_value(t[0])) && p == literal_value(t[2]))),
{
}

} // verus!
