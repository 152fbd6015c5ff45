//! The generated declaration: a static byte array of exactly the length of
//! the compiled binary, and its text.
//!
//! The text is put together by `quote`: its `Tokens` joins the tokens it is
//! given with single spaces.

use vstd::prelude::*;
use crate::error::{EmbedError, ErrorView};
use crate::text::{
    decimal_text, is_digit, lemma_decimal_text_digits, lemma_decimal_text_injective,
    lemma_decimal_text_nonempty, lemma_digits_end_at_first_other,
    lemma_digits_start_after_last_other,
};

verus! {

/// The token buffer of `quote`.
#[verifier::external_type_specification]
#[verifier::external_body]
pub struct ExTokens(quote::Tokens);

/// The text that a token buffer holds.
pub uninterp spec fn tokens_text(tokens: quote::Tokens) -> Seq<char>;

/// A text after one more token: the token follows a single space, unless the
/// text or the token is empty.
pub open spec fn appended(text: Seq<char>, token: Seq<char>) -> Seq<char> {
    if text.len() > 0 && token.len() > 0 {
        text + seq![' '] + token
    } else {
        text + token
    }
}

/// A text after the items of a byte array: each byte is the token of its
/// decimal numeral with the suffix `u8`, followed by the token `,`.
pub open spec fn appended_items(text: Seq<char>, bytes: Seq<u8>) -> Seq<char>
    decreases bytes.len(),
{
    if bytes.len() == 0 {
        text
    } else {
        appended(
            appended(
                appended_items(text, bytes.drop_last()),
                decimal_text(bytes.last() as nat) + "u8"@,
            ),
            ","@,
        )
    }
}

/// A text after a byte array: the token `[`, the items, the token `]`.
pub open spec fn appended_array(text: Seq<char>, bytes: Seq<u8>) -> Seq<char> {
    appended(appended_items(appended(text, "["@), bytes), "]"@)
}

/// `quote::Tokens::new`: a buffer that holds nothing.
#[verifier::external_body]
fn tokens_new() -> (tokens: quote::Tokens)
    ensures
        tokens_text(tokens) == Seq::<char>::empty(),
{
    quote::Tokens::new()
}

/// `quote::Tokens::append`: adds one token, after a space unless the buffer
/// or the token is empty.
#[verifier::external_body]
fn tokens_append(tokens: &mut quote::Tokens, token: &str)
    ensures
        tokens_text(*final(tokens)) == appended(tokens_text(*old(tokens)), token@),
{
    tokens.append(token)
}

/// `quote::ToTokens::to_tokens` for `usize`: appends one token, the decimal
/// numeral of the number with the suffix `usize`.
#[verifier::external_body]
fn tokens_append_count(tokens: &mut quote::Tokens, count: usize)
    ensures
        tokens_text(*final(tokens)) == appended(
            tokens_text(*old(tokens)),
            decimal_text(count as nat) + "usize"@,
        ),
{
    quote::ToTokens::to_tokens(&count, tokens)
}

/// `quote::ToTokens::to_tokens` for `Vec<u8>`: appends `[`, then for each
/// byte its numeral with the suffix `u8` and a `,`, then `]`.
#[verifier::external_body]
fn tokens_append_bytes(tokens: &mut quote::Tokens, bytes: &Vec<u8>)
    ensures
        tokens_text(*final(tokens)) == appended_array(tokens_text(*old(tokens)), bytes@),
{
    quote::ToTokens::to_tokens(bytes, tokens)
}

/// `quote::Tokens::into_string`: the text that the buffer holds.
#[verifier::external_body]
fn tokens_into_string(tokens: quote::Tokens) -> (text: String)
    ensures
        text@ == tokens_text(tokens),
{
    tokens.into_string()
}

/// The items of the array in the declaration's text: each byte as its decimal
/// numeral with the suffix `u8`, then a comma between two spaces.
pub open spec fn items_text(bytes: Seq<u8>) -> Seq<char>
    decreases bytes.len(),
{
    if bytes.len() == 0 {
        Seq::<char>::empty()
    } else {
        items_text(bytes.drop_last()) + decimal_text(bytes.last() as nat) + "u8 , "@
    }
}

/// The text of the declaration that embeds `bytes`: a static array named
/// `DATA` whose declared length is the number of the bytes and whose items
/// are the bytes, in order.
pub open spec fn declaration_text(bytes: Seq<u8>) -> Seq<char> {
    "static DATA : [ u8 ; "@ + decimal_text(bytes.len()) + "usize ] = [ "@ + items_text(bytes)
        + "] ;"@
}

proof fn lemma_appended_items(text: Seq<char>, bytes: Seq<u8>)
    requires
        text.len() > 0,
    ensures
        appended_items(text, bytes).len() > 0,
        appended_items(text, bytes) + seq![' '] == text + seq![' '] + items_text(bytes),
    decreases bytes.len(),
{
    if bytes.len() == 0 {
        assert(text + seq![' '] + items_text(bytes) =~= text + seq![' ']);
    } else {
        reveal_strlit("u8");
        reveal_strlit(",");
        reveal_strlit("u8 , ");
        let before = appended_items(text, bytes.drop_last());
        let numeral = decimal_text(bytes.last() as nat);
        lemma_appended_items(text, bytes.drop_last());
        lemma_decimal_text_nonempty(bytes.last() as nat);
        let item = numeral + "u8"@;
        assert(item.len() > 0);
        assert(","@.len() == 1);
        assert(appended_items(text, bytes) == before + seq![' '] + item + seq![' '] + ","@);
        assert(seq![' '] + ","@ + seq![' '] =~= " , "@) by {
            reveal_strlit(" , ");
        }
        assert("u8"@ + " , "@ =~= "u8 , "@) by {
            reveal_strlit(" , ");
        }
        assert(appended_items(text, bytes) + seq![' '] =~= (before + seq![' ']) + numeral
            + "u8 , "@);
        assert((text + seq![' '] + items_text(bytes.drop_last())) + numeral + "u8 , "@ =~= text
            + seq![' '] + items_text(bytes));
    }
}

proof fn lemma_items_text_end(bytes: Seq<u8>)
    ensures
        bytes.len() == 0 <==> items_text(bytes).len() == 0,
        bytes.len() > 0 ==> items_text(bytes).len() >= 5 && !is_digit(items_text(bytes).last()),
{
    reveal_strlit("u8 , ");
    if bytes.len() > 0 {
        let text = items_text(bytes);
        assert(text.last() == "u8 , "@[4]);
    }
}

/// Different byte sequences have different item texts.
proof fn lemma_items_text_injective(first: Seq<u8>, second: Seq<u8>)
    requires
        items_text(first) == items_text(second),
    ensures
        first == second,
    decreases first.len(),
{
    lemma_items_text_end(first);
    lemma_items_text_end(second);
    if first.len() == 0 {
        assert(first =~= second);
    } else {
        reveal_strlit("u8 , ");
        let tail = "u8 , "@;
        let start = items_text(first.drop_last());
        let other_start = items_text(second.drop_last());
        let digits = decimal_text(first.last() as nat);
        let other_digits = decimal_text(second.last() as nat);
        let whole = items_text(first);
        assert(whole == (start + digits) + tail);
        assert(whole == (other_start + other_digits) + tail);
        assert(start + digits =~= whole.subrange(0, whole.len() - 5));
        assert(other_start + other_digits =~= whole.subrange(0, whole.len() - 5));
        lemma_decimal_text_digits(first.last() as nat);
        lemma_decimal_text_digits(second.last() as nat);
        lemma_items_text_end(first.drop_last());
        lemma_items_text_end(second.drop_last());
        lemma_digits_start_after_last_other(start, digits, other_start, other_digits);
        lemma_decimal_text_injective(first.last() as nat, second.last() as nat);
        lemma_items_text_injective(first.drop_last(), second.drop_last());
        assert(first =~= first.drop_last().push(first.last()));
        assert(second =~= second.drop_last().push(second.last()));
    }
}

/// The text of a declaration holds its bytes in full: two declarations with
/// the same text embed the same bytes, so reading the text back gives the
/// binary that went in.
pub proof fn lemma_declaration_text_determines_bytes(first: Seq<u8>, second: Seq<u8>)
    requires
        declaration_text(first) == declaration_text(second),
    ensures
        first == second,
{
    reveal_strlit("static DATA : [ u8 ; ");
    reveal_strlit("usize ] = [ ");
    reveal_strlit("] ;");
    let head = "static DATA : [ u8 ; "@;
    let middle = "usize ] = [ "@;
    let end = "] ;"@;
    let whole = declaration_text(first);
    let digits = decimal_text(first.len());
    let other_digits = decimal_text(second.len());
    let rest = middle + items_text(first) + end;
    let other_rest = middle + items_text(second) + end;
    assert(digits + rest =~= whole.subrange(head.len() as int, whole.len() as int));
    assert(other_digits + other_rest =~= whole.subrange(head.len() as int, whole.len() as int));
    lemma_decimal_text_digits(first.len());
    lemma_decimal_text_digits(second.len());
    assert(rest[0] == middle[0]);
    assert(other_rest[0] == middle[0]);
    lemma_digits_end_at_first_other(digits, rest, other_digits, other_rest);
    assert(items_text(first) =~= rest.subrange(middle.len() as int, rest.len() - end.len()));
    assert(items_text(second) =~= other_rest.subrange(
        middle.len() as int,
        other_rest.len() - end.len(),
    ));
    lemma_items_text_injective(first, second);
}

/// A compiled shader, ready to stand in the program as a static byte array.
/// Its declared length is the number of its bytes.
#[derive(Debug, PartialEq, Eq)]
pub struct GeneratedDeclaration {
    bytes: Vec<u8>,
    length: usize,
}

impl View for GeneratedDeclaration {
    type V = Seq<u8>;

    /// The bytes of the array.
    closed spec fn view(&self) -> Seq<u8> {
        self.bytes@
    }
}

impl Clone for GeneratedDeclaration {
    fn clone(&self) -> (copy: GeneratedDeclaration)
        ensures
            copy@ == self@,
    {
        proof {
            use_type_invariant(self);
        }
        let bytes = self.bytes.clone();
        assert(bytes@ =~= self.bytes@);
        GeneratedDeclaration { bytes, length: self.length }
    }
}

impl GeneratedDeclaration {
    #[verifier::type_invariant]
    spec fn length_is_exact(self) -> bool {
        self.length == self.bytes@.len()
    }

    /// Makes the declaration for a binary that was read as `bytes` and whose
    /// length was recorded as `length`. Fails exactly when the two disagree.
    pub fn new(bytes: Vec<u8>, length: usize) -> (result: Result<GeneratedDeclaration, EmbedError>)
        ensures
            match result {
                Ok(declaration) => length == bytes@.len() && declaration@ == bytes@,
                Err(error) => length != bytes@.len() && error@ == (ErrorView::LengthMismatch {
                    declared: length as nat,
                    actual: bytes@.len(),
                }),
            },
    {
        let actual = bytes.len();
        if length == actual {
            Ok(GeneratedDeclaration { bytes, length })
        } else {
            Err(EmbedError::LengthMismatch { declared: length, actual })
        }
    }

    /// The declared length of the array.
    pub fn len(&self) -> (length: usize)
        ensures
            length == self@.len(),
    {
        proof {
            use_type_invariant(self);
        }
        self.length
    }

    /// The bytes of the array.
    pub fn bytes(&self) -> (bytes: &Vec<u8>)
        ensures
            bytes@ == self@,
    {
        &self.bytes
    }

    /// The text of the declaration: `static DATA : [ u8 ; N ] = [ ... ] ;`,
    /// with the declared length and every byte written out.
    pub fn render(&self) -> (text: String)
        ensures
            text@ == declaration_text(self@),
    {
        proof {
            use_type_invariant(self);
            reveal_strlit("static");
            reveal_strlit("DATA");
            reveal_strlit(":");
            reveal_strlit("[");
            reveal_strlit("u8");
            reveal_strlit(";");
            reveal_strlit("]");
            reveal_strlit("=");
            reveal_strlit("usize");
            reveal_strlit("static DATA : [ u8 ; ");
            reveal_strlit("usize ] = [ ");
            reveal_strlit("] ;");
        }
        let mut tokens = tokens_new();
        tokens_append(&mut tokens, "static");
        tokens_append(&mut tokens, "DATA");
        tokens_append(&mut tokens, ":");
        tokens_append(&mut tokens, "[");
        tokens_append(&mut tokens, "u8");
        tokens_append(&mut tokens, ";");
        let ghost head = tokens_text(tokens);
        assert(head + seq![' '] =~= "static DATA : [ u8 ; "@);
        tokens_append_count(&mut tokens, self.length);
        tokens_append(&mut tokens, "]");
        tokens_append(&mut tokens, "=");
        let ghost numeral = decimal_text(self.length as nat);
        let ghost before = tokens_text(tokens);
        proof {
            lemma_decimal_text_nonempty(self.length as nat);
            assert(before =~= head + seq![' '] + numeral + "usize"@ + seq![' '] + "]"@ + seq![' ']
                + "="@);
        }
        tokens_append_bytes(&mut tokens, &self.bytes);
        tokens_append(&mut tokens, ";");
        proof {
            let opened = before + seq![' '] + "["@;
            let items = appended_items(opened, self.bytes@);
            lemma_appended_items(opened, self.bytes@);
            assert(tokens_text(tokens) =~= (items + seq![' ']) + "]"@ + seq![' '] + ";"@);
            assert("]"@ + seq![' '] + ";"@ =~= "] ;"@);
            assert("usize"@ + seq![' '] + "]"@ + seq![' '] + "="@ + seq![' '] + "["@ + seq![' ']
                =~= "usize ] = [ "@);
            assert(tokens_text(tokens) =~= declaration_text(self.bytes@));
        }
        tokens_into_string(tokens)
    }
}

} // verus!
