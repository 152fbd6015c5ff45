//! Reading a marker declaration from its source text.
//!
//! The text is parsed by `syn`; what is read of the result are the attributes
//! of the declaration, each by its shape.

use vstd::prelude::*;
use vstd::std_specs::iter::IteratorSpec;
use crate::annotation::{
    entries_view, read_annotations, read_entries, read_view, Configuration, ConfigurationView,
    Entry, EntryView,
};
use crate::error::{EmbedError, ErrorView};

verus! {

/// A parsed struct or enum declaration, as `syn` holds it.
#[verifier::external_type_specification]
#[verifier::external_body]
pub struct ExDeriveInput(syn::DeriveInput);

/// The attributes that stand on a parsed declaration, in source order.
pub uninterp spec fn marker_entries(declaration: syn::DeriveInput) -> Seq<EntryView>;

/// The attributes of the declaration that a source text parses to, or `None`
/// where the text is no single struct or enum declaration.
pub uninterp spec fn parsed_entries(source: Seq<char>) -> Option<Seq<EntryView>>;

/// The character takes a single byte in UTF-8.
pub open spec fn is_ascii_char(c: char) -> bool {
    c <= '\x7f'
}

/// At position `at` the text holds `b'` followed by a character of more than
/// one byte: the start of a byte literal that cannot be one.
pub open spec fn wide_byte_at(source: Seq<char>, at: int) -> bool {
    &&& 0 <= at
    &&& at + 2 < source.len()
    &&& source[at] == 'b'
    &&& source[at + 1] == '\''
    &&& !is_ascii_char(source[at + 2])
}

/// Nowhere in the text is `b'` followed by a character of more than one
/// byte.
pub open spec fn byte_literals_plain(source: Seq<char>) -> bool {
    forall|at: int| !wide_byte_at(source, at)
}

/// Whether nowhere in the text `b'` is followed by a character of more than
/// one byte.
pub fn has_plain_byte_literals(source: &str) -> (plain: bool)
    ensures
        plain == byte_literals_plain(source@),
{
    let mut after_b: bool = false;
    let mut after_quote: bool = false;
    let mut plain: bool = true;
    for c in it: source.chars()
        invariant
            it.seq() == source@,
            after_b == (it.index() >= 1 && source@[it.index() - 1] == 'b'),
            after_quote == (it.index() >= 2 && source@[it.index() - 2] == 'b' && source@[it.index()
                - 1] == '\''),
            plain == (forall|at: int| at + 2 < it.index() ==> !wide_byte_at(source@, at)),
    {
        let ghost position = it.index() as int;
        let ghost before = plain;
        assert(c == source@[position]);
        if after_quote && c > '\x7f' {
            plain = false;
        }
        proof {
            assert(wide_byte_at(source@, position - 2) == (after_quote && !is_ascii_char(c)));
            if plain {
                assert forall|at: int| at + 2 < position + 1 implies !wide_byte_at(
                    source@,
                    at,
                ) by {
                    if at + 2 < position {
                        assert(before);
                    }
                }
            }
        }
        after_quote = after_b && c == '\'';
        after_b = c == 'b';
    }
    plain
}

/// `syn::parse_macro_input`, with its error message dropped: parses the text
/// of one struct or enum declaration. The contract only names the outcome: it
/// depends on the text alone, and on success the attributes of the
/// declaration are those that `parsed_entries` gives for the text.
///
/// Where the parser tries a byte literal, it cuts what follows `b'` after its
/// first byte, and panics if that is inside a character. The precondition
/// leaves every text out in which `b'` is followed by a character of more
/// than one byte, wherever in the text that is. The parser calls itself once
/// for each bracket that is open; how deep a text may nest is the machine's
/// limit, as for any recursion, and no clause speaks of it.
#[verifier::external_body]
fn parse_declaration(source: &str) -> (parsed: Option<syn::DeriveInput>)
    requires
        byte_literals_plain(source@),
    ensures
        match parsed {
            Some(declaration) => parsed_entries(source@) == Some(marker_entries(declaration)),
            None => parsed_entries(source@).is_none(),
        },
{
    syn::parse_macro_input(source).ok()
}

/// `Vec::len` on the `attrs` field of `syn::DeriveInput`: the number of
/// attributes on the declaration.
#[verifier::external_body]
fn attribute_count(declaration: &syn::DeriveInput) -> (count: usize)
    ensures
        count == marker_entries(*declaration).len(),
{
    declaration.attrs.len()
}

/// The `value` field of the attribute at `index` in `syn::DeriveInput::attrs`,
/// a `syn::MetaItem`, with its name and, for a string literal, its value
/// copied out. Names the result as the entry at that position.
#[verifier::external_body]
fn attribute_at(declaration: &syn::DeriveInput, index: usize) -> (entry: Entry)
    requires
        index < marker_entries(*declaration).len(),
    ensures
        entry@ == marker_entries(*declaration)[index as int],
{
    match declaration.attrs[index].value {
        syn::MetaItem::NameValue(ref name, syn::Lit::Str(ref value, _)) => Entry::NameValue {
            name: name.as_ref().to_owned(),
            value: value.clone(),
        },
        syn::MetaItem::NameValue(ref name, _) => Entry::NameLiteral { name: name.as_ref().to_owned() },
        syn::MetaItem::List(ref name, _) => Entry::List { name: name.as_ref().to_owned() },
        syn::MetaItem::Word(ref name) => Entry::Word { name: name.as_ref().to_owned() },
    }
}

/// What reading a marker yields, given the outcome of parsing its text: an
/// error if the text did not parse, and else what its attributes yield.
pub open spec fn read_parsed(parsed: Option<Seq<EntryView>>) -> Result<
    ConfigurationView,
    ErrorView,
> {
    match parsed {
        Some(entries) => read_entries(entries),
        None => Err(ErrorView::InvalidArguments),
    }
}

/// The attributes of a parsed declaration, each by its shape, in source
/// order.
fn attributes(declaration: &syn::DeriveInput) -> (entries: Vec<Entry>)
    ensures
        entries_view(entries@) == marker_entries(*declaration),
{
    let count = attribute_count(declaration);
    let mut entries: Vec<Entry> = Vec::new();
    let mut i: usize = 0;
    while i < count
        invariant
            i <= count,
            count == marker_entries(*declaration).len(),
            entries@.len() == i,
            forall|k: int| 0 <= k < i ==> (#[trigger] entries@[k])@ == marker_entries(*declaration)[k],
        decreases count - i,
    {
        let entry = attribute_at(declaration, i);
        entries.push(entry);
        i = i + 1;
    }
    proof {
        assert(entries_view(entries@) =~= marker_entries(*declaration));
    }
    entries
}

/// What reading the source text of a marker yields. A text in which `b'` is
/// followed by a character of more than one byte is refused unparsed; any
/// other text is parsed and its attributes are read.
pub open spec fn marker_reading(source: Seq<char>) -> Result<ConfigurationView, ErrorView> {
    if byte_literals_plain(source) {
        read_parsed(parsed_entries(source))
    } else {
        Err(ErrorView::InvalidArguments)
    }
}

/// Reads the configuration from the source text of a marker declaration. The
/// text must parse as one struct or enum declaration, and each of its
/// attributes must be accepted; the configuration then holds, for each key,
/// the value of its last binding.
///
/// A text in which `b'` is followed by a character of more than one byte is
/// refused as invalid before it is parsed, because the parser cannot take it.
/// This looks at the text alone: it also refuses a marker that holds such a
/// sequence inside a string literal or a comment, such as a shader source
/// with `b'` before an accented letter, which the parser would have read.
pub fn read_marker(source: &str) -> (result: Result<Configuration, EmbedError>)
    ensures
        read_view(result) == marker_reading(source@),
{
    if !has_plain_byte_literals(source) {
        return Err(EmbedError::InvalidArguments);
    }
    match parse_declaration(source) {
        Some(declaration) => {
            let entries = attributes(&declaration);
            read_annotations(&entries)
        },
        None => Err(EmbedError::InvalidArguments),
    }
}

} // verus!
