//! The annotation reader: from the attributes of a marker declaration to a
//! [`Configuration`].

use vstd::prelude::*;
use crate::error::{EmbedError, ErrorView};
use crate::stage::{stage_of_tag, StageTag};
use crate::text::same_text;

verus! {

/// One attribute of a marker declaration, by its shape.
#[derive(Debug, PartialEq, Eq)]
pub enum Entry {
    /// `name = "value"`: a name bound to a string literal.
    NameValue { name: String, value: String },
    /// `name = literal`, where the literal is no string.
    NameLiteral { name: String },
    /// `name(...)`: a name with a list of arguments.
    List { name: String },
    /// A bare `name`.
    Word { name: String },
}

/// The mathematical value of an [`Entry`].
pub enum EntryView {
    NameValue { name: Seq<char>, value: Seq<char> },
    NameLiteral { name: Seq<char> },
    List { name: Seq<char> },
    Word { name: Seq<char> },
}

impl View for Entry {
    type V = EntryView;

    open spec fn view(&self) -> EntryView {
        match *self {
            Entry::NameValue { name, value } => EntryView::NameValue { name: name@, value: value@ },
            Entry::NameLiteral { name } => EntryView::NameLiteral { name: name@ },
            Entry::List { name } => EntryView::List { name: name@ },
            Entry::Word { name } => EntryView::Word { name: name@ },
        }
    }
}

impl Clone for Entry {
    fn clone(&self) -> (copy: Entry)
        ensures
            copy@ == self@,
    {
        match self {
            Entry::NameValue { name, value } => Entry::NameValue {
                name: name.clone(),
                value: value.clone(),
            },
            Entry::NameLiteral { name } => Entry::NameLiteral { name: name.clone() },
            Entry::List { name } => Entry::List { name: name.clone() },
            Entry::Word { name } => Entry::Word { name: name.clone() },
        }
    }
}

/// The values of a sequence of entries, in the same order.
pub open spec fn entries_view(entries: Seq<Entry>) -> Seq<EntryView> {
    Seq::new(entries.len(), |i: int| entries[i]@)
}

/// What a marker declaration says of its shader. Each key may be absent:
/// which keys are needed is decided where they are used.
#[derive(Debug, PartialEq, Eq)]
pub struct Configuration {
    /// The GLSL text itself.
    pub src: Option<String>,
    /// The path of the file that holds the GLSL text, relative to the project
    /// root. Ignored where `src` is present.
    pub path: Option<String>,
    /// The tag of the shader stage.
    pub ty: Option<String>,
}

/// The mathematical value of a [`Configuration`].
pub struct ConfigurationView {
    pub src: Option<Seq<char>>,
    pub path: Option<Seq<char>>,
    pub ty: Option<Seq<char>>,
}

/// The characters of an optional string.
pub open spec fn text_view(text: Option<String>) -> Option<Seq<char>> {
    match text {
        Some(t) => Some(t@),
        None => None,
    }
}

impl View for Configuration {
    type V = ConfigurationView;

    open spec fn view(&self) -> ConfigurationView {
        ConfigurationView {
            src: text_view(self.src),
            path: text_view(self.path),
            ty: text_view(self.ty),
        }
    }
}

fn copy_text(text: &Option<String>) -> (copy: Option<String>)
    ensures
        text_view(copy) == text_view(*text),
{
    match text {
        Some(t) => Some(t.clone()),
        None => None,
    }
}

impl Clone for Configuration {
    fn clone(&self) -> (copy: Configuration)
        ensures
            copy@ == self@,
    {
        Configuration {
            src: copy_text(&self.src),
            path: copy_text(&self.path),
            ty: copy_text(&self.ty),
        }
    }
}

/// The mathematical value of the outcome of reading a configuration.
pub open spec fn read_view(result: Result<Configuration, EmbedError>) -> Result<
    ConfigurationView,
    ErrorView,
> {
    match result {
        Ok(config) => Ok(config@),
        Err(error) => Err(error@),
    }
}

/// The mathematical value of the outcome of validating a configuration.
pub open spec fn validation_view(result: Result<StageTag, EmbedError>) -> Result<
    StageTag,
    ErrorView,
> {
    match result {
        Ok(stage) => Ok(stage),
        Err(error) => Err(error@),
    }
}

/// What validating a configuration yields. A configuration is valid if it
/// has a source, inline or by path, and a stage tag that names a stage: the
/// result is then that stage. Otherwise it is the first of these errors that
/// applies: no source, no stage tag, a tag that names no stage.
pub open spec fn validation(config: ConfigurationView) -> Result<StageTag, ErrorView> {
    if config.src is None && config.path is None {
        Err(ErrorView::NoSource)
    } else {
        match config.ty {
            None => Err(ErrorView::MissingStage),
            Some(tag) => match stage_of_tag(tag) {
                Some(stage) => Ok(stage),
                None => Err(ErrorView::UnknownStage { tag }),
            },
        }
    }
}

/// An entry is accepted if it binds one of the keys `src`, `path` and `ty` to
/// a string, or is an `allow(...)` list, which is passed over. Every other
/// entry is rejected.
pub open spec fn entry_accepted(entry: EntryView) -> bool {
    match entry {
        EntryView::NameValue { name, .. } => name == "src"@ || name == "path"@ || name == "ty"@,
        EntryView::List { name } => name == "allow"@,
        _ => false,
    }
}

/// Every entry of the sequence is accepted.
pub open spec fn all_accepted(entries: Seq<EntryView>) -> bool {
    forall|i: int| 0 <= i < entries.len() ==> entry_accepted(#[trigger] entries[i])
}

/// The string that the last binding of `key` among the entries gives it, if
/// there is such a binding.
pub open spec fn last_value(entries: Seq<EntryView>, key: Seq<char>) -> Option<Seq<char>>
    decreases entries.len(),
{
    if entries.len() == 0 {
        None
    } else {
        match entries.last() {
            EntryView::NameValue { name, value } => if name == key {
                Some(value)
            } else {
                last_value(entries.drop_last(), key)
            },
            _ => last_value(entries.drop_last(), key),
        }
    }
}

/// The configuration that a sequence of entries describes: each key has the
/// value of its last binding.
pub open spec fn configuration_of(entries: Seq<EntryView>) -> ConfigurationView {
    ConfigurationView {
        src: last_value(entries, "src"@),
        path: last_value(entries, "path"@),
        ty: last_value(entries, "ty"@),
    }
}

/// What reading a sequence of entries yields: their configuration if all of
/// them are accepted, and an error otherwise.
pub open spec fn read_entries(entries: Seq<EntryView>) -> Result<ConfigurationView, ErrorView> {
    if all_accepted(entries) {
        Ok(configuration_of(entries))
    } else {
        Err(ErrorView::InvalidArguments)
    }
}

/// The configuration after one more accepted entry.
pub open spec fn with_entry(config: ConfigurationView, entry: EntryView) -> ConfigurationView {
    match entry {
        EntryView::NameValue { name, value } => if name == "src"@ {
            ConfigurationView { src: Some(value), ..config }
        } else if name == "path"@ {
            ConfigurationView { path: Some(value), ..config }
        } else if name == "ty"@ {
            ConfigurationView { ty: Some(value), ..config }
        } else {
            config
        },
        _ => config,
    }
}

/// Reading the entries one after the other gives the configuration that the
/// whole sequence describes.
pub proof fn lemma_configuration_grows(entries: Seq<EntryView>, entry: EntryView)
    ensures
        configuration_of(entries.push(entry)) == with_entry(configuration_of(entries), entry),
{
    reveal_strlit("src");
    reveal_strlit("path");
    reveal_strlit("ty");
    let longer = entries.push(entry);
    assert(longer.last() == entry);
    assert(longer.drop_last() =~= entries);
    assert("src"@.len() == 3 && "path"@.len() == 4 && "ty"@.len() == 2);
}

/// A later binding of a key replaces an earlier one: after a binding of `key`
/// to `value`, the key has that value, whatever came before.
pub proof fn lemma_last_binding_wins(entries: Seq<EntryView>, key: Seq<char>, value: Seq<char>)
    ensures
        last_value(entries.push(EntryView::NameValue { name: key, value }), key) == Some(value),
{
    let longer = entries.push(EntryView::NameValue { name: key, value });
    assert(longer.last() == EntryView::NameValue { name: key, value });
}

impl Configuration {
    /// The configuration in which no key is present.
    pub fn new() -> (config: Configuration)
        ensures
            config@ == configuration_of(Seq::<EntryView>::empty()),
    {
        Configuration { src: None, path: None, ty: None }
    }

    /// Checks that the configuration has what embedding needs, a source and
    /// a stage tag that names a stage, and gives that stage.
    pub fn validate(&self) -> (result: Result<StageTag, EmbedError>)
        ensures
            validation_view(result) == validation(self@),
    {
        if self.src.is_none() && self.path.is_none() {
            return Err(EmbedError::NoSource);
        }
        match &self.ty {
            None => Err(EmbedError::MissingStage),
            Some(tag) => match StageTag::from_tag(tag.as_str()) {
                Some(stage) => Ok(stage),
                None => Err(EmbedError::UnknownStage { tag: tag.clone() }),
            },
        }
    }

    /// Takes one entry into the configuration. An accepted entry that binds a
    /// key replaces what the key had; a rejected entry changes nothing.
    pub fn record(&mut self, entry: &Entry) -> (accepted: bool)
        ensures
            accepted == entry_accepted(entry@),
            accepted ==> final(self)@ == with_entry(old(self)@, entry@),
            !accepted ==> final(self)@ == old(self)@,
    {
        match entry {
            Entry::NameValue { name, value } => {
                if same_text(name.as_str(), "src") {
                    self.src = Some(value.clone());
                    true
                } else if same_text(name.as_str(), "path") {
                    self.path = Some(value.clone());
                    true
                } else if same_text(name.as_str(), "ty") {
                    self.ty = Some(value.clone());
                    true
                } else {
                    false
                }
            },
            Entry::List { name } => same_text(name.as_str(), "allow"),
            _ => false,
        }
    }
}

/// Reads the attributes of a marker declaration. The result is the
/// configuration in which each of `src`, `path` and `ty` has the value of its
/// last binding, if every entry is accepted; otherwise the attributes are
/// invalid.
pub fn read_annotations(entries: &Vec<Entry>) -> (result: Result<Configuration, EmbedError>)
    ensures
        read_view(result) == read_entries(entries_view(entries@)),
{
    let ghost all = entries_view(entries@);
    let mut config = Configuration::new();
    let mut i: usize = 0;
    while i < entries.len()
        invariant
            i <= entries.len(),
            all == entries_view(entries@),
            all_accepted(all.take(i as int)),
            config@ == configuration_of(all.take(i as int)),
        decreases entries.len() - i,
    {
        let accepted = config.record(&entries[i]);
        proof {
            assert(all[i as int] == entries[i as int]@);
            assert(all.take(i + 1) =~= all.take(i as int).push(all[i as int]));
            lemma_configuration_grows(all.take(i as int), all[i as int]);
        }
        if !accepted {
            return Err(EmbedError::InvalidArguments);
        }
        i = i + 1;
    }
    proof {
        assert(all.take(i as int) =~= all);
    }
    Ok(config)
}

} // verus!
