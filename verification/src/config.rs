//! The funnel's configuration: which chat to post to, and which port to
//! listen on. It is written as YAML; the `yaml-rust` crate reads it.
//!
//! The crate's loader calls itself once for every level of nesting, and copies
//! a node for every alias of it. So the library loads only texts whose marks
//! cannot nest deeply, because they are few or because they stand near the
//! left margin, and which hold at most `MAX_ALIASES` aliases. It takes any
//! other text for no configuration at all. A configuration of the funnel is
//! one flat mapping; it is within these bounds at any length.

use vstd::prelude::*;
use vstd::string::StringSliceAdditionalSpecFns;
use vstd::utf8::encode_utf8;
use yaml_rust::Yaml;
use yaml_rust::YamlLoader;

verus! {

#[verifier::external_type_specification]
#[verifier::external_body]
pub struct ExYaml(yaml_rust::Yaml);

/// What `YamlLoader::load_from_str` makes of a text: its documents in order,
/// or `None` where the text is not well-formed YAML.
pub uninterp spec fn yaml_documents(text: Seq<char>) -> Option<Seq<Yaml>>;

/// What indexing a YAML value by a string key gives: the value under that key
/// of a mapping, and a value that stands for nothing otherwise.
pub uninterp spec fn yaml_member(value: Yaml, key: Seq<char>) -> Yaml;

/// The characters of a YAML string, and `None` for any other value.
pub uninterp spec fn yaml_text(value: Yaml) -> Option<Seq<char>>;

/// The most marks that can open a level of nesting in a text that is loaded
/// for the fewness of its marks.
pub const MAX_NESTING_MARKS: usize = 128;

/// The rightmost column, counted in bytes from zero, of a mark of the block
/// style in a text that is loaded for the place of its marks.
pub const MAX_MARK_COLUMN: usize = 79;

/// The most opening brackets and braces in a text that is loaded for the
/// place of its marks.
pub const MAX_FLOW_OPENERS: usize = 16;

/// The most asterisks, the marks of an alias, in a text that is loaded.
pub const MAX_ALIASES: usize = 4;

/// Whether the text ends at position `i`, or holds a blank, a line break or a
/// NUL there.
pub open spec fn blank_or_end(bytes: Seq<u8>, i: int) -> bool {
    i >= bytes.len() || bytes[i] == 0x20 || bytes[i] == 0x09 || bytes[i] == 0x0a || bytes[i]
        == 0x0d || bytes[i] == 0x00
}

/// Whether the byte at position `i` can open a level of the block style: a
/// `:`, or a `-` or a `?` before a blank.
pub open spec fn block_mark(bytes: Seq<u8>, i: int) -> bool {
    0 <= i < bytes.len() && (bytes[i] == 0x3a || ((bytes[i] == 0x2d || bytes[i] == 0x3f)
        && blank_or_end(bytes, i + 1)))
}

/// Whether the byte at position `i` opens a level of the flow style: a `[` or
/// a `{`.
pub open spec fn flow_opener(bytes: Seq<u8>, i: int) -> bool {
    0 <= i < bytes.len() && (bytes[i] == 0x5b || bytes[i] == 0x7b)
}

/// The column of position `i`: the number of bytes between it and the line
/// feed before it, or the start of the text.
pub open spec fn column(bytes: Seq<u8>, i: int) -> nat
    decreases i,
{
    if i <= 0 || i > bytes.len() || bytes[i - 1] == 0x0a {
        0
    } else {
        column(bytes, i - 1) + 1
    }
}

/// The number of marks among the first `n` bytes that can open a level.
pub open spec fn nesting_marks(bytes: Seq<u8>, n: int) -> nat
    decreases n,
{
    if n <= 0 {
        0
    } else if block_mark(bytes, n - 1) || flow_opener(bytes, n - 1) {
        nesting_marks(bytes, n - 1) + 1
    } else {
        nesting_marks(bytes, n - 1)
    }
}

/// The number of opening brackets and braces among the first `n` bytes.
pub open spec fn flow_openers(bytes: Seq<u8>, n: int) -> nat
    decreases n,
{
    if n <= 0 {
        0
    } else if flow_opener(bytes, n - 1) {
        flow_openers(bytes, n - 1) + 1
    } else {
        flow_openers(bytes, n - 1)
    }
}

/// Whether one of the first `n` bytes is a mark of the block style to the
/// right of `MAX_MARK_COLUMN`.
pub open spec fn mark_far_right(bytes: Seq<u8>, n: int) -> bool
    decreases n,
{
    if n <= 0 {
        false
    } else {
        mark_far_right(bytes, n - 1) || (block_mark(bytes, n - 1) && column(bytes, n - 1)
            > MAX_MARK_COLUMN)
    }
}

/// The number of asterisks among the first `n` bytes.
pub open spec fn asterisks(bytes: Seq<u8>, n: int) -> nat
    decreases n,
{
    if n <= 0 {
        0
    } else if n <= bytes.len() && bytes[n - 1] == 0x2a {
        asterisks(bytes, n - 1) + 1
    } else {
        asterisks(bytes, n - 1)
    }
}

/// Whether the marks of a text are few.
pub open spec fn few_marks(bytes: Seq<u8>) -> bool {
    nesting_marks(bytes, bytes.len() as int) <= MAX_NESTING_MARKS
}

/// Whether the marks of a text stand near the left margin: no mark of the
/// block style to the right of `MAX_MARK_COLUMN`, and few opening brackets.
pub open spec fn marks_near_margin(bytes: Seq<u8>) -> bool {
    !mark_far_right(bytes, bytes.len() as int) && flow_openers(bytes, bytes.len() as int)
        <= MAX_FLOW_OPENERS
}

/// Whether a text is loaded: its marks are few or stand near the margin, and
/// it holds no more asterisks than the bound allows.
pub open spec fn loadable(text: Seq<char>) -> bool {
    let bytes = encode_utf8(text);
    (few_marks(bytes) || marks_near_margin(bytes)) && asterisks(bytes, bytes.len() as int)
        <= MAX_ALIASES
}

/// Says whether a text is loaded.
pub fn is_loadable(text: &str) -> (within: bool)
    ensures
        within == loadable(text@),
{
    let bytes = text.as_bytes();
    let mut marks: usize = 0;
    let mut openers: usize = 0;
    let mut stars: usize = 0;
    let mut far_right = false;
    let mut col: usize = 0;
    let mut i: usize = 0;
    while i < bytes.len()
        invariant
            i <= bytes.len(),
            bytes@ == encode_utf8(text@),
            col == column(bytes@, i as int),
            col <= i,
            far_right == mark_far_right(bytes@, i as int),
            marks <= MAX_NESTING_MARKS + 1,
            openers <= MAX_FLOW_OPENERS + 1,
            stars <= MAX_ALIASES + 1,
            marks <= MAX_NESTING_MARKS ==> marks == nesting_marks(bytes@, i as int),
            marks > MAX_NESTING_MARKS ==> nesting_marks(bytes@, i as int) > MAX_NESTING_MARKS,
            openers <= MAX_FLOW_OPENERS ==> openers == flow_openers(bytes@, i as int),
            openers > MAX_FLOW_OPENERS ==> flow_openers(bytes@, i as int) > MAX_FLOW_OPENERS,
            stars <= MAX_ALIASES ==> stars == asterisks(bytes@, i as int),
            stars > MAX_ALIASES ==> asterisks(bytes@, i as int) > MAX_ALIASES,
        decreases bytes.len() - i,
    {
        let byte = bytes[i];
        let before_blank = i + 1 >= bytes.len() || bytes[i + 1] == 0x20 || bytes[i + 1] == 0x09
            || bytes[i + 1] == 0x0a || bytes[i + 1] == 0x0d || bytes[i + 1] == 0x00;
        let block = byte == 0x3a || ((byte == 0x2d || byte == 0x3f) && before_blank);
        let flow = byte == 0x5b || byte == 0x7b;
        assert(block == block_mark(bytes@, i as int));
        assert(flow == flow_opener(bytes@, i as int));
        if (block || flow) && marks <= MAX_NESTING_MARKS {
            marks += 1;
        }
        if flow && openers <= MAX_FLOW_OPENERS {
            openers += 1;
        }
        if block && col > MAX_MARK_COLUMN {
            far_right = true;
        }
        if byte == 0x2a && stars <= MAX_ALIASES {
            stars += 1;
        }
        if byte == 0x0a {
            col = 0;
        } else {
            col += 1;
        }
        i += 1;
    }
    (marks <= MAX_NESTING_MARKS || (!far_right && openers <= MAX_FLOW_OPENERS)) && stars
        <= MAX_ALIASES
}

/// Calls `YamlLoader::load_from_str` and drops the error. Taken on trust: on a
/// loadable text the call returns, and the documents depend on the text alone.
///
/// What the crate's source shows of the call's returning:
/// - The loader calls itself once for each level of nesting. A level is opened
///   only at a token that the scanner makes from a `-` or a `?` before a blank,
///   from a `:`, a `[` or a `{`, and one such byte opens one level at most. So
///   few marks make few levels.
/// - A level of the block style is opened either where the indentation is
///   raised to the column of a mark or of the key before a `:`, which stands
///   in the same line; or by a sequence that is not indented, directly under a
///   mapping that was so opened. The scanner counts a column from the line feed
///   before it. So marks near the margin make at most twice as many levels as
///   there are columns up to `MAX_MARK_COLUMN`, and one more.
/// - A level of the flow style is opened at a `[` or a `{`, or by a pair
///   directly inside a sequence that was so opened: two levels for an opening
///   bracket at most.
/// - An alias copies the node that its anchor names. So each `*` at most
///   doubles what the loader holds; and a value, which is gone through where
///   it is copied, compared or dropped, is at most `MAX_ALIASES` + 1 times as
///   deep as the nesting of the text.
/// - The scanner reads its buffer only behind a `lookahead` of as many
///   characters, which pads the end of the text with NULs; it decodes an escape
///   only behind a test of its hexadecimal digits, and reads a line break only
///   where one stands.
/// - The scanner's list of simple keys is never empty once the stream has
///   started: what a closing bracket pops, an opening one has pushed. Its
///   indentation is popped only while it is above the bottom, where one was
///   pushed. A simple key stays possible only while the token at its place is
///   still in the queue, so a key is inserted within the queue.
/// - The parser pushes a state before each node that it parses, and pops one
///   where a scalar or a collection ends. It hands the loader one node for each
///   document and an end for each start, so the loader's stacks hold what it
///   pops.
#[verifier::external_body]
fn load_documents(text: &str) -> (documents: Option<Vec<Yaml>>)
    requires
        loadable(text@),
    ensures
        documents.is_some() == yaml_documents(text@).is_some(),
        documents matches Some(loaded) ==> loaded@ == yaml_documents(text@).unwrap(),
{
    YamlLoader::load_from_str(text).ok()
}

/// Indexes a YAML value by a string key (`Index<&str>` of `Yaml`). Taken on
/// trust: the value found depends on the value and the key alone.
#[verifier::external_body]
fn member<'a>(value: &'a Yaml, key: &str) -> (found: &'a Yaml)
    ensures
        *found == yaml_member(*value, key@),
{
    &value[key]
}

/// Calls `Yaml::as_str` and copies the characters. Taken on trust: the
/// characters depend on the value alone.
#[verifier::external_body]
fn text_of(value: &Yaml) -> (text: Option<String>)
    ensures
        text.deep_view() == yaml_text(*value),
{
    value.as_str().map(String::from)
}

/// The string under a key of a configuration, if there is one.
pub open spec fn value_at(config: Yaml, key: Seq<char>) -> Option<Seq<char>> {
    yaml_text(yaml_member(config, key))
}

/// The configuration that a text holds: its first YAML document, where the
/// text is loaded.
pub open spec fn config_of(text: Seq<char>) -> Option<Yaml> {
    if loadable(text) {
        match yaml_documents(text) {
            Some(documents) => if documents.len() > 0 {
                Some(documents[0])
            } else {
                None
            },
            None => None,
        }
    } else {
        None
    }
}

/// Reads a configuration text. Returns `None` where the text is not loaded, is
/// not YAML or holds no document.
pub fn funnel_config_from_text(text: &str) -> (config: Option<Yaml>)
    ensures
        config == config_of(text@),
{
    if !is_loadable(text) {
        return None;
    }
    match load_documents(text) {
        Some(mut documents) => if documents.len() > 0 {
            Some(documents.remove(0))
        } else {
            None
        },
        None => None,
    }
}

/// The ship that hosts the chat.
pub fn funnel_ship_name_from_yaml(config: &Yaml) -> (ship: Option<String>)
    ensures
        ship.deep_view() == value_at(*config, "chat_ship"@),
{
    text_of(member(config, "chat_ship"))
}

/// The name of the chat.
pub fn funnel_chat_name_from_yaml(config: &Yaml) -> (name: Option<String>)
    ensures
        name.deep_view() == value_at(*config, "chat_name"@),
{
    text_of(member(config, "chat_name"))
}

/// The port that the webhook endpoint listens on.
pub fn funnel_port_from_yaml(config: &Yaml) -> (port: Option<String>)
    ensures
        port.deep_view() == value_at(*config, "funnel_port"@),
{
    text_of(member(config, "funnel_port"))
}

} // verus!
