//! The configuration document and what the session reads from it.
//!
//! The document is a JSON value of the `json` crate. This module declares
//! that type, gives it a mathematical model, `JsonTree`, and gives each
//! accessor that the rest of the library calls a contract over that model.
//! None of these contracts is proved: they restate what the crate's source
//! shows. The module also decides what is made on first use, before there is
//! a document to read.

use vstd::prelude::*;
use json::JsonValue;
use crate::text::{
    decimal, decimal_string, digit_runs_fit, digit_runs_within, str_eq, trim, trimmed,
};

verus! {

/// The `JsonValue` of the `json` crate: a JSON document or a part of one.
#[verifier::external_type_specification]
#[verifier::external_body]
pub struct ExJsonValue(json::JsonValue);

/// The `Error` of the `json` crate: why a text could not be parsed.
#[verifier::external_type_specification]
#[verifier::external_body]
pub struct ExJsonError(json::Error);

/// What a JSON value holds.
pub ghost enum JsonTree {
    Null,
    Boolean(bool),
    /// A number, as far as `as_u64` reads it: `None` where it does not.
    Number(Option<u64>),
    /// A string, however it is stored.
    Text(Seq<char>),
    /// The members of an array, in order.
    Array(Seq<JsonTree>),
    /// The entries of an object, in the order in which they are walked. No
    /// two entries have the same key.
    Object(Seq<(Seq<char>, JsonTree)>),
}

/// What `v` holds.
pub uninterp spec fn json_tree(v: JsonValue) -> JsonTree;

/// What a text parses to; `None` where the text is not JSON.
pub uninterp spec fn json_parsed(text: Seq<char>) -> Option<JsonTree>;

/// The text in which every occurrence of `from` is replaced by `to`.
pub uninterp spec fn replaced(text: Seq<char>, from: Seq<char>, to: Seq<char>) -> Seq<char>;

/// The value of the first of `entries` whose key is `key`.
pub open spec fn entry_under(entries: Seq<(Seq<char>, JsonTree)>, key: Seq<char>) -> Option<
    JsonTree,
>
    decreases entries.len(),
{
    if entries.len() == 0 {
        None
    } else if entries[0].0 == key {
        Some(entries[0].1)
    } else {
        entry_under(entries.drop_first(), key)
    }
}

/// Whether `t` is an object with an entry under `key`.
pub open spec fn tree_has_key(t: JsonTree, key: Seq<char>) -> bool {
    match t {
        JsonTree::Object(entries) => entry_under(entries, key) is Some,
        _ => false,
    }
}

/// The value that the object `t` holds under `key`; null where it holds none
/// or where `t` is not an object.
pub open spec fn tree_member(t: JsonTree, key: Seq<char>) -> JsonTree {
    match t {
        JsonTree::Object(entries) => match entry_under(entries, key) {
            Some(value) => value,
            None => JsonTree::Null,
        },
        _ => JsonTree::Null,
    }
}

/// The keys of the object `t` in order; none where `t` is not an object.
pub open spec fn tree_keys(t: JsonTree) -> Seq<Seq<char>> {
    match t {
        JsonTree::Object(entries) => Seq::new(entries.len(), |i: int| entries[i].0),
        _ => Seq::empty(),
    }
}

/// The members of the array `t` in order; none where `t` is not an array.
pub open spec fn tree_items(t: JsonTree) -> Seq<JsonTree> {
    match t {
        JsonTree::Array(members) => members,
        _ => Seq::empty(),
    }
}

/// The text of `t` where it is a string.
pub open spec fn tree_text(t: JsonTree) -> Option<Seq<char>> {
    match t {
        JsonTree::Text(text) => Some(text),
        _ => None,
    }
}

/// The number of `t` where it is one that `u16` holds.
pub open spec fn tree_u16(t: JsonTree) -> Option<u16> {
    match t {
        JsonTree::Number(Some(n)) => if n <= u16::MAX {
            Some(n as u16)
        } else {
            None
        },
        _ => None,
    }
}

/// `JsonValue::has_key`: whether `v` is an object with an entry under `key`.
#[verifier::external_body]
pub(crate) fn has_key(v: &JsonValue, key: &str) -> (r: bool)
    ensures
        r == tree_has_key(json_tree(*v), key@),
{
    v.has_key(key)
}

/// Indexing a `JsonValue` by a string: the value under `key`, or a reference
/// to the null value.
#[verifier::external_body]
pub(crate) fn member<'a>(v: &'a JsonValue, key: &str) -> (r: &'a JsonValue)
    ensures
        json_tree(*r) == tree_member(json_tree(*v), key@),
{
    &v[key]
}

/// `JsonValue::is_object`.
#[verifier::external_body]
pub(crate) fn is_object(v: &JsonValue) -> (r: bool)
    ensures
        r == (json_tree(*v) is Object),
{
    v.is_object()
}

/// `JsonValue::is_array`.
#[verifier::external_body]
pub(crate) fn is_array(v: &JsonValue) -> (r: bool)
    ensures
        r == (json_tree(*v) is Array),
{
    v.is_array()
}

/// `JsonValue::as_str`: the text of a string value.
#[verifier::external_body]
pub(crate) fn as_text<'a>(v: &'a JsonValue) -> (r: Option<&'a str>)
    ensures
        match r {
            Some(s) => tree_text(json_tree(*v)) == Some(s@),
            None => tree_text(json_tree(*v)) is None,
        },
{
    v.as_str()
}

/// `JsonValue::as_u16`: what `as_u64` reads of a number, where `u16` holds it.
#[verifier::external_body]
pub(crate) fn as_port(v: &JsonValue) -> (r: Option<u16>)
    ensures
        r == tree_u16(json_tree(*v)),
{
    v.as_u16()
}

/// `JsonValue::entries`, keeping the key of each entry: the keys of an
/// object in the order of the walk, and nothing for any other value.
#[verifier::external_body]
pub(crate) fn keys(v: &JsonValue) -> (r: Vec<String>)
    ensures
        r.len() == tree_keys(json_tree(*v)).len(),
        forall|i: int| 0 <= i < r.len() ==> (#[trigger] r[i])@ == tree_keys(json_tree(*v))[i],
{
    v.entries().map(|entry| entry.0.to_string()).collect()
}

/// `JsonValue::members`: the members of an array in order, and nothing for
/// any other value.
#[verifier::external_body]
pub(crate) fn items<'a>(v: &'a JsonValue) -> (r: Vec<&'a JsonValue>)
    ensures
        r.len() == tree_items(json_tree(*v)).len(),
        forall|i: int|
            0 <= i < r.len() ==> json_tree(*(#[trigger] r[i])) == tree_items(json_tree(*v))[i],
{
    v.members().collect()
}

/// The longest run of digits that a configuration text may hold.
pub const MAX_DIGIT_RUN: usize = 32767;

/// `json::parse`: the value that `text` stands for, or the parser's error.
/// The parser counts the digits of a fraction in sixteen bits and does not
/// return from a longer one, so texts with such a run of digits are left out.
#[verifier::external_body]
pub(crate) fn parse_json(text: &str) -> (r: Result<JsonValue, json::Error>)
    requires
        digit_runs_within(text@, MAX_DIGIT_RUN as nat),
    ensures
        match r {
            Ok(v) => json_parsed(text@) == Some(json_tree(v)),
            Err(_) => json_parsed(text@) is None,
        },
{
    json::parse(text)
}

/// `str::replace` of std: `text` with every occurrence of `from` replaced by
/// `to`. The result is a function of the three texts.
#[verifier::external_body]
pub(crate) fn replace(text: &str, from: &str, to: &str) -> (r: String)
    ensures
        r@ == replaced(text@, from@, to@),
{
    text.replace(from, to)
}

/// Why a configuration text was refused.
#[derive(Clone, Copy, Debug, PartialEq, Eq, Structural)]
pub enum ConfigError {
    /// The text holds a run of more than `MAX_DIGIT_RUN` digits.
    NumberTooLong,
    /// The text is not JSON.
    Malformed,
}

/// Which listener a shell asks for.
#[derive(Clone, Copy, Debug, PartialEq, Eq, Structural)]
pub enum ListenerKind {
    /// The raw relay on its own.
    SocatRaw,
    /// The line-oriented primary listener.
    Netcat,
}

pub open spec fn shelly_key() -> Seq<char> {
    "shelly"@
}

pub open spec fn http_port_key() -> Seq<char> {
    "default_http_svr"@
}

pub open spec fn toolbox_key() -> Seq<char> {
    "toolbox"@
}

pub open spec fn shells_key() -> Seq<char> {
    "shells"@
}

pub open spec fn listener_key() -> Seq<char> {
    "listener"@
}

pub open spec fn templates_key() -> Seq<char> {
    "templates"@
}

pub open spec fn socat_raw_word() -> Seq<char> {
    "socat_raw"@
}

/// The delivery port that a configuration names: the number under
/// `shelly.default_http_svr`.
pub open spec fn configured_http_port(config: JsonTree) -> Option<u16> {
    tree_u16(tree_member(tree_member(config, shelly_key()), http_port_key()))
}

/// The entry of the shell named `shell`, where the configuration has one.
/// The empty name stands for no shell.
pub open spec fn shell_entry(config: JsonTree, shell: Seq<char>) -> Option<JsonTree> {
    let shells = tree_member(config, shells_key());
    if shell.len() > 0 && tree_has_key(config, shells_key()) && tree_has_key(shells, shell) {
        Some(tree_member(shells, shell))
    } else {
        None
    }
}

/// The listener that the shell named `shell` asks for: the raw relay where
/// its entry says `socat_raw` under `listener`, the primary listener
/// otherwise.
pub open spec fn listener_for(config: JsonTree, shell: Seq<char>) -> ListenerKind {
    match shell_entry(config, shell) {
        Some(entry) => if tree_text(tree_member(entry, listener_key())) == Some(
            socat_raw_word(),
        ) {
            ListenerKind::SocatRaw
        } else {
            ListenerKind::Netcat
        },
        None => ListenerKind::Netcat,
    }
}

/// The texts among `values`, in order.
pub open spec fn texts_among(values: Seq<JsonTree>) -> Seq<Seq<char>>
    decreases values.len(),
{
    if values.len() == 0 {
        Seq::empty()
    } else {
        let before = texts_among(values.drop_last());
        match tree_text(values.last()) {
            Some(text) => before.push(text),
            None => before,
        }
    }
}

/// A template with the address and the two ports filled in.
pub open spec fn rendered(template: Seq<char>, ip: Seq<char>, port: u16, http_port: u16) -> Seq<
    char,
> {
    replaced(
        replaced(replaced(template, "{ip}"@, ip), "{port}"@, decimal(port as nat)),
        "{http_port}"@,
        decimal(http_port as nat),
    )
}

/// Parses the text of a configuration file. A text with a run of more than
/// `MAX_DIGIT_RUN` digits is refused unread; any other text is refused
/// exactly when it is not JSON.
pub fn load_config(text: &str) -> (r: Result<JsonValue, ConfigError>)
    ensures
        match r {
            Ok(v) => digit_runs_within(text@, MAX_DIGIT_RUN as nat) && json_parsed(text@) == Some(
                json_tree(v),
            ),
            Err(ConfigError::NumberTooLong) => !digit_runs_within(text@, MAX_DIGIT_RUN as nat),
            Err(ConfigError::Malformed) => digit_runs_within(text@, MAX_DIGIT_RUN as nat)
                && json_parsed(text@) is None,
        },
{
    if !digit_runs_fit(text, MAX_DIGIT_RUN) {
        return Err(ConfigError::NumberTooLong);
    }
    match parse_json(text) {
        Ok(v) => Ok(v),
        Err(_) => Err(ConfigError::Malformed),
    }
}

/// Reads the delivery port out of a configuration.
pub fn default_http_port(config: &JsonValue) -> (r: Option<u16>)
    ensures
        r == configured_http_port(json_tree(*config)),
{
    as_port(member(member(config, "shelly"), "default_http_svr"))
}

/// Finds the entry of a shell in a configuration.
pub fn find_shell<'a>(config: &'a JsonValue, shell: &str) -> (r: Option<&'a JsonValue>)
    ensures
        match r {
            Some(entry) => shell_entry(json_tree(*config), shell@) == Some(json_tree(*entry)),
            None => shell_entry(json_tree(*config), shell@) is None,
        },
{
    if shell.unicode_len() == 0 {
        return None;
    }
    if !has_key(config, "shells") {
        return None;
    }
    let shells = member(config, "shells");
    if !has_key(shells, shell) {
        return None;
    }
    Some(member(shells, shell))
}

/// Decides which listener the shell named `shell` asks for.
pub fn listener_kind(config: &JsonValue, shell: &str) -> (r: ListenerKind)
    ensures
        r == listener_for(json_tree(*config), shell@),
{
    match find_shell(config, shell) {
        Some(entry) => match as_text(member(entry, "listener")) {
            Some(text) => if str_eq(text, "socat_raw") {
                ListenerKind::SocatRaw
            } else {
                ListenerKind::Netcat
            },
            None => ListenerKind::Netcat,
        },
        None => ListenerKind::Netcat,
    }
}

/// Gathers the members of `value` that are texts: the names under `serve`
/// or the templates under `templates` of a shell's entry.
pub fn text_members(value: &JsonValue) -> (r: Vec<String>)
    ensures
        r.len() == texts_among(tree_items(json_tree(*value))).len(),
        forall|i: int|
            0 <= i < r.len() ==> (#[trigger] r[i])@ == texts_among(
                tree_items(json_tree(*value)),
            )[i],
{
    let members = items(value);
    let ghost all = tree_items(json_tree(*value));
    let mut out: Vec<String> = Vec::new();
    let mut i: usize = 0;
    assert(all.take(0) =~= Seq::<JsonTree>::empty());
    while i < members.len()
        invariant
            i <= members.len(),
            members.len() == all.len(),
            forall|j: int| 0 <= j < members.len() ==> json_tree(*(#[trigger] members[j])) == all[j],
            out.len() == texts_among(all.take(i as int)).len(),
            forall|j: int|
                0 <= j < out.len() ==> (#[trigger] out[j])@ == texts_among(all.take(i as int))[j],
        decreases members.len() - i,
    {
        assert(all.take(i + 1).drop_last() =~= all.take(i as int));
        assert(all.take(i + 1).last() == json_tree(*members[i as int]));
        match as_text(members[i]) {
            Some(text) => {
                out.push(text.to_owned());
            },
            None => {},
        }
        i += 1;
    }
    assert(all.take(i as int) =~= all);
    out
}

/// Whether the shell's entry lists templates: it has an array under `templates`.
pub fn has_templates(entry: &JsonValue) -> (r: bool)
    ensures
        r == (tree_has_key(json_tree(*entry), templates_key()) && tree_member(
            json_tree(*entry),
            templates_key(),
        ) is Array),
{
    has_key(entry, "templates") && is_array(member(entry, "templates"))
}

/// Fills the address and the two ports into a template.
pub fn render_template(template: &str, ip: &str, port: u16, http_port: u16) -> (r: String)
    ensures
        r@ == rendered(template@, ip@, port, http_port),
{
    let with_ip = replace(template, "{ip}", ip);
    let with_port = replace(with_ip.as_str(), "{port}", decimal_string(port as usize).as_str());
    replace(with_port.as_str(), "{http_port}", decimal_string(http_port as usize).as_str())
}

/// What is to be made before the configuration can be read.
#[derive(Clone, Copy, Debug, PartialEq, Eq, Structural)]
pub struct Bootstrap {
    /// Make the configuration directory.
    pub create_dir: bool,
    /// Write an empty configuration file.
    pub create_file: bool,
    /// The operator declined: the program cannot go on.
    pub aborted: bool,
}

/// Decides what to make: the directory where it is missing and the operator
/// consents, the file where it is missing and the operator did not decline.
/// `consent` counts only where the directory is missing.
pub fn ensure_exists(dir_exists: bool, consent: bool, file_exists: bool) -> (r: Bootstrap)
    ensures
        r.create_dir == (!dir_exists && consent),
        r.aborted == (!dir_exists && !consent),
        r.create_file == (!file_exists && !r.aborted),
{
    let create_dir = !dir_exists && consent;
    let aborted = !dir_exists && !consent;
    Bootstrap { create_dir, create_file: !file_exists && !aborted, aborted }
}

/// The text in lower case.
pub uninterp spec fn lowercase_of(text: Seq<char>) -> Seq<char>;

/// `str::to_lowercase` of std. The result is a function of the text.
#[verifier::external_body]
fn to_lowercase(text: &str) -> (r: String)
    ensures
        r@ == lowercase_of(text@),
{
    text.to_lowercase()
}

/// What an answer that is already trimmed and in lower case says: yes for
/// `y` and `yes`, no for `n` and `no`, nothing for anything else.
pub open spec fn answer_in(lowered: Seq<char>) -> Option<bool> {
    if lowered == seq!['y'] || lowered == seq!['y', 'e', 's'] {
        Some(true)
    } else if lowered == seq!['n'] || lowered == seq!['n', 'o'] {
        Some(false)
    } else {
        None
    }
}

/// Reads a yes or a no out of an answer that is trimmed and in lower case.
pub fn read_answer(lowered: &str) -> (r: Option<bool>)
    ensures
        r == answer_in(lowered@),
{
    proof {
        reveal_strlit("y");
        reveal_strlit("yes");
        reveal_strlit("n");
        reveal_strlit("no");
        assert("y"@ =~= seq!['y']);
        assert("yes"@ =~= seq!['y', 'e', 's']);
        assert("n"@ =~= seq!['n']);
        assert("no"@ =~= seq!['n', 'o']);
    }
    if str_eq(lowered, "y") || str_eq(lowered, "yes") {
        Some(true)
    } else if str_eq(lowered, "n") || str_eq(lowered, "no") {
        Some(false)
    } else {
        None
    }
}

/// Reads a yes or a no out of a line of input, white space and case aside.
/// `None` asks for the question to be put again.
pub fn ask_yes_no(input: &str) -> (r: Option<bool>)
    ensures
        r == answer_in(lowercase_of(trimmed(input@))),
{
    let text = trim(input);
    let lowered = to_lowercase(text.as_str());
    read_answer(lowered.as_str())
}

} // verus!
