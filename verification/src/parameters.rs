//! The parameter list that a header declares.
//!
//! A header is a YAML document. It declares parameters under the key `args`
//! of its top-level mapping, as a sequence of strings. A header without that
//! key, or with something else than a sequence under it, declares none.

use crate::text::{blank, chars_of, is_blank, texts};
use crate::yaml::{
    field, field_of, scan_error_message, scan_error_text, yaml_documents, yaml_value,
    yaml_values, YamlValue,
};
use vstd::prelude::*;
use vstd::string::StringExecFns;
use yaml_rust2::{ScanError, Yaml, YamlLoader};

verus! {

/// The header was there but is not well-formed YAML.
#[derive(Debug)]
pub struct HeaderParseError {
    /// What the YAML reader said of it.
    pub message: String,
}

/// The string entries of a sequence, in order; other entries are skipped.
pub open spec fn text_entries(items: Seq<YamlValue>) -> Seq<Seq<char>>
    decreases items.len(),
{
    if items.len() == 0 {
        Seq::empty()
    } else {
        let before = text_entries(items.drop_last());
        match items.last() {
            YamlValue::Text(name) => before.push(name),
            _ => before,
        }
    }
}

/// The parameter names that the document `doc` declares.
pub open spec fn declared_names(doc: YamlValue) -> Seq<Seq<char>> {
    match field_of(doc, "args"@) {
        YamlValue::Sequence(items) => text_entries(items),
        _ => Seq::empty(),
    }
}

/// The parameter names that a stream of documents declares: those of its
/// first document, none where it holds no document.
pub open spec fn stream_names(docs: Seq<YamlValue>) -> Seq<Seq<char>> {
    if docs.len() == 0 {
        Seq::empty()
    } else {
        declared_names(docs[0])
    }
}

/// The parameter list of a loaded header, or the message of the error.
pub open spec fn loaded_names(loaded: Result<Seq<YamlValue>, Seq<char>>) -> Result<
    Seq<Seq<char>>,
    Seq<char>,
> {
    match loaded {
        Ok(docs) => Ok(stream_names(docs)),
        Err(message) => Err(message),
    }
}

/// The parameter list that the header text `header` declares, or the
/// message of the YAML reader where it is malformed. A blank header is not
/// handed to the reader and declares nothing.
pub open spec fn header_names(header: Seq<char>) -> Result<Seq<Seq<char>>, Seq<char>> {
    if blank(header) {
        Ok(Seq::empty())
    } else {
        loaded_names(yaml_documents(header))
    }
}

/// The names among `items`: every string entry, in order.
pub fn names_among(items: &Vec<Yaml>) -> (names: Vec<String>)
    ensures
        texts(names@) == text_entries(yaml_values(items@)),
{
    let mut names: Vec<String> = Vec::new();
    let mut i: usize = 0;
    while i < items.len()
        invariant
            i <= items@.len(),
            texts(names@) == text_entries(yaml_values(items@.take(i as int))),
        decreases items@.len() - i,
    {
        let ghost before = names@;
        proof {
            let upto = yaml_values(items@.take(i + 1));
            assert(upto.drop_last() =~= yaml_values(items@.take(i as int)));
            assert(upto.last() == yaml_value(items@[i as int]));
        }
        match items[i].as_str() {
            Some(name) => {
                names.push(String::from_str(name));
                assert(texts(names@) =~= texts(before).push(name@));
            },
            None => {},
        }
        i += 1;
    }
    proof {
        assert(items@.take(items@.len() as int) =~= items@);
    }
    names
}

/// The parameter names that the loaded documents declare.
pub fn declared_parameters(docs: &Vec<Yaml>) -> (names: Vec<String>)
    ensures
        texts(names@) == stream_names(yaml_values(docs@)),
{
    if docs.len() == 0 {
        return Vec::new();
    }
    match field(&docs[0], "args").as_vec() {
        Some(items) => names_among(items),
        None => Vec::new(),
    }
}

/// The parameter list of a header that the YAML reader was run on.
pub fn loaded_parameters(loaded: Result<Vec<Yaml>, ScanError>) -> (parsed: Result<
    Vec<String>,
    HeaderParseError,
>)
    ensures
        match loaded {
            Ok(docs) => parsed matches Ok(names) && texts(names@) == stream_names(
                yaml_values(docs@),
            ),
            Err(error) => parsed matches Err(e) && e.message@ == scan_error_text(error),
        },
{
    match loaded {
        Ok(docs) => Ok(declared_parameters(&docs)),
        Err(error) => Err(HeaderParseError { message: scan_error_message(&error) }),
    }
}

/// Reads the parameter list that `header` declares. Fails where `header`
/// is not blank and the YAML reader rejects it, and only there.
pub fn parse_parameter_list(header: &str) -> (parsed: Result<Vec<String>, HeaderParseError>)
    ensures
        match header_names(header@) {
            Ok(declared) => parsed matches Ok(names) && texts(names@) == declared,
            Err(message) => parsed matches Err(e) && e.message@ == message,
        },
        blank(header@) ==> (parsed matches Ok(names) && names@.len() == 0),
{
    let chars = chars_of(header);
    if is_blank(&chars) {
        let names: Vec<String> = Vec::new();
        assert(texts(names@) =~= Seq::<Seq<char>>::empty());
        return Ok(names);
    }
    loaded_parameters(YamlLoader::load_from_str(header))
}

} // verus!
