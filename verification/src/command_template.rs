//! Templates: a parameter list and a body, read from a document and applied
//! to argument values.

use crate::markdown_doc::{
    body_of, delimiter_at, has_header, header_of, lemma_no_header_is_all_body, MarkdownDoc,
};
use crate::parameters::{header_names, parse_parameter_list, HeaderParseError};
use crate::replace::{replace_all, replaced};
use crate::text::{chars_of, slice_texts, string_of, texts};
use vstd::prelude::*;
use vstd::string::StringExecFns;

verus! {

/// A template: the names of its parameters, in the order in which they were
/// declared, and its body.
#[derive(Debug)]
pub struct CommandTemplate<'a> {
    argument_names: Vec<String>,
    template_body: &'a str,
}

/// The prompt that a template gives for a list of argument values.
#[derive(Debug)]
pub struct AiderCommand {
    /// The body of the template, with the values in place of the parameters.
    pub message: String,
}

/// A template was applied to fewer values than it has parameters.
#[derive(Debug)]
pub struct ArityError {
    /// The name of the first parameter that got no value.
    pub missing: String,
}

/// `body` after the first `count` substitutions: the values take the place
/// of the names one pair after the other, each replacement on the text that
/// the one before left, so that a later one also finds what an earlier one
/// put in.
pub open spec fn substituted(
    body: Seq<char>,
    names: Seq<Seq<char>>,
    values: Seq<Seq<char>>,
    count: nat,
) -> Seq<char>
    decreases count,
{
    if count == 0 {
        body
    } else {
        replaced(
            substituted(body, names, values, (count - 1) as nat),
            names[count - 1],
            values[count - 1],
        )
    }
}

/// What a document is as a template: its parameter names and its body, or
/// the message of the error in its header.
pub open spec fn template_of(source: Seq<char>) -> Result<(Seq<Seq<char>>, Seq<char>), Seq<char>> {
    match header_names(header_of(source)) {
        Ok(names) => Ok((names, body_of(source))),
        Err(message) => Err(message),
    }
}

/// What a template gives for `values`: the message, or the name of the first
/// parameter without a value. Values beyond the last parameter are ignored.
pub open spec fn prompt_of(names: Seq<Seq<char>>, body: Seq<char>, values: Seq<Seq<char>>) -> Result<
    Seq<char>,
    Seq<char>,
> {
    if values.len() < names.len() {
        Err(names[values.len() as int])
    } else {
        Ok(substituted(body, names, values, names.len()))
    }
}

/// The text of the error for a parameter named `missing` without a value.
pub open spec fn missing_argument_text(missing: Seq<char>) -> Seq<char> {
    "Missing expected argument \""@ + missing + "\"."@
}

impl ArityError {
    /// The text of the error: `Missing expected argument "NAME".`
    pub fn message(&self) -> (text: String)
        ensures
            text@ == missing_argument_text(self.missing@),
    {
        let mut text = String::from_str("Missing expected argument \"");
        text.append(self.missing.as_str());
        text.append("\".");
        text
    }
}

impl<'a> CommandTemplate<'a> {
    /// The parameter names, in declaration order.
    pub closed spec fn names(&self) -> Seq<Seq<char>> {
        texts(self.argument_names@)
    }

    /// The body.
    pub closed spec fn body(&self) -> Seq<char> {
        self.template_body@
    }

    /// The template with the given parameter names and body.
    pub fn new(argument_names: Vec<String>, template_body: &'a str) -> (template: Self)
        ensures
            template.names() == texts(argument_names@),
            template.body() == template_body@,
    {
        CommandTemplate { argument_names, template_body }
    }

    /// The parameter names, in declaration order.
    pub fn argument_names(&self) -> (names: &Vec<String>)
        ensures
            texts(names@) == self.names(),
    {
        &self.argument_names
    }

    /// The body, as it stands in the document.
    pub fn template_body(&self) -> (body: &'a str)
        ensures
            body@ == self.body(),
    {
        self.template_body
    }

    /// Reads a template from the document `s`: the parameter names from its
    /// header, the body from what follows. A document without a header is a
    /// template without parameters whose body is the whole document. Fails
    /// where the header is not blank and is not well-formed YAML, and only
    /// there.
    pub fn parse(s: &'a str) -> (parsed: Result<Self, HeaderParseError>)
        ensures
            match template_of(s@) {
                Ok((names, body)) => parsed matches Ok(template) && template.names() == names
                    && template.body() == body,
                Err(message) => parsed matches Err(e) && e.message@ == message,
            },
            !has_header(s@) ==> (parsed matches Ok(template) && template.names().len() == 0
                && template.body() == s@),
    {
        let doc = MarkdownDoc::parse(s);
        match parse_parameter_list(doc.frontmatter) {
            Ok(argument_names) => Ok(CommandTemplate { argument_names, template_body: doc.body }),
            Err(e) => Err(e),
        }
    }

    /// Puts the values `args` in place of the parameters in the body, the
    /// first value for the first parameter and so on, one parameter after
    /// the other. Fails where there are fewer values than parameters, and
    /// names the first parameter without one; values beyond the last
    /// parameter are ignored.
    pub fn apply_args(&self, args: &[&str]) -> (applied: Result<AiderCommand, ArityError>)
        ensures
            match prompt_of(self.names(), self.body(), slice_texts(args@)) {
                Ok(message) => applied matches Ok(command) && command.message@ == message,
                Err(missing) => applied matches Err(e) && e.missing@ == missing,
            },
            applied is Ok <==> self.names().len() <= args@.len(),
            self.names().len() == 0 ==> (applied matches Ok(command) && command.message@
                == self.body()),
    {
        let count = self.argument_names.len();
        if args.len() < count {
            return Err(ArityError { missing: self.argument_names[args.len()].clone() });
        }
        let mut message = chars_of(self.template_body);
        let mut i: usize = 0;
        while i < count
            invariant
                i <= count,
                count == self.argument_names@.len(),
                count <= args@.len(),
                message@ == substituted(
                    self.body(),
                    self.names(),
                    slice_texts(args@),
                    i as nat,
                ),
            decreases count - i,
        {
            let name = chars_of(self.argument_names[i].as_str());
            let value = chars_of(args[i]);
            message = replace_all(&message, &name, &value);
            i += 1;
        }
        Ok(AiderCommand { message: string_of(&message) })
    }
}

/// A document that does not open with a delimiter line is a template
/// without parameters whose body is the whole document, and applied to no
/// values it gives the document back.
pub proof fn lemma_document_without_header(source: Seq<char>)
    requires
        !delimiter_at(source, 0),
    ensures
        template_of(source) == Ok::<(Seq<Seq<char>>, Seq<char>), Seq<char>>(
            (Seq::empty(), source),
        ),
        prompt_of(Seq::empty(), source, Seq::empty()) == Ok::<Seq<char>, Seq<char>>(source),
{
    lemma_no_header_is_all_body(source);
}

/// A template without parameters gives its body, whatever the values.
pub proof fn lemma_no_parameters(names: Seq<Seq<char>>, body: Seq<char>, values: Seq<Seq<char>>)
    requires
        names.len() == 0,
    ensures
        prompt_of(names, body, values) == Ok::<Seq<char>, Seq<char>>(body),
{
}

/// With a value for every parameter the message is the body after one
/// substitution for each parameter, in declaration order: the first leaves
/// the body with every occurrence of the first name replaced by the first
/// value, and each further one does the same to what the one before left.
pub proof fn lemma_sequential_substitution(
    names: Seq<Seq<char>>,
    body: Seq<char>,
    values: Seq<Seq<char>>,
)
    requires
        names.len() <= values.len(),
    ensures
        prompt_of(names, body, values) == Ok::<Seq<char>, Seq<char>>(
            substituted(body, names, values, names.len()),
        ),
        substituted(body, names, values, 0) == body,
        forall|count: nat|
            0 < count <= names.len() ==> #[trigger] substituted(body, names, values, count)
                == replaced(
                substituted(body, names, values, (count - 1) as nat),
                names[count - 1],
                values[count - 1],
            ),
{
}

/// With fewer values than parameters there is no message: the outcome names
/// the first parameter without a value.
pub proof fn lemma_missing_argument(
    names: Seq<Seq<char>>,
    body: Seq<char>,
    values: Seq<Seq<char>>,
)
    requires
        values.len() < names.len(),
    ensures
        prompt_of(names, body, values) == Err::<Seq<char>, Seq<char>>(
            names[values.len() as int],
        ),
{
}

/// Values beyond the last parameter change nothing.
pub proof fn lemma_extra_values_ignored(
    names: Seq<Seq<char>>,
    body: Seq<char>,
    values: Seq<Seq<char>>,
)
    requires
        names.len() <= values.len(),
    ensures
        prompt_of(names, body, values) == prompt_of(
            names,
            body,
            values.take(names.len() as int),
        ),
{
    lemma_substituted_reads_prefix(body, names, values, names.len(), names.len());
}

/// The first `count` substitutions read the first `count` values only.
proof fn lemma_substituted_reads_prefix(
    body: Seq<char>,
    names: Seq<Seq<char>>,
    values: Seq<Seq<char>>,
    count: nat,
    kept: nat,
)
    requires
        count <= kept <= values.len(),
    ensures
        substituted(body, names, values, count) == substituted(
            body,
            names,
            values.take(kept as int),
            count,
        ),
    decreases count,
{
    if count > 0 {
        lemma_substituted_reads_prefix(body, names, values, (count - 1) as nat, kept);
    }
}

} // verus!
