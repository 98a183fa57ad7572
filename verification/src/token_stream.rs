//! Token streams of `proc_macro2`, as far as the declaration generators build them.

use vstd::prelude::*;

verus! {

/// `proc_macro2::TokenStream`. Nothing of its inside is known here; what it
/// holds is spoken of through `stream_tokens`.
#[verifier::external_type_specification]
#[verifier::external_body]
pub struct ExTokenStream(proc_macro2::TokenStream);

/// The tokens of a stream as text, in order. A group stands as its opening
/// delimiter, its own tokens and its closing delimiter; a group without
/// visible delimiters stands as its own tokens alone.
pub uninterp spec fn stream_tokens(stream: proc_macro2::TokenStream) -> Seq<Seq<char>>;

/// The delimiters that enclose a field list.
#[derive(Clone, Copy, Debug, PartialEq, Eq, Structural)]
pub enum GroupDelimiter {
    Parenthesis,
    Brace,
}

impl GroupDelimiter {
    pub open spec fn opening(&self) -> Seq<char> {
        match self {
            GroupDelimiter::Parenthesis => "("@,
            GroupDelimiter::Brace => "{"@,
        }
    }

    pub open spec fn closing(&self) -> Seq<char> {
        match self {
            GroupDelimiter::Parenthesis => ")"@,
            GroupDelimiter::Brace => "}"@,
        }
    }
}

/// The characters that `proc_macro2::Punct::new` accepts.
pub open spec fn is_punct_char(ch: char) -> bool {
    ch == '!' || ch == '#' || ch == '$' || ch == '%' || ch == '&' || ch == '\'' || ch == '*'
        || ch == '+' || ch == ',' || ch == '-' || ch == '.' || ch == '/' || ch == ':' || ch == ';'
        || ch == '<' || ch == '=' || ch == '>' || ch == '?' || ch == '@' || ch == '^' || ch == '|'
        || ch == '~'
}

/// `proc_macro2::TokenStream::new`: a stream without tokens.
#[verifier::external_body]
pub(crate) fn empty_stream() -> (out: proc_macro2::TokenStream)
    ensures
        stream_tokens(out) == Seq::<Seq<char>>::empty(),
{
    proc_macro2::TokenStream::new()
}

/// `Clone::clone` of `proc_macro2::TokenStream`: the copy holds the same tokens.
#[verifier::external_body]
pub(crate) fn clone_stream(stream: &proc_macro2::TokenStream) -> (out: proc_macro2::TokenStream)
    ensures
        stream_tokens(out) == stream_tokens(*stream),
{
    stream.clone()
}

/// `Extend<TokenStream>::extend` of `proc_macro2::TokenStream`: the tokens of
/// `tail` are appended to those of `stream`.
#[verifier::external_body]
pub(crate) fn append_stream(stream: &mut proc_macro2::TokenStream, tail: proc_macro2::TokenStream)
    ensures
        stream_tokens(*final(stream)) == stream_tokens(*old(stream)) + stream_tokens(tail),
{
    stream.extend(std::iter::once(tail));
}

/// `proc_macro2::Punct::new` with `Spacing::Alone`, as a stream of that one
/// token. The constructor panics on any character outside `is_punct_char`.
#[verifier::external_body]
pub(crate) fn punct_stream(ch: char) -> (out: proc_macro2::TokenStream)
    requires
        is_punct_char(ch),
    ensures
        stream_tokens(out) == seq![seq![ch]],
{
    let punct = proc_macro2::Punct::new(ch, proc_macro2::Spacing::Alone);
    proc_macro2::TokenStream::from(proc_macro2::TokenTree::Punct(punct))
}

/// `proc_macro2::Group::new`, as a stream of that one group: the tokens of
/// `inner` between the two delimiters.
#[verifier::external_body]
pub(crate) fn group_stream(delimiter: GroupDelimiter, inner: proc_macro2::TokenStream) -> (out:
    proc_macro2::TokenStream)
    ensures
        stream_tokens(out) == seq![delimiter.opening()] + stream_tokens(inner) + seq![
            delimiter.closing(),
        ],
{
    let delimiter = match delimiter {
        GroupDelimiter::Parenthesis => proc_macro2::Delimiter::Parenthesis,
        GroupDelimiter::Brace => proc_macro2::Delimiter::Brace,
    };
    let group = proc_macro2::Group::new(delimiter, inner);
    proc_macro2::TokenStream::from(proc_macro2::TokenTree::Group(group))
}

} // verus!
