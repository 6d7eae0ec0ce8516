//! Token streams of `proc_macro2`, seen through a model of their token trees.
use proc_macro2::{Delimiter, Group, Ident, Punct, Spacing, Span, TokenStream, TokenTree};
use vstd::prelude::*;

verus! {

#[verifier::external_type_specification]
#[verifier::external_body]
pub struct ExTokenStream(proc_macro2::TokenStream);

/// The delimiter of a group of tokens.
#[derive(Clone, Copy, Debug, PartialEq, Eq, Structural)]
pub enum Delim {
    Paren,
    Brace,
    Bracket,
    Invisible,
}

/// A token tree, without its span: an identifier, a punctuation character
/// (with whether it is joined to the next one), a literal, or a delimited group.
pub enum Tree {
    Word(Seq<char>),
    Mark(char, bool),
    Lit(Seq<char>),
    Nest(Delim, Seq<Tree>),
}

/// The token trees that a stream holds, in order.
pub uninterp spec fn trees(ts: TokenStream) -> Seq<Tree>;

/// The characters that a punctuation token may be.
pub open spec fn is_mark_char(c: char) -> bool {
    c == '!' || c == '#' || c == '$' || c == '%' || c == '&' || c == '\'' || c == '*' || c == '+'
        || c == ',' || c == '-' || c == '.' || c == '/' || c == ':' || c == ';' || c == '<' || c
        == '=' || c == '>' || c == '?' || c == '@' || c == '^' || c == '|' || c == '~'
}

pub open spec fn is_ascii_word_start(c: char) -> bool {
    ('a' <= c && c <= 'z') || ('A' <= c && c <= 'Z') || c == '_'
}

pub open spec fn is_ascii_word_continue(c: char) -> bool {
    is_ascii_word_start(c) || ('0' <= c && c <= '9')
}

/// An identifier of ASCII letters, digits and underscores that starts with a
/// letter or an underscore (keywords included).
pub open spec fn is_ascii_word(s: Seq<char>) -> bool {
    &&& s.len() > 0
    &&& is_ascii_word_start(s[0])
    &&& forall|i: int| 0 < i < s.len() ==> is_ascii_word_continue(#[trigger] s[i])
}

/// Relies on `proc_macro2::TokenStream::new`: an empty stream.
#[verifier::external_body]
pub(crate) fn empty_stream() -> (r: TokenStream)
    ensures
        trees(r) == Seq::<Tree>::empty(),
{
    TokenStream::new()
}

/// Relies on `proc_macro2::TokenStream::is_empty`: whether the stream holds no tree.
#[verifier::external_body]
pub(crate) fn stream_is_empty(ts: &TokenStream) -> (r: bool)
    ensures
        r == (trees(*ts).len() == 0),
{
    ts.is_empty()
}

/// Relies on `proc_macro2::Ident::new` (which accepts any such identifier, keywords and
/// `_` included) and on extending a stream by one tree, which appends it.
#[verifier::external_body]
pub(crate) fn push_word(ts: &mut TokenStream, word: &str)
    requires
        is_ascii_word(word@),
    ensures
        trees(*final(ts)) == trees(*old(ts)).push(Tree::Word(word@)),
{
    ts.extend(std::iter::once(TokenTree::Ident(Ident::new(word, Span::call_site()))));
}

/// Relies on `proc_macro2::Punct::new` (which accepts exactly these characters) and on
/// extending a stream by one tree, which appends it.
#[verifier::external_body]
pub(crate) fn push_mark(ts: &mut TokenStream, c: char, joint: bool)
    requires
        is_mark_char(c),
    ensures
        trees(*final(ts)) == trees(*old(ts)).push(Tree::Mark(c, joint)),
{
    let spacing = if joint { Spacing::Joint } else { Spacing::Alone };
    ts.extend(std::iter::once(TokenTree::Punct(Punct::new(c, spacing))));
}

/// Relies on `proc_macro2::Group::new` and on extending a stream by one tree, which
/// appends it.
#[verifier::external_body]
pub(crate) fn push_group(ts: &mut TokenStream, delim: Delim, inner: TokenStream)
    ensures
        trees(*final(ts)) == trees(*old(ts)).push(Tree::Nest(delim, trees(inner))),
{
    let d = match delim {
        Delim::Paren => Delimiter::Parenthesis,
        Delim::Brace => Delimiter::Brace,
        Delim::Bracket => Delimiter::Bracket,
        Delim::Invisible => Delimiter::None,
    };
    ts.extend(std::iter::once(TokenTree::Group(Group::new(d, inner))));
}

/// Relies on extending a `proc_macro2::TokenStream` by another stream, which appends
/// the other's trees in order.
#[verifier::external_body]
pub(crate) fn append_stream(ts: &mut TokenStream, other: TokenStream)
    ensures
        trees(*final(ts)) == trees(*old(ts)) + trees(other),
{
    ts.extend(std::iter::once(other));
}

/// Appends a path separator `::`.
pub(crate) fn push_path_sep(ts: &mut TokenStream)
    ensures
        trees(*final(ts)) == trees(*old(ts)).push(Tree::Mark(':', true)).push(
            Tree::Mark(':', false),
        ),
{
    push_mark(ts, ':', true);
    push_mark(ts, ':', false);
}

/// Appends a match arm's arrow `=>`.
pub(crate) fn push_fat_arrow(ts: &mut TokenStream)
    ensures
        trees(*final(ts)) == trees(*old(ts)).push(Tree::Mark('=', true)).push(
            Tree::Mark('>', false),
        ),
{
    push_mark(ts, '=', true);
    push_mark(ts, '>', false);
}

} // verus!
