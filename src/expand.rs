//! The expansion of the attribute: a function item in, the same item with a guarded
//! body out.
use crate::tokens::{
    append_stream, empty_stream, push_fat_arrow, push_group, push_mark, push_path_sep, push_word,
    stream_is_empty, trees, Delim, Tree,
};
use proc_macro2::TokenStream;
use quote::{ToTokens, TokenStreamExt};
use vstd::prelude::*;

verus! {

#[verifier::external_type_specification]
#[verifier::external_body]
pub struct ExSynError(syn::Error);

/// The parts of a function item: its attributes, its visibility, its signature, and
/// its block, a single brace-delimited group.
pub struct FnParts {
    pub attrs: TokenStream,
    pub vis: TokenStream,
    pub sig: TokenStream,
    pub block: TokenStream,
}

/// What `syn` reads of a stream as a function item, printed back part by part:
/// attributes, visibility, signature and block; `None` where the stream is no
/// function item.
pub uninterp spec fn fn_parts_of(item: Seq<Tree>) -> Option<
    (Seq<Tree>, Seq<Tree>, Seq<Tree>, Seq<Tree>),
>;

/// The messages that an error holds, in order.
pub uninterp spec fn error_messages(e: syn::Error) -> Seq<Seq<char>>;

/// Relies on `syn::parse2::<syn::ItemFn>` to read a function item (its errors, like
/// every `syn::Error`, hold at least one message), and on `quote::ToTokens` (with
/// `TokenStreamExt::append_all` for the attributes) to print back its parts.
#[verifier::external_body]
fn split_fn(item: TokenStream) -> (r: Result<FnParts, syn::Error>)
    ensures
        match r {
            Ok(p) => fn_parts_of(trees(item)) == Some(
                (trees(p.attrs), trees(p.vis), trees(p.sig), trees(p.block)),
            ),
            Err(e) => fn_parts_of(trees(item)) is None && error_messages(e).len() > 0,
        },
{
    let f: syn::ItemFn = syn::parse2(item)?;
    let mut attrs = TokenStream::new();
    attrs.append_all(&f.attrs);
    let vis = f.vis.to_token_stream();
    let sig = f.sig.to_token_stream();
    Ok(FnParts { attrs, vis, sig, block: f.block.to_token_stream() })
}

/// Relies on `syn::Error::new_spanned`: an error with this one message, spanning the
/// tokens.
#[verifier::external_body]
fn spanned_error(tokens: TokenStream, message: &str) -> (r: syn::Error)
    ensures
        error_messages(r) == seq![message@],
{
    syn::Error::new_spanned(tokens, message)
}

/// Relies on `syn::Error`'s `Display`: the error's first message.
#[verifier::external_body]
fn error_text(e: &syn::Error) -> (r: String)
    requires
        error_messages(*e).len() > 0,
    ensures
        r@ == error_messages(*e)[0],
{
    e.to_string()
}

/// Why an item could not be expanded.
pub enum ExpandError {
    /// The attribute was given arguments (the tokens here); it takes none.
    ArgumentsNotAllowed(TokenStream),
    /// The item is no function item.
    Parse(syn::Error),
}

impl ExpandError {
    /// A parse error holds at least one message.
    pub open spec fn wf(&self) -> bool {
        *self matches ExpandError::Parse(e) ==> error_messages(e).len() > 0
    }
}

pub open spec fn args_message() -> Seq<char> {
    "arguments are not allowed for `unwind_aborts` attributes"@
}

impl ExpandError {
    /// The text that describes the error.
    pub fn message(&self) -> (r: String)
        requires
            self.wf(),
        ensures
            self is ArgumentsNotAllowed ==> r@ == args_message(),
            *self matches ExpandError::Parse(e) ==> r@ == error_messages(e)[0],
    {
        match self {
            ExpandError::ArgumentsNotAllowed(_) => {
                "arguments are not allowed for `unwind_aborts` attributes".to_owned()
            },
            ExpandError::Parse(e) => error_text(e),
        }
    }

    /// The error as `syn` reports it: the parse error itself, or a new error with
    /// `message` that spans the arguments.
    pub fn into_error(self) -> (r: syn::Error)
        ensures
            self is ArgumentsNotAllowed ==> error_messages(r) == seq![args_message()],
            self matches ExpandError::Parse(e) ==> r == e,
    {
        match self {
            ExpandError::ArgumentsNotAllowed(args) => {
                proof {
                    reveal_strlit("arguments are not allowed for `unwind_aborts` attributes");
                }
                spanned_error(args, "arguments are not allowed for `unwind_aborts` attributes")
            },
            ExpandError::Parse(e) => e,
        }
    }
}

pub open spec fn word(s: Seq<char>) -> Tree {
    Tree::Word(s)
}

pub open spec fn path_sep() -> Seq<Tree> {
    seq![Tree::Mark(':', true), Tree::Mark(':', false)]
}

pub open spec fn fat_arrow() -> Seq<Tree> {
    seq![Tree::Mark('=', true), Tree::Mark('>', false)]
}

/// `std::panic::catch_unwind(|| <block>)`
pub open spec fn catch_call(block: Seq<Tree>) -> Seq<Tree> {
    seq![word("std"@)] + path_sep() + seq![word("panic"@)] + path_sep() + seq![
        word("catch_unwind"@),
        Tree::Nest(Delim::Paren, seq![Tree::Mark('|', true), Tree::Mark('|', false)] + block),
    ]
}

/// `Ok(v) => v, Err(_) => std::process::abort(),`
pub open spec fn arms() -> Seq<Tree> {
    seq![word("Ok"@), Tree::Nest(Delim::Paren, seq![word("v"@)])] + fat_arrow() + seq![
        word("v"@),
        Tree::Mark(',', false),
        word("Err"@),
        Tree::Nest(Delim::Paren, seq![word("_"@)]),
    ] + fat_arrow() + seq![word("std"@)] + path_sep() + seq![word("process"@)] + path_sep()
        + seq![word("abort"@), Tree::Nest(Delim::Paren, Seq::empty()), Tree::Mark(',', false)]
}

/// The guarded body around a block: `match <catch_call> { <arms> }`. The block's
/// value passes through; an unwind out of it aborts the process.
pub open spec fn guarded(block: Seq<Tree>) -> Seq<Tree> {
    seq![word("match"@)] + catch_call(block) + seq![Tree::Nest(Delim::Brace, arms())]
}

/// The head of a function item: its attributes, visibility and signature, in that
/// order.
pub open spec fn head_of(attrs: Seq<Tree>, vis: Seq<Tree>, sig: Seq<Tree>) -> Seq<Tree> {
    attrs + vis + sig
}

/// The item made of a head and a guarded body in braces.
pub open spec fn guarded_item(head: Seq<Tree>, block: Seq<Tree>) -> Seq<Tree> {
    head.push(Tree::Nest(Delim::Brace, guarded(block)))
}

/// What expanding an item gives: `None` where there are arguments or the item is
/// no function item.
pub open spec fn expansion(args: Seq<Tree>, item: Seq<Tree>) -> Option<Seq<Tree>> {
    if args.len() > 0 {
        None
    } else {
        match fn_parts_of(item) {
            Some((attrs, vis, sig, block)) => Some(guarded_item(head_of(attrs, vis, sig), block)),
            None => None,
        }
    }
}

fn push_catch_call(ts: &mut TokenStream, block: TokenStream)
    ensures
        trees(*final(ts)) == trees(*old(ts)) + catch_call(trees(block)),
{
    let ghost start = trees(*ts);
    proof {
        reveal_strlit("std");
    }
    push_word(ts, "std");
    push_path_sep(ts);
    proof {
        reveal_strlit("panic");
    }
    push_word(ts, "panic");
    push_path_sep(ts);
    proof {
        reveal_strlit("catch_unwind");
    }
    push_word(ts, "catch_unwind");
    let mut closure = empty_stream();
    push_mark(&mut closure, '|', true);
    push_mark(&mut closure, '|', false);
    let ghost b = trees(block);
    append_stream(&mut closure, block);
    assert(trees(closure) =~= seq![Tree::Mark('|', true), Tree::Mark('|', false)] + b);
    push_group(ts, Delim::Paren, closure);
    assert(trees(*ts) =~= start + catch_call(b));
}

fn push_arms(ts: &mut TokenStream)
    ensures
        trees(*final(ts)) == trees(*old(ts)) + arms(),
{
    let ghost start = trees(*ts);
    proof {
        reveal_strlit("Ok");
    }
    push_word(ts, "Ok");
    let mut ok_pat = empty_stream();
    proof {
        reveal_strlit("v");
    }
    push_word(&mut ok_pat, "v");
    push_group(ts, Delim::Paren, ok_pat);
    push_fat_arrow(ts);
    push_word(ts, "v");
    push_mark(ts, ',', false);
    proof {
        reveal_strlit("Err");
    }
    push_word(ts, "Err");
    let mut err_pat = empty_stream();
    proof {
        reveal_strlit("_");
    }
    push_word(&mut err_pat, "_");
    push_group(ts, Delim::Paren, err_pat);
    push_fat_arrow(ts);
    proof {
        reveal_strlit("std");
    }
    push_word(ts, "std");
    push_path_sep(ts);
    proof {
        reveal_strlit("process");
    }
    push_word(ts, "process");
    push_path_sep(ts);
    proof {
        reveal_strlit("abort");
    }
    push_word(ts, "abort");
    push_group(ts, Delim::Paren, empty_stream());
    push_mark(ts, ',', false);
    assert(trees(*ts) =~= start + arms());
}

/// The guarded body around a block, as a stream.
pub fn guarded_body(block: TokenStream) -> (r: TokenStream)
    ensures
        trees(r) == guarded(trees(block)),
{
    let mut ts = empty_stream();
    proof {
        reveal_strlit("match");
    }
    push_word(&mut ts, "match");
    push_catch_call(&mut ts, block);
    let mut arm_list = empty_stream();
    push_arms(&mut arm_list);
    push_group(&mut ts, Delim::Brace, arm_list);
    assert(trees(ts) =~= guarded(trees(block)));
    ts
}

/// Expands the attribute on an item: with no arguments and a function item, the
/// item's head unchanged followed by the guarded body in braces.
pub fn unwind_aborts_inner(args: TokenStream, item: TokenStream) -> (r: Result<
    TokenStream,
    ExpandError,
>)
    ensures
        match r {
            Ok(out) => expansion(trees(args), trees(item)) == Some(trees(out)),
            Err(ExpandError::ArgumentsNotAllowed(a)) => trees(args).len() > 0 && trees(a)
                == trees(args),
            Err(ExpandError::Parse(e)) => expansion(trees(args), trees(item)) is None
                && trees(args).len() == 0 && error_messages(e).len() > 0,
        },
        r matches Err(e) ==> e.wf(),
{
    if !stream_is_empty(&args) {
        return Err(ExpandError::ArgumentsNotAllowed(args));
    }
    match split_fn(item) {
        Ok(parts) => {
            let FnParts { attrs, vis, sig, block } = parts;
            let mut out = attrs;
            append_stream(&mut out, vis);
            append_stream(&mut out, sig);
            let body = guarded_body(block);
            push_group(&mut out, Delim::Brace, body);
            Ok(out)
        },
        Err(e) => Err(ExpandError::Parse(e)),
    }
}

/// An attribute given any arguments expands to nothing: the item is rejected
/// whatever it is.
pub proof fn lemma_arguments_rejected(args: Seq<Tree>, item: Seq<Tree>)
    requires
        args.len() > 0,
    ensures
        expansion(args, item) is None,
{
}

/// Expansion keeps the item's attributes, visibility and signature as they are and
/// replaces only its body: the output is the item's head followed by one
/// brace-delimited group, the guarded block.
pub proof fn lemma_head_preserved(args: Seq<Tree>, item: Seq<Tree>)
    requires
        expansion(args, item) is Some,
    ensures
        fn_parts_of(item) is Some,
        ({
            let (attrs, vis, sig, block) = fn_parts_of(item).unwrap();
            let head = head_of(attrs, vis, sig);
            let out = expansion(args, item).unwrap();
            &&& out.len() == head.len() + 1
            &&& out.take(head.len() as int) == head
            &&& out.last() == Tree::Nest(Delim::Brace, guarded(block))
        }),
{
    let (attrs, vis, sig, block) = fn_parts_of(item).unwrap();
    let head = head_of(attrs, vis, sig);
    let out = expansion(args, item).unwrap();
    assert(out.take(head.len() as int) =~= head);
}

} // verus!
