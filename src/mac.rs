//! A builder for macro invocations.
use vstd::prelude::*;

use crate::ast::{Lit, Mac, Path, Span, ToTokens, TokenTree};
use crate::invoke::{Identity, Invoke};
use crate::lit::LitBuilder;

verus! {

/// The single token that the fragment `f` elaborates to.
pub open spec fn arg_token<T: ToTokens>(f: T) -> TokenTree {
    f.token_seq()[0]
}

/// Holds when the fragment `f` elaborates to exactly one token.
pub open spec fn is_single_token<T: ToTokens>(f: T) -> bool {
    f.token_seq().len() == 1
}

/// The argument tokens after appending the fragments `fs`, one `with_arg` at a
/// time, to the arguments `args`.
pub open spec fn push_each<T: ToTokens>(args: Seq<TokenTree>, fs: Seq<T>) -> Seq<TokenTree>
    decreases fs.len(),
{
    if fs.len() == 0 {
        args
    } else {
        push_each(args.push(arg_token(fs[0])), fs.drop_first())
    }
}

/// Builds a macro invocation and hands it to the continuation `F`.
///
/// No separator is put between arguments: the caller adds every token that the
/// invocation needs, commas included.
pub struct MacBuilder<F = Identity> {
    callback: F,
    span: Span,
    tokens: Vec<TokenTree>,
    path: Option<Path>,
}

impl MacBuilder {
    pub fn new() -> (r: Self)
        ensures
            r.spec_callback() == Identity,
            r.spec_span() == Span::spec_dummy(),
            r.spec_tokens()@ == Seq::<TokenTree>::empty(),
            r.spec_path() is None,
    {
        MacBuilder::with_callback(Identity)
    }
}

impl<F: Invoke<Mac>> MacBuilder<F> {
    /// The continuation that receives the invocation.
    pub closed spec fn spec_callback(self) -> F {
        self.callback
    }

    /// The span that the invocation will carry.
    pub closed spec fn spec_span(self) -> Span {
        self.span
    }

    /// The argument tokens gathered so far, in order.
    pub closed spec fn spec_tokens(self) -> Vec<TokenTree> {
        self.tokens
    }

    /// The macro's path, once it is set.
    pub closed spec fn spec_path(self) -> Option<Path> {
        self.path
    }

    /// Holds when `r` is `self` with `tokens` for its argument tokens.
    pub open spec fn with_tokens(self, r: Self, tokens: Seq<TokenTree>) -> bool {
        &&& r.spec_callback() == self.spec_callback()
        &&& r.spec_span() == self.spec_span()
        &&& r.spec_path() == self.spec_path()
        &&& r.spec_tokens()@ == tokens
    }

    pub fn with_callback(callback: F) -> (r: Self)
        ensures
            r.spec_callback() == callback,
            r.spec_span() == Span::spec_dummy(),
            r.spec_tokens()@ == Seq::<TokenTree>::empty(),
            r.spec_path() is None,
    {
        MacBuilder { callback, span: Span::dummy(), tokens: Vec::new(), path: None }
    }

    pub fn span(self, span: Span) -> (r: Self)
        ensures
            r.spec_callback() == self.spec_callback(),
            r.spec_span() == span,
            r.spec_tokens() == self.spec_tokens(),
            r.spec_path() == self.spec_path(),
    {
        MacBuilder { span, ..self }
    }

    pub fn path(self, path: Path) -> (r: Self)
        ensures
            r.spec_callback() == self.spec_callback(),
            r.spec_span() == self.spec_span(),
            r.spec_tokens() == self.spec_tokens(),
            r.spec_path() == Some(path),
    {
        MacBuilder { path: Some(path), ..self }
    }

    /// Finalises the invocation; the path must have been set.
    pub fn build(self) -> (r: F::Result)
        requires
            self.spec_path() is Some,
        ensures
            self.spec_callback().completes(
                (Mac {
                    span: self.spec_span(),
                    path: self.spec_path()->Some_0,
                    tts: self.spec_tokens(),
                }),
                r,
            ),
    {
        let path = self.path.unwrap();
        let mac = Mac { span: self.span, path, tts: self.tokens };
        self.callback.invoke(mac)
    }

    /// Appends the fragments of `args` in order, each as by `with_arg`.
    pub fn with_args<T: ToTokens>(self, args: Vec<T>) -> (r: Self)
        requires
            forall|i: int| 0 <= i < args@.len() ==> is_single_token(#[trigger] args@[i]),
        ensures
            self.with_tokens(r, self.spec_tokens()@ + args@.map_values(|f: T| arg_token(f))),
    {
        let ghost start = self.spec_tokens()@;
        let ghost all = args@;
        let n = args.len();
        let mut rest = args;
        let mut b = self;
        let mut k: usize = 0;
        while rest.len() > 0
            invariant
                k <= all.len() == n,
                rest@ == all.skip(k as int),
                forall|i: int| 0 <= i < all.len() ==> is_single_token(#[trigger] all[i]),
                self.with_tokens(b, start + all.take(k as int).map_values(|f: T| arg_token(f))),
            decreases rest.len(),
        {
            let f = rest.remove(0);
            assert(f == all[k as int]);
            b = b.with_arg(f);
            assert(all.take(k + 1) =~= all.take(k as int).push(f));
            assert(rest@ =~= all.skip(k + 1));
            k = k + 1;
            assert(start + all.take(k as int).map_values(|f: T| arg_token(f)) =~= b.spec_tokens()@);
        }
        assert(all.take(k as int) =~= all);
        b
    }

    /// Elaborates `expr` into its single token and appends that token to the
    /// arguments.
    pub fn with_arg<T: ToTokens>(self, expr: T) -> (r: Self)
        requires
            is_single_token(expr),
        ensures
            self.with_tokens(r, self.spec_tokens()@.push(arg_token(expr))),
    {
        let mut tokens = expr.to_tokens();
        let token = tokens.remove(0);
        let mut b = self;
        b.tokens.push(token);
        b
    }

    /// A literal builder whose finished literal becomes the next argument of
    /// this invocation.
    pub fn lit(self) -> (r: LitBuilder<Self>)
        ensures
            r.spec_callback() == self,
            r.spec_span() == Span::spec_dummy(),
    {
        LitBuilder::with_callback(self)
    }
}

impl<F: Invoke<Mac>> Invoke<Lit> for MacBuilder<F> {
    type Result = Self;

    open spec fn completes(self, arg: Lit, r: Self) -> bool {
        self.with_tokens(r, self.spec_tokens()@.push(TokenTree::Literal(arg)))
    }

    fn invoke(self, arg: Lit) -> (r: Self) {
        self.with_arg(arg)
    }
}

/// Appending fragments all at once gives the arguments, in the same order, that
/// appending them one at a time gives.
pub proof fn lemma_with_args_in_order<T: ToTokens>(args: Seq<TokenTree>, fs: Seq<T>)
    ensures
        args + fs.map_values(|f: T| arg_token(f)) == push_each(args, fs),
    decreases fs.len(),
{
    if fs.len() == 0 {
        assert(args + fs.map_values(|f: T| arg_token(f)) =~= args);
    } else {
        lemma_with_args_in_order(args.push(arg_token(fs[0])), fs.drop_first());
        assert(args + fs.map_values(|f: T| arg_token(f)) =~= args.push(arg_token(fs[0]))
            + fs.drop_first().map_values(|f: T| arg_token(f)));
    }
}

} // verus!
