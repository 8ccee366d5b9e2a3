//! The syntax nodes that the builders produce.
use vstd::prelude::*;

verus! {

/// A source location, from byte `lo` to byte `hi`.
#[derive(Clone, Copy, Debug, PartialEq, Eq, Structural)]
pub struct Span {
    pub lo: u32,
    pub hi: u32,
}

impl Span {
    /// The span that marks a node as having no source location.
    pub open spec fn spec_dummy() -> Span {
        Span { lo: 0, hi: 0 }
    }

    pub fn dummy() -> (r: Span)
        ensures
            r == Span::spec_dummy(),
    {
        Span { lo: 0, hi: 0 }
    }
}

/// Width of a signed integer literal.
#[derive(Clone, Copy, Debug, PartialEq, Eq, Structural)]
pub enum IntTy {
    Is,
    I8,
    I16,
    I32,
    I64,
}

/// Width of an unsigned integer literal.
#[derive(Clone, Copy, Debug, PartialEq, Eq, Structural)]
pub enum UintTy {
    Us,
    U8,
    U16,
    U32,
    U64,
}

/// Width of a floating-point literal.
#[derive(Clone, Copy, Debug, PartialEq, Eq, Structural)]
pub enum FloatTy {
    F32,
    F64,
}

/// The suffix of an integer literal: its sign and width, or none.
#[derive(Clone, Copy, Debug, PartialEq, Eq, Structural)]
pub enum LitIntType {
    Signed(IntTy),
    Unsigned(UintTy),
    Unsuffixed,
}

/// What a literal holds. An integer is a magnitude and a suffix; a float is
/// kept as its source text.
#[derive(Clone, Debug, PartialEq, Eq)]
pub enum LitKind {
    Bool(bool),
    Int(u64, LitIntType),
    Float(String, FloatTy),
    Char(char),
    Byte(u8),
    Str(String),
    ByteStr(Vec<u8>),
}

/// A literal node.
#[derive(Clone, Debug, PartialEq, Eq)]
pub struct Lit {
    pub span: Span,
    pub node: LitKind,
}

/// A qualified name such as `std::vec`.
#[derive(Clone, Debug, PartialEq, Eq)]
pub struct Path {
    pub global: bool,
    pub segments: Vec<String>,
}

/// One indivisible unit of syntax.
#[derive(Clone, Debug, PartialEq, Eq)]
pub enum TokenTree {
    Literal(Lit),
    Ident(String),
    Punct(char),
}

/// A macro invocation: the macro's path and its argument tokens.
#[derive(Clone, Debug, PartialEq, Eq)]
pub struct Mac {
    pub span: Span,
    pub path: Path,
    pub tts: Vec<TokenTree>,
}

/// A fragment of syntax that can be elaborated into tokens.
pub trait ToTokens: Sized {
    /// The tokens that this fragment elaborates to.
    spec fn token_seq(self) -> Seq<TokenTree>;

    fn to_tokens(self) -> (r: Vec<TokenTree>)
        ensures
            r@ == self.token_seq(),
    ;
}

impl ToTokens for TokenTree {
    open spec fn token_seq(self) -> Seq<TokenTree> {
        seq![self]
    }

    fn to_tokens(self) -> (r: Vec<TokenTree>) {
        let r = vec![self];
        assert(r@ =~= seq![self]);
        r
    }
}

impl ToTokens for Lit {
    open spec fn token_seq(self) -> Seq<TokenTree> {
        seq![TokenTree::Literal(self)]
    }

    fn to_tokens(self) -> (r: Vec<TokenTree>) {
        let r = vec![TokenTree::Literal(self)];
        assert(r@ =~= seq![TokenTree::Literal(self)]);
        r
    }
}

} // verus!
