//! A builder for literal nodes.
use vstd::prelude::*;

use crate::ast::{FloatTy, IntTy, Lit, LitIntType, LitKind, Span, UintTy};
use crate::interned::ToInternedString;
use crate::invoke::{Identity, Invoke};

verus! {

/// The literal node with span `span` that holds `kind`.
pub open spec fn lit_node(span: Span, kind: LitKind) -> Lit {
    Lit { span, node: kind }
}

/// Builds one literal node and hands it to the continuation `F`.
pub struct LitBuilder<F = Identity> {
    callback: F,
    span: Span,
}

impl LitBuilder {
    pub fn new() -> (r: LitBuilder)
        ensures
            r.spec_callback() == Identity,
            r.spec_span() == Span::spec_dummy(),
    {
        LitBuilder::with_callback(Identity)
    }
}

impl<F: Invoke<Lit>> LitBuilder<F> {
    /// The continuation that receives the node.
    pub closed spec fn spec_callback(self) -> F {
        self.callback
    }

    /// The span that the node will carry.
    pub closed spec fn spec_span(self) -> Span {
        self.span
    }

    /// Holds when `r` is what finalising this builder on `kind` returns.
    pub open spec fn builds(self, kind: LitKind, r: F::Result) -> bool {
        self.spec_callback().completes(lit_node(self.spec_span(), kind), r)
    }

    pub fn with_callback(callback: F) -> (r: Self)
        ensures
            r.spec_callback() == callback,
            r.spec_span() == Span::spec_dummy(),
    {
        LitBuilder { callback, span: Span::dummy() }
    }

    pub fn span(self, span: Span) -> (r: Self)
        ensures
            r.spec_callback() == self.spec_callback(),
            r.spec_span() == span,
    {
        LitBuilder { callback: self.callback, span }
    }

    pub fn build_lit(self, lit: LitKind) -> (r: F::Result)
        ensures
            self.builds(lit, r),
    {
        self.callback.invoke(Lit { span: self.span, node: lit })
    }

    pub fn bool(self, value: bool) -> (r: F::Result)
        ensures
            self.builds(LitKind::Bool(value), r),
    {
        self.build_lit(LitKind::Bool(value))
    }

    pub fn true_(self) -> (r: F::Result)
        ensures
            self.builds(LitKind::Bool(true), r),
    {
        self.bool(true)
    }

    pub fn false_(self) -> (r: F::Result)
        ensures
            self.builds(LitKind::Bool(false), r),
    {
        self.bool(false)
    }

    /// An unsuffixed integer literal; the value must not be negative.
    pub fn int_(self, value: i64) -> (r: F::Result)
        requires
            value >= 0,
        ensures
            self.builds(LitKind::Int(value as u64, LitIntType::Unsuffixed), r),
    {
        self.build_lit(LitKind::Int(value as u64, LitIntType::Unsuffixed))
    }

    fn build_int(self, value: i64, ty: IntTy) -> (r: F::Result)
        requires
            value >= 0,
        ensures
            self.builds(LitKind::Int(value as u64, LitIntType::Signed(ty)), r),
    {
        self.build_lit(LitKind::Int(value as u64, LitIntType::Signed(ty)))
    }

    pub fn isize(self, value: isize) -> (r: F::Result)
        requires
            value >= 0,
        ensures
            self.builds(LitKind::Int(value as u64, LitIntType::Signed(IntTy::Is)), r),
    {
        self.build_int(value as i64, IntTy::Is)
    }

    pub fn i8(self, value: i8) -> (r: F::Result)
        requires
            value >= 0,
        ensures
            self.builds(LitKind::Int(value as u64, LitIntType::Signed(IntTy::I8)), r),
    {
        self.build_int(value as i64, IntTy::I8)
    }

    pub fn i16(self, value: i16) -> (r: F::Result)
        requires
            value >= 0,
        ensures
            self.builds(LitKind::Int(value as u64, LitIntType::Signed(IntTy::I16)), r),
    {
        self.build_int(value as i64, IntTy::I16)
    }

    pub fn i32(self, value: i32) -> (r: F::Result)
        requires
            value >= 0,
        ensures
            self.builds(LitKind::Int(value as u64, LitIntType::Signed(IntTy::I32)), r),
    {
        self.build_int(value as i64, IntTy::I32)
    }

    pub fn i64(self, value: i64) -> (r: F::Result)
        requires
            value >= 0,
        ensures
            self.builds(LitKind::Int(value as u64, LitIntType::Signed(IntTy::I64)), r),
    {
        self.build_int(value, IntTy::I64)
    }

    /// An unsuffixed integer literal.
    pub fn uint(self, value: u64) -> (r: F::Result)
        ensures
            self.builds(LitKind::Int(value, LitIntType::Unsuffixed), r),
    {
        self.build_lit(LitKind::Int(value, LitIntType::Unsuffixed))
    }

    fn build_uint(self, value: u64, ty: UintTy) -> (r: F::Result)
        ensures
            self.builds(LitKind::Int(value, LitIntType::Unsigned(ty)), r),
    {
        self.build_lit(LitKind::Int(value, LitIntType::Unsigned(ty)))
    }

    pub fn usize(self, value: usize) -> (r: F::Result)
        ensures
            self.builds(LitKind::Int(value as u64, LitIntType::Unsigned(UintTy::Us)), r),
    {
        self.build_uint(value as u64, UintTy::Us)
    }

    pub fn u8(self, value: u8) -> (r: F::Result)
        ensures
            self.builds(LitKind::Int(value as u64, LitIntType::Unsigned(UintTy::U8)), r),
    {
        self.build_uint(value as u64, UintTy::U8)
    }

    pub fn u16(self, value: u16) -> (r: F::Result)
        ensures
            self.builds(LitKind::Int(value as u64, LitIntType::Unsigned(UintTy::U16)), r),
    {
        self.build_uint(value as u64, UintTy::U16)
    }

    pub fn u32(self, value: u32) -> (r: F::Result)
        ensures
            self.builds(LitKind::Int(value as u64, LitIntType::Unsigned(UintTy::U32)), r),
    {
        self.build_uint(value as u64, UintTy::U32)
    }

    pub fn u64(self, value: u64) -> (r: F::Result)
        ensures
            self.builds(LitKind::Int(value, LitIntType::Unsigned(UintTy::U64)), r),
    {
        self.build_uint(value, UintTy::U64)
    }

    /// Holds when `r` is what finalising this builder returns for some literal
    /// of the given shape whose text is `text`.
    pub open spec fn builds_text(
        self,
        text: Seq<char>,
        kind: spec_fn(String) -> LitKind,
        r: F::Result,
    ) -> bool {
        exists|s: String| s@ == text && #[trigger] self.builds(kind(s), r)
    }

    fn build_float<S: ToInternedString>(self, value: S, ty: FloatTy) -> (r: F::Result)
        ensures
            self.builds_text(value.interned(), |s: String| LitKind::Float(s, ty), r),
    {
        let text = value.to_interned_string();
        let r = self.build_lit(LitKind::Float(text, ty));
        assert(self.builds((|s: String| LitKind::Float(s, ty))(text), r));
        r
    }

    /// A float literal of width 32 that keeps the text of `value` as written.
    pub fn float32<S: ToInternedString>(self, value: S) -> (r: F::Result)
        ensures
            self.builds_text(value.interned(), |s: String| LitKind::Float(s, FloatTy::F32), r),
    {
        self.build_float(value, FloatTy::F32)
    }

    /// A float literal of width 64 that keeps the text of `value` as written.
    pub fn float64<S: ToInternedString>(self, value: S) -> (r: F::Result)
        ensures
            self.builds_text(value.interned(), |s: String| LitKind::Float(s, FloatTy::F64), r),
    {
        self.build_float(value, FloatTy::F64)
    }

    pub fn char(self, value: char) -> (r: F::Result)
        ensures
            self.builds(LitKind::Char(value), r),
    {
        self.build_lit(LitKind::Char(value))
    }

    pub fn byte(self, value: u8) -> (r: F::Result)
        ensures
            self.builds(LitKind::Byte(value), r),
    {
        self.build_lit(LitKind::Byte(value))
    }

    /// A string literal holding the canonical text of `value`.
    pub fn str<S: ToInternedString>(self, value: S) -> (r: F::Result)
        ensures
            self.builds_text(value.interned(), |s: String| LitKind::Str(s), r),
    {
        let text = value.to_interned_string();
        let r = self.build_lit(LitKind::Str(text));
        assert(self.builds((|s: String| LitKind::Str(s))(text), r));
        r
    }

    /// A byte-string literal holding the bytes of `value`.
    pub fn byte_str(self, value: Vec<u8>) -> (r: F::Result)
        ensures
            self.builds(LitKind::ByteStr(value), r),
    {
        self.build_lit(LitKind::ByteStr(value))
    }
}

/// Finalising a literal builder whose continuation is `c` returns exactly what
/// `c` returns when handed the node that a builder with the same span and the
/// identity continuation produces for the same kind.
pub proof fn lemma_continuation_composes<F: Invoke<Lit>>(
    b: LitBuilder<F>,
    plain: LitBuilder,
    kind: LitKind,
    node: Lit,
    r: F::Result,
)
    requires
        plain.spec_span() == b.spec_span(),
        plain.spec_callback() == Identity,
        plain.builds(kind, node),
    ensures
        b.builds(kind, r) <==> b.spec_callback().completes(node, r),
{
}

} // verus!
