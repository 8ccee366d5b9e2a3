use aster::ast::{FloatTy, IntTy, Lit, LitIntType, LitKind, Mac, Path, Span, TokenTree, UintTy};
use aster::invoke::{Identity, Invoke};
use aster::lit::LitBuilder;
use aster::mac::MacBuilder;

fn no_span() -> Span {
    Span { lo: 0, hi: 0 }
}

fn lit(node: LitKind) -> Lit {
    Lit { span: no_span(), node }
}

fn path(name: &str) -> Path {
    Path { global: false, segments: vec![name.to_string()] }
}

fn ident(name: &str) -> TokenTree {
    TokenTree::Ident(name.to_string())
}

#[test]
fn build_true_without_continuation() {
    assert_eq!(LitBuilder::new().true_(), lit(LitKind::Bool(true)));
}

#[test]
fn false_shorthand_matches_bool() {
    assert_eq!(LitBuilder::new().false_(), LitBuilder::new().bool(false));
    assert_eq!(LitBuilder::new().bool(false), LitBuilder::new().build_lit(LitKind::Bool(false)));
    assert_eq!(LitBuilder::new().true_(), LitBuilder::new().build_lit(LitKind::Bool(true)));
}

#[test]
fn u8_max() {
    assert_eq!(
        LitBuilder::new().u8(255),
        lit(LitKind::Int(255, LitIntType::Unsigned(UintTy::U8)))
    );
}

#[test]
fn unsigned_widths_keep_magnitude_and_tag() {
    let b = || LitBuilder::new();
    assert_eq!(b().u16(65535), lit(LitKind::Int(65535, LitIntType::Unsigned(UintTy::U16))));
    assert_eq!(b().u32(7), lit(LitKind::Int(7, LitIntType::Unsigned(UintTy::U32))));
    assert_eq!(
        b().u64(u64::MAX),
        lit(LitKind::Int(u64::MAX, LitIntType::Unsigned(UintTy::U64)))
    );
    assert_eq!(b().usize(0), lit(LitKind::Int(0, LitIntType::Unsigned(UintTy::Us))));
    assert_eq!(b().uint(12), lit(LitKind::Int(12, LitIntType::Unsuffixed)));
}

#[test]
fn signed_widths_keep_magnitude_and_tag() {
    let b = || LitBuilder::new();
    assert_eq!(b().i8(127), lit(LitKind::Int(127, LitIntType::Signed(IntTy::I8))));
    assert_eq!(b().i16(0), lit(LitKind::Int(0, LitIntType::Signed(IntTy::I16))));
    assert_eq!(
        b().i32(i32::MAX),
        lit(LitKind::Int(2147483647, LitIntType::Signed(IntTy::I32)))
    );
    assert_eq!(
        b().i64(i64::MAX),
        lit(LitKind::Int(9223372036854775807, LitIntType::Signed(IntTy::I64)))
    );
    assert_eq!(b().isize(5), lit(LitKind::Int(5, LitIntType::Signed(IntTy::Is))));
    assert_eq!(b().int_(42), lit(LitKind::Int(42, LitIntType::Unsuffixed)));
}

#[test]
fn str_holds_canonical_text() {
    assert_eq!(LitBuilder::new().str("hello"), lit(LitKind::Str("hello".to_string())));
    assert_eq!(
        LitBuilder::new().str(String::from("héllo")),
        lit(LitKind::Str("héllo".to_string()))
    );
    assert_eq!(LitBuilder::new().str(""), lit(LitKind::Str(String::new())));
}

#[test]
fn float_keeps_source_text() {
    assert_eq!(
        LitBuilder::new().float32("0.1"),
        lit(LitKind::Float("0.1".to_string(), FloatTy::F32))
    );
    assert_eq!(
        LitBuilder::new().float64(String::from("1e-300")),
        lit(LitKind::Float("1e-300".to_string(), FloatTy::F64))
    );
}

#[test]
fn char_byte_and_byte_str() {
    assert_eq!(LitBuilder::new().char('x'), lit(LitKind::Char('x')));
    assert_eq!(LitBuilder::new().byte(b'a'), lit(LitKind::Byte(97)));
    assert_eq!(
        LitBuilder::new().byte_str(b"ab".to_vec()),
        lit(LitKind::ByteStr(vec![97, 98]))
    );
}

#[test]
fn span_is_attached() {
    let sp = Span { lo: 3, hi: 9 };
    assert_eq!(
        LitBuilder::new().span(sp).char('q'),
        Lit { span: sp, node: LitKind::Char('q') }
    );
}

#[test]
fn identity_returns_its_argument() {
    assert_eq!(Identity.invoke(7u32), 7u32);
}

#[test]
fn continuation_equals_identity_then_invoke() {
    let sp = Span { lo: 1, hi: 2 };
    let direct = LitBuilder::with_callback(MacBuilder::new().path(path("m")))
        .span(sp)
        .u8(9)
        .build();
    let node = LitBuilder::new().span(sp).u8(9);
    let manual = MacBuilder::new().path(path("m")).invoke(node).build();
    assert_eq!(direct, manual);
    assert_eq!(
        manual.tts,
        vec![TokenTree::Literal(Lit {
            span: sp,
            node: LitKind::Int(9, LitIntType::Unsigned(UintTy::U8)),
        })]
    );
}

#[test]
fn macro_with_two_args() {
    let mac = MacBuilder::new().path(path("foo")).with_arg(ident("x")).with_arg(ident("y")).build();
    assert_eq!(
        mac,
        Mac { span: no_span(), path: path("foo"), tts: vec![ident("x"), ident("y")] }
    );
}

#[test]
fn with_args_matches_sequential_with_arg() {
    let all = MacBuilder::new()
        .path(path("foo"))
        .with_args(vec![ident("a"), TokenTree::Punct(','), ident("b")])
        .build();
    let one_by_one = MacBuilder::new()
        .path(path("foo"))
        .with_arg(ident("a"))
        .with_arg(TokenTree::Punct(','))
        .with_arg(ident("b"))
        .build();
    assert_eq!(all, one_by_one);
    assert_eq!(all.tts, vec![ident("a"), TokenTree::Punct(','), ident("b")]);
}

#[test]
fn with_args_empty_adds_nothing() {
    let mac = MacBuilder::new().path(path("foo")).with_args(Vec::<TokenTree>::new()).build();
    assert!(mac.tts.is_empty());
}

#[test]
fn nested_literals_become_arguments() {
    let mac = MacBuilder::new()
        .path(path("vec"))
        .lit()
        .u8(1)
        .with_arg(TokenTree::Punct(','))
        .lit()
        .str("two")
        .span(Span { lo: 4, hi: 8 })
        .build();
    assert_eq!(mac.span, Span { lo: 4, hi: 8 });
    assert_eq!(
        mac.tts,
        vec![
            TokenTree::Literal(lit(LitKind::Int(1, LitIntType::Unsigned(UintTy::U8)))),
            TokenTree::Punct(','),
            TokenTree::Literal(lit(LitKind::Str("two".to_string()))),
        ]
    );
}

#[test]
fn lit_as_argument_fragment() {
    let mac = MacBuilder::new().with_arg(LitBuilder::new().true_()).path(path("p")).build();
    assert_eq!(mac.tts, vec![TokenTree::Literal(lit(LitKind::Bool(true)))]);
}
