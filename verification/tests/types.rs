use front_end::ast::expressions::{Expression, Literal};
use front_end::ast::types::{Mutability, Type, TypePath, TypePathSegment};
use front_end::ast::{Identifier, Span};

fn dummy_span() -> Span {
    Span {
        start: 0,
        end: 0,
        line: 0,
        column: 0,
    }
}

fn segment(name: &str, args: Option<Vec<Type>>) -> TypePathSegment {
    TypePathSegment {
        ident: Identifier::new(name.to_string(), dummy_span()),
        generic_args: args,
        span: dummy_span(),
    }
}

#[test]
fn test_primitive_types() {
    assert!(Type::I32.is_primitive());
    assert!(Type::F64.is_primitive());
    assert!(Type::Bool.is_primitive());
    assert!(!Type::Array(Box::new(Type::I32), None).is_primitive());
}

#[test]
fn test_numeric_types() {
    assert!(Type::I32.is_numeric());
    assert!(Type::F64.is_numeric());
    assert!(!Type::Bool.is_numeric());
    assert!(Type::I32.is_integer());
    assert!(!Type::F64.is_integer());
    assert!(Type::F64.is_float());
}

#[test]
fn test_complex_types() {
    let array_type = Type::Array(Box::new(Type::I32), None);
    let ptr_type = Type::Pointer(Box::new(Type::I32), Mutability::Immutable);
    let ref_type = Type::Reference(Box::new(Type::I32), Mutability::Mutable);
    let tuple_type = Type::Tuple(vec![Type::I32, Type::F64]);
    let fn_type = Type::Function(vec![Type::I32], Box::new(Type::Bool));

    assert!(!array_type.is_primitive());
    assert!(!ptr_type.is_primitive());
    assert!(!ref_type.is_primitive());
    assert!(!tuple_type.is_primitive());
    assert!(!fn_type.is_primitive());
}

#[test]
fn test_generic_types() {
    let generic_path = TypePath {
        segments: vec![TypePathSegment {
            ident: Identifier::new("Vec".to_string(), dummy_span()),
            generic_args: Some(vec![Type::I32]),
            span: dummy_span(),
        }],
        span: dummy_span(),
    };

    let named_type = Type::Named(generic_path);
    assert!(!named_type.is_primitive());
}

#[test]
fn test_type_display() {
    assert_eq!(Type::I32.render(), "i32");
    assert_eq!(Type::Array(Box::new(Type::I32), None).render(), "[i32]");
    assert_eq!(
        Type::Pointer(Box::new(Type::I32), Mutability::Mutable).render(),
        "*mut i32"
    );
    assert_eq!(
        Type::Tuple(vec![Type::I32, Type::F64]).render(),
        "(i32, f64)"
    );
}

#[test]
fn every_primitive_has_its_name() {
    let all = [
        (Type::I8, "i8"),
        (Type::I16, "i16"),
        (Type::I32, "i32"),
        (Type::I64, "i64"),
        (Type::I128, "i128"),
        (Type::U8, "u8"),
        (Type::U16, "u16"),
        (Type::U32, "u32"),
        (Type::U64, "u64"),
        (Type::U128, "u128"),
        (Type::F32, "f32"),
        (Type::F64, "f64"),
        (Type::Bool, "bool"),
        (Type::Char, "char"),
        (Type::Str, "str"),
        (Type::Unit, "()"),
        (Type::Never, "!"),
    ];
    for (t, name) in all {
        assert_eq!(t.render(), name);
        assert!(t.is_primitive());
    }
}

#[test]
fn classification_of_every_primitive() {
    let signed_ints = [Type::I8, Type::I16, Type::I32, Type::I64, Type::I128];
    let unsigned_ints = [Type::U8, Type::U16, Type::U32, Type::U64, Type::U128];
    let floats = [Type::F32, Type::F64];
    let others = [Type::Bool, Type::Char, Type::Str, Type::Unit, Type::Never];
    for t in &signed_ints {
        assert!(t.is_integer() && t.is_numeric() && t.is_signed() && !t.is_float());
    }
    for t in &unsigned_ints {
        assert!(t.is_integer() && t.is_numeric() && !t.is_signed() && !t.is_float());
    }
    for t in &floats {
        assert!(!t.is_integer() && t.is_numeric() && t.is_signed() && t.is_float());
    }
    for t in &others {
        assert!(!t.is_integer() && !t.is_numeric() && !t.is_signed() && !t.is_float());
    }
    let tuple = Type::Tuple(vec![Type::I32]);
    assert!(!tuple.is_integer() && !tuple.is_numeric() && !tuple.is_signed() && !tuple.is_float());
}

#[test]
fn compound_types_render() {
    assert_eq!(Type::Slice(Box::new(Type::U8)).render(), "[u8]");
    assert_eq!(
        Type::Array(
            Box::new(Type::I32),
            Some(Box::new(Expression::Literal(Literal::Integer(4, None))))
        )
        .render(),
        "[i32; 4]"
    );
    assert_eq!(
        Type::Pointer(Box::new(Type::I32), Mutability::Immutable).render(),
        "*const i32"
    );
    assert_eq!(
        Type::Reference(Box::new(Type::I32), Mutability::Immutable).render(),
        "&i32"
    );
    assert_eq!(
        Type::Reference(Box::new(Type::Str), Mutability::Mutable).render(),
        "&mut str"
    );
    assert_eq!(Type::Tuple(vec![]).render(), "()");
    assert_eq!(Type::Tuple(vec![Type::Bool]).render(), "(bool)");
    assert_eq!(
        Type::Function(vec![Type::I32], Box::new(Type::Bool)).render(),
        "fn(i32) -> bool"
    );
    assert_eq!(
        Type::Function(vec![], Box::new(Type::Unit)).render(),
        "fn() -> ()"
    );
    assert_eq!(
        Type::Function(vec![Type::I8, Type::U8, Type::Char], Box::new(Type::Never)).render(),
        "fn(i8, u8, char) -> !"
    );
}

#[test]
fn paths_and_generics_render() {
    let path = Type::Named(TypePath {
        segments: vec![
            segment("std", None),
            segment("collections", None),
            segment("Map", Some(vec![Type::Str, Type::Tuple(vec![Type::I32, Type::F64])])),
        ],
        span: dummy_span(),
    });
    assert_eq!(path.render(), "std::collections::Map<str, (i32, f64)>");
    let one = Type::Named(TypePath { segments: vec![segment("T", None)], span: dummy_span() });
    assert_eq!(one.render(), "T");
    let empty_args =
        Type::Named(TypePath { segments: vec![segment("T", Some(vec![]))], span: dummy_span() });
    assert_eq!(empty_args.render(), "T<>");
    let generic = Type::Generic(
        Box::new(Type::Named(TypePath { segments: vec![segment("Vec", None)], span: dummy_span() })),
        vec![Type::Pointer(Box::new(Type::U8), Mutability::Mutable)],
    );
    assert_eq!(generic.render(), "Vec<*mut u8>");
}

#[test]
fn slice_and_unsized_array_share_a_text() {
    let slice = Type::Slice(Box::new(Type::I32));
    let array = Type::Array(Box::new(Type::I32), None);
    assert_eq!(slice.render(), array.render());
    assert_ne!(slice, array);
}
