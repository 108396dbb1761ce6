use frel_compiler_core::semantic::symbol::SymbolId;
use frel_compiler_core::semantic::types::Type;

#[test]
fn test_type_predicates() {
    // Integer types
    assert!(Type::I32.is_primitive());
    assert!(Type::I32.is_numeric());
    assert!(Type::I32.is_integer());
    assert!(Type::I32.is_signed_integer());
    assert!(!Type::I32.is_unsigned_integer());
    assert!(!Type::I32.is_float());

    // Unsigned integers
    assert!(Type::U64.is_integer());
    assert!(Type::U64.is_unsigned_integer());
    assert!(!Type::U64.is_signed_integer());

    // Float types
    assert!(Type::F64.is_float());
    assert!(Type::F64.is_numeric());
    assert!(!Type::F64.is_integer());

    // Decimal
    assert!(Type::Decimal.is_numeric());
    assert!(!Type::Decimal.is_integer());
    assert!(!Type::Decimal.is_float());

    // Text types
    assert!(Type::String.is_text());
    assert!(Type::Secret.is_text());

    // Temporal types
    assert!(Type::Instant.is_temporal());
    assert!(Type::LocalDate.is_temporal());
    assert!(Type::Duration.is_temporal());
    assert!(!Type::String.is_temporal());

    // Type modifiers
    assert!(Type::Nullable(Box::new(Type::I32)).is_nullable());
    assert!(Type::Draft(Box::new(Type::String)).is_draft());
    assert!(Type::Ref(Box::new(Type::Scheme(SymbolId(0)))).is_ref());

    // Collections
    assert!(Type::List(Box::new(Type::I32)).is_collection());
    assert!(Type::SetOf(Box::new(Type::String)).is_collection());
    assert!(Type::MapOf(Box::new(Type::String), Box::new(Type::I32)).is_collection());

    // Composites
    assert!(Type::Scheme(SymbolId(0)).is_composite());
    assert!(Type::Backend(SymbolId(0)).is_composite());

    // Intrinsic check
    assert!(Type::Uuid.is_intrinsic());
    assert!(Type::Graphics.is_intrinsic());
    assert!(Type::Blob.is_intrinsic());
    assert!(!Type::Scheme(SymbolId(0)).is_intrinsic());
}

#[test]
fn test_base_type() {
    let nested = Type::Nullable(Box::new(Type::Draft(Box::new(Type::Ref(Box::new(Type::Scheme(SymbolId(5))))))));

    assert_eq!(*nested.base_type(), Type::Scheme(SymbolId(5)));
}

#[test]
fn types_test_type_display() {
    assert_eq!(Type::I32.to_string(), "i32");
    assert_eq!(Type::U8.to_string(), "u8");
    assert_eq!(Type::Decimal.to_string(), "Decimal");
    assert_eq!(Type::String.to_string(), "String");
    assert_eq!(Type::Secret.to_string(), "Secret");
    assert_eq!(Type::Uuid.to_string(), "Uuid");
    assert_eq!(Type::Instant.to_string(), "Instant");
    assert_eq!(Type::LocalDateTime.to_string(), "LocalDateTime");
    assert_eq!(Type::Duration.to_string(), "Duration");
    assert_eq!(Type::Nullable(Box::new(Type::String)).to_string(), "String?");
    assert_eq!(Type::List(Box::new(Type::I32)).to_string(), "[i32]");
    assert_eq!(
        Type::Function { params: vec![Type::I32, Type::String], ret: Box::new(Type::Bool) }.to_string(),
        "fn(i32, String) -> bool"
    );
}

#[test]
fn typecheck_test_type_display() {
    // Verify our new types display correctly
    assert_eq!(Type::Uuid.to_string(), "Uuid");
    assert_eq!(Type::Instant.to_string(), "Instant");
    assert_eq!(Type::Duration.to_string(), "Duration");
    assert_eq!(Type::Secret.to_string(), "Secret");
}

#[test]
fn mod_test_type_display() {
    // Verify our new types display correctly
    assert_eq!(Type::Uuid.to_string(), "Uuid");
    assert_eq!(Type::Instant.to_string(), "Instant");
    assert_eq!(Type::Duration.to_string(), "Duration");
    assert_eq!(Type::Secret.to_string(), "Secret");
}

#[test]
fn test_from_intrinsic_name() {
    // Lowercase types
    assert_eq!(Type::from_intrinsic_name("i32"), Some(Type::I32));
    assert_eq!(Type::from_intrinsic_name("u64"), Some(Type::U64));
    assert_eq!(Type::from_intrinsic_name("f32"), Some(Type::F32));
    assert_eq!(Type::from_intrinsic_name("bool"), Some(Type::Bool));

    // PascalCase types
    assert_eq!(Type::from_intrinsic_name("String"), Some(Type::String));
    assert_eq!(Type::from_intrinsic_name("Decimal"), Some(Type::Decimal));
    assert_eq!(Type::from_intrinsic_name("Uuid"), Some(Type::Uuid));
    assert_eq!(Type::from_intrinsic_name("Instant"), Some(Type::Instant));
    assert_eq!(Type::from_intrinsic_name("LocalDate"), Some(Type::LocalDate));
    assert_eq!(Type::from_intrinsic_name("Duration"), Some(Type::Duration));
    assert_eq!(Type::from_intrinsic_name("Graphics"), Some(Type::Graphics));
    assert_eq!(Type::from_intrinsic_name("Blob"), Some(Type::Blob));
    assert_eq!(Type::from_intrinsic_name("Secret"), Some(Type::Secret));

    // Unknown type
    assert_eq!(Type::from_intrinsic_name("unknown"), None);
    assert_eq!(Type::from_intrinsic_name("MyScheme"), None);

    // Case sensitivity
    assert_eq!(Type::from_intrinsic_name("string"), None); // Must be "String"
    assert_eq!(Type::from_intrinsic_name("I32"), None); // Must be "i32"
}

#[test]
fn test_intrinsic_type_names() {
    let names = Type::intrinsic_type_names();
    assert!(names.contains(&"i32"));
    assert!(names.contains(&"String"));
    assert!(names.contains(&"Uuid"));
    assert!(names.contains(&"Duration"));
    assert_eq!(names.len(), 26); // Total intrinsic types
}

#[test]
fn test_make_nullable() {
    let t = Type::I32;
    let nullable = t.make_nullable();
    assert!(nullable.is_nullable());

    // Should not double-wrap
    let double = nullable.make_nullable();
    assert!(matches!(double, Type::Nullable(_)));
    if let Type::Nullable(inner) = double {
        assert!(!inner.is_nullable());
    }
}

#[test]
fn test_intrinsic_names_round_trip() {
    for name in Type::intrinsic_type_names() {
        let t = Type::from_intrinsic_name(name).unwrap();
        assert_eq!(t.to_string(), name);
    }
    assert!(Type::from_intrinsic_name("List").is_none());
}
