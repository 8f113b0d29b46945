//! Tests of the compilation entry points.
use typeset::{comp, compile, compile_safe, compile_safe_with_depth, grp, nest, render, text,
    CompilerError};

#[test]
fn test_compile_simple_text() {
    let layout = text("hello".to_string());
    let result = compile_safe(layout);
    assert!(result.is_ok());
}

#[test]
fn test_compile_safe_with_zero_depth() {
    let layout = text("hello".to_string());
    let result = compile_safe_with_depth(layout, 0);
    assert!(matches!(result, Err(CompilerError::InvalidInput(_))));
}

#[test]
fn test_compile_complex_layout() {
    let left = text("hello".to_string());
    let right = text("world".to_string());
    let layout = comp(left, right, true, false);
    let result = compile_safe(layout);
    assert!(result.is_ok());
}

#[test]
fn test_compile_nested_layout() {
    let inner = text("content".to_string());
    let nested = nest(inner);
    let grouped = grp(nested);
    let result = compile_safe(grouped);
    assert!(result.is_ok());
}

#[test]
fn test_render_compiled_doc() {
    let layout = text("test".to_string());
    let doc = compile(layout);
    let output = render(doc, 4, 80);
    assert!(!output.is_empty());
}

#[test]
fn error_descriptions_name_the_failure() {
    let invalid = compile_safe_with_depth(text("x".to_string()), 0).unwrap_err();
    assert!(invalid.describe().contains("invalid input"));

    let mut deep = text("base".to_string());
    for _ in 0..3 {
        deep = nest(deep);
    }
    let overflow = compile_safe_with_depth(deep, 2).unwrap_err();
    assert!(overflow.describe().contains("stack overflow"));
}

#[test]
fn layout_depth_counts_nesting() {
    assert_eq!(typeset::layout_depth(&typeset::Layout::Null), 1);
    let l = nest(grp(text("x".to_string())));
    assert_eq!(typeset::layout_depth(&l), 3);
}
