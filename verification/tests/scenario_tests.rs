//! The concrete rendering scenarios the library is specified by, and the
//! laws checked on concrete values.
use typeset::{comp, compile, compile_safe_with_depth, grp, nest, pack, render, text,
    CompilerError};

#[test]
fn scenario_simple_padded_wide() {
    let layout = comp(
        text("Hello".to_string()),
        text("World".to_string()),
        true,
        false,
    );
    let doc = compile(layout);
    assert_eq!(render(doc, 2, 80), "Hello World");
}

#[test]
fn scenario_simple_padded_narrow() {
    let layout = comp(
        text("Hello".to_string()),
        text("World".to_string()),
        true,
        false,
    );
    let doc = compile(layout);
    assert_eq!(render(doc, 2, 5), "Hello\nWorld");
}

#[test]
fn scenario_null_elision() {
    let layout = comp(
        typeset::null(),
        text("content".to_string()),
        true,
        false,
    );
    let doc = compile(layout);
    assert_eq!(render(doc, 2, 80), "content");
}

#[test]
fn scenario_forced_newline() {
    let layout = typeset::line(
        text("First line".to_string()),
        text("Second line".to_string()),
    );
    let doc = compile(layout);
    assert_eq!(render(doc, 2, 80), "First line\nSecond line");
}

#[test]
fn scenario_nest_indentation() {
    let layout = comp(
        text("Prefix:".to_string()),
        nest(typeset::line(text("Indented".to_string()), text("text".to_string()))),
        false,
        false,
    );
    let doc = compile(layout);
    let output = render(doc, 2, 80);
    assert!(output.contains("  text"));
}

#[test]
fn scenario_fix_keeps_line() {
    let layout = comp(
        text("breakable".to_string()),
        comp(
            text("a".to_string()),
            typeset::fix(comp(
                text("fixed".to_string()),
                text("content".to_string()),
                true,
                false,
            )),
            false,
            false,
        ),
        false,
        false,
    );
    let doc = compile(layout);
    let output = render(doc, 2, 10);
    assert!(output.contains("fixed content"));
}

#[test]
fn scenario_seq_cascade() {
    let layout = typeset::seq(comp(
        comp(
            text("item1".to_string()),
            text("item2".to_string()),
            false,
            false,
        ),
        text("item3".to_string()),
        false,
        false,
    ));
    let doc = compile(layout);
    let output = render(doc, 2, 10);
    let lines: Vec<&str> = output.split('\n').collect();
    assert!(lines.len() >= 2);
}

#[test]
fn scenario_pack_alignment_columns() {
    let layout = comp(
        text("Start".to_string()),
        pack(comp(
            comp(
                text("first".to_string()),
                text("second".to_string()),
                false,
                false,
            ),
            text("third".to_string()),
            false,
            false,
        )),
        true,
        false,
    );
    let doc = compile(layout);
    let output = render(doc, 2, 20);
    if output.contains('\n') {
        let lines: Vec<&str> = output.split('\n').collect();
        if lines.len() >= 3 {
            let second_indent = lines[1].len() - lines[1].trim_start().len();
            let third_indent = lines[2].len() - lines[2].trim_start().len();
            assert_eq!(second_indent, third_indent);
        }
    }
}

#[test]
fn wide_width_never_breaks_soft_compositions() {
    let mut layout = text("alpha".to_string());
    for word in ["beta", "gamma", "delta", "epsilon"] {
        layout = comp(layout, text(word.to_string()), true, false);
    }
    let doc = compile(layout);
    let output = render(doc, 2, 100000);
    assert!(!output.contains('\n'));
    assert_eq!(output, "alpha beta gamma delta epsilon");
}

#[test]
fn grp_around_whole_layout_changes_nothing() {
    let base = comp(
        text("left".to_string()),
        comp(
            text("mid".to_string()),
            text("right".to_string()),
            true,
            false,
        ),
        true,
        false,
    );
    for width in [4usize, 9, 12, 80] {
        let plain = render(compile(base.clone()), 2, width);
        let grouped = render(compile(grp(base.clone())), 2, width);
        assert_eq!(plain, grouped);
    }
}

#[test]
fn null_identity_on_either_side() {
    let x = comp(
        text("alpha".to_string()),
        text("beta".to_string()),
        true,
        false,
    );
    for width in [3usize, 8, 80] {
        let plain = render(compile(x.clone()), 2, width);
        for pad in [false, true] {
            for fix_flag in [false, true] {
                let left_null = comp(typeset::null(), x.clone(), pad, fix_flag);
                let right_null = comp(x.clone(), typeset::null(), pad, fix_flag);
                assert_eq!(render(compile(left_null), 2, width), plain);
                assert_eq!(render(compile(right_null), 2, width), plain);
            }
        }
    }
}

#[test]
fn fix_everywhere_keeps_one_line() {
    let layout = typeset::fix(comp(
        comp(
            text("one".to_string()),
            text("two".to_string()),
            true,
            true,
        ),
        text("three".to_string()),
        true,
        true,
    ));
    let doc = compile(layout);
    let output = render(doc, 2, 3);
    assert!(!output.contains('\n'));
    assert_eq!(output, "one two three");
}

#[test]
fn stack_overflow_error_reports_depths() {
    let mut layout = text("base".to_string());
    for _ in 0..10 {
        layout = nest(layout);
    }
    let result = compile_safe_with_depth(layout, 5);
    match result {
        Err(CompilerError::StackOverflow { depth, max_depth }) => {
            assert_eq!(depth, 11);
            assert_eq!(max_depth, 5);
        }
        other => panic!("expected a stack overflow, got {:?}", other),
    }
}

#[test]
fn newline_and_blank_line_render_exactly() {
    assert_eq!(render(compile(typeset::newline()), 2, 80), "\n");
    assert_eq!(render(compile(typeset::blank_line()), 2, 80), "\n\n");
}

#[test]
fn zero_tab_means_no_indentation() {
    let layout = comp(
        text("Prefix:".to_string()),
        nest(typeset::line(text("Indented".to_string()), text("text".to_string()))),
        false,
        false,
    );
    let doc = compile(layout);
    let output = render(doc, 0, 80);
    assert!(output.contains("\ntext"));
}
