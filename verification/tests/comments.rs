use doc_printer::jsdoc::render_comment;
use doc_printer::printer::TerminalPrinter;

#[test]
fn truncated_comment_shows_first_paragraph_only() {
    let printer = TerminalPrinter::new();
    assert_eq!(printer.print_jsdoc("Para one.\n\nPara two.", true, 0), "  Para one.\n");
}

#[test]
fn full_comment_shows_every_paragraph_on_its_own_line() {
    let printer = TerminalPrinter::new();
    assert_eq!(
        printer.print_jsdoc("Para one.\n\nPara two.", false, 0),
        "  Para one.\n  Para two.\n"
    );
}

#[test]
fn single_newlines_become_spaces() {
    let printer = TerminalPrinter::new();
    assert_eq!(
        printer.print_jsdoc("one\ntwo\nthree\n\nfour\nfive", false, 1),
        "    one two three\n    four five\n"
    );
}

#[test]
fn empty_comment_is_one_blank_indented_line() {
    let printer = TerminalPrinter::new();
    assert_eq!(printer.print_jsdoc("", true, 0), "  \n");
    assert_eq!(printer.print_jsdoc("", false, 0), "  \n");
    assert_eq!(printer.print_jsdoc("", true, 2), "      \n");
}

#[test]
fn whitespace_comment_is_kept() {
    let printer = TerminalPrinter::new();
    assert_eq!(printer.print_jsdoc("   ", true, 0), "     \n");
    assert_eq!(printer.print_jsdoc("\n", true, 0), "   \n");
}

#[test]
fn breaks_are_found_from_left_to_right() {
    assert_eq!(render_comment("a\n\n\nb", false, ">"), ">a\n> b\n");
    assert_eq!(render_comment("a\n\n\n\nb", false, ">"), ">a\n>\n>b\n");
    assert_eq!(render_comment("\n\na", false, ">"), ">\n>a\n");
    assert_eq!(render_comment("a\n\n", false, ">"), ">a\n>\n");
    assert_eq!(render_comment("a\n\n", true, ">"), ">a\n");
    assert_eq!(render_comment("\n\n\n", false, ">"), ">\n> \n");
}

#[test]
fn paragraphs_agree_with_std_split() {
    let comments = vec![
        "",
        "a",
        "\n",
        "\n\n",
        "\n\n\n",
        "\n\n\n\n",
        "first\n\nsecond\n\nthird",
        "first\nline\n\nsecond\n\n\nthird\n",
        "caf\u{e9}\n\n\u{4e2d}\u{6587}\nmore",
    ];
    for comment in comments {
        let mut expected_full = String::new();
        for paragraph in comment.split("\n\n") {
            expected_full.push_str("..");
            expected_full.push_str(&paragraph.replace("\n", " "));
            expected_full.push('\n');
        }
        let first = comment.split("\n\n").next().unwrap_or("").replace("\n", " ");
        assert_eq!(render_comment(comment, false, ".."), expected_full);
        assert_eq!(render_comment(comment, true, ".."), format!("..{}\n", first));
    }
}

#[test]
fn comment_below_depth_zero_is_not_indented() {
    let printer = TerminalPrinter::new();
    assert_eq!(printer.print_jsdoc("text", true, -1), "text\n");
    assert_eq!(printer.print_jsdoc("text", true, -5), "text\n");
    assert_eq!(printer.print_jsdoc("text", true, i64::MIN), "text\n");
}

#[test]
fn indentation_is_two_spaces_for_each_level() {
    let printer = TerminalPrinter::new();
    assert_eq!(printer.print_indent(0), "");
    assert_eq!(printer.print_indent(1), "  ");
    assert_eq!(printer.print_indent(3), "      ");
    assert_eq!(printer.print_indent(-2), "");
}
