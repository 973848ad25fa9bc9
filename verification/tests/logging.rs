use logger_rs::style::{Arrow, DefaultStyle, Style};
use logger_rs::{Console, File, Importance, Logger};

#[test]
fn severity_tags_are_canonical() {
    assert_eq!(Importance::Warn.tag(), "[Warn]");
    assert_eq!(Importance::Debug.tag(), "[Debug]");
    assert_eq!(Importance::Success.tag(), "[Success]");
    assert_eq!(Importance::Fail.tag(), "[Error]");
}

#[test]
fn default_style_plain_lines() {
    let style = DefaultStyle::default().colored(false);
    assert_eq!(style.format(Importance::Warn, "w"), "[Warn]: w");
    assert_eq!(style.format(Importance::Debug, "d"), "[Debug]: d");
    assert_eq!(style.format(Importance::Success, "s"), "[Success]: s");
    assert_eq!(style.format(Importance::Fail, "f"), "[Error]: f");
}

#[test]
fn scenario_default_failure_disk_full() {
    let style = DefaultStyle::default().colored(false);
    assert_eq!(style.format(Importance::Fail, "disk full"), "[Error]: disk full");
}

#[test]
fn scenario_arrow_padding_three_debug_start() {
    let style = Arrow::default().colored(false).padding(3);
    assert_eq!(style.format(Importance::Debug, "start"), "   \u{25b6} start");
}

#[test]
fn default_style_empty_message() {
    let style = DefaultStyle::default().colored(false);
    assert_eq!(style.format(Importance::Debug, ""), "[Debug]: ");
}

#[test]
fn default_style_message_with_bracket() {
    let style = DefaultStyle::default().colored(false);
    assert_eq!(style.format(Importance::Debug, "a[b]c"), "[Debug]: a[b]c");
}

#[test]
fn arrow_never_shows_the_tag() {
    let style = Arrow::default().colored(false).padding(0);
    let out = style.format(Importance::Fail, "quiet");
    assert_eq!(out, "\u{25b6} quiet");
    assert!(!out.contains("[Error]"));
}

#[test]
fn arrow_padding_is_exact() {
    for n in 0..8usize {
        let style = Arrow::default().colored(false).padding(n);
        let out = style.format(Importance::Warn, "m");
        let expected = format!("{}{} m", " ".repeat(n), '\u{25b6}');
        assert_eq!(out, expected);
        assert!(out.chars().take(n).all(|c| c == ' '));
        assert_eq!(out.chars().nth(n), Some('\u{25b6}'));
    }
}

#[test]
fn arrow_empty_message() {
    let style = Arrow::default().colored(false).padding(2);
    assert_eq!(style.format(Importance::Success, ""), "  \u{25b6} ");
}

#[test]
fn coloring_wraps_the_whole_plain_line() {
    colored::control::set_override(true);
    let plain = DefaultStyle::default().colored(false);
    let colored_style = DefaultStyle::default().colored(true);
    let base = plain.format(Importance::Fail, "x");
    assert_eq!(
        colored_style.format(Importance::Fail, "x"),
        format!("\u{1b}[31m{}\u{1b}[0m", base)
    );
    assert_eq!(
        DefaultStyle::default().colored(true).format(Importance::Warn, "x"),
        "\u{1b}[33m[Warn]: x\u{1b}[0m"
    );
    assert_eq!(
        DefaultStyle::default().colored(true).format(Importance::Debug, "x"),
        "\u{1b}[34m[Debug]: x\u{1b}[0m"
    );
    assert_eq!(
        DefaultStyle::default().colored(true).format(Importance::Success, "x"),
        "\u{1b}[32m[Success]: x\u{1b}[0m"
    );
}

#[test]
fn coloring_wraps_arrow_lines_too() {
    colored::control::set_override(true);
    let out = Arrow::default().colored(true).padding(1).format(Importance::Debug, "go");
    assert_eq!(out, "\u{1b}[34m \u{25b6} go\u{1b}[0m");
}

#[test]
fn color_switch_off_leaves_the_plain_line() {
    colored::control::set_override(false);
    let out = DefaultStyle::default().colored(true).format(Importance::Fail, "x");
    assert_eq!(out, "[Error]: x");
}

#[test]
fn date_token_sits_between_tag_and_colon() {
    let style = DefaultStyle::default().date(true).colored(false);
    let before = chrono::Utc::now().date_naive().to_string();
    let out = style.format(Importance::Debug, "hello");
    let after = chrono::Utc::now().date_naive().to_string();
    let expect_before = format!("[Debug] [{}]: hello", before);
    let expect_after = format!("[Debug] [{}]: hello", after);
    assert!(out == expect_before || out == expect_after);
}

#[test]
fn disabling_the_date_leaves_no_residue() {
    let style = DefaultStyle::default().date(true).date(false).colored(false);
    assert_eq!(style.format(Importance::Debug, "hello"), "[Debug]: hello");
}

#[test]
fn console_delivery_reports_success() {
    let logger = Logger::default();
    let style = DefaultStyle::default().colored(false);
    let logger = logger.style(style);
    let r: () = logger.warn("console delivery");
    assert_eq!(r, ());
}

#[test]
fn logger_level_methods_use_their_severity() {
    colored::control::set_override(false);
    let logger = Logger::default().style(DefaultStyle::default());
    logger.fail("f");
    logger.warn("w");
    logger.debug("d");
    logger.success("s");
}

#[test]
fn logger_style_swap_keeps_the_bridge() {
    let logger = Logger::default().style(Arrow::default().colored(false).padding(0));
    let r: () = logger.debug("swapped");
    assert_eq!(r, ());
}

#[test]
fn logger_bridge_swap_changes_the_destination() {
    let logger = Logger::default().bridge(Console::default());
    let r: () = logger.success("still console");
    assert_eq!(r, ());
}

#[test]
fn file_configuration_is_kept() {
    let file = File::new(String::from("log.txt"));
    assert_eq!(file.out, "log.txt");
    assert!(file.append);
    let file = file.append(false);
    assert_eq!(file.out, "log.txt");
    assert!(!file.append);
}

#[test]
fn style_builders_are_immutable_values() {
    let base = DefaultStyle::default();
    assert!(!base.date);
    assert!(base.colored);
    let dated = base.date(true);
    assert!(dated.date);
    assert!(dated.colored);
    let arrow = Arrow::default();
    assert!(arrow.colored);
    assert_eq!(arrow.padding, 5);
    let arrow = arrow.padding(2).colored(false);
    assert_eq!(arrow.padding, 2);
    assert!(!arrow.colored);
}
