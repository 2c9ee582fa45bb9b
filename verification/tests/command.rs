use rdg::app::PreviewPane;
use rdg::command::{parse, Command, ThemeCommand};

#[test]
fn parses_quit_aliases() {
    assert_eq!(parse(":q"), Command::Quit { force: false });
    assert_eq!(parse(":quit!"), Command::Quit { force: true });
    assert_eq!(parse("\\q"), Command::Quit { force: false });
}

#[test]
fn parses_theme_aliases() {
    assert_eq!(parse(":theme safe"), Command::Theme(ThemeCommand::Safe));
    assert_eq!(parse(":theme unsafe"), Command::Theme(ThemeCommand::Danger));
}

#[test]
fn parses_deploy_commands() {
    assert_eq!(parse(":diff"), Command::Diff);
    assert_eq!(parse(":run"), Command::Deploy);
    assert_eq!(parse(":deploy"), Command::Deploy);
}

#[test]
fn parses_view_commands() {
    assert_eq!(parse(":selected"), Command::SelectedOnly);
    assert_eq!(parse(":tree"), Command::Tree);
    assert_eq!(parse(":focus rsync"), Command::Focus(PreviewPane::Rsync));
}

#[test]
fn parse_ignores_surrounding_white_space() {
    assert_eq!(parse("  :help \t"), Command::Help);
    assert_eq!(parse("   "), Command::Empty);
    assert_eq!(parse(" : "), Command::Empty);
    assert_eq!(parse(":   "), Command::Empty);
}

#[test]
fn parse_reports_unknown_input() {
    assert_eq!(parse("help"), Command::Unknown(String::from("help")));
    assert_eq!(parse(":bogus arg"), Command::Unknown(String::from("bogus")));
    assert_eq!(
        parse(":theme plaid"),
        Command::Unknown(String::from("unknown theme `plaid`"))
    );
    assert_eq!(parse(":focus"), Command::Unknown(String::from("focus")));
    assert_eq!(parse(":focus nowhere"), Command::Unknown(String::from("focus")));
}

#[test]
fn parse_theme_defaults_to_neutral() {
    assert_eq!(parse(":theme"), Command::Theme(ThemeCommand::Neutral));
    assert_eq!(parse(":theme   red  extra"), Command::Theme(ThemeCommand::Danger));
    assert_eq!(parse(":theme green"), Command::Theme(ThemeCommand::Safe));
}

#[test]
fn parse_covers_every_alias() {
    assert_eq!(parse(":exit"), Command::Quit { force: false });
    assert_eq!(parse(":q!"), Command::Quit { force: true });
    assert_eq!(parse(":exit!"), Command::Quit { force: true });
    assert_eq!(parse(":?"), Command::Help);
    assert_eq!(parse(":reload"), Command::Refresh);
    assert_eq!(parse(":refresh"), Command::Refresh);
    assert_eq!(parse(":dry-run"), Command::Diff);
    assert_eq!(parse(":toggle"), Command::Select);
    assert_eq!(parse(":select"), Command::Select);
    assert_eq!(parse(":all"), Command::SelectAll);
    assert_eq!(parse(":select-all"), Command::SelectAll);
    assert_eq!(parse(":selected-only"), Command::SelectedOnly);
    assert_eq!(parse(":repository"), Command::Tree);
    assert_eq!(parse(":expand"), Command::Expand);
    assert_eq!(parse(":collapse"), Command::Collapse);
    assert_eq!(parse(":focus files"), Command::Focus(PreviewPane::Repository));
    assert_eq!(parse(":focus destination"), Command::Focus(PreviewPane::Content));
    assert_eq!(parse(":focus git"), Command::Focus(PreviewPane::Git));
    assert_eq!(parse(":focus status"), Command::Focus(PreviewPane::Rsync));
}

#[test]
fn focus_with_each_pane_label_focuses_that_pane() {
    for pane in [PreviewPane::Repository, PreviewPane::Content, PreviewPane::Git, PreviewPane::Rsync] {
        assert_eq!(parse(&format!(":focus {}", pane.label())), Command::Focus(pane));
    }
}
