//! The `:` command line: parsing what the user typed into a command.

use vstd::prelude::*;

use crate::app::PreviewPane;
use crate::text::{
    chars_of, eq_str, has_prefix, is_ws, split_whitespace, starts_with, string_from_chars, sub_chars,
    trim, trim_chars, trim_end, trim_start, word_len, words,
};

verus! {

/// The themes that `:theme` selects.
#[derive(Debug, Clone, Copy, PartialEq, Eq, Structural)]
pub enum ThemeCommand {
    Neutral,
    Safe,
    Danger,
}

/// A parsed command.
#[derive(Debug, Clone, PartialEq, Eq)]
pub enum Command {
    Quit { force: bool },
    Help,
    Theme(ThemeCommand),
    Refresh,
    Diff,
    Deploy,
    Select,
    SelectAll,
    SelectedOnly,
    Tree,
    Focus(PreviewPane),
    Expand,
    Collapse,
    Unknown(String),
    Empty,
}

/// The mathematical value of a `Command`: the same, with `Unknown` holding
/// a character sequence.
pub enum CommandView {
    Quit { force: bool },
    Help,
    Theme(ThemeCommand),
    Refresh,
    Diff,
    Deploy,
    Select,
    SelectAll,
    SelectedOnly,
    Tree,
    Focus(PreviewPane),
    Expand,
    Collapse,
    Unknown(Seq<char>),
    Empty,
}

impl View for Command {
    type V = CommandView;

    open spec fn view(&self) -> CommandView {
        match self {
            Command::Quit { force } => CommandView::Quit { force: *force },
            Command::Help => CommandView::Help,
            Command::Theme(t) => CommandView::Theme(*t),
            Command::Refresh => CommandView::Refresh,
            Command::Diff => CommandView::Diff,
            Command::Deploy => CommandView::Deploy,
            Command::Select => CommandView::Select,
            Command::SelectAll => CommandView::SelectAll,
            Command::SelectedOnly => CommandView::SelectedOnly,
            Command::Tree => CommandView::Tree,
            Command::Focus(p) => CommandView::Focus(*p),
            Command::Expand => CommandView::Expand,
            Command::Collapse => CommandView::Collapse,
            Command::Unknown(s) => CommandView::Unknown(s@),
            Command::Empty => CommandView::Empty,
        }
    }
}

/// What `:theme` with the optional argument `arg` means.
pub open spec fn theme_command(arg: Option<Seq<char>>) -> CommandView {
    match arg {
        None => CommandView::Theme(ThemeCommand::Neutral),
        Some(v) => if v == "neutral"@ {
            CommandView::Theme(ThemeCommand::Neutral)
        } else if v == "safe"@ || v == "green"@ {
            CommandView::Theme(ThemeCommand::Safe)
        } else if v == "danger"@ || v == "red"@ || v == "unsafe"@ {
            CommandView::Theme(ThemeCommand::Danger)
        } else {
            CommandView::Unknown("unknown theme `"@ + v + "`"@)
        },
    }
}

/// What `:focus` with the optional argument `arg` means.
pub open spec fn focus_command(arg: Option<Seq<char>>) -> CommandView {
    match arg {
        Some(v) => if v == "repo"@ || v == "repository"@ || v == "files"@ {
            CommandView::Focus(PreviewPane::Repository)
        } else if v == "content"@ || v == "destination"@ {
            CommandView::Focus(PreviewPane::Content)
        } else if v == "git"@ {
            CommandView::Focus(PreviewPane::Git)
        } else if v == "rsync"@ || v == "status"@ {
            CommandView::Focus(PreviewPane::Rsync)
        } else {
            CommandView::Unknown("focus"@)
        },
        None => CommandView::Unknown("focus"@),
    }
}

/// What the command word `name`, followed by the optional word `arg`, means.
pub open spec fn named_command(name: Seq<char>, arg: Option<Seq<char>>) -> CommandView {
    if name == "q"@ || name == "quit"@ || name == "exit"@ {
        CommandView::Quit { force: false }
    } else if name == "q!"@ || name == "quit!"@ || name == "exit!"@ {
        CommandView::Quit { force: true }
    } else if name == "help"@ || name == "?"@ {
        CommandView::Help
    } else if name == "theme"@ {
        theme_command(arg)
    } else if name == "refresh"@ || name == "reload"@ {
        CommandView::Refresh
    } else if name == "diff"@ || name == "dry-run"@ {
        CommandView::Diff
    } else if name == "run"@ || name == "deploy"@ {
        CommandView::Deploy
    } else if name == "select"@ || name == "toggle"@ {
        CommandView::Select
    } else if name == "all"@ || name == "select-all"@ {
        CommandView::SelectAll
    } else if name == "selected"@ || name == "selected-only"@ {
        CommandView::SelectedOnly
    } else if name == "tree"@ || name == "repository"@ {
        CommandView::Tree
    } else if name == "expand"@ {
        CommandView::Expand
    } else if name == "collapse"@ {
        CommandView::Collapse
    } else if name == "focus"@ {
        focus_command(arg)
    } else {
        CommandView::Unknown(name)
    }
}

/// The command that the text `input` spells.
pub open spec fn parse_spec(input: Seq<char>) -> CommandView {
    let t = trim(input);
    if t.len() == 0 || t == ":"@ {
        CommandView::Empty
    } else if t == "\\q"@ {
        CommandView::Quit { force: false }
    } else if !starts_with(t, ":"@) {
        CommandView::Unknown(t)
    } else {
        let ws = words(t.skip(":"@.len() as int));
        if ws.len() == 0 {
            CommandView::Empty
        } else {
            named_command(ws[0], if ws.len() > 1 { Some(ws[1]) } else { None })
        }
    }
}

fn theme_from(arg: Option<&Vec<char>>) -> (c: Command)
    ensures
        c@ == theme_command(
            match arg {
                Some(v) => Some(v@),
                None => None,
            },
        ),
{
    match arg {
        None => Command::Theme(ThemeCommand::Neutral),
        Some(v) => {
            if eq_str(v, "neutral") {
                Command::Theme(ThemeCommand::Neutral)
            } else if eq_str(v, "safe") || eq_str(v, "green") {
                Command::Theme(ThemeCommand::Safe)
            } else if eq_str(v, "danger") || eq_str(v, "red") || eq_str(v, "unsafe") {
                Command::Theme(ThemeCommand::Danger)
            } else {
                let mut s = String::new();
                s.append("unknown theme `");
                let vs = string_from_chars(v);
                s.append(vs.as_str());
                s.append("`");
                Command::Unknown(s)
            }
        },
    }
}

fn focus_from(arg: Option<&Vec<char>>) -> (c: Command)
    ensures
        c@ == focus_command(
            match arg {
                Some(v) => Some(v@),
                None => None,
            },
        ),
{
    match arg {
        Some(v) => {
            if eq_str(v, "repo") || eq_str(v, "repository") || eq_str(v, "files") {
                Command::Focus(PreviewPane::Repository)
            } else if eq_str(v, "content") || eq_str(v, "destination") {
                Command::Focus(PreviewPane::Content)
            } else if eq_str(v, "git") {
                Command::Focus(PreviewPane::Git)
            } else if eq_str(v, "rsync") || eq_str(v, "status") {
                Command::Focus(PreviewPane::Rsync)
            } else {
                Command::Unknown(String::from_str("focus"))
            }
        },
        None => Command::Unknown(String::from_str("focus")),
    }
}

fn named(name: &Vec<char>, arg: Option<&Vec<char>>) -> (c: Command)
    ensures
        c@ == named_command(
            name@,
            match arg {
                Some(v) => Some(v@),
                None => None,
            },
        ),
{
    if eq_str(name, "q") || eq_str(name, "quit") || eq_str(name, "exit") {
        Command::Quit { force: false }
    } else if eq_str(name, "q!") || eq_str(name, "quit!") || eq_str(name, "exit!") {
        Command::Quit { force: true }
    } else if eq_str(name, "help") || eq_str(name, "?") {
        Command::Help
    } else if eq_str(name, "theme") {
        theme_from(arg)
    } else if eq_str(name, "refresh") || eq_str(name, "reload") {
        Command::Refresh
    } else if eq_str(name, "diff") || eq_str(name, "dry-run") {
        Command::Diff
    } else if eq_str(name, "run") || eq_str(name, "deploy") {
        Command::Deploy
    } else if eq_str(name, "select") || eq_str(name, "toggle") {
        Command::Select
    } else if eq_str(name, "all") || eq_str(name, "select-all") {
        Command::SelectAll
    } else if eq_str(name, "selected") || eq_str(name, "selected-only") {
        Command::SelectedOnly
    } else if eq_str(name, "tree") || eq_str(name, "repository") {
        Command::Tree
    } else if eq_str(name, "expand") {
        Command::Expand
    } else if eq_str(name, "collapse") {
        Command::Collapse
    } else if eq_str(name, "focus") {
        focus_from(arg)
    } else {
        Command::Unknown(string_from_chars(name))
    }
}

/// Parses a command line. Surrounding white space is ignored; commands start
/// with `:`, except the alias `\q`.
pub fn parse(input: &str) -> (c: Command)
    ensures
        c@ == parse_spec(input@),
{
    let raw = chars_of(input);
    let t = trim_chars(&raw);
    if t.len() == 0 || eq_str(&t, ":") {
        return Command::Empty;
    }
    if eq_str(&t, "\\q") {
        return Command::Quit { force: false };
    }
    let colon = chars_of(":");
    if !has_prefix(&t, &colon) {
        return Command::Unknown(string_from_chars(&t));
    }
    let rest = sub_chars(&t, colon.len(), t.len());
    assert(rest@ == t@.skip(":"@.len() as int));
    let ws = split_whitespace(&rest);
    if ws.len() == 0 {
        return Command::Empty;
    }
    assert(ws@[0]@ == words(rest@)[0]);
    if ws.len() > 1 {
        assert(ws@[1]@ == words(rest@)[1]);
        named(&ws[0], Some(&ws[1]))
    } else {
        named(&ws[0], None)
    }
}

/// White space around a command line changes nothing.
pub proof fn lemma_parse_ignores_surrounding_space(input: Seq<char>)
    ensures
        parse_spec(trim(input)) == parse_spec(input),
{
    crate::text::lemma_trim_idempotent(input);
}

/// `s` holds no white space.
pub open spec fn no_ws(s: Seq<char>) -> bool {
    forall|i: int| 0 <= i < s.len() ==> !is_ws(#[trigger] s[i])
}

proof fn lemma_word_len_of(a: Seq<char>, rest: Seq<char>)
    requires
        no_ws(a),
        rest.len() == 0 || is_ws(rest[0]),
    ensures
        word_len(a + rest) == a.len(),
    decreases a.len(),
{
    if a.len() == 0 {
        assert(a + rest =~= rest);
    } else {
        assert((a + rest).drop_first() =~= a.drop_first() + rest);
        assert(!is_ws(a[0]));
        lemma_word_len_of(a.drop_first(), rest);
    }
}

/// Two words with a space between them split into those two words.
proof fn lemma_two_words(a: Seq<char>, b: Seq<char>)
    requires
        a.len() > 0,
        b.len() > 0,
        no_ws(a),
        no_ws(b),
    ensures
        words(a + " "@ + b) == seq![a, b],
{
    reveal_strlit(" ");
    let s = a + " "@ + b;
    let rest = " "@ + b;
    assert(s =~= a + rest);
    lemma_word_len_of(a, rest);
    assert(!is_ws(s[0]));
    assert(s.take(a.len() as int) =~= a);
    assert(s.skip(a.len() as int) =~= rest);
    assert(rest.drop_first() =~= b);
    lemma_word_len_of(b, Seq::<char>::empty());
    assert(b + Seq::<char>::empty() =~= b);
    assert(!is_ws(b[0]));
    assert(b.take(b.len() as int) =~= b);
    assert(b.skip(b.len() as int) =~= Seq::<char>::empty());
    assert(words(b.skip(b.len() as int)) == Seq::<Seq<char>>::empty());
    assert(words(b) =~= seq![b]);
    assert(words(s) =~= seq![a] + words(rest));
    assert(words(rest) == words(b));
}

/// `:focus` followed by a pane's label focuses that pane.
pub proof fn lemma_focus_label_round_trip(p: PreviewPane)
    ensures
        parse_spec(":focus "@ + p.label_spec()@) == CommandView::Focus(p),
{
    reveal_strlit(":focus ");
    reveal_strlit(":");
    reveal_strlit("focus");
    reveal_strlit(" ");
    reveal_strlit("repository");
    reveal_strlit("content");
    reveal_strlit("git");
    reveal_strlit("rsync");
    let l = p.label_spec()@;
    let s = ":focus "@ + l;
    assert(l.len() > 0);
    assert(no_ws(l));
    assert(no_ws("focus"@));
    assert(!is_ws(s[0]));
    assert(trim_start(s) == s);
    assert(s.last() == l.last());
    assert(trim_end(s) == s);
    assert(trim(s) == s);
    assert(s != ":"@);
    assert(s.take(1) =~= ":"@);
    assert(s.skip(1) =~= "focus"@ + " "@ + l);
    lemma_two_words("focus"@, l);
    reveal_strlit("\\q");
    assert(s != "\\q"@);
    assert(starts_with(s, ":"@));
    assert(words(s.skip(":"@.len() as int)) == seq!["focus"@, l]);
    reveal_strlit("q");
    reveal_strlit("quit");
    reveal_strlit("exit");
    reveal_strlit("q!");
    reveal_strlit("quit!");
    reveal_strlit("exit!");
    reveal_strlit("help");
    reveal_strlit("?");
    reveal_strlit("theme");
    reveal_strlit("refresh");
    reveal_strlit("reload");
    reveal_strlit("diff");
    reveal_strlit("dry-run");
    reveal_strlit("run");
    reveal_strlit("deploy");
    reveal_strlit("select");
    reveal_strlit("toggle");
    reveal_strlit("all");
    reveal_strlit("select-all");
    reveal_strlit("selected");
    reveal_strlit("selected-only");
    reveal_strlit("tree");
    reveal_strlit("repository");
    reveal_strlit("expand");
    reveal_strlit("collapse");
    reveal_strlit("repo");
    reveal_strlit("files");
    reveal_strlit("destination");
    reveal_strlit("status");
    assert(named_command("focus"@, Some(l)) == focus_command(Some(l)));
    assert(focus_command(Some(l)) == CommandView::Focus(p));
}

/// The word after `:` on a command line, and the one after it, if any.
pub open spec fn command_words(input: Seq<char>) -> Seq<Seq<char>> {
    words(trim(input).skip(1))
}

/// Each command's names: a `:` line whose first word is one of them means
/// that command, whatever follows (and `:theme`, `:focus` read the next
/// word).
pub proof fn lemma_command_aliases(input: Seq<char>)
    requires
        starts_with(trim(input), ":"@),
        command_words(input).len() > 0,
    ensures
        ({
            let ws = command_words(input);
            let name = ws[0];
            let arg = if ws.len() > 1 {
                Some(ws[1])
            } else {
                None
            };
            &&& (name == "q"@ || name == "quit"@ || name == "exit"@) ==> parse_spec(input)
                == CommandView::Quit { force: false }
            &&& (name == "q!"@ || name == "quit!"@ || name == "exit!"@) ==> parse_spec(input)
                == CommandView::Quit { force: true }
            &&& (name == "help"@ || name == "?"@) ==> parse_spec(input) == CommandView::Help
            &&& (name == "refresh"@ || name == "reload"@) ==> parse_spec(input)
                == CommandView::Refresh
            &&& (name == "diff"@ || name == "dry-run"@) ==> parse_spec(input) == CommandView::Diff
            &&& (name == "run"@ || name == "deploy"@) ==> parse_spec(input) == CommandView::Deploy
            &&& (name == "select"@ || name == "toggle"@) ==> parse_spec(input)
                == CommandView::Select
            &&& (name == "all"@ || name == "select-all"@) ==> parse_spec(input)
                == CommandView::SelectAll
            &&& (name == "selected"@ || name == "selected-only"@) ==> parse_spec(input)
                == CommandView::SelectedOnly
            &&& (name == "tree"@ || name == "repository"@) ==> parse_spec(input)
                == CommandView::Tree
            &&& name == "expand"@ ==> parse_spec(input) == CommandView::Expand
            &&& name == "collapse"@ ==> parse_spec(input) == CommandView::Collapse
            &&& name == "theme"@ ==> (arg is None || arg == Some("neutral"@)) ==> parse_spec(input)
                == CommandView::Theme(ThemeCommand::Neutral)
            &&& name == "theme"@ ==> (arg == Some("safe"@) || arg == Some("green"@)) ==> parse_spec(
                input,
            ) == CommandView::Theme(ThemeCommand::Safe)
            &&& name == "theme"@ ==> (arg == Some("danger"@) || arg == Some("red"@) || arg == Some(
                "unsafe"@,
            )) ==> parse_spec(input) == CommandView::Theme(ThemeCommand::Danger)
            &&& name == "focus"@ ==> (arg == Some("repo"@) || arg == Some("repository"@) || arg
                == Some("files"@)) ==> parse_spec(input) == CommandView::Focus(
                PreviewPane::Repository,
            )
            &&& name == "focus"@ ==> (arg == Some("content"@) || arg == Some("destination"@))
                ==> parse_spec(input) == CommandView::Focus(PreviewPane::Content)
            &&& name == "focus"@ ==> arg == Some("git"@) ==> parse_spec(input) == CommandView::Focus(
                PreviewPane::Git,
            )
            &&& name == "focus"@ ==> (arg == Some("rsync"@) || arg == Some("status"@)) ==> parse_spec(
                input,
            ) == CommandView::Focus(PreviewPane::Rsync)
        }),
{
    reveal_strlit("q");
    reveal_strlit("quit");
    reveal_strlit("exit");
    reveal_strlit("q!");
    reveal_strlit("quit!");
    reveal_strlit("exit!");
    reveal_strlit("help");
    reveal_strlit("?");
    reveal_strlit("theme");
    reveal_strlit("refresh");
    reveal_strlit("reload");
    reveal_strlit("diff");
    reveal_strlit("dry-run");
    reveal_strlit("run");
    reveal_strlit("deploy");
    reveal_strlit("select");
    reveal_strlit("toggle");
    reveal_strlit("all");
    reveal_strlit("select-all");
    reveal_strlit("selected");
    reveal_strlit("selected-only");
    reveal_strlit("tree");
    reveal_strlit("repository");
    reveal_strlit("expand");
    reveal_strlit("collapse");
    reveal_strlit("focus");
    reveal_strlit("repo");
    reveal_strlit("files");
    reveal_strlit("content");
    reveal_strlit("destination");
    reveal_strlit("git");
    reveal_strlit("rsync");
    reveal_strlit("status");
    reveal_strlit("neutral");
    reveal_strlit("safe");
    reveal_strlit("green");
    reveal_strlit("danger");
    reveal_strlit("red");
    reveal_strlit("unsafe");
    reveal_strlit(":");
    reveal_strlit("\\q");
    let t = trim(input);
    assert(t.len() > 1) by {
        if t.len() <= 1 {
            assert(t.skip(1) =~= Seq::<char>::empty());
        }
    }
    assert(t != ":"@);
    assert(t.take(1)[0] == t[0]);
    assert(t[0] == ':');
    assert(t != "\\q"@) by {
        if t == "\\q"@ {
            assert(t[0] == '\\');
        }
    }
    assert(":"@.len() == 1);
    let ws = command_words(input);
    let arg = if ws.len() > 1 {
        Some(ws[1])
    } else {
        None
    };
    assert(parse_spec(input) == named_command(ws[0], arg));
    lemma_named_theme(arg);
    lemma_named_focus(arg);
    lemma_named_quit(arg);
    lemma_named_quit_forced(arg);
    lemma_named_help(arg);
    lemma_named_refresh(arg);
    lemma_named_diff(arg);
    lemma_named_deploy(arg);
    lemma_named_select(arg);
    lemma_named_select_all(arg);
    lemma_named_selected_only(arg);
    lemma_named_tree(arg);
    lemma_named_expand(arg);
    lemma_named_collapse(arg);
    lemma_theme_words();
    lemma_focus_words();
}

proof fn lemma_named_quit(arg: Option<Seq<char>>)
    ensures
        named_command("q"@, arg) == (CommandView::Quit { force: false }),
        named_command("quit"@, arg) == (CommandView::Quit { force: false }),
        named_command("exit"@, arg) == (CommandView::Quit { force: false }),
{
    reveal_strlit("q");
    reveal_strlit("quit");
    reveal_strlit("exit");
    assert("quit"@.len() == 4 && "q"@.len() == 1);
    assert("quit"@ != "q"@);
    assert("exit"@.len() == 4 && "q"@.len() == 1);
    assert("exit"@ != "q"@);
    assert("exit"@[0] != "quit"@[0]);
    assert("exit"@ != "quit"@);
}

proof fn lemma_named_quit_forced(arg: Option<Seq<char>>)
    ensures
        named_command("q!"@, arg) == (CommandView::Quit { force: true }),
        named_command("quit!"@, arg) == (CommandView::Quit { force: true }),
        named_command("exit!"@, arg) == (CommandView::Quit { force: true }),
{
    reveal_strlit("q");
    reveal_strlit("quit");
    reveal_strlit("exit");
    reveal_strlit("q!");
    reveal_strlit("quit!");
    reveal_strlit("exit!");
    assert("q!"@.len() == 2 && "q"@.len() == 1);
    assert("q!"@ != "q"@);
    assert("q!"@.len() == 2 && "quit"@.len() == 4);
    assert("q!"@ != "quit"@);
    assert("q!"@.len() == 2 && "exit"@.len() == 4);
    assert("q!"@ != "exit"@);
    assert("quit!"@.len() == 5 && "q"@.len() == 1);
    assert("quit!"@ != "q"@);
    assert("quit!"@.len() == 5 && "quit"@.len() == 4);
    assert("quit!"@ != "quit"@);
    assert("quit!"@.len() == 5 && "exit"@.len() == 4);
    assert("quit!"@ != "exit"@);
    assert("quit!"@.len() == 5 && "q!"@.len() == 2);
    assert("quit!"@ != "q!"@);
    assert("exit!"@.len() == 5 && "q"@.len() == 1);
    assert("exit!"@ != "q"@);
    assert("exit!"@.len() == 5 && "quit"@.len() == 4);
    assert("exit!"@ != "quit"@);
    assert("exit!"@.len() == 5 && "exit"@.len() == 4);
    assert("exit!"@ != "exit"@);
    assert("exit!"@.len() == 5 && "q!"@.len() == 2);
    assert("exit!"@ != "q!"@);
    assert("exit!"@[0] != "quit!"@[0]);
    assert("exit!"@ != "quit!"@);
}

proof fn lemma_named_help(arg: Option<Seq<char>>)
    ensures
        named_command("help"@, arg) == CommandView::Help,
        named_command("?"@, arg) == CommandView::Help,
{
    reveal_strlit("q");
    reveal_strlit("quit");
    reveal_strlit("exit");
    reveal_strlit("q!");
    reveal_strlit("quit!");
    reveal_strlit("exit!");
    reveal_strlit("help");
    reveal_strlit("?");
    assert("help"@.len() == 4 && "q"@.len() == 1);
    assert("help"@ != "q"@);
    assert("help"@[0] != "quit"@[0]);
    assert("help"@ != "quit"@);
    assert("help"@[0] != "exit"@[0]);
    assert("help"@ != "exit"@);
    assert("help"@.len() == 4 && "q!"@.len() == 2);
    assert("help"@ != "q!"@);
    assert("help"@.len() == 4 && "quit!"@.len() == 5);
    assert("help"@ != "quit!"@);
    assert("help"@.len() == 4 && "exit!"@.len() == 5);
    assert("help"@ != "exit!"@);
    assert("?"@[0] != "q"@[0]);
    assert("?"@ != "q"@);
    assert("?"@.len() == 1 && "quit"@.len() == 4);
    assert("?"@ != "quit"@);
    assert("?"@.len() == 1 && "exit"@.len() == 4);
    assert("?"@ != "exit"@);
    assert("?"@.len() == 1 && "q!"@.len() == 2);
    assert("?"@ != "q!"@);
    assert("?"@.len() == 1 && "quit!"@.len() == 5);
    assert("?"@ != "quit!"@);
    assert("?"@.len() == 1 && "exit!"@.len() == 5);
    assert("?"@ != "exit!"@);
    assert("?"@.len() == 1 && "help"@.len() == 4);
    assert("?"@ != "help"@);
}

proof fn lemma_named_refresh(arg: Option<Seq<char>>)
    ensures
        named_command("refresh"@, arg) == CommandView::Refresh,
        named_command("reload"@, arg) == CommandView::Refresh,
{
    reveal_strlit("q");
    reveal_strlit("quit");
    reveal_strlit("exit");
    reveal_strlit("q!");
    reveal_strlit("quit!");
    reveal_strlit("exit!");
    reveal_strlit("help");
    reveal_strlit("?");
    reveal_strlit("theme");
    reveal_strlit("refresh");
    reveal_strlit("reload");
    assert("refresh"@.len() == 7 && "q"@.len() == 1);
    assert("refresh"@ != "q"@);
    assert("refresh"@.len() == 7 && "quit"@.len() == 4);
    assert("refresh"@ != "quit"@);
    assert("refresh"@.len() == 7 && "exit"@.len() == 4);
    assert("refresh"@ != "exit"@);
    assert("refresh"@.len() == 7 && "q!"@.len() == 2);
    assert("refresh"@ != "q!"@);
    assert("refresh"@.len() == 7 && "quit!"@.len() == 5);
    assert("refresh"@ != "quit!"@);
    assert("refresh"@.len() == 7 && "exit!"@.len() == 5);
    assert("refresh"@ != "exit!"@);
    assert("refresh"@.len() == 7 && "help"@.len() == 4);
    assert("refresh"@ != "help"@);
    assert("refresh"@.len() == 7 && "?"@.len() == 1);
    assert("refresh"@ != "?"@);
    assert("refresh"@.len() == 7 && "theme"@.len() == 5);
    assert("refresh"@ != "theme"@);
    assert("reload"@.len() == 6 && "q"@.len() == 1);
    assert("reload"@ != "q"@);
    assert("reload"@.len() == 6 && "quit"@.len() == 4);
    assert("reload"@ != "quit"@);
    assert("reload"@.len() == 6 && "exit"@.len() == 4);
    assert("reload"@ != "exit"@);
    assert("reload"@.len() == 6 && "q!"@.len() == 2);
    assert("reload"@ != "q!"@);
    assert("reload"@.len() == 6 && "quit!"@.len() == 5);
    assert("reload"@ != "quit!"@);
    assert("reload"@.len() == 6 && "exit!"@.len() == 5);
    assert("reload"@ != "exit!"@);
    assert("reload"@.len() == 6 && "help"@.len() == 4);
    assert("reload"@ != "help"@);
    assert("reload"@.len() == 6 && "?"@.len() == 1);
    assert("reload"@ != "?"@);
    assert("reload"@.len() == 6 && "theme"@.len() == 5);
    assert("reload"@ != "theme"@);
    assert("reload"@.len() == 6 && "refresh"@.len() == 7);
    assert("reload"@ != "refresh"@);
}

proof fn lemma_named_diff(arg: Option<Seq<char>>)
    ensures
        named_command("diff"@, arg) == CommandView::Diff,
        named_command("dry-run"@, arg) == CommandView::Diff,
{
    reveal_strlit("q");
    reveal_strlit("quit");
    reveal_strlit("exit");
    reveal_strlit("q!");
    reveal_strlit("quit!");
    reveal_strlit("exit!");
    reveal_strlit("help");
    reveal_strlit("?");
    reveal_strlit("theme");
    reveal_strlit("refresh");
    reveal_strlit("reload");
    reveal_strlit("diff");
    reveal_strlit("dry-run");
    assert("diff"@.len() == 4 && "q"@.len() == 1);
    assert("diff"@ != "q"@);
    assert("diff"@[0] != "quit"@[0]);
    assert("diff"@ != "quit"@);
    assert("diff"@[0] != "exit"@[0]);
    assert("diff"@ != "exit"@);
    assert("diff"@.len() == 4 && "q!"@.len() == 2);
    assert("diff"@ != "q!"@);
    assert("diff"@.len() == 4 && "quit!"@.len() == 5);
    assert("diff"@ != "quit!"@);
    assert("diff"@.len() == 4 && "exit!"@.len() == 5);
    assert("diff"@ != "exit!"@);
    assert("diff"@[0] != "help"@[0]);
    assert("diff"@ != "help"@);
    assert("diff"@.len() == 4 && "?"@.len() == 1);
    assert("diff"@ != "?"@);
    assert("diff"@.len() == 4 && "theme"@.len() == 5);
    assert("diff"@ != "theme"@);
    assert("diff"@.len() == 4 && "refresh"@.len() == 7);
    assert("diff"@ != "refresh"@);
    assert("diff"@.len() == 4 && "reload"@.len() == 6);
    assert("diff"@ != "reload"@);
    assert("dry-run"@.len() == 7 && "q"@.len() == 1);
    assert("dry-run"@ != "q"@);
    assert("dry-run"@.len() == 7 && "quit"@.len() == 4);
    assert("dry-run"@ != "quit"@);
    assert("dry-run"@.len() == 7 && "exit"@.len() == 4);
    assert("dry-run"@ != "exit"@);
    assert("dry-run"@.len() == 7 && "q!"@.len() == 2);
    assert("dry-run"@ != "q!"@);
    assert("dry-run"@.len() == 7 && "quit!"@.len() == 5);
    assert("dry-run"@ != "quit!"@);
    assert("dry-run"@.len() == 7 && "exit!"@.len() == 5);
    assert("dry-run"@ != "exit!"@);
    assert("dry-run"@.len() == 7 && "help"@.len() == 4);
    assert("dry-run"@ != "help"@);
    assert("dry-run"@.len() == 7 && "?"@.len() == 1);
    assert("dry-run"@ != "?"@);
    assert("dry-run"@.len() == 7 && "theme"@.len() == 5);
    assert("dry-run"@ != "theme"@);
    assert("dry-run"@[0] != "refresh"@[0]);
    assert("dry-run"@ != "refresh"@);
    assert("dry-run"@.len() == 7 && "reload"@.len() == 6);
    assert("dry-run"@ != "reload"@);
    assert("dry-run"@.len() == 7 && "diff"@.len() == 4);
    assert("dry-run"@ != "diff"@);
}

proof fn lemma_named_deploy(arg: Option<Seq<char>>)
    ensures
        named_command("run"@, arg) == CommandView::Deploy,
        named_command("deploy"@, arg) == CommandView::Deploy,
{
    reveal_strlit("q");
    reveal_strlit("quit");
    reveal_strlit("exit");
    reveal_strlit("q!");
    reveal_strlit("quit!");
    reveal_strlit("exit!");
    reveal_strlit("help");
    reveal_strlit("?");
    reveal_strlit("theme");
    reveal_strlit("refresh");
    reveal_strlit("reload");
    reveal_strlit("diff");
    reveal_strlit("dry-run");
    reveal_strlit("run");
    reveal_strlit("deploy");
    assert("run"@.len() == 3 && "q"@.len() == 1);
    assert("run"@ != "q"@);
    assert("run"@.len() == 3 && "quit"@.len() == 4);
    assert("run"@ != "quit"@);
    assert("run"@.len() == 3 && "exit"@.len() == 4);
    assert("run"@ != "exit"@);
    assert("run"@.len() == 3 && "q!"@.len() == 2);
    assert("run"@ != "q!"@);
    assert("run"@.len() == 3 && "quit!"@.len() == 5);
    assert("run"@ != "quit!"@);
    assert("run"@.len() == 3 && "exit!"@.len() == 5);
    assert("run"@ != "exit!"@);
    assert("run"@.len() == 3 && "help"@.len() == 4);
    assert("run"@ != "help"@);
    assert("run"@.len() == 3 && "?"@.len() == 1);
    assert("run"@ != "?"@);
    assert("run"@.len() == 3 && "theme"@.len() == 5);
    assert("run"@ != "theme"@);
    assert("run"@.len() == 3 && "refresh"@.len() == 7);
    assert("run"@ != "refresh"@);
    assert("run"@.len() == 3 && "reload"@.len() == 6);
    assert("run"@ != "reload"@);
    assert("run"@.len() == 3 && "diff"@.len() == 4);
    assert("run"@ != "diff"@);
    assert("run"@.len() == 3 && "dry-run"@.len() == 7);
    assert("run"@ != "dry-run"@);
    assert("deploy"@.len() == 6 && "q"@.len() == 1);
    assert("deploy"@ != "q"@);
    assert("deploy"@.len() == 6 && "quit"@.len() == 4);
    assert("deploy"@ != "quit"@);
    assert("deploy"@.len() == 6 && "exit"@.len() == 4);
    assert("deploy"@ != "exit"@);
    assert("deploy"@.len() == 6 && "q!"@.len() == 2);
    assert("deploy"@ != "q!"@);
    assert("deploy"@.len() == 6 && "quit!"@.len() == 5);
    assert("deploy"@ != "quit!"@);
    assert("deploy"@.len() == 6 && "exit!"@.len() == 5);
    assert("deploy"@ != "exit!"@);
    assert("deploy"@.len() == 6 && "help"@.len() == 4);
    assert("deploy"@ != "help"@);
    assert("deploy"@.len() == 6 && "?"@.len() == 1);
    assert("deploy"@ != "?"@);
    assert("deploy"@.len() == 6 && "theme"@.len() == 5);
    assert("deploy"@ != "theme"@);
    assert("deploy"@.len() == 6 && "refresh"@.len() == 7);
    assert("deploy"@ != "refresh"@);
    assert("deploy"@[0] != "reload"@[0]);
    assert("deploy"@ != "reload"@);
    assert("deploy"@.len() == 6 && "diff"@.len() == 4);
    assert("deploy"@ != "diff"@);
    assert("deploy"@.len() == 6 && "dry-run"@.len() == 7);
    assert("deploy"@ != "dry-run"@);
    assert("deploy"@.len() == 6 && "run"@.len() == 3);
    assert("deploy"@ != "run"@);
}

proof fn lemma_named_select(arg: Option<Seq<char>>)
    ensures
        named_command("select"@, arg) == CommandView::Select,
        named_command("toggle"@, arg) == CommandView::Select,
{
    reveal_strlit("q");
    reveal_strlit("quit");
    reveal_strlit("exit");
    reveal_strlit("q!");
    reveal_strlit("quit!");
    reveal_strlit("exit!");
    reveal_strlit("help");
    reveal_strlit("?");
    reveal_strlit("theme");
    reveal_strlit("refresh");
    reveal_strlit("reload");
    reveal_strlit("diff");
    reveal_strlit("dry-run");
    reveal_strlit("run");
    reveal_strlit("deploy");
    reveal_strlit("select");
    reveal_strlit("toggle");
    assert("select"@.len() == 6 && "q"@.len() == 1);
    assert("select"@ != "q"@);
    assert("select"@.len() == 6 && "quit"@.len() == 4);
    assert("select"@ != "quit"@);
    assert("select"@.len() == 6 && "exit"@.len() == 4);
    assert("select"@ != "exit"@);
    assert("select"@.len() == 6 && "q!"@.len() == 2);
    assert("select"@ != "q!"@);
    assert("select"@.len() == 6 && "quit!"@.len() == 5);
    assert("select"@ != "quit!"@);
    assert("select"@.len() == 6 && "exit!"@.len() == 5);
    assert("select"@ != "exit!"@);
    assert("select"@.len() == 6 && "help"@.len() == 4);
    assert("select"@ != "help"@);
    assert("select"@.len() == 6 && "?"@.len() == 1);
    assert("select"@ != "?"@);
    assert("select"@.len() == 6 && "theme"@.len() == 5);
    assert("select"@ != "theme"@);
    assert("select"@.len() == 6 && "refresh"@.len() == 7);
    assert("select"@ != "refresh"@);
    assert("select"@[0] != "reload"@[0]);
    assert("select"@ != "reload"@);
    assert("select"@.len() == 6 && "diff"@.len() == 4);
    assert("select"@ != "diff"@);
    assert("select"@.len() == 6 && "dry-run"@.len() == 7);
    assert("select"@ != "dry-run"@);
    assert("select"@.len() == 6 && "run"@.len() == 3);
    assert("select"@ != "run"@);
    assert("select"@[0] != "deploy"@[0]);
    assert("select"@ != "deploy"@);
    assert("toggle"@.len() == 6 && "q"@.len() == 1);
    assert("toggle"@ != "q"@);
    assert("toggle"@.len() == 6 && "quit"@.len() == 4);
    assert("toggle"@ != "quit"@);
    assert("toggle"@.len() == 6 && "exit"@.len() == 4);
    assert("toggle"@ != "exit"@);
    assert("toggle"@.len() == 6 && "q!"@.len() == 2);
    assert("toggle"@ != "q!"@);
    assert("toggle"@.len() == 6 && "quit!"@.len() == 5);
    assert("toggle"@ != "quit!"@);
    assert("toggle"@.len() == 6 && "exit!"@.len() == 5);
    assert("toggle"@ != "exit!"@);
    assert("toggle"@.len() == 6 && "help"@.len() == 4);
    assert("toggle"@ != "help"@);
    assert("toggle"@.len() == 6 && "?"@.len() == 1);
    assert("toggle"@ != "?"@);
    assert("toggle"@.len() == 6 && "theme"@.len() == 5);
    assert("toggle"@ != "theme"@);
    assert("toggle"@.len() == 6 && "refresh"@.len() == 7);
    assert("toggle"@ != "refresh"@);
    assert("toggle"@[0] != "reload"@[0]);
    assert("toggle"@ != "reload"@);
    assert("toggle"@.len() == 6 && "diff"@.len() == 4);
    assert("toggle"@ != "diff"@);
    assert("toggle"@.len() == 6 && "dry-run"@.len() == 7);
    assert("toggle"@ != "dry-run"@);
    assert("toggle"@.len() == 6 && "run"@.len() == 3);
    assert("toggle"@ != "run"@);
    assert("toggle"@[0] != "deploy"@[0]);
    assert("toggle"@ != "deploy"@);
    assert("toggle"@[0] != "select"@[0]);
    assert("toggle"@ != "select"@);
}

proof fn lemma_named_select_all(arg: Option<Seq<char>>)
    ensures
        named_command("all"@, arg) == CommandView::SelectAll,
        named_command("select-all"@, arg) == CommandView::SelectAll,
{
    reveal_strlit("q");
    reveal_strlit("quit");
    reveal_strlit("exit");
    reveal_strlit("q!");
    reveal_strlit("quit!");
    reveal_strlit("exit!");
    reveal_strlit("help");
    reveal_strlit("?");
    reveal_strlit("theme");
    reveal_strlit("refresh");
    reveal_strlit("reload");
    reveal_strlit("diff");
    reveal_strlit("dry-run");
    reveal_strlit("run");
    reveal_strlit("deploy");
    reveal_strlit("select");
    reveal_strlit("toggle");
    reveal_strlit("all");
    reveal_strlit("select-all");
    assert("all"@.len() == 3 && "q"@.len() == 1);
    assert("all"@ != "q"@);
    assert("all"@.len() == 3 && "quit"@.len() == 4);
    assert("all"@ != "quit"@);
    assert("all"@.len() == 3 && "exit"@.len() == 4);
    assert("all"@ != "exit"@);
    assert("all"@.len() == 3 && "q!"@.len() == 2);
    assert("all"@ != "q!"@);
    assert("all"@.len() == 3 && "quit!"@.len() == 5);
    assert("all"@ != "quit!"@);
    assert("all"@.len() == 3 && "exit!"@.len() == 5);
    assert("all"@ != "exit!"@);
    assert("all"@.len() == 3 && "help"@.len() == 4);
    assert("all"@ != "help"@);
    assert("all"@.len() == 3 && "?"@.len() == 1);
    assert("all"@ != "?"@);
    assert("all"@.len() == 3 && "theme"@.len() == 5);
    assert("all"@ != "theme"@);
    assert("all"@.len() == 3 && "refresh"@.len() == 7);
    assert("all"@ != "refresh"@);
    assert("all"@.len() == 3 && "reload"@.len() == 6);
    assert("all"@ != "reload"@);
    assert("all"@.len() == 3 && "diff"@.len() == 4);
    assert("all"@ != "diff"@);
    assert("all"@.len() == 3 && "dry-run"@.len() == 7);
    assert("all"@ != "dry-run"@);
    assert("all"@[0] != "run"@[0]);
    assert("all"@ != "run"@);
    assert("all"@.len() == 3 && "deploy"@.len() == 6);
    assert("all"@ != "deploy"@);
    assert("all"@.len() == 3 && "select"@.len() == 6);
    assert("all"@ != "select"@);
    assert("all"@.len() == 3 && "toggle"@.len() == 6);
    assert("all"@ != "toggle"@);
    assert("select-all"@.len() == 10 && "q"@.len() == 1);
    assert("select-all"@ != "q"@);
    assert("select-all"@.len() == 10 && "quit"@.len() == 4);
    assert("select-all"@ != "quit"@);
    assert("select-all"@.len() == 10 && "exit"@.len() == 4);
    assert("select-all"@ != "exit"@);
    assert("select-all"@.len() == 10 && "q!"@.len() == 2);
    assert("select-all"@ != "q!"@);
    assert("select-all"@.len() == 10 && "quit!"@.len() == 5);
    assert("select-all"@ != "quit!"@);
    assert("select-all"@.len() == 10 && "exit!"@.len() == 5);
    assert("select-all"@ != "exit!"@);
    assert("select-all"@.len() == 10 && "help"@.len() == 4);
    assert("select-all"@ != "help"@);
    assert("select-all"@.len() == 10 && "?"@.len() == 1);
    assert("select-all"@ != "?"@);
    assert("select-all"@.len() == 10 && "theme"@.len() == 5);
    assert("select-all"@ != "theme"@);
    assert("select-all"@.len() == 10 && "refresh"@.len() == 7);
    assert("select-all"@ != "refresh"@);
    assert("select-all"@.len() == 10 && "reload"@.len() == 6);
    assert("select-all"@ != "reload"@);
    assert("select-all"@.len() == 10 && "diff"@.len() == 4);
    assert("select-all"@ != "diff"@);
    assert("select-all"@.len() == 10 && "dry-run"@.len() == 7);
    assert("select-all"@ != "dry-run"@);
    assert("select-all"@.len() == 10 && "run"@.len() == 3);
    assert("select-all"@ != "run"@);
    assert("select-all"@.len() == 10 && "deploy"@.len() == 6);
    assert("select-all"@ != "deploy"@);
    assert("select-all"@.len() == 10 && "select"@.len() == 6);
    assert("select-all"@ != "select"@);
    assert("select-all"@.len() == 10 && "toggle"@.len() == 6);
    assert("select-all"@ != "toggle"@);
    assert("select-all"@.len() == 10 && "all"@.len() == 3);
    assert("select-all"@ != "all"@);
}

proof fn lemma_named_selected_only(arg: Option<Seq<char>>)
    ensures
        named_command("selected"@, arg) == CommandView::SelectedOnly,
        named_command("selected-only"@, arg) == CommandView::SelectedOnly,
{
    reveal_strlit("q");
    reveal_strlit("quit");
    reveal_strlit("exit");
    reveal_strlit("q!");
    reveal_strlit("quit!");
    reveal_strlit("exit!");
    reveal_strlit("help");
    reveal_strlit("?");
    reveal_strlit("theme");
    reveal_strlit("refresh");
    reveal_strlit("reload");
    reveal_strlit("diff");
    reveal_strlit("dry-run");
    reveal_strlit("run");
    reveal_strlit("deploy");
    reveal_strlit("select");
    reveal_strlit("toggle");
    reveal_strlit("all");
    reveal_strlit("select-all");
    reveal_strlit("selected");
    reveal_strlit("selected-only");
    assert("selected"@.len() == 8 && "q"@.len() == 1);
    assert("selected"@ != "q"@);
    assert("selected"@.len() == 8 && "quit"@.len() == 4);
    assert("selected"@ != "quit"@);
    assert("selected"@.len() == 8 && "exit"@.len() == 4);
    assert("selected"@ != "exit"@);
    assert("selected"@.len() == 8 && "q!"@.len() == 2);
    assert("selected"@ != "q!"@);
    assert("selected"@.len() == 8 && "quit!"@.len() == 5);
    assert("selected"@ != "quit!"@);
    assert("selected"@.len() == 8 && "exit!"@.len() == 5);
    assert("selected"@ != "exit!"@);
    assert("selected"@.len() == 8 && "help"@.len() == 4);
    assert("selected"@ != "help"@);
    assert("selected"@.len() == 8 && "?"@.len() == 1);
    assert("selected"@ != "?"@);
    assert("selected"@.len() == 8 && "theme"@.len() == 5);
    assert("selected"@ != "theme"@);
    assert("selected"@.len() == 8 && "refresh"@.len() == 7);
    assert("selected"@ != "refresh"@);
    assert("selected"@.len() == 8 && "reload"@.len() == 6);
    assert("selected"@ != "reload"@);
    assert("selected"@.len() == 8 && "diff"@.len() == 4);
    assert("selected"@ != "diff"@);
    assert("selected"@.len() == 8 && "dry-run"@.len() == 7);
    assert("selected"@ != "dry-run"@);
    assert("selected"@.len() == 8 && "run"@.len() == 3);
    assert("selected"@ != "run"@);
    assert("selected"@.len() == 8 && "deploy"@.len() == 6);
    assert("selected"@ != "deploy"@);
    assert("selected"@.len() == 8 && "select"@.len() == 6);
    assert("selected"@ != "select"@);
    assert("selected"@.len() == 8 && "toggle"@.len() == 6);
    assert("selected"@ != "toggle"@);
    assert("selected"@.len() == 8 && "all"@.len() == 3);
    assert("selected"@ != "all"@);
    assert("selected"@.len() == 8 && "select-all"@.len() == 10);
    assert("selected"@ != "select-all"@);
    assert("selected-only"@.len() == 13 && "q"@.len() == 1);
    assert("selected-only"@ != "q"@);
    assert("selected-only"@.len() == 13 && "quit"@.len() == 4);
    assert("selected-only"@ != "quit"@);
    assert("selected-only"@.len() == 13 && "exit"@.len() == 4);
    assert("selected-only"@ != "exit"@);
    assert("selected-only"@.len() == 13 && "q!"@.len() == 2);
    assert("selected-only"@ != "q!"@);
    assert("selected-only"@.len() == 13 && "quit!"@.len() == 5);
    assert("selected-only"@ != "quit!"@);
    assert("selected-only"@.len() == 13 && "exit!"@.len() == 5);
    assert("selected-only"@ != "exit!"@);
    assert("selected-only"@.len() == 13 && "help"@.len() == 4);
    assert("selected-only"@ != "help"@);
    assert("selected-only"@.len() == 13 && "?"@.len() == 1);
    assert("selected-only"@ != "?"@);
    assert("selected-only"@.len() == 13 && "theme"@.len() == 5);
    assert("selected-only"@ != "theme"@);
    assert("selected-only"@.len() == 13 && "refresh"@.len() == 7);
    assert("selected-only"@ != "refresh"@);
    assert("selected-only"@.len() == 13 && "reload"@.len() == 6);
    assert("selected-only"@ != "reload"@);
    assert("selected-only"@.len() == 13 && "diff"@.len() == 4);
    assert("selected-only"@ != "diff"@);
    assert("selected-only"@.len() == 13 && "dry-run"@.len() == 7);
    assert("selected-only"@ != "dry-run"@);
    assert("selected-only"@.len() == 13 && "run"@.len() == 3);
    assert("selected-only"@ != "run"@);
    assert("selected-only"@.len() == 13 && "deploy"@.len() == 6);
    assert("selected-only"@ != "deploy"@);
    assert("selected-only"@.len() == 13 && "select"@.len() == 6);
    assert("selected-only"@ != "select"@);
    assert("selected-only"@.len() == 13 && "toggle"@.len() == 6);
    assert("selected-only"@ != "toggle"@);
    assert("selected-only"@.len() == 13 && "all"@.len() == 3);
    assert("selected-only"@ != "all"@);
    assert("selected-only"@.len() == 13 && "select-all"@.len() == 10);
    assert("selected-only"@ != "select-all"@);
    assert("selected-only"@.len() == 13 && "selected"@.len() == 8);
    assert("selected-only"@ != "selected"@);
}

proof fn lemma_named_tree(arg: Option<Seq<char>>)
    ensures
        named_command("tree"@, arg) == CommandView::Tree,
        named_command("repository"@, arg) == CommandView::Tree,
{
    reveal_strlit("q");
    reveal_strlit("quit");
    reveal_strlit("exit");
    reveal_strlit("q!");
    reveal_strlit("quit!");
    reveal_strlit("exit!");
    reveal_strlit("help");
    reveal_strlit("?");
    reveal_strlit("theme");
    reveal_strlit("refresh");
    reveal_strlit("reload");
    reveal_strlit("diff");
    reveal_strlit("dry-run");
    reveal_strlit("run");
    reveal_strlit("deploy");
    reveal_strlit("select");
    reveal_strlit("toggle");
    reveal_strlit("all");
    reveal_strlit("select-all");
    reveal_strlit("selected");
    reveal_strlit("selected-only");
    reveal_strlit("tree");
    reveal_strlit("repository");
    assert("tree"@.len() == 4 && "q"@.len() == 1);
    assert("tree"@ != "q"@);
    assert("tree"@[0] != "quit"@[0]);
    assert("tree"@ != "quit"@);
    assert("tree"@[0] != "exit"@[0]);
    assert("tree"@ != "exit"@);
    assert("tree"@.len() == 4 && "q!"@.len() == 2);
    assert("tree"@ != "q!"@);
    assert("tree"@.len() == 4 && "quit!"@.len() == 5);
    assert("tree"@ != "quit!"@);
    assert("tree"@.len() == 4 && "exit!"@.len() == 5);
    assert("tree"@ != "exit!"@);
    assert("tree"@[0] != "help"@[0]);
    assert("tree"@ != "help"@);
    assert("tree"@.len() == 4 && "?"@.len() == 1);
    assert("tree"@ != "?"@);
    assert("tree"@.len() == 4 && "theme"@.len() == 5);
    assert("tree"@ != "theme"@);
    assert("tree"@.len() == 4 && "refresh"@.len() == 7);
    assert("tree"@ != "refresh"@);
    assert("tree"@.len() == 4 && "reload"@.len() == 6);
    assert("tree"@ != "reload"@);
    assert("tree"@[0] != "diff"@[0]);
    assert("tree"@ != "diff"@);
    assert("tree"@.len() == 4 && "dry-run"@.len() == 7);
    assert("tree"@ != "dry-run"@);
    assert("tree"@.len() == 4 && "run"@.len() == 3);
    assert("tree"@ != "run"@);
    assert("tree"@.len() == 4 && "deploy"@.len() == 6);
    assert("tree"@ != "deploy"@);
    assert("tree"@.len() == 4 && "select"@.len() == 6);
    assert("tree"@ != "select"@);
    assert("tree"@.len() == 4 && "toggle"@.len() == 6);
    assert("tree"@ != "toggle"@);
    assert("tree"@.len() == 4 && "all"@.len() == 3);
    assert("tree"@ != "all"@);
    assert("tree"@.len() == 4 && "select-all"@.len() == 10);
    assert("tree"@ != "select-all"@);
    assert("tree"@.len() == 4 && "selected"@.len() == 8);
    assert("tree"@ != "selected"@);
    assert("tree"@.len() == 4 && "selected-only"@.len() == 13);
    assert("tree"@ != "selected-only"@);
    assert("repository"@.len() == 10 && "q"@.len() == 1);
    assert("repository"@ != "q"@);
    assert("repository"@.len() == 10 && "quit"@.len() == 4);
    assert("repository"@ != "quit"@);
    assert("repository"@.len() == 10 && "exit"@.len() == 4);
    assert("repository"@ != "exit"@);
    assert("repository"@.len() == 10 && "q!"@.len() == 2);
    assert("repository"@ != "q!"@);
    assert("repository"@.len() == 10 && "quit!"@.len() == 5);
    assert("repository"@ != "quit!"@);
    assert("repository"@.len() == 10 && "exit!"@.len() == 5);
    assert("repository"@ != "exit!"@);
    assert("repository"@.len() == 10 && "help"@.len() == 4);
    assert("repository"@ != "help"@);
    assert("repository"@.len() == 10 && "?"@.len() == 1);
    assert("repository"@ != "?"@);
    assert("repository"@.len() == 10 && "theme"@.len() == 5);
    assert("repository"@ != "theme"@);
    assert("repository"@.len() == 10 && "refresh"@.len() == 7);
    assert("repository"@ != "refresh"@);
    assert("repository"@.len() == 10 && "reload"@.len() == 6);
    assert("repository"@ != "reload"@);
    assert("repository"@.len() == 10 && "diff"@.len() == 4);
    assert("repository"@ != "diff"@);
    assert("repository"@.len() == 10 && "dry-run"@.len() == 7);
    assert("repository"@ != "dry-run"@);
    assert("repository"@.len() == 10 && "run"@.len() == 3);
    assert("repository"@ != "run"@);
    assert("repository"@.len() == 10 && "deploy"@.len() == 6);
    assert("repository"@ != "deploy"@);
    assert("repository"@.len() == 10 && "select"@.len() == 6);
    assert("repository"@ != "select"@);
    assert("repository"@.len() == 10 && "toggle"@.len() == 6);
    assert("repository"@ != "toggle"@);
    assert("repository"@.len() == 10 && "all"@.len() == 3);
    assert("repository"@ != "all"@);
    assert("repository"@[0] != "select-all"@[0]);
    assert("repository"@ != "select-all"@);
    assert("repository"@.len() == 10 && "selected"@.len() == 8);
    assert("repository"@ != "selected"@);
    assert("repository"@.len() == 10 && "selected-only"@.len() == 13);
    assert("repository"@ != "selected-only"@);
    assert("repository"@.len() == 10 && "tree"@.len() == 4);
    assert("repository"@ != "tree"@);
}

proof fn lemma_named_expand(arg: Option<Seq<char>>)
    ensures
        named_command("expand"@, arg) == CommandView::Expand,
{
    reveal_strlit("q");
    reveal_strlit("quit");
    reveal_strlit("exit");
    reveal_strlit("q!");
    reveal_strlit("quit!");
    reveal_strlit("exit!");
    reveal_strlit("help");
    reveal_strlit("?");
    reveal_strlit("theme");
    reveal_strlit("refresh");
    reveal_strlit("reload");
    reveal_strlit("diff");
    reveal_strlit("dry-run");
    reveal_strlit("run");
    reveal_strlit("deploy");
    reveal_strlit("select");
    reveal_strlit("toggle");
    reveal_strlit("all");
    reveal_strlit("select-all");
    reveal_strlit("selected");
    reveal_strlit("selected-only");
    reveal_strlit("tree");
    reveal_strlit("repository");
    reveal_strlit("expand");
    assert("expand"@.len() == 6 && "q"@.len() == 1);
    assert("expand"@ != "q"@);
    assert("expand"@.len() == 6 && "quit"@.len() == 4);
    assert("expand"@ != "quit"@);
    assert("expand"@.len() == 6 && "exit"@.len() == 4);
    assert("expand"@ != "exit"@);
    assert("expand"@.len() == 6 && "q!"@.len() == 2);
    assert("expand"@ != "q!"@);
    assert("expand"@.len() == 6 && "quit!"@.len() == 5);
    assert("expand"@ != "quit!"@);
    assert("expand"@.len() == 6 && "exit!"@.len() == 5);
    assert("expand"@ != "exit!"@);
    assert("expand"@.len() == 6 && "help"@.len() == 4);
    assert("expand"@ != "help"@);
    assert("expand"@.len() == 6 && "?"@.len() == 1);
    assert("expand"@ != "?"@);
    assert("expand"@.len() == 6 && "theme"@.len() == 5);
    assert("expand"@ != "theme"@);
    assert("expand"@.len() == 6 && "refresh"@.len() == 7);
    assert("expand"@ != "refresh"@);
    assert("expand"@[0] != "reload"@[0]);
    assert("expand"@ != "reload"@);
    assert("expand"@.len() == 6 && "diff"@.len() == 4);
    assert("expand"@ != "diff"@);
    assert("expand"@.len() == 6 && "dry-run"@.len() == 7);
    assert("expand"@ != "dry-run"@);
    assert("expand"@.len() == 6 && "run"@.len() == 3);
    assert("expand"@ != "run"@);
    assert("expand"@[0] != "deploy"@[0]);
    assert("expand"@ != "deploy"@);
    assert("expand"@[0] != "select"@[0]);
    assert("expand"@ != "select"@);
    assert("expand"@[0] != "toggle"@[0]);
    assert("expand"@ != "toggle"@);
    assert("expand"@.len() == 6 && "all"@.len() == 3);
    assert("expand"@ != "all"@);
    assert("expand"@.len() == 6 && "select-all"@.len() == 10);
    assert("expand"@ != "select-all"@);
    assert("expand"@.len() == 6 && "selected"@.len() == 8);
    assert("expand"@ != "selected"@);
    assert("expand"@.len() == 6 && "selected-only"@.len() == 13);
    assert("expand"@ != "selected-only"@);
    assert("expand"@.len() == 6 && "tree"@.len() == 4);
    assert("expand"@ != "tree"@);
    assert("expand"@.len() == 6 && "repository"@.len() == 10);
    assert("expand"@ != "repository"@);
}

proof fn lemma_named_collapse(arg: Option<Seq<char>>)
    ensures
        named_command("collapse"@, arg) == CommandView::Collapse,
{
    reveal_strlit("q");
    reveal_strlit("quit");
    reveal_strlit("exit");
    reveal_strlit("q!");
    reveal_strlit("quit!");
    reveal_strlit("exit!");
    reveal_strlit("help");
    reveal_strlit("?");
    reveal_strlit("theme");
    reveal_strlit("refresh");
    reveal_strlit("reload");
    reveal_strlit("diff");
    reveal_strlit("dry-run");
    reveal_strlit("run");
    reveal_strlit("deploy");
    reveal_strlit("select");
    reveal_strlit("toggle");
    reveal_strlit("all");
    reveal_strlit("select-all");
    reveal_strlit("selected");
    reveal_strlit("selected-only");
    reveal_strlit("tree");
    reveal_strlit("repository");
    reveal_strlit("expand");
    reveal_strlit("collapse");
    assert("collapse"@.len() == 8 && "q"@.len() == 1);
    assert("collapse"@ != "q"@);
    assert("collapse"@.len() == 8 && "quit"@.len() == 4);
    assert("collapse"@ != "quit"@);
    assert("collapse"@.len() == 8 && "exit"@.len() == 4);
    assert("collapse"@ != "exit"@);
    assert("collapse"@.len() == 8 && "q!"@.len() == 2);
    assert("collapse"@ != "q!"@);
    assert("collapse"@.len() == 8 && "quit!"@.len() == 5);
    assert("collapse"@ != "quit!"@);
    assert("collapse"@.len() == 8 && "exit!"@.len() == 5);
    assert("collapse"@ != "exit!"@);
    assert("collapse"@.len() == 8 && "help"@.len() == 4);
    assert("collapse"@ != "help"@);
    assert("collapse"@.len() == 8 && "?"@.len() == 1);
    assert("collapse"@ != "?"@);
    assert("collapse"@.len() == 8 && "theme"@.len() == 5);
    assert("collapse"@ != "theme"@);
    assert("collapse"@.len() == 8 && "refresh"@.len() == 7);
    assert("collapse"@ != "refresh"@);
    assert("collapse"@.len() == 8 && "reload"@.len() == 6);
    assert("collapse"@ != "reload"@);
    assert("collapse"@.len() == 8 && "diff"@.len() == 4);
    assert("collapse"@ != "diff"@);
    assert("collapse"@.len() == 8 && "dry-run"@.len() == 7);
    assert("collapse"@ != "dry-run"@);
    assert("collapse"@.len() == 8 && "run"@.len() == 3);
    assert("collapse"@ != "run"@);
    assert("collapse"@.len() == 8 && "deploy"@.len() == 6);
    assert("collapse"@ != "deploy"@);
    assert("collapse"@.len() == 8 && "select"@.len() == 6);
    assert("collapse"@ != "select"@);
    assert("collapse"@.len() == 8 && "toggle"@.len() == 6);
    assert("collapse"@ != "toggle"@);
    assert("collapse"@.len() == 8 && "all"@.len() == 3);
    assert("collapse"@ != "all"@);
    assert("collapse"@.len() == 8 && "select-all"@.len() == 10);
    assert("collapse"@ != "select-all"@);
    assert("collapse"@[0] != "selected"@[0]);
    assert("collapse"@ != "selected"@);
    assert("collapse"@.len() == 8 && "selected-only"@.len() == 13);
    assert("collapse"@ != "selected-only"@);
    assert("collapse"@.len() == 8 && "tree"@.len() == 4);
    assert("collapse"@ != "tree"@);
    assert("collapse"@.len() == 8 && "repository"@.len() == 10);
    assert("collapse"@ != "repository"@);
    assert("collapse"@.len() == 8 && "expand"@.len() == 6);
    assert("collapse"@ != "expand"@);
}

proof fn lemma_named_theme(arg: Option<Seq<char>>)
    ensures
        named_command("theme"@, arg) == theme_command(arg),
{
    reveal_strlit("q");
    reveal_strlit("quit");
    reveal_strlit("exit");
    reveal_strlit("q!");
    reveal_strlit("quit!");
    reveal_strlit("exit!");
    reveal_strlit("help");
    reveal_strlit("?");
    reveal_strlit("theme");
    assert("theme"@.len() == 5 && "q"@.len() == 1);
    assert("theme"@ != "q"@);
    assert("theme"@.len() == 5 && "quit"@.len() == 4);
    assert("theme"@ != "quit"@);
    assert("theme"@.len() == 5 && "exit"@.len() == 4);
    assert("theme"@ != "exit"@);
    assert("theme"@.len() == 5 && "q!"@.len() == 2);
    assert("theme"@ != "q!"@);
    assert("theme"@[0] != "quit!"@[0]);
    assert("theme"@ != "quit!"@);
    assert("theme"@[0] != "exit!"@[0]);
    assert("theme"@ != "exit!"@);
    assert("theme"@.len() == 5 && "help"@.len() == 4);
    assert("theme"@ != "help"@);
    assert("theme"@.len() == 5 && "?"@.len() == 1);
    assert("theme"@ != "?"@);
}

proof fn lemma_named_focus(arg: Option<Seq<char>>)
    ensures
        named_command("focus"@, arg) == focus_command(arg),
{
    reveal_strlit("q");
    reveal_strlit("quit");
    reveal_strlit("exit");
    reveal_strlit("q!");
    reveal_strlit("quit!");
    reveal_strlit("exit!");
    reveal_strlit("help");
    reveal_strlit("?");
    reveal_strlit("theme");
    reveal_strlit("refresh");
    reveal_strlit("reload");
    reveal_strlit("diff");
    reveal_strlit("dry-run");
    reveal_strlit("run");
    reveal_strlit("deploy");
    reveal_strlit("select");
    reveal_strlit("toggle");
    reveal_strlit("all");
    reveal_strlit("select-all");
    reveal_strlit("selected");
    reveal_strlit("selected-only");
    reveal_strlit("tree");
    reveal_strlit("repository");
    reveal_strlit("expand");
    reveal_strlit("collapse");
    reveal_strlit("focus");
    assert("focus"@.len() == 5 && "q"@.len() == 1);
    assert("focus"@ != "q"@);
    assert("focus"@.len() == 5 && "quit"@.len() == 4);
    assert("focus"@ != "quit"@);
    assert("focus"@.len() == 5 && "exit"@.len() == 4);
    assert("focus"@ != "exit"@);
    assert("focus"@.len() == 5 && "q!"@.len() == 2);
    assert("focus"@ != "q!"@);
    assert("focus"@[0] != "quit!"@[0]);
    assert("focus"@ != "quit!"@);
    assert("focus"@[0] != "exit!"@[0]);
    assert("focus"@ != "exit!"@);
    assert("focus"@.len() == 5 && "help"@.len() == 4);
    assert("focus"@ != "help"@);
    assert("focus"@.len() == 5 && "?"@.len() == 1);
    assert("focus"@ != "?"@);
    assert("focus"@[0] != "theme"@[0]);
    assert("focus"@ != "theme"@);
    assert("focus"@.len() == 5 && "refresh"@.len() == 7);
    assert("focus"@ != "refresh"@);
    assert("focus"@.len() == 5 && "reload"@.len() == 6);
    assert("focus"@ != "reload"@);
    assert("focus"@.len() == 5 && "diff"@.len() == 4);
    assert("focus"@ != "diff"@);
    assert("focus"@.len() == 5 && "dry-run"@.len() == 7);
    assert("focus"@ != "dry-run"@);
    assert("focus"@.len() == 5 && "run"@.len() == 3);
    assert("focus"@ != "run"@);
    assert("focus"@.len() == 5 && "deploy"@.len() == 6);
    assert("focus"@ != "deploy"@);
    assert("focus"@.len() == 5 && "select"@.len() == 6);
    assert("focus"@ != "select"@);
    assert("focus"@.len() == 5 && "toggle"@.len() == 6);
    assert("focus"@ != "toggle"@);
    assert("focus"@.len() == 5 && "all"@.len() == 3);
    assert("focus"@ != "all"@);
    assert("focus"@.len() == 5 && "select-all"@.len() == 10);
    assert("focus"@ != "select-all"@);
    assert("focus"@.len() == 5 && "selected"@.len() == 8);
    assert("focus"@ != "selected"@);
    assert("focus"@.len() == 5 && "selected-only"@.len() == 13);
    assert("focus"@ != "selected-only"@);
    assert("focus"@.len() == 5 && "tree"@.len() == 4);
    assert("focus"@ != "tree"@);
    assert("focus"@.len() == 5 && "repository"@.len() == 10);
    assert("focus"@ != "repository"@);
    assert("focus"@.len() == 5 && "expand"@.len() == 6);
    assert("focus"@ != "expand"@);
    assert("focus"@.len() == 5 && "collapse"@.len() == 8);
    assert("focus"@ != "collapse"@);
}

proof fn lemma_theme_words()
    ensures
        theme_command(None) == CommandView::Theme(ThemeCommand::Neutral),
        theme_command(Some("neutral"@)) == CommandView::Theme(ThemeCommand::Neutral),
        theme_command(Some("safe"@)) == CommandView::Theme(ThemeCommand::Safe),
        theme_command(Some("green"@)) == CommandView::Theme(ThemeCommand::Safe),
        theme_command(Some("danger"@)) == CommandView::Theme(ThemeCommand::Danger),
        theme_command(Some("red"@)) == CommandView::Theme(ThemeCommand::Danger),
        theme_command(Some("unsafe"@)) == CommandView::Theme(ThemeCommand::Danger),
{
    reveal_strlit("neutral");
    reveal_strlit("safe");
    reveal_strlit("green");
    reveal_strlit("danger");
    reveal_strlit("red");
    reveal_strlit("unsafe");
    assert("safe"@.len() == 4 && "neutral"@.len() == 7);
    assert("safe"@ != "neutral"@);
    assert("green"@.len() == 5 && "neutral"@.len() == 7);
    assert("green"@ != "neutral"@);
    assert("green"@.len() == 5 && "safe"@.len() == 4);
    assert("green"@ != "safe"@);
    assert("danger"@.len() == 6 && "neutral"@.len() == 7);
    assert("danger"@ != "neutral"@);
    assert("danger"@.len() == 6 && "safe"@.len() == 4);
    assert("danger"@ != "safe"@);
    assert("danger"@.len() == 6 && "green"@.len() == 5);
    assert("danger"@ != "green"@);
    assert("red"@.len() == 3 && "neutral"@.len() == 7);
    assert("red"@ != "neutral"@);
    assert("red"@.len() == 3 && "safe"@.len() == 4);
    assert("red"@ != "safe"@);
    assert("red"@.len() == 3 && "green"@.len() == 5);
    assert("red"@ != "green"@);
    assert("red"@.len() == 3 && "danger"@.len() == 6);
    assert("red"@ != "danger"@);
    assert("unsafe"@.len() == 6 && "neutral"@.len() == 7);
    assert("unsafe"@ != "neutral"@);
    assert("unsafe"@.len() == 6 && "safe"@.len() == 4);
    assert("unsafe"@ != "safe"@);
    assert("unsafe"@.len() == 6 && "green"@.len() == 5);
    assert("unsafe"@ != "green"@);
    assert("unsafe"@[0] != "danger"@[0]);
    assert("unsafe"@ != "danger"@);
    assert("unsafe"@.len() == 6 && "red"@.len() == 3);
    assert("unsafe"@ != "red"@);
}

proof fn lemma_focus_words()
    ensures
        focus_command(Some("repo"@)) == CommandView::Focus(PreviewPane::Repository),
        focus_command(Some("repository"@)) == CommandView::Focus(PreviewPane::Repository),
        focus_command(Some("files"@)) == CommandView::Focus(PreviewPane::Repository),
        focus_command(Some("content"@)) == CommandView::Focus(PreviewPane::Content),
        focus_command(Some("destination"@)) == CommandView::Focus(PreviewPane::Content),
        focus_command(Some("git"@)) == CommandView::Focus(PreviewPane::Git),
        focus_command(Some("rsync"@)) == CommandView::Focus(PreviewPane::Rsync),
        focus_command(Some("status"@)) == CommandView::Focus(PreviewPane::Rsync),
{
    reveal_strlit("repo");
    reveal_strlit("repository");
    reveal_strlit("files");
    reveal_strlit("content");
    reveal_strlit("destination");
    reveal_strlit("git");
    reveal_strlit("rsync");
    reveal_strlit("status");
    assert("repository"@.len() == 10 && "repo"@.len() == 4);
    assert("repository"@ != "repo"@);
    assert("files"@.len() == 5 && "repo"@.len() == 4);
    assert("files"@ != "repo"@);
    assert("files"@.len() == 5 && "repository"@.len() == 10);
    assert("files"@ != "repository"@);
    assert("content"@.len() == 7 && "repo"@.len() == 4);
    assert("content"@ != "repo"@);
    assert("content"@.len() == 7 && "repository"@.len() == 10);
    assert("content"@ != "repository"@);
    assert("content"@.len() == 7 && "files"@.len() == 5);
    assert("content"@ != "files"@);
    assert("destination"@.len() == 11 && "repo"@.len() == 4);
    assert("destination"@ != "repo"@);
    assert("destination"@.len() == 11 && "repository"@.len() == 10);
    assert("destination"@ != "repository"@);
    assert("destination"@.len() == 11 && "files"@.len() == 5);
    assert("destination"@ != "files"@);
    assert("destination"@.len() == 11 && "content"@.len() == 7);
    assert("destination"@ != "content"@);
    assert("git"@.len() == 3 && "repo"@.len() == 4);
    assert("git"@ != "repo"@);
    assert("git"@.len() == 3 && "repository"@.len() == 10);
    assert("git"@ != "repository"@);
    assert("git"@.len() == 3 && "files"@.len() == 5);
    assert("git"@ != "files"@);
    assert("git"@.len() == 3 && "content"@.len() == 7);
    assert("git"@ != "content"@);
    assert("git"@.len() == 3 && "destination"@.len() == 11);
    assert("git"@ != "destination"@);
    assert("rsync"@.len() == 5 && "repo"@.len() == 4);
    assert("rsync"@ != "repo"@);
    assert("rsync"@.len() == 5 && "repository"@.len() == 10);
    assert("rsync"@ != "repository"@);
    assert("rsync"@[0] != "files"@[0]);
    assert("rsync"@ != "files"@);
    assert("rsync"@.len() == 5 && "content"@.len() == 7);
    assert("rsync"@ != "content"@);
    assert("rsync"@.len() == 5 && "destination"@.len() == 11);
    assert("rsync"@ != "destination"@);
    assert("rsync"@.len() == 5 && "git"@.len() == 3);
    assert("rsync"@ != "git"@);
    assert("status"@.len() == 6 && "repo"@.len() == 4);
    assert("status"@ != "repo"@);
    assert("status"@.len() == 6 && "repository"@.len() == 10);
    assert("status"@ != "repository"@);
    assert("status"@.len() == 6 && "files"@.len() == 5);
    assert("status"@ != "files"@);
    assert("status"@.len() == 6 && "content"@.len() == 7);
    assert("status"@ != "content"@);
    assert("status"@.len() == 6 && "destination"@.len() == 11);
    assert("status"@ != "destination"@);
    assert("status"@.len() == 6 && "git"@.len() == 3);
    assert("status"@ != "git"@);
    assert("status"@.len() == 6 && "rsync"@.len() == 5);
    assert("status"@ != "rsync"@);
}

} // verus!
