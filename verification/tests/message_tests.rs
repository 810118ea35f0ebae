use branch_sweep::branches::BranchDescriptor;
use branch_sweep::command::{parse_command, Command};
use branch_sweep::errors::Error;
use branch_sweep::messages::{
    deleted_message, empty_message, help_entries, help_header, ignore_message, prompt_pieces,
};

#[test]
fn command_alphabet() {
    assert_eq!(parse_command('k').unwrap(), Command::Keep);
    assert_eq!(parse_command('d').unwrap(), Command::Delete);
    assert_eq!(parse_command('q').unwrap(), Command::Quit);
    assert_eq!(parse_command('?').unwrap(), Command::ShowHelp);
}

#[test]
fn other_characters_are_invalid() {
    for c in ['K', 'D', 'Q', ' ', '\n', 'x', '0'] {
        match parse_command(c) {
            Err(Error::InvalidInput(got)) => assert_eq!(got, c),
            _ => panic!("expected {:?} to be rejected", c),
        }
    }
}

#[test]
fn empty_message_text() {
    assert_eq!(empty_message(), "Found no branches (master is ignored)");
}

#[test]
fn ignore_message_text() {
    assert_eq!(
        ignore_message(&"wip".to_string()),
        "Ignoring 'wip' because it is the current branch"
    );
}

#[test]
fn deleted_message_carries_name_and_full_id() {
    let id = "0123456789abcdef0123456789abcdef01234567".to_string();
    assert_eq!(
        deleted_message(&"old-work".to_string(), &id),
        "Deleted branch 'old-work', to undo run `git branch old-work 0123456789abcdef0123456789abcdef01234567`"
    );
}

#[test]
fn help_legend_text() {
    assert_eq!(help_header(), "Here are what the commands mean:");
    let entries = help_entries();
    let joined: Vec<String> = entries.iter().map(|(k, v)| format!("{}{}", k, v)).collect();
    assert_eq!(
        joined,
        vec![
            "k - Keep the branch",
            "d - Delete the branch",
            "q - Quit",
            "? - Show this help text",
        ]
    );
}

#[test]
fn prompt_pieces_text() {
    let d = BranchDescriptor {
        id: "0123456789abcdef0123456789abcdef01234567".to_string(),
        name: "feature-a".to_string(),
        local_secs: 0,
        time_display: "1970-01-01 00:00:00".to_string(),
        is_head: false,
    };
    let p = prompt_pieces(&d);
    assert_eq!(p.name_part, "'feature-a'");
    assert_eq!(p.id_part, "(0123456789)");
    assert_eq!(p.time_part, "1970-01-01 00:00:00");
    assert_eq!(p.legend, "(k/d/q/?)");
}

#[test]
fn error_messages() {
    assert_eq!(
        Error::Repository("cannot open repository".to_string()).message(),
        "cannot open repository"
    );
    assert_eq!(Error::Terminal("no tty".to_string()).message(), "no tty");
    assert_eq!(Error::Io("broken pipe".to_string()).message(), "broken pipe");
    assert_eq!(Error::Encoding.message(), "branch name is not valid UTF-8");
    assert_eq!(
        Error::InvalidInput('!').message(),
        "Invalid input, Don't know what '!' means"
    );
}
