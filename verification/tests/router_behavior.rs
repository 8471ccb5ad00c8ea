use fakeguard::commands::{
    classify, parse_command, AdminCommand, ForwardOrigin, GeneralCommand, ParsedCommand, Route,
};
use fakeguard::handlers::{is_admin, normalize_handle};

#[test]
fn parses_general_commands() {
    assert_eq!(
        parse_command("/help"),
        Some(ParsedCommand::General(GeneralCommand::Help))
    );
    assert_eq!(
        parse_command("/restricted_list"),
        Some(ParsedCommand::General(GeneralCommand::RestrictedList))
    );
}

#[test]
fn parses_admin_commands_with_one_argument() {
    assert_eq!(
        parse_command("/fake somechannel"),
        Some(ParsedCommand::Admin(AdminCommand::AddChatToRestriction(
            "somechannel".to_string()
        )))
    );
    assert_eq!(
        parse_command("/unfake somechannel"),
        Some(ParsedCommand::Admin(AdminCommand::RemoveFromRestriction(
            "somechannel".to_string()
        )))
    );
}

#[test]
fn rejects_unrecognized_or_malformed_texts() {
    assert_eq!(parse_command(""), None);
    assert_eq!(parse_command("hello there"), None);
    assert_eq!(parse_command("/frobnicate"), None);
    assert_eq!(parse_command("/fake"), None);
    assert_eq!(parse_command("/fake a b"), None);
    assert_eq!(parse_command("/help extra"), None);
    assert_eq!(parse_command("/restricted_list extra"), None);
    assert_eq!(parse_command("/unfake"), None);
}

#[test]
fn command_text_wins_over_forward_metadata() {
    let members: Vec<u64> = Vec::new();
    let r = classify(
        Some("/help"),
        Some(ForwardOrigin::Chat(5)),
        &members,
        10,
    );
    assert_eq!(r, Route::General(GeneralCommand::Help));
}

#[test]
fn forward_routes_when_text_is_no_command() {
    let members: Vec<u64> = Vec::new();
    let r = classify(Some("look at this"), Some(ForwardOrigin::Chat(5)), &members, 10);
    assert_eq!(r, Route::Forward(ForwardOrigin::Chat(5)));
    let r = classify(None, Some(ForwardOrigin::User(3)), &members, 10);
    assert_eq!(r, Route::Forward(ForwardOrigin::User(3)));
}

#[test]
fn joining_bot_routes_to_bootstrap() {
    let members: Vec<u64> = vec![4, 10, 12];
    assert_eq!(classify(None, None, &members, 10), Route::BotJoined);
    let others: Vec<u64> = vec![4, 12];
    assert_eq!(classify(None, None, &others, 10), Route::Ignore);
}

#[test]
fn plain_messages_are_ignored() {
    let members: Vec<u64> = Vec::new();
    assert_eq!(classify(Some("good morning"), None, &members, 10), Route::Ignore);
    assert_eq!(classify(None, None, &members, 10), Route::Ignore);
}

#[test]
fn admin_gate_checks_the_roster() {
    let roster: Vec<u64> = vec![1, 2, 3];
    assert!(is_admin(&roster, Some(2)));
    assert!(!is_admin(&roster, Some(4)));
    assert!(!is_admin(&roster, None));
    let empty: Vec<u64> = Vec::new();
    assert!(!is_admin(&empty, Some(1)));
}

#[test]
fn normalize_handle_prefixes_at_most_once() {
    assert_eq!(normalize_handle("somechannel"), "@somechannel");
    assert_eq!(normalize_handle("@somechannel"), "@somechannel");
    assert_eq!(normalize_handle(""), "@");
}
