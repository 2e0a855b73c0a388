use minecraft_manager::chat::ChatMessage;
use minecraft_manager::events::{JoinLeaveEvent, MinecraftServerEventType};
use minecraft_manager::parse_line::{
    helper_chat_event, parse_helper_reply, parse_line, ClassifyOutcome, HelperReply, ParseError,
    ParseOutput,
};
use minecraft_manager::{MinecraftServerSettings, MinecraftServerType};

fn mojang_settings() -> MinecraftServerSettings {
    MinecraftServerSettings::new(
        MinecraftServerType::VanillaMojang,
        "/srv/mc".to_owned(),
        "server.jar".to_owned(),
    )
}

fn papermc_settings() -> MinecraftServerSettings {
    MinecraftServerSettings::new(
        MinecraftServerType::VanillaPaperMC,
        "/srv/mc".to_owned(),
        "server.jar".to_owned(),
    )
}

fn custom_settings() -> MinecraftServerSettings {
    MinecraftServerSettings::new(
        MinecraftServerType::Custom {
            name: "mine".to_owned(),
            line_parser: "helper.py".to_owned(),
            command_override: None,
        },
        "/srv/mc".to_owned(),
        "server.jar".to_owned(),
    )
}

fn chat(author: &str, message: &str) -> ClassifyOutcome {
    ClassifyOutcome::Done(ParseOutput::Event(MinecraftServerEventType::ChatMessage(
        ChatMessage { author: author.to_owned(), message: message.to_owned() },
    )))
}

fn join_leave(username: &str, joined: bool) -> ClassifyOutcome {
    ClassifyOutcome::Done(ParseOutput::Event(MinecraftServerEventType::JoinLeave(
        JoinLeaveEvent { username: username.to_owned(), joined },
    )))
}

fn nothing() -> ClassifyOutcome {
    ClassifyOutcome::Done(ParseOutput::Nothing)
}

#[test]
fn blank_lines_are_nothing_for_every_variant() {
    for settings in [mojang_settings(), papermc_settings(), custom_settings()] {
        assert_eq!(parse_line("", &settings), nothing());
        assert_eq!(parse_line("   ", &settings), nothing());
        assert_eq!(parse_line("\t \u{a0}\u{2003}", &settings), nothing());
    }
}

#[test]
fn mojang_chat_line_yields_author_and_message() {
    assert_eq!(
        parse_line("[12:00:01] [Server thread/INFO]: <Alice> hello there", &mojang_settings()),
        chat("Alice", "hello there")
    );
}

#[test]
fn mojang_join_line_yields_join_event() {
    assert_eq!(
        parse_line("[12:00:01] [Server thread/INFO]: Alice joined the game", &mojang_settings()),
        join_leave("Alice", true)
    );
}

#[test]
fn mojang_leave_line_yields_leave_event() {
    assert_eq!(
        parse_line("[12:00:01] [Server thread/INFO]: Alice left the game", &mojang_settings()),
        join_leave("Alice", false)
    );
}

#[test]
fn papermc_chat_line_yields_author_and_message() {
    assert_eq!(parse_line("[12:00:01 INFO]: <Bob> hi", &papermc_settings()), chat("Bob", "hi"));
}

#[test]
fn papermc_join_line_yields_join_event() {
    assert_eq!(
        parse_line("[12:00:01 INFO]: Carol joined the game", &papermc_settings()),
        join_leave("Carol", true)
    );
}

#[test]
fn papermc_leave_line_yields_leave_event() {
    assert_eq!(
        parse_line("[12:00:01 INFO]: Carol left the game", &papermc_settings()),
        join_leave("Carol", false)
    );
}

#[test]
fn papermc_other_severity_is_nothing() {
    assert_eq!(parse_line("[12:00:01 WARN]: <Bob> hi", &papermc_settings()), nothing());
}

#[test]
fn papermc_other_payload_is_nothing() {
    assert_eq!(
        parse_line("[12:00:01 INFO]: Preparing spawn area", &papermc_settings()),
        nothing()
    );
}

#[test]
fn malformed_lines_are_nothing_not_errors() {
    assert_eq!(parse_line("plain words", &mojang_settings()), nothing());
    assert_eq!(parse_line("plain words", &papermc_settings()), nothing());
    assert_eq!(parse_line("no bracket 12:00 INFO]: x", &papermc_settings()), nothing());
    assert_eq!(parse_line("[nospace]", &papermc_settings()), nothing());
}

#[test]
fn mojang_chat_without_closing_bracket_is_nothing() {
    // The first format tries chat first: a payload opening with `<` that
    // never closes is dropped, even if a join suffix follows.
    assert_eq!(
        parse_line(
            "[12:00:01] [Server thread/INFO]: <Alice joined the game",
            &mojang_settings()
        ),
        nothing()
    );
}

#[test]
fn papermc_unclosed_chat_falls_back_to_suffixes() {
    // The second format falls through to the join/leave checks when the
    // chat shape does not complete.
    assert_eq!(
        parse_line("[12:00:01 INFO]: <Alice joined the game", &papermc_settings()),
        join_leave("<Alice", true)
    );
}

#[test]
fn custom_variant_asks_helper_for_non_blank_lines() {
    assert_eq!(parse_line("anything at all", &custom_settings()), ClassifyOutcome::AskHelper);
}

#[test]
fn helper_join_reply() {
    assert_eq!(
        parse_helper_reply("jSteve"),
        HelperReply::Done(ParseOutput::Event(MinecraftServerEventType::JoinLeave(
            JoinLeaveEvent { username: "Steve".to_owned(), joined: true }
        )))
    );
}

#[test]
fn helper_leave_reply() {
    assert_eq!(
        parse_helper_reply("lSteve"),
        HelperReply::Done(ParseOutput::Event(MinecraftServerEventType::JoinLeave(
            JoinLeaveEvent { username: "Steve".to_owned(), joined: false }
        )))
    );
}

#[test]
fn helper_chat_reply_takes_message_from_second_line() {
    let first = parse_helper_reply("cAlice");
    assert_eq!(first, HelperReply::Chat { author: "Alice".to_owned() });
    if let HelperReply::Chat { author } = first {
        assert_eq!(
            helper_chat_event(author, "hello".to_owned()),
            ParseOutput::Event(MinecraftServerEventType::ChatMessage(ChatMessage {
                author: "Alice".to_owned(),
                message: "hello".to_owned(),
            }))
        );
    }
}

#[test]
fn helper_error_replies() {
    assert_eq!(
        parse_helper_reply("e"),
        HelperReply::Done(ParseOutput::Error(ParseError::Custom(String::new())))
    );
    assert_eq!(
        parse_helper_reply("ecboom"),
        HelperReply::Done(ParseOutput::Error(ParseError::Custom("boom".to_owned())))
    );
    assert_eq!(
        parse_helper_reply("ex"),
        HelperReply::Done(ParseOutput::Error(ParseError::Custom(String::new())))
    );
}

#[test]
fn helper_unknown_or_empty_reply_is_nothing() {
    assert_eq!(parse_helper_reply(""), HelperReply::Done(ParseOutput::Nothing));
    assert_eq!(parse_helper_reply("zwhatever"), HelperReply::Done(ParseOutput::Nothing));
}
