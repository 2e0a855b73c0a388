//! The line classifier: one raw output line becomes at most one domain
//! event.
//!
//! Two log formats are built in and classified here in full. For the
//! custom server kind the line is answered by a separate helper process;
//! this module decides when to ask it and how to read its reply, while
//! the pipe I/O itself stays with the supervisor's driver.

use crate::chat::{ChatMessage, ChatMessageView};
use crate::events::{EventTypeView, JoinLeaveEvent, JoinLeaveView, MinecraftServerEventType};
use crate::text::{
    ends_with_str, find_str, is_blank, is_blank_str, spec_ends_with, spec_find, spec_starts_with,
    spec_trim, starts_with_str, str_eq_str, trim_str,
};
use crate::MinecraftServerSettings;
use crate::MinecraftServerType;
use vstd::prelude::*;

verus! {

/// What classifying one line yields.
#[derive(Debug, PartialEq, Eq)]
pub enum ParseOutput {
    Nothing,
    Error(ParseError),
    Event(MinecraftServerEventType),
}

#[derive(Debug, PartialEq, Eq)]
pub enum ParseError {
    /// Any other error, as a custom line-classifier helper reported it.
    Custom(String),
}

/// The mathematical value of a `ParseOutput`.
pub ghost enum ParseOutputView {
    Nothing,
    Error(Seq<char>),
    Event(EventTypeView),
}

impl View for ParseError {
    type V = Seq<char>;

    open spec fn view(&self) -> Seq<char> {
        match self {
            ParseError::Custom(s) => s@,
        }
    }
}

impl View for ParseOutput {
    type V = ParseOutputView;

    open spec fn view(&self) -> ParseOutputView {
        match self {
            ParseOutput::Nothing => ParseOutputView::Nothing,
            ParseOutput::Error(e) => ParseOutputView::Error(e@),
            ParseOutput::Event(ev) => ParseOutputView::Event(ev@),
        }
    }
}

/// A chat event, at the spec level.
pub open spec fn chat_view(author: Seq<char>, message: Seq<char>) -> ParseOutputView {
    ParseOutputView::Event(EventTypeView::ChatMessage(ChatMessageView { author, message }))
}

/// A join or leave event, at the spec level.
pub open spec fn join_leave_view(username: Seq<char>, joined: bool) -> ParseOutputView {
    ParseOutputView::Event(EventTypeView::JoinLeave(JoinLeaveView { username, joined }))
}

/// The payload suffix announcing that a player joined.
pub open spec fn joined_suffix() -> Seq<char> {
    " joined the game"@
}

/// The payload suffix announcing that a player left.
pub open spec fn left_suffix() -> Seq<char> {
    " left the game"@
}

/// The separator between timestamp and payload in the first built-in
/// format.
pub open spec fn info_separator() -> Seq<char> {
    "] [Server thread/INFO]: "@
}

/// Classifies the (already trimmed) payload of a first-format line:
/// `<name> text` is chat; the two fixed suffixes are join and leave;
/// everything else is nothing.
pub open spec fn classify_payload_mojang(p: Seq<char>) -> ParseOutputView {
    if spec_starts_with(p, "<"@) {
        match spec_find(p.skip(1), "> "@) {
            Some(k) => chat_view(
                p.skip(1).subrange(0, k),
                p.skip(1).subrange(k + 2, p.skip(1).len() as int),
            ),
            None => ParseOutputView::Nothing,
        }
    } else if spec_ends_with(p, joined_suffix()) {
        join_leave_view(p.subrange(0, p.len() - joined_suffix().len()), true)
    } else if spec_ends_with(p, left_suffix()) {
        join_leave_view(p.subrange(0, p.len() - left_suffix().len()), false)
    } else {
        ParseOutputView::Nothing
    }
}

/// Classifies a whole line of the first built-in format: the first
/// character is skipped, the fixed separator must occur, and what follows
/// it is the payload, trimmed.
pub open spec fn classify_mojang_line(line: Seq<char>) -> ParseOutputView {
    if line.len() < 1 {
        ParseOutputView::Nothing
    } else {
        let tail = line.skip(1);
        match spec_find(tail, info_separator()) {
            Some(k) => classify_payload_mojang(
                spec_trim(tail.subrange(k + info_separator().len(), tail.len() as int)),
            ),
            None => ParseOutputView::Nothing,
        }
    }
}

/// Classifies the payload of a second-format line. Chat needs a `<`, a
/// later `>`, and at least one character after the `>`; otherwise the two
/// fixed suffixes are join and leave.
pub open spec fn classify_payload_papermc(p: Seq<char>) -> ParseOutputView {
    let chat: Option<ParseOutputView> = if p.len() > 0 && p[0] == '<' {
        match spec_find(p.skip(1), ">"@) {
            Some(k) => {
                let after = p.skip(1).skip(k + 1);
                if after.len() >= 1 {
                    Some(chat_view(p.skip(1).subrange(0, k), after.skip(1)))
                } else {
                    None
                }
            },
            None => None,
        }
    } else {
        None
    };
    match chat {
        Some(c) => c,
        None => {
            if spec_ends_with(p, joined_suffix()) {
                join_leave_view(p.subrange(0, p.len() - joined_suffix().len()), true)
            } else if spec_ends_with(p, left_suffix()) {
                join_leave_view(p.subrange(0, p.len() - left_suffix().len()), false)
            } else {
                ParseOutputView::Nothing
            }
        },
    }
}

/// Classifies a trimmed first-format payload.
fn classify_payload_mojang_exec(p: &str) -> (r: ParseOutput)
    ensures
        r@ == classify_payload_mojang(p@),
{
    proof {
        reveal_strlit("<");
        reveal_strlit("> ");
        reveal_strlit(" joined the game");
        reveal_strlit(" left the game");
    }
    let n = p.unicode_len();
    if starts_with_str(p, "<") {
        let tail = p.substring_char(1, n);
        proof {
            assert(tail@ =~= p@.skip(1));
        }
        match find_str(tail, "> ") {
            Some(k) => {
                let author = tail.substring_char(0, k).to_owned();
                let message = tail.substring_char(k + 2, n - 1).to_owned();
                proof {
                    assert(author@ =~= p@.skip(1).subrange(0, k as int));
                    assert(message@ =~= p@.skip(1).subrange(k + 2, p@.skip(1).len() as int));
                }
                ParseOutput::Event(
                    MinecraftServerEventType::ChatMessage(ChatMessage { author, message }),
                )
            },
            None => ParseOutput::Nothing,
        }
    } else if ends_with_str(p, " joined the game") {
        let m = " joined the game".unicode_len();
        let username = p.substring_char(0, n - m).to_owned();
        ParseOutput::Event(
            MinecraftServerEventType::JoinLeave(JoinLeaveEvent { username, joined: true }),
        )
    } else if ends_with_str(p, " left the game") {
        let m = " left the game".unicode_len();
        let username = p.substring_char(0, n - m).to_owned();
        ParseOutput::Event(
            MinecraftServerEventType::JoinLeave(JoinLeaveEvent { username, joined: false }),
        )
    } else {
        ParseOutput::Nothing
    }
}

/// Classifies one line of the first built-in format.
fn classify_mojang_exec(line: &str) -> (r: ParseOutput)
    ensures
        r@ == classify_mojang_line(line@),
{
    let n = line.unicode_len();
    if n < 1 {
        return ParseOutput::Nothing;
    }
    let tail = line.substring_char(1, n);
    proof {
        assert(tail@ =~= line@.skip(1));
    }
    let sep = "] [Server thread/INFO]: ";
    match find_str(tail, sep) {
        Some(k) => {
            let m = sep.unicode_len();
            let payload_raw = tail.substring_char(k + m, n - 1);
            proof {
                assert(payload_raw@ =~= tail@.subrange(
                    k + info_separator().len(),
                    tail@.len() as int,
                ));
            }
            let payload = trim_str(payload_raw);
            classify_payload_mojang_exec(payload)
        },
        None => ParseOutput::Nothing,
    }
}

/// Classifies a second-format payload.
fn classify_payload_papermc_exec(p: &str) -> (r: ParseOutput)
    ensures
        r@ == classify_payload_papermc(p@),
{
    proof {
        reveal_strlit("<");
        reveal_strlit(">");
        reveal_strlit(" joined the game");
        reveal_strlit(" left the game");
    }
    let n = p.unicode_len();
    if n > 0 && p.get_char(0) == '<' {
        let tail = p.substring_char(1, n);
        proof {
            assert(tail@ =~= p@.skip(1));
        }
        match find_str(tail, ">") {
            Some(k) => {
                if k + 2 <= n - 1 {
                    let author = tail.substring_char(0, k).to_owned();
                    let message = tail.substring_char(k + 2, n - 1).to_owned();
                    proof {
                        let after = p@.skip(1).skip(k + 1);
                        assert(after.len() >= 1);
                        assert(author@ =~= p@.skip(1).subrange(0, k as int));
                        assert(message@ =~= after.skip(1));
                    }
                    return ParseOutput::Event(
                        MinecraftServerEventType::ChatMessage(ChatMessage { author, message }),
                    );
                }
                proof {
                    assert(p@.skip(1).skip(k + 1).len() < 1);
                }
                classify_payload_papermc_suffixes(p)
            },
            None => classify_payload_papermc_suffixes(p),
        }
    } else {
        classify_payload_papermc_suffixes(p)
    }
}

/// The join/leave half of the second-format payload rules.
fn classify_payload_papermc_suffixes(p: &str) -> (r: ParseOutput)
    requires
        !(classify_payload_papermc(p@) matches ParseOutputView::Event(
            EventTypeView::ChatMessage(_),
        )),
    ensures
        r@ == classify_payload_papermc(p@),
{
    proof {
        reveal_strlit(" joined the game");
        reveal_strlit(" left the game");
    }
    let n = p.unicode_len();
    if ends_with_str(p, " joined the game") {
        let m = " joined the game".unicode_len();
        let username = p.substring_char(0, n - m).to_owned();
        ParseOutput::Event(
            MinecraftServerEventType::JoinLeave(JoinLeaveEvent { username, joined: true }),
        )
    } else if ends_with_str(p, " left the game") {
        let m = " left the game".unicode_len();
        let username = p.substring_char(0, n - m).to_owned();
        ParseOutput::Event(
            MinecraftServerEventType::JoinLeave(JoinLeaveEvent { username, joined: false }),
        )
    } else {
        ParseOutput::Nothing
    }
}

/// Classifies one line of the second built-in format.
fn classify_papermc_exec(line: &str) -> (r: ParseOutput)
    ensures
        r@ == classify_papermc_line(line@),
{
    proof {
        reveal_strlit(" ");
        reveal_strlit("]");
        reveal_strlit(": ");
        reveal_strlit("INFO");
    }
    let n = line.unicode_len();
    if n == 0 || line.get_char(0) != '[' {
        return ParseOutput::Nothing;
    }
    let tail = line.substring_char(1, n);
    proof {
        assert(tail@ =~= line@.skip(1));
    }
    match find_str(tail, " ") {
        Some(k1) => {
            let rest = tail.substring_char(k1 + 1, n - 1);
            proof {
                assert(rest@ =~= tail@.skip(k1 + 1));
            }
            let rn = rest.unicode_len();
            match find_str(rest, "]") {
                Some(k2) => {
                    let severity = rest.substring_char(0, k2);
                    let rest2 = rest.substring_char(k2 + 1, rn);
                    proof {
                        assert(severity@ =~= rest@.subrange(0, k2 as int));
                        assert(rest2@ =~= rest@.skip(k2 + 1));
                    }
                    if starts_with_str(rest2, ": ") {
                        if str_eq_str(severity, "INFO") {
                            let payload = rest2.substring_char(2, rest2.unicode_len());
                            proof {
                                assert(payload@ =~= rest2@.skip(2));
                            }
                            classify_payload_papermc_exec(payload)
                        } else {
                            ParseOutput::Nothing
                        }
                    } else {
                        ParseOutput::Nothing
                    }
                },
                None => ParseOutput::Nothing,
            }
        },
        None => ParseOutput::Nothing,
    }
}

/// Classifies a whole line of the second built-in format:
/// `[time severity]: payload`, where only the informational severity
/// carries events.
pub open spec fn classify_papermc_line(line: Seq<char>) -> ParseOutputView {
    if line.len() > 0 && line[0] == '[' {
        let tail = line.skip(1);
        match spec_find(tail, " "@) {
            Some(k1) => {
                let rest = tail.skip(k1 + 1);
                match spec_find(rest, "]"@) {
                    Some(k2) => {
                        let severity = rest.subrange(0, k2);
                        let rest2 = rest.skip(k2 + 1);
                        if spec_starts_with(rest2, ": "@) {
                            if severity == "INFO"@ {
                                classify_payload_papermc(rest2.skip(2))
                            } else {
                                ParseOutputView::Nothing
                            }
                        } else {
                            ParseOutputView::Nothing
                        }
                    },
                    None => ParseOutputView::Nothing,
                }
            },
            None => ParseOutputView::Nothing,
        }
    } else {
        ParseOutputView::Nothing
    }
}

/// What `parse_line` asks of its caller: the classification is either
/// finished, or the line must be sent to the custom helper process and its
/// reply handed to `parse_helper_reply`.
#[derive(Debug, PartialEq, Eq)]
pub enum ClassifyOutcome {
    Done(ParseOutput),
    AskHelper,
}

/// Classifies one raw output line under the given settings.
///
/// Blank lines are nothing, whatever the server kind. For the two built-in
/// formats the line is classified here in full; for the custom kind the
/// caller must ask the helper process.
pub fn parse_line(line: &str, settings: &MinecraftServerSettings) -> (r: ClassifyOutcome)
    ensures
        is_blank(line@) ==> r == ClassifyOutcome::Done(ParseOutput::Nothing),
        !is_blank(line@) && settings.server_type is VanillaMojang ==> (r matches
            ClassifyOutcome::Done(o) && o@ == classify_mojang_line(line@)),
        !is_blank(line@) && settings.server_type is VanillaPaperMC ==> (r matches
            ClassifyOutcome::Done(o) && o@ == classify_papermc_line(line@)),
        !is_blank(line@) && settings.server_type is Custom ==> r == ClassifyOutcome::AskHelper,
{
    if is_blank_str(line) {
        return ClassifyOutcome::Done(ParseOutput::Nothing);
    }
    match &settings.server_type {
        MinecraftServerType::Custom { .. } => ClassifyOutcome::AskHelper,
        MinecraftServerType::VanillaMojang => ClassifyOutcome::Done(classify_mojang_exec(line)),
        MinecraftServerType::VanillaPaperMC => ClassifyOutcome::Done(classify_papermc_exec(line)),
    }
}

/// What the helper's first response line means.
#[derive(Debug, PartialEq, Eq)]
pub enum HelperReply {
    /// The helper announced a chat event; its next response line holds the
    /// message, and `helper_chat_event` combines the two.
    Chat { author: String },
    Done(ParseOutput),
}

/// The mathematical value of a `HelperReply`.
pub ghost enum HelperReplyView {
    Chat { author: Seq<char> },
    Done(ParseOutputView),
}

impl View for HelperReply {
    type V = HelperReplyView;

    open spec fn view(&self) -> HelperReplyView {
        match self {
            HelperReply::Chat { author } => HelperReplyView::Chat { author: author@ },
            HelperReply::Done(o) => HelperReplyView::Done(o@),
        }
    }
}

/// The helper-response grammar: the first character selects the outcome.
/// `c` is chat (author follows), `j` and `l` are join and leave (username
/// follows), `e` is an error, carrying a message only when `c` follows;
/// anything else, or an empty reply, is nothing.
pub open spec fn spec_helper_reply(line: Seq<char>) -> HelperReplyView {
    if line.len() == 0 {
        HelperReplyView::Done(ParseOutputView::Nothing)
    } else if line[0] == 'c' {
        HelperReplyView::Chat { author: line.skip(1) }
    } else if line[0] == 'j' {
        HelperReplyView::Done(join_leave_view(line.skip(1), true))
    } else if line[0] == 'l' {
        HelperReplyView::Done(join_leave_view(line.skip(1), false))
    } else if line[0] == 'e' {
        HelperReplyView::Done(
            ParseOutputView::Error(
                if line.len() > 1 && line[1] == 'c' {
                    line.skip(2)
                } else {
                    Seq::empty()
                },
            ),
        )
    } else {
        HelperReplyView::Done(ParseOutputView::Nothing)
    }
}

/// Reads the helper's first response line (without its terminator).
pub fn parse_helper_reply(line: &str) -> (r: HelperReply)
    ensures
        r@ == spec_helper_reply(line@),
{
    let n = line.unicode_len();
    if n == 0 {
        return HelperReply::Done(ParseOutput::Nothing);
    }
    let c = line.get_char(0);
    if c == 'c' {
        let author = line.substring_char(1, n).to_owned();
        proof {
            assert(author@ =~= line@.skip(1));
        }
        HelperReply::Chat { author }
    } else if c == 'j' {
        let username = line.substring_char(1, n).to_owned();
        proof {
            assert(username@ =~= line@.skip(1));
        }
        HelperReply::Done(
            ParseOutput::Event(
                MinecraftServerEventType::JoinLeave(JoinLeaveEvent { username, joined: true }),
            ),
        )
    } else if c == 'l' {
        let username = line.substring_char(1, n).to_owned();
        proof {
            assert(username@ =~= line@.skip(1));
        }
        HelperReply::Done(
            ParseOutput::Event(
                MinecraftServerEventType::JoinLeave(JoinLeaveEvent { username, joined: false }),
            ),
        )
    } else if c == 'e' {
        if n > 1 && line.get_char(1) == 'c' {
            let text = line.substring_char(2, n).to_owned();
            proof {
                assert(text@ =~= line@.skip(2));
            }
            HelperReply::Done(ParseOutput::Error(ParseError::Custom(text)))
        } else {
            let text = String::new();
            HelperReply::Done(ParseOutput::Error(ParseError::Custom(text)))
        }
    } else {
        HelperReply::Done(ParseOutput::Nothing)
    }
}

/// Under either built-in format, a payload that does not open a chat line
/// and ends in the join suffix classifies as a join event whose username
/// is the payload with the suffix stripped.
pub proof fn lemma_payload_joined(p: Seq<char>)
    requires
        p.len() > 0 ==> p[0] != '<',
        spec_ends_with(p, joined_suffix()),
    ensures
        classify_payload_mojang(p) == join_leave_view(
            p.subrange(0, p.len() - joined_suffix().len()),
            true,
        ),
        classify_payload_papermc(p) == join_leave_view(
            p.subrange(0, p.len() - joined_suffix().len()),
            true,
        ),
{
    reveal_strlit("<");
    reveal_strlit(" joined the game");
    assert(!spec_starts_with(p, "<"@)) by {
        if spec_starts_with(p, "<"@) {
            assert(p.subrange(0, 1) == "<"@);
            assert(p[0] == p.subrange(0, 1)[0]);
        }
    }
}

/// Under either built-in format, a payload that does not open a chat line
/// and ends in the leave suffix classifies as a leave event whose username
/// is the payload with the suffix stripped.
pub proof fn lemma_payload_left(p: Seq<char>)
    requires
        p.len() > 0 ==> p[0] != '<',
        spec_ends_with(p, left_suffix()),
    ensures
        classify_payload_mojang(p) == join_leave_view(
            p.subrange(0, p.len() - left_suffix().len()),
            false,
        ),
        classify_payload_papermc(p) == join_leave_view(
            p.subrange(0, p.len() - left_suffix().len()),
            false,
        ),
{
    reveal_strlit("<");
    reveal_strlit(" joined the game");
    reveal_strlit(" left the game");
    assert(!spec_starts_with(p, "<"@)) by {
        if spec_starts_with(p, "<"@) {
            assert(p.subrange(0, 1) == "<"@);
            assert(p[0] == p.subrange(0, 1)[0]);
        }
    }
    if spec_ends_with(p, joined_suffix()) {
        let n = p.len() as int;
        assert(p.subrange(n - 16, n)[2] == 'o');
        assert(p.subrange(n - 14, n)[0] == ' ');
        assert(p[n - 14] == 'o' && p[n - 14] == ' ');
        assert(false);
    }
}

/// The chat event for a helper reply: the author came on the first
/// response line, the message is the second.
pub fn helper_chat_event(author: String, message: String) -> (r: ParseOutput)
    ensures
        r@ == chat_view(author@, message@),
{
    ParseOutput::Event(MinecraftServerEventType::ChatMessage(ChatMessage { author, message }))
}

} // verus!
