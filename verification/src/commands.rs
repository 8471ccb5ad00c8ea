//! The command grammar and the router: what an inbound message means, and
//! which handler it is owed, in a fixed order of precedence.

use vstd::prelude::*;
use crate::text::str_eq;

verus! {

/// Commands every member may issue.
#[derive(Clone, Copy, PartialEq, Eq, Structural, Debug)]
pub enum GeneralCommand {
    Help,
    RestrictedList,
}

/// Commands reserved to chat administrators; each carries the handle it
/// targets, written as the sender typed it.
#[derive(Debug, PartialEq, Eq)]
pub enum AdminCommand {
    AddChatToRestriction(String),
    RemoveFromRestriction(String),
}

/// A recognized command of either kind.
#[derive(Debug, PartialEq, Eq)]
pub enum ParsedCommand {
    General(GeneralCommand),
    Admin(AdminCommand),
}

/// Where a forwarded message originally came from, as far as it is disclosed.
#[derive(Clone, Copy, PartialEq, Eq, Structural, Debug)]
pub enum ForwardOrigin {
    Chat(i64),
    User(u64),
    Hidden,
}

/// The handler an inbound message is routed to.
#[derive(Debug, PartialEq, Eq)]
pub enum Route {
    General(GeneralCommand),
    Admin(AdminCommand),
    Forward(ForwardOrigin),
    BotJoined,
    Ignore,
}

/// The mathematical picture of a recognized command: arguments as character
/// sequences.
pub enum CommandModel {
    Help,
    RestrictedList,
    AddChatToRestriction(Seq<char>),
    RemoveFromRestriction(Seq<char>),
}

pub open spec fn general_model(c: GeneralCommand) -> CommandModel {
    match c {
        GeneralCommand::Help => CommandModel::Help,
        GeneralCommand::RestrictedList => CommandModel::RestrictedList,
    }
}

pub open spec fn admin_model(c: AdminCommand) -> CommandModel {
    match c {
        AdminCommand::AddChatToRestriction(s) => CommandModel::AddChatToRestriction(s@),
        AdminCommand::RemoveFromRestriction(s) => CommandModel::RemoveFromRestriction(s@),
    }
}

pub open spec fn parsed_model(c: ParsedCommand) -> CommandModel {
    match c {
        ParsedCommand::General(g) => general_model(g),
        ParsedCommand::Admin(a) => admin_model(a),
    }
}

/// Index of the first space of a text, or its length when it has none.
pub open spec fn space_index(t: Seq<char>) -> int
    decreases t.len(),
{
    if t.len() == 0 {
        0
    } else if t[0] == ' ' {
        0
    } else {
        1 + space_index(t.drop_first())
    }
}

/// The command word: everything before the first space.
pub open spec fn head_of(t: Seq<char>) -> Seq<char> {
    t.take(space_index(t))
}

/// The argument: everything after the first space, empty when there is none.
pub open spec fn tail_of(t: Seq<char>) -> Seq<char> {
    if space_index(t) == t.len() {
        Seq::empty()
    } else {
        t.skip(space_index(t) + 1)
    }
}

/// A usable argument: one nonempty word without spaces.
pub open spec fn is_plain_arg(t: Seq<char>) -> bool {
    t.len() > 0 && forall|j: int| 0 <= j < t.len() ==> t[j] != ' '
}

/// The whole grammar: which command a message text spells, if any. The
/// no-argument commands admit no argument; the handle commands require one.
pub open spec fn parse_model(t: Seq<char>) -> Option<CommandModel> {
    let head = head_of(t);
    let arg = tail_of(t);
    if head == "/help"@ && space_index(t) == t.len() {
        Some(CommandModel::Help)
    } else if head == "/restricted_list"@ && space_index(t) == t.len() {
        Some(CommandModel::RestrictedList)
    } else if head == "/fake"@ && is_plain_arg(arg) {
        Some(CommandModel::AddChatToRestriction(arg))
    } else if head == "/unfake"@ && is_plain_arg(arg) {
        Some(CommandModel::RemoveFromRestriction(arg))
    } else {
        None
    }
}

/// An index left of the first space, with a space at it or the text's end,
/// is the first space index.
proof fn lemma_space_index(t: Seq<char>, i: int)
    requires
        0 <= i <= t.len(),
        forall|j: int| 0 <= j < i ==> t[j] != ' ',
        i < t.len() ==> t[i] == ' ',
    ensures
        space_index(t) == i,
    decreases t.len(),
{
    if t.len() == 0 {
    } else if t[0] == ' ' {
        assert(i == 0);
    } else {
        assert(i > 0);
        assert(forall|j: int| 0 <= j < i - 1 ==> t.drop_first()[j] != ' ');
        lemma_space_index(t.drop_first(), i - 1);
    }
}

/// Index of the first space character, or the text's length when it has none.
fn find_space(text: &str) -> (r: usize)
    ensures
        r <= text@.len(),
        forall|j: int| 0 <= j < r ==> text@[j] != ' ',
        r < text@.len() ==> text@[r as int] == ' ',
        space_index(text@) == r,
{
    let len = text.unicode_len();
    let mut i: usize = 0;
    while i < len
        invariant
            i <= len,
            len == text@.len(),
            forall|j: int| 0 <= j < i ==> text@[j] != ' ',
        decreases len - i,
    {
        if text.get_char(i) == ' ' {
            proof {
                lemma_space_index(text@, i as int);
            }
            return i;
        }
        i += 1;
    }
    proof {
        lemma_space_index(text@, len as int);
    }
    len
}

/// Reads a message text as a command, exactly as the grammar says.
pub fn parse_command(text: &str) -> (r: Option<ParsedCommand>)
    ensures
        match r {
            Some(c) => parse_model(text@) == Some(parsed_model(c)),
            None => parse_model(text@) is None,
        },
{
    let len = text.unicode_len();
    let si = find_space(text);
    let head = text.substring_char(0, si);
    proof {
        assert(head@ =~= head_of(text@));
    }
    if si == len {
        proof {
            assert(tail_of(text@) =~= Seq::<char>::empty());
        }
        if str_eq(head, "/help") {
            Some(ParsedCommand::General(GeneralCommand::Help))
        } else if str_eq(head, "/restricted_list") {
            Some(ParsedCommand::General(GeneralCommand::RestrictedList))
        } else {
            None
        }
    } else {
        let arg = text.substring_char(si + 1, len);
        proof {
            assert(arg@ =~= tail_of(text@));
        }
        let arg_len = arg.unicode_len();
        let plain = arg_len > 0 && find_space(arg) == arg_len;
        if plain && str_eq(head, "/fake") {
            Some(ParsedCommand::Admin(AdminCommand::AddChatToRestriction(arg.to_owned())))
        } else if plain && str_eq(head, "/unfake") {
            Some(ParsedCommand::Admin(AdminCommand::RemoveFromRestriction(arg.to_owned())))
        } else {
            None
        }
    }
}

/// Whether a member list carries this id.
pub(crate) fn members_contain(v: &Vec<u64>, x: u64) -> (r: bool)
    ensures
        r == v@.contains(x),
{
    let mut i: usize = 0;
    while i < v.len()
        invariant
            i <= v@.len(),
            forall|j: int| 0 <= j < i ==> v@[j] != x,
        decreases v@.len() - i,
    {
        if v[i] == x {
            return true;
        }
        i += 1;
    }
    false
}

/// Routes one inbound message, first match winning: a recognized general or
/// admin command; else a forwarded message; else a membership change that
/// brings in the bot itself; else nothing.
pub fn classify(
    text: Option<&str>,
    forward: Option<ForwardOrigin>,
    new_members: &Vec<u64>,
    bot_id: u64,
) -> (r: Route)
    ensures
        ({
            let parsed = match text {
                Some(t) => parse_model(t@),
                None => None::<CommandModel>,
            };
            match r {
                Route::General(g) => parsed == Some(general_model(g)),
                Route::Admin(a) => parsed == Some(admin_model(a)),
                Route::Forward(f) => parsed is None && forward == Some(f),
                Route::BotJoined => parsed is None && forward is None && new_members@.contains(
                    bot_id,
                ),
                Route::Ignore => parsed is None && forward is None && !new_members@.contains(
                    bot_id,
                ),
            }
        }),
{
    let parsed = match text {
        Some(t) => parse_command(t),
        None => None,
    };
    match parsed {
        Some(ParsedCommand::General(g)) => Route::General(g),
        Some(ParsedCommand::Admin(a)) => Route::Admin(a),
        None => match forward {
            Some(f) => Route::Forward(f),
            None => {
                if members_contain(new_members, bot_id) {
                    Route::BotJoined
                } else {
                    Route::Ignore
                }
            },
        },
    }
}

} // verus!
