//! The handlers' decisions: who may mutate, what each event does to the
//! store, and which reply it earns. Fetching rosters, resolving handles and
//! sending replies stay with the transport layer; it hands plain values in
//! and carries the decided reply out.

use vstd::prelude::*;
use vstd::string::*;
use crate::commands::{members_contain, AdminCommand, ForwardOrigin, GeneralCommand};
use crate::replies::Reply;
use crate::store::{add_pair, contains_source, logins_of, without_login, RestrictionStore};

verus! {

/// The admin gate: whether the sender appears in the chat's current
/// administrator roster. An undisclosed sender is no administrator.
pub fn is_admin(roster: &Vec<u64>, sender: Option<u64>) -> (r: bool)
    ensures
        r == match sender {
            Some(u) => roster@.contains(u),
            None => false,
        },
{
    match sender {
        Some(u) => members_contain(roster, u),
        None => false,
    }
}

/// The handle as the platform wants it for lookup: prefixed with `@` unless
/// the sender already typed it that way.
pub fn normalize_handle(login: &str) -> (r: String)
    ensures
        r@ == if login@.len() > 0 && login@[0] == '@' {
            login@
        } else {
            "@"@ + login@
        },
{
    let len = login.unicode_len();
    if len > 0 && login.get_char(0) == '@' {
        login.to_owned()
    } else {
        let mut s = "@".to_owned();
        s.append(login);
        s
    }
}

/// A forwarded message earns a warning exactly when its origin is itself a
/// chat or channel and that source is restricted in the receiving chat;
/// user-sourced and undisclosed forwards pass silently.
pub fn handle_forward(store: &RestrictionStore, chat_id: i64, origin: ForwardOrigin) -> (r: Option<
    Reply,
>)
    ensures
        match origin {
            ForwardOrigin::Chat(src) => r == if contains_source(store.chat_model(chat_id), src) {
                Some(Reply::Warning)
            } else {
                None::<Reply>
            },
            _ => r is None,
        },
{
    match origin {
        ForwardOrigin::Chat(src) => {
            if store.is_chat_restricted(chat_id, src) {
                Some(Reply::Warning)
            } else {
                None
            }
        },
        _ => None,
    }
}

/// A general command never touches the store: `help` earns the help text,
/// `restricted_list` the chat's listing, or the friendly empty message.
pub fn handle_general(store: &RestrictionStore, chat_id: i64, cmd: GeneralCommand) -> (r: Reply)
    ensures
        match cmd {
            GeneralCommand::Help => r == Reply::Help,
            GeneralCommand::RestrictedList => ({
                let logins = logins_of(store.chat_model(chat_id));
                if logins.len() == 0 {
                    r == Reply::EmptyList
                } else {
                    &&& r matches Reply::RestrictedLogins(v)
                    &&& v@.map_values(|s: String| s@) == logins
                }
            }),
        },
{
    match cmd {
        GeneralCommand::Help => Reply::Help,
        GeneralCommand::RestrictedList => {
            let list = store.restriction_list(chat_id);
            if list.len() == 0 {
                proof {
                    assert(list@.map_values(|s: String| s@).len() == 0);
                }
                Reply::EmptyList
            } else {
                Reply::RestrictedLogins(list)
            }
        },
    }
}

/// An admin command's whole effect. A sender who is no administrator
/// mutates nothing and earns the denial. An add whose handle resolved to no
/// chat mutates nothing and earns the data-error reply; a resolved one joins
/// the chat's set. A removal always strips the handle's entries and confirms.
pub fn handle_admin_command(
    store: &mut RestrictionStore,
    chat_id: i64,
    sender_is_admin: bool,
    cmd: &AdminCommand,
    resolved: Option<i64>,
) -> (r: Reply)
    ensures
        !sender_is_admin ==> {
            &&& r == Reply::NotAdmin
            &&& forall|c: i64| #[trigger] final(store).chat_model(c) == old(store).chat_model(c)
            &&& forall|c: i64| #[trigger] final(store).has_record(c) == old(store).has_record(c)
        },
        sender_is_admin ==> match *cmd {
            AdminCommand::AddChatToRestriction(login) => match resolved {
                Some(id) => {
                    &&& final(store).chat_model(chat_id) == add_pair(
                        old(store).chat_model(chat_id),
                        id,
                        login@,
                    )
                    &&& forall|c: i64|
                        c != chat_id ==> #[trigger] final(store).chat_model(c) == old(
                            store,
                        ).chat_model(c)
                    &&& r matches Reply::AddedRestriction(l) && l@ == login@
                },
                None => {
                    &&& forall|c: i64| #[trigger]
                        final(store).chat_model(c) == old(store).chat_model(c)
                    &&& forall|c: i64| #[trigger]
                        final(store).has_record(c) == old(store).has_record(c)
                    &&& r matches Reply::LookupFailed(l) && l@ == login@
                },
            },
            AdminCommand::RemoveFromRestriction(login) => {
                &&& final(store).chat_model(chat_id) == without_login(
                    old(store).chat_model(chat_id),
                    login@,
                )
                &&& forall|c: i64|
                    c != chat_id ==> #[trigger] final(store).chat_model(c) == old(
                        store,
                    ).chat_model(c)
                &&& r == Reply::RemovedRestriction
            },
        },
{
    if !sender_is_admin {
        return Reply::NotAdmin;
    }
    match cmd {
        AdminCommand::AddChatToRestriction(login) => match resolved {
            Some(id) => {
                store.add_to_restrictions(chat_id, id, login.as_str());
                Reply::AddedRestriction(login.clone())
            },
            None => Reply::LookupFailed(login.clone()),
        },
        AdminCommand::RemoveFromRestriction(login) => {
            store.remove_from_restrictions(chat_id, login.as_str());
            Reply::RemovedRestriction
        },
    }
}

} // verus!
