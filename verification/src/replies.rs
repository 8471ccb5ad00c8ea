//! Replies the bot owes: one variant per outcome, and the exact text each one
//! renders to.

use vstd::prelude::*;
use vstd::string::*;

verus! {

/// The outcome of handling one inbound event, to be rendered and sent.
#[derive(Debug, PartialEq, Eq)]
pub enum Reply {
    /// The combined description of every command.
    Help,
    /// The chat restricts nobody yet.
    EmptyList,
    /// The chat's restricted logins, in stored order.
    RestrictedLogins(Vec<String>),
    /// A forwarded message came from a restricted source.
    Warning,
    /// The sender is no administrator of the chat.
    NotAdmin,
    /// The handle was resolved and its source restricted.
    AddedRestriction(String),
    /// Every identity under the handle was removed, or none was there.
    RemovedRestriction,
    /// The handle resolved to no real chat; nothing changed.
    LookupFailed(String),
    /// The predefined sources were loaded into a newly joined chat.
    SeedLoaded,
}

/// One `@login` line per listed login, in order.
pub open spec fn lines_model(logins: Seq<Seq<char>>) -> Seq<char>
    decreases logins.len(),
{
    if logins.len() == 0 {
        Seq::empty()
    } else {
        lines_model(logins.drop_last()) + "@"@ + logins.last() + "\n"@
    }
}

pub open spec fn help_text_model() -> Seq<char> {
    "Ми підтримуємо ці команди:\n/help — показує цей текст\n/restricted_list — список санкціонних груп\n\nТільки для адмінів:\n/fake — бот повідомить якщо користувач перешле інформацію з санкційного пабліку.\n/unfake — видалити з санкційного списку"@
}

/// The exact characters each reply renders to.
pub open spec fn reply_model(r: Reply) -> Seq<char> {
    match r {
        Reply::Help => help_text_model(),
        Reply::EmptyList => "Ого, нікого не бачу. Що ж це ми всім довіряємо?"@,
        Reply::RestrictedLogins(v) => "Зараз в бані:\n\n"@ + lines_model(
            v@.map_values(|s: String| s@),
        ),
        Reply::Warning => "ОБЕРЕЖНО: група розповсюджує фейки"@,
        Reply::NotAdmin => "Упс, а ти точно головнокомандувач? (адмін)"@,
        Reply::AddedRestriction(login) => login@ + " воєнний корабль, іди нахуй"@,
        Reply::RemovedRestriction => "Видалили з бази, або його там і не було"@,
        Reply::LookupFailed(login) => "Щось не те з "@ + login@ + ", перевір правильність даних"@,
        Reply::SeedLoaded => "Завантаження предефайнутих пабліків завершена"@,
    }
}

/// Renders a reply to the text the bot sends.
pub fn reply_text(r: &Reply) -> (t: String)
    ensures
        t@ == reply_model(*r),
{
    match r {
        Reply::Help => {
            "Ми підтримуємо ці команди:\n/help — показує цей текст\n/restricted_list — список санкціонних груп\n\nТільки для адмінів:\n/fake — бот повідомить якщо користувач перешле інформацію з санкційного пабліку.\n/unfake — видалити з санкційного списку".to_owned()
        },
        Reply::EmptyList => "Ого, нікого не бачу. Що ж це ми всім довіряємо?".to_owned(),
        Reply::RestrictedLogins(v) => {
            let mut t = "Зараз в бані:\n\n".to_owned();
            let mut i: usize = 0;
            while i < v.len()
                invariant
                    i <= v@.len(),
                    t@ == "Зараз в бані:\n\n"@ + lines_model(
                        v@.take(i as int).map_values(|s: String| s@),
                    ),
                decreases v@.len() - i,
            {
                t.append("@");
                t.append(v[i].as_str());
                t.append("\n");
                proof {
                    let f = |s: String| s@;
                    let cur = v@.take(i + 1).map_values(f);
                    assert(cur.drop_last() =~= v@.take(i as int).map_values(f));
                    assert(cur.last() == v@[i as int]@);
                    assert(t@ =~= "Зараз в бані:\n\n"@ + lines_model(cur));
                }
                i += 1;
            }
            proof {
                assert(v@.take(v@.len() as int) =~= v@);
            }
            t
        },
        Reply::Warning => "ОБЕРЕЖНО: група розповсюджує фейки".to_owned(),
        Reply::NotAdmin => "Упс, а ти точно головнокомандувач? (адмін)".to_owned(),
        Reply::AddedRestriction(login) => {
            let mut t = login.clone();
            t.append(" воєнний корабль, іди нахуй");
            t
        },
        Reply::RemovedRestriction => "Видалили з бази, або його там і не було".to_owned(),
        Reply::LookupFailed(login) => {
            let mut t = "Щось не те з ".to_owned();
            t.append(login.as_str());
            t.append(", перевір правильність даних");
            proof {
                assert(t@ =~= "Щось не те з "@ + login@ + ", перевір правильність даних"@);
            }
            t
        },
        Reply::SeedLoaded => "Завантаження предефайнутих пабліків завершена".to_owned(),
    }
}

} // verus!
