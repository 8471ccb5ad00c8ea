use fakeguard::commands::{classify, AdminCommand, ForwardOrigin, GeneralCommand, Route};
use fakeguard::handlers::{handle_admin_command, handle_forward, handle_general, is_admin};
use fakeguard::replies::{reply_text, Reply};
use fakeguard::seed::{predefined_sources, seed_restrictions};
use fakeguard::store::RestrictionStore;

#[test]
fn admin_fake_then_forward_warns() {
    let mut store = RestrictionStore::new();
    let members: Vec<u64> = Vec::new();
    let route = classify(Some("/fake somechannel"), None, &members, 10);
    let cmd = match route {
        Route::Admin(c) => c,
        other => panic!("expected an admin command, got {:?}", other),
    };
    let roster: Vec<u64> = vec![77];
    let admin = is_admin(&roster, Some(77));
    assert!(admin);
    // the transport resolved the handle to source id 555
    let reply = handle_admin_command(&mut store, 100, admin, &cmd, Some(555));
    assert_eq!(reply, Reply::AddedRestriction("somechannel".to_string()));
    assert!(store.is_chat_restricted(100, 555));
    assert_eq!(store.restriction_list(100), vec!["somechannel".to_string()]);

    let warned = handle_forward(&store, 100, ForwardOrigin::Chat(555));
    assert_eq!(warned, Some(Reply::Warning));
    assert_eq!(handle_forward(&store, 100, ForwardOrigin::Chat(999)), None);
    assert_eq!(handle_forward(&store, 100, ForwardOrigin::User(555)), None);
    assert_eq!(handle_forward(&store, 100, ForwardOrigin::Hidden), None);
}

#[test]
fn non_admin_unfake_is_denied_and_store_untouched() {
    let mut store = RestrictionStore::new();
    store.add_to_restrictions(9, 5, "somechannel");
    let roster: Vec<u64> = vec![1, 2];
    let admin = is_admin(&roster, Some(3));
    assert!(!admin);
    let cmd = AdminCommand::RemoveFromRestriction("somechannel".to_string());
    let reply = handle_admin_command(&mut store, 9, admin, &cmd, None);
    assert_eq!(reply, Reply::NotAdmin);
    assert_eq!(store.restriction_list(9), vec!["somechannel".to_string()]);
    assert!(store.is_chat_restricted(9, 5));
}

#[test]
fn joining_a_chat_seeds_the_predefined_list() {
    let mut store = RestrictionStore::new();
    let reply = seed_restrictions(&mut store, 500);
    assert_eq!(reply, Reply::SeedLoaded);
    let sources = predefined_sources();
    assert_eq!(sources.len(), 63);
    for entry in &sources {
        assert!(store.is_chat_restricted(500, entry.source_id));
    }
    // two entries repeat in the built-in list; the set keeps each once
    assert_eq!(store.restriction_list(500).len(), 61);
    // other chats stay untouched
    assert!(store.restriction_list(123).is_empty());
}

#[test]
fn unresolved_fake_reports_data_error_and_changes_nothing() {
    let mut store = RestrictionStore::new();
    let cmd = AdminCommand::AddChatToRestriction("nochannel".to_string());
    let reply = handle_admin_command(&mut store, 100, true, &cmd, None);
    assert_eq!(reply, Reply::LookupFailed("nochannel".to_string()));
    assert!(store.restriction_list(100).is_empty());
    assert!(!store.is_chat_restricted(100, 555));
}

#[test]
fn admin_unfake_confirms_even_when_nothing_matched() {
    let mut store = RestrictionStore::new();
    let cmd = AdminCommand::RemoveFromRestriction("ghost".to_string());
    let reply = handle_admin_command(&mut store, 4, true, &cmd, None);
    assert_eq!(reply, Reply::RemovedRestriction);
    assert!(store.restriction_list(4).is_empty());
}

#[test]
fn general_commands_never_touch_the_store() {
    let mut store = RestrictionStore::new();
    assert_eq!(handle_general(&store, 1, GeneralCommand::Help), Reply::Help);
    assert_eq!(
        handle_general(&store, 1, GeneralCommand::RestrictedList),
        Reply::EmptyList
    );
    store.add_to_restrictions(1, 5, "a");
    store.add_to_restrictions(1, 6, "b");
    assert_eq!(
        handle_general(&store, 1, GeneralCommand::RestrictedList),
        Reply::RestrictedLogins(vec!["a".to_string(), "b".to_string()])
    );
}

#[test]
fn reply_texts_render_exactly() {
    assert_eq!(
        reply_text(&Reply::Warning),
        "ОБЕРЕЖНО: група розповсюджує фейки"
    );
    assert_eq!(
        reply_text(&Reply::NotAdmin),
        "Упс, а ти точно головнокомандувач? (адмін)"
    );
    assert_eq!(
        reply_text(&Reply::EmptyList),
        "Ого, нікого не бачу. Що ж це ми всім довіряємо?"
    );
    assert_eq!(
        reply_text(&Reply::RemovedRestriction),
        "Видалили з бази, або його там і не було"
    );
    assert_eq!(
        reply_text(&Reply::SeedLoaded),
        "Завантаження предефайнутих пабліків завершена"
    );
    assert_eq!(
        reply_text(&Reply::AddedRestriction("somechannel".to_string())),
        "somechannel воєнний корабль, іди нахуй"
    );
    assert_eq!(
        reply_text(&Reply::LookupFailed("nochannel".to_string())),
        "Щось не те з nochannel, перевір правильність даних"
    );
    assert_eq!(
        reply_text(&Reply::RestrictedLogins(vec![
            "a".to_string(),
            "b".to_string()
        ])),
        "Зараз в бані:\n\n@a\n@b\n"
    );
    assert_eq!(
        reply_text(&Reply::RestrictedLogins(Vec::new())),
        "Зараз в бані:\n\n"
    );
}
