use pico_potion::pages::{
    delete_step, gen_page_id, now_secs, page_id_for_millis, page_path, page_reply, root_redirect,
    should_migrate_legacy_db, should_seed_home, title_to_store, DeleteStep, Reply, UNTITLED,
};
use pico_potion::render::PageMeta;

#[test]
fn page_path_prefixes_the_id() {
    assert_eq!(page_path("home"), "/page/home");
    assert_eq!(page_path("p1700000000000"), "/page/p1700000000000");
}

#[test]
fn root_redirects_to_the_oldest_page_or_home() {
    assert_eq!(root_redirect(Some("p12".to_string())), "/page/p12");
    assert_eq!(root_redirect(None), "/page/home");
}

#[test]
fn page_reply_renders_a_stored_page() {
    let pages = vec![PageMeta { id: "home".to_string(), title: "Home".to_string() }];
    match page_reply("home", Some(("Home".to_string(), "# Hi".to_string())), &pages, "") {
        Reply::Html(h) => {
            assert!(h.contains("<title>Home - Pico Potion</title>"));
            assert!(h.contains("># Hi</textarea>"));
        }
        Reply::Redirect(to) => panic!("unexpected redirect to {to}"),
    }
}

#[test]
fn page_reply_redirects_to_root_for_a_missing_page() {
    assert_eq!(page_reply("nope", None, &[], ""), Reply::Redirect("/".to_string()));
}

#[test]
fn blank_titles_are_stored_untitled() {
    assert_eq!(title_to_store(String::new()), "無題");
    assert_eq!(title_to_store(" \t\u{3000}\n".to_string()), UNTITLED);
    assert_eq!(title_to_store(" keep ".to_string()), " keep ");
    assert_eq!(title_to_store("買い物".to_string()), "買い物");
}

#[test]
fn delete_clears_the_last_page_and_removes_others() {
    assert_eq!(delete_step(1), DeleteStep::ClearContents);
    assert_eq!(delete_step(0), DeleteStep::ClearContents);
    assert_eq!(delete_step(-3), DeleteStep::ClearContents);
    assert_eq!(delete_step(2), DeleteStep::Remove);
    assert_eq!(delete_step(i64::MAX), DeleteStep::Remove);
}

#[test]
fn home_is_seeded_only_into_an_empty_store() {
    assert!(should_seed_home(0));
    assert!(!should_seed_home(1));
    assert!(!should_seed_home(5));
}

#[test]
fn legacy_database_is_renamed_only_when_needed() {
    assert!(should_migrate_legacy_db(false, true));
    assert!(!should_migrate_legacy_db(true, true));
    assert!(!should_migrate_legacy_db(false, false));
    assert!(!should_migrate_legacy_db(true, false));
}

#[test]
fn page_ids_are_p_and_the_milliseconds() {
    assert_eq!(page_id_for_millis(0), "p0");
    assert_eq!(page_id_for_millis(7), "p7");
    assert_eq!(page_id_for_millis(1700000000123), "p1700000000123");
    assert_eq!(page_id_for_millis(u128::MAX), format!("p{}", u128::MAX));
}

#[test]
fn generated_ids_follow_the_clock() {
    let before = std::time::SystemTime::now()
        .duration_since(std::time::UNIX_EPOCH)
        .unwrap()
        .as_millis();
    let id = gen_page_id().unwrap();
    let after = std::time::SystemTime::now()
        .duration_since(std::time::UNIX_EPOCH)
        .unwrap()
        .as_millis();
    assert!(id.starts_with('p'));
    let ms: u128 = id[1..].parse().unwrap();
    assert!(before <= ms && ms <= after);
}

#[test]
fn now_secs_follows_the_clock() {
    let secs = now_secs().unwrap();
    let expected = std::time::SystemTime::now()
        .duration_since(std::time::UNIX_EPOCH)
        .unwrap()
        .as_secs() as i64;
    assert!(secs <= expected && expected - secs <= 2);
    assert!(secs > 1_600_000_000);
}
