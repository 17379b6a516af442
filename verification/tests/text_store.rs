use vocabtool::error::{StoreError, TokenizeError};
use vocabtool::model::{Text, TextCreateRequest};
use vocabtool::store::Database;

fn text_request(text: &str, lang: &str, user: i32) -> TextCreateRequest {
    TextCreateRequest { text: text.to_string(), lang: lang.to_string(), user }
}

fn tokens(text: &str) -> Result<String, TokenizeError> {
    Ok(text.to_string())
}

#[test]
fn find_all_of_an_empty_store_is_empty() {
    let db = Database::new();
    assert_eq!(Text::find_all(&db), Ok(vec![]));
}

#[test]
fn find_by_id_of_an_empty_store_is_not_found() {
    let db = Database::new();
    assert_eq!(Text::find_by_id(1, &db), Err(StoreError::NotFound));
}

#[test]
fn create_then_find_returns_the_tokenizer_output() {
    let mut db = Database::new();
    let created = Text::create(text_request("hello world", "en", 7), tokens("hello | world"), &mut db)
        .unwrap();
    let found = Text::find_by_id(created.id, &db).unwrap();
    assert_eq!(found, created);
    assert_eq!(found.tokenized, "hello | world");
    assert_eq!(found.text, "hello world");
    assert_eq!(found.lang, "en");
    assert_eq!(found.user, 7);
}

#[test]
fn create_assigns_ids_from_one_upwards() {
    let mut db = Database::new();
    let first = Text::create(text_request("a", "en", 1), tokens("a"), &mut db).unwrap();
    let second = Text::create(text_request("b", "en", 1), tokens("b"), &mut db).unwrap();
    let third = Text::create(text_request("c", "en", 1), tokens("c"), &mut db).unwrap();
    assert_eq!((first.id, second.id, third.id), (1, 2, 3));
}

#[test]
fn create_does_not_reuse_the_id_of_a_deleted_row() {
    let mut db = Database::new();
    let first = Text::create(text_request("a", "en", 1), tokens("a"), &mut db).unwrap();
    assert_eq!(Text::delete(first.id, &mut db), Ok(1));
    let second = Text::create(text_request("b", "en", 1), tokens("b"), &mut db).unwrap();
    assert_eq!(second.id, 2);
    assert_eq!(Text::find_by_id(1, &db), Err(StoreError::NotFound));
}

#[test]
fn create_with_failed_tokenizer_inserts_nothing() {
    let mut db = Database::new();
    Text::create(text_request("kept", "en", 1), tokens("kept"), &mut db).unwrap();
    let before = Text::find_all(&db).unwrap();

    let refused = Text::create(
        text_request("lost", "en", 1),
        Err(TokenizeError::ConnectionFailed),
        &mut db,
    );
    assert_eq!(refused, Err(StoreError::TokenizationFailed(TokenizeError::ConnectionFailed)));
    assert_eq!(Text::find_all(&db).unwrap(), before);

    let broken = Text::create(text_request("lost", "en", 1), Err(TokenizeError::IOFailure), &mut db);
    assert_eq!(broken, Err(StoreError::TokenizationFailed(TokenizeError::IOFailure)));
    assert_eq!(Text::find_all(&db).unwrap().len(), 1);
}

#[test]
fn failed_create_does_not_use_up_an_id() {
    let mut db = Database::new();
    let _ = Text::create(text_request("lost", "en", 1), Err(TokenizeError::IOFailure), &mut db);
    let created = Text::create(text_request("kept", "en", 1), tokens("kept"), &mut db).unwrap();
    assert_eq!(created.id, 1);
}

#[test]
fn update_replaces_text_tokenized_and_lang_and_keeps_id_and_user() {
    let mut db = Database::new();
    let created = Text::create(text_request("old", "en", 5), tokens("old"), &mut db).unwrap();
    let updated =
        Text::update(created.id, text_request("new text", "fr", 99), tokens("new | text"), &mut db)
            .unwrap();
    assert_eq!(
        updated,
        Text {
            id: created.id,
            text: "new text".to_string(),
            tokenized: "new | text".to_string(),
            lang: "fr".to_string(),
            user: 5,
        }
    );
    assert_eq!(Text::find_by_id(created.id, &db), Ok(updated));
}

#[test]
fn update_with_the_same_text_still_takes_the_new_tokens() {
    let mut db = Database::new();
    let created = Text::create(text_request("same", "en", 1), tokens("first answer"), &mut db).unwrap();
    let updated =
        Text::update(created.id, text_request("same", "en", 1), tokens("second answer"), &mut db)
            .unwrap();
    assert_eq!(updated.text, "same");
    assert_eq!(updated.tokenized, "second answer");
    assert_eq!(Text::find_by_id(created.id, &db).unwrap().tokenized, "second answer");
}

#[test]
fn update_of_a_missing_id_is_not_found_and_changes_nothing() {
    let mut db = Database::new();
    Text::create(text_request("a", "en", 1), tokens("a"), &mut db).unwrap();
    let before = Text::find_all(&db).unwrap();
    assert_eq!(
        Text::update(42, text_request("b", "en", 1), tokens("b"), &mut db),
        Err(StoreError::NotFound)
    );
    assert_eq!(Text::find_all(&db).unwrap(), before);
}

#[test]
fn update_with_failed_tokenizer_keeps_the_row() {
    let mut db = Database::new();
    let created = Text::create(text_request("old", "en", 1), tokens("old tokens"), &mut db).unwrap();
    let result = Text::update(
        created.id,
        text_request("new", "fr", 1),
        Err(TokenizeError::IOFailure),
        &mut db,
    );
    assert_eq!(result, Err(StoreError::TokenizationFailed(TokenizeError::IOFailure)));
    let kept = Text::find_by_id(created.id, &db).unwrap();
    assert_eq!(kept.text, "old");
    assert_eq!(kept.tokenized, "old tokens");
    assert_eq!(kept.lang, "en");
}

#[test]
fn update_of_a_missing_id_with_failed_tokenizer_reports_the_tokenizer() {
    let mut db = Database::new();
    let result =
        Text::update(3, text_request("new", "fr", 1), Err(TokenizeError::ConnectionFailed), &mut db);
    assert_eq!(result, Err(StoreError::TokenizationFailed(TokenizeError::ConnectionFailed)));
}

#[test]
fn delete_of_a_missing_id_returns_zero_and_changes_nothing() {
    let mut db = Database::new();
    Text::create(text_request("a", "en", 1), tokens("a"), &mut db).unwrap();
    let before = Text::find_all(&db).unwrap();
    assert_eq!(Text::delete(17, &mut db), Ok(0));
    assert_eq!(Text::find_all(&db).unwrap(), before);
}

#[test]
fn delete_of_an_existing_id_returns_one_and_removes_that_row_only() {
    let mut db = Database::new();
    let a = Text::create(text_request("a", "en", 1), tokens("a"), &mut db).unwrap();
    let b = Text::create(text_request("b", "en", 1), tokens("b"), &mut db).unwrap();
    let c = Text::create(text_request("c", "en", 1), tokens("c"), &mut db).unwrap();
    assert_eq!(Text::delete(b.id, &mut db), Ok(1));
    assert_eq!(Text::find_all(&db).unwrap(), vec![a, c]);
    assert_eq!(Text::find_by_id(b.id, &db), Err(StoreError::NotFound));
    assert_eq!(Text::delete(b.id, &mut db), Ok(0));
}

#[test]
fn find_all_is_in_ascending_id_order_whatever_the_order_of_writes() {
    let mut db = Database::new();
    for name in ["one", "two", "three", "four", "five"] {
        Text::create(text_request(name, "en", 1), tokens(name), &mut db).unwrap();
    }
    Text::update(4, text_request("four again", "en", 1), tokens("four again"), &mut db).unwrap();
    assert_eq!(Text::delete(2, &mut db), Ok(1));
    Text::update(1, text_request("one again", "en", 1), tokens("one again"), &mut db).unwrap();
    Text::create(text_request("six", "en", 1), tokens("six"), &mut db).unwrap();
    Text::update(5, text_request("five again", "en", 1), tokens("five again"), &mut db).unwrap();

    let ids: Vec<i32> = Text::find_all(&db).unwrap().iter().map(|row| row.id).collect();
    assert_eq!(ids, vec![1, 3, 4, 5, 6]);
}

#[test]
fn scenario_chinese_text_is_stored_with_its_segmentation() {
    let mut db = Database::new();
    let created =
        Text::create(text_request("你好世界", "zh_CN", 0), tokens("你好 世界"), &mut db).unwrap();
    assert_eq!(created.tokenized, "你好 世界");
    let stored = Text::find_by_id(created.id, &db).unwrap();
    assert_eq!(stored.text, "你好世界");
    assert_eq!(stored.tokenized, "你好 世界");
    assert_eq!(stored.lang, "zh_CN");
}

#[test]
fn scenario_update_replaces_the_chinese_text() {
    let mut db = Database::new();
    let created =
        Text::create(text_request("你好世界", "zh_CN", 0), tokens("你好 世界"), &mut db).unwrap();
    let updated =
        Text::update(created.id, text_request("再见", "zh_CN", 0), tokens("再见"), &mut db).unwrap();
    assert_eq!(updated.text, "再见");
    assert_eq!(updated.tokenized, "再见");
    assert_eq!(updated.lang, "zh_CN");
    assert_eq!(Text::find_by_id(created.id, &db), Ok(updated));
}

#[test]
fn scenario_delete_a_just_created_id_then_find_is_not_found() {
    let mut db = Database::new();
    let created =
        Text::create(text_request("你好世界", "zh_CN", 0), tokens("你好 世界"), &mut db).unwrap();
    assert_eq!(Text::delete(created.id, &mut db), Ok(1));
    assert_eq!(Text::find_by_id(created.id, &db), Err(StoreError::NotFound));
}

#[test]
fn error_messages_tell_the_kinds_apart() {
    let all = [
        StoreError::TokenizationFailed(TokenizeError::ConnectionFailed),
        StoreError::TokenizationFailed(TokenizeError::IOFailure),
        StoreError::NotFound,
        StoreError::StoreError,
    ];
    assert_eq!(all[0].message(), "tokenizer unreachable");
    assert_eq!(all[1].message(), "tokenizer connection broke");
    assert_eq!(all[2].message(), "no row with that id");
    assert_eq!(all[3].message(), "data store failure");
    assert_eq!(TokenizeError::ConnectionFailed.message(), "tokenizer unreachable");
    assert_ne!(TokenizeError::ConnectionFailed, TokenizeError::IOFailure);
}
