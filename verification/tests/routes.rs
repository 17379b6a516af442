use vocabtool::error::{StoreError, TokenizeError};
use vocabtool::model::{Text, Word};
use vocabtool::routes::{
    create, createword, decimal, delete, find, find_all, update, updateword, wordsiknow, Body,
    Reply, STATUS_BAD_REQUEST, STATUS_OK, WORDS_LANG, WORDS_USER,
};

fn sample_text() -> Text {
    Text {
        id: 3,
        text: "你好世界".to_string(),
        tokenized: "你好 世界".to_string(),
        lang: "zh_CN".to_string(),
        user: 0,
    }
}

fn sample_word() -> Word {
    Word { id: 2, word: "你好".to_string(), state: 1, notes: String::new() }
}

fn refused<T>(message: &str) -> Reply<T> {
    Reply { status: 400, body: Body::Message(message.to_string()) }
}

#[test]
fn status_codes_are_200_and_400() {
    assert_eq!(STATUS_OK, 200);
    assert_eq!(STATUS_BAD_REQUEST, 400);
}

#[test]
fn wordsiknow_is_wired_to_user_zero_and_chinese() {
    assert_eq!(WORDS_USER, 0);
    assert_eq!(WORDS_LANG, "zh_CN");
}

#[test]
fn find_all_answers_with_the_texts_or_a_400() {
    assert_eq!(
        find_all(Ok(vec![sample_text()])),
        Reply { status: 200, body: Body::Json(vec![sample_text()]) }
    );
    assert_eq!(find_all(Ok(vec![])), Reply { status: 200, body: Body::Json(vec![]) });
    assert_eq!(
        find_all(Err(StoreError::StoreError)),
        refused("Error trying to read all texts from database")
    );
}

#[test]
fn find_answers_with_the_text_or_a_400() {
    assert_eq!(find(Ok(sample_text())), Reply { status: 200, body: Body::Json(sample_text()) });
    assert_eq!(find(Err(StoreError::NotFound)), refused("Text not found"));
    assert_eq!(find(Err(StoreError::StoreError)), refused("Text not found"));
}

#[test]
fn create_answers_with_the_text_or_a_400() {
    assert_eq!(create(Ok(sample_text())), Reply { status: 200, body: Body::Json(sample_text()) });
    assert_eq!(
        create(Err(StoreError::TokenizationFailed(TokenizeError::ConnectionFailed))),
        refused("Error trying to create new text")
    );
    assert_eq!(create(Err(StoreError::StoreError)), refused("Error trying to create new text"));
}

#[test]
fn update_answers_with_the_text_or_a_400() {
    assert_eq!(update(Ok(sample_text())), Reply { status: 200, body: Body::Json(sample_text()) });
    assert_eq!(update(Err(StoreError::NotFound)), refused("Text not found"));
    assert_eq!(
        update(Err(StoreError::TokenizationFailed(TokenizeError::IOFailure))),
        refused("Text not found")
    );
}

#[test]
fn delete_tells_the_count_when_a_row_left() {
    assert_eq!(
        delete(Ok(1)),
        Reply { status: 200, body: Body::Message("Successfully deleted 1 record(s)".to_string()) }
    );
    assert_eq!(
        delete(Ok(12)),
        Reply { status: 200, body: Body::Message("Successfully deleted 12 record(s)".to_string()) }
    );
}

#[test]
fn delete_of_nothing_or_a_failure_is_a_400() {
    assert_eq!(delete(Ok(0)), refused("Text not found"));
    assert_eq!(delete(Err(StoreError::StoreError)), refused("Text not found"));
    assert_eq!(delete(Err(StoreError::NotFound)), refused("Text not found"));
}

#[test]
fn word_endpoints_answer_with_the_value_or_their_message() {
    assert_eq!(
        wordsiknow(Ok(vec![sample_word()])),
        Reply { status: 200, body: Body::Json(vec![sample_word()]) }
    );
    assert_eq!(
        wordsiknow(Err(StoreError::StoreError)),
        refused("Error trying to get all words from database")
    );
    assert_eq!(createword(Ok(sample_word())), Reply { status: 200, body: Body::Json(sample_word()) });
    assert_eq!(
        createword(Err(StoreError::StoreError)),
        refused("Error trying to create new word")
    );
    assert_eq!(updateword(Ok(sample_word())), Reply { status: 200, body: Body::Json(sample_word()) });
    assert_eq!(updateword(Err(StoreError::NotFound)), refused("Error trying to update word"));
}

#[test]
fn decimal_writes_numbers_without_leading_zeros() {
    assert_eq!(decimal(0), "0");
    assert_eq!(decimal(7), "7");
    assert_eq!(decimal(10), "10");
    assert_eq!(decimal(1234567890), "1234567890");
    assert_eq!(decimal(u64::MAX), "18446744073709551615");
    for n in [9u64, 99, 100, 101, 1000, 65535, 4294967296] {
        assert_eq!(decimal(n), n.to_string());
    }
}
