use mn_rs::updates::next_random_id;
use mn_rs::updates::route;
use mn_rs::updates::Route;
use mn_rs::updates::SOURCE_CHAT;

#[test]
fn messages_are_routed_by_origin_and_content() {
    assert_eq!(SOURCE_CHAT, 1391125365);
    assert_eq!(route(false, 5, "test", false), Route::Pong);
    assert_eq!(route(false, SOURCE_CHAT, "test", true), Route::Pong);
    assert_eq!(route(true, SOURCE_CHAT, "test", false), Route::Ignore);
    assert_eq!(route(false, SOURCE_CHAT, "Eilmeldung", true), Route::Media);
    assert_eq!(route(false, SOURCE_CHAT, "", true), Route::Media);
    assert_eq!(route(false, SOURCE_CHAT, "Eilmeldung", false), Route::Text);
    assert_eq!(route(false, SOURCE_CHAT, "Test", false), Route::Text);
    assert_eq!(route(true, SOURCE_CHAT, "Eilmeldung", false), Route::Ignore);
    assert_eq!(route(false, SOURCE_CHAT + 1, "Eilmeldung", true), Route::Ignore);
    assert_eq!(route(false, -SOURCE_CHAT, "Eilmeldung", false), Route::Ignore);
}

#[test]
fn message_numbers_start_at_the_clock_and_count_up() {
    assert_eq!(next_random_id(0, 1_700_000_000_000_000_000), (1_700_000_000_000_000_000, 1_700_000_000_000_000_001));
    assert_eq!(next_random_id(41, 1_700_000_000_000_000_000), (41, 42));
    assert_eq!(next_random_id(-7, 3), (-7, -6));
    assert_eq!(next_random_id(-1, 3), (-1, 0));
    assert_eq!(next_random_id(0, 0), (0, 1));
    assert_eq!(next_random_id(i64::MAX, 3), (i64::MAX, i64::MIN));
}
