use moxidle::event::Event;
use moxidle::login::handle_block_inhibited;
use moxidle::text::{chars_of, contains, str_eq};

#[test]
fn str_eq_compares_whole_texts() {
    assert!(str_eq("", ""));
    assert!(str_eq("idle", "idle"));
    assert!(!str_eq("idle", "idl"));
    assert!(!str_eq("idle", "idlE"));
    assert!(!str_eq("", "x"));
    assert!(str_eq("grüße", "grüße"));
    assert!(!str_eq("grüße", "grusse"));
}

#[test]
fn chars_of_gives_the_characters() {
    assert_eq!(chars_of("aé:"), vec!['a', 'é', ':']);
    assert_eq!(chars_of(""), Vec::<char>::new());
}

#[test]
fn contains_finds_a_word_anywhere() {
    assert!(contains("shutdown:sleep:idle", "idle"));
    assert!(contains("idle:sleep", "idle"));
    assert!(contains("handle-power-key:idle:handle-lid-switch", "idle"));
    assert!(contains("idle", "idle"));
    assert!(!contains("shutdown:sleep", "idle"));
    assert!(!contains("idl", "idle"));
    assert!(!contains("", "idle"));
    assert!(!contains("i-d-l-e", "idle"));
    assert!(contains("anything", ""));
    assert!(contains("", ""));
    assert!(contains("ĳ→idle←", "idle"));
}

#[test]
fn block_inhibited_looks_for_idle() {
    assert_eq!(handle_block_inhibited("shutdown:idle"), Event::BlockInhibited(true));
    assert_eq!(handle_block_inhibited("shutdown:sleep"), Event::BlockInhibited(false));
    assert_eq!(handle_block_inhibited(""), Event::BlockInhibited(false));
    assert_eq!(handle_block_inhibited("IDLE"), Event::BlockInhibited(false));
}
