use openwhisper::refine::{
    batch_capacity, check_prompt_budget, clean, generation_limit, transcript_message,
};

#[test]
fn clean_strips_surrounding_whitespace() {
    assert_eq!(clean("  hello world  \n"), "hello world");
}

#[test]
fn clean_strips_ascii_quotes() {
    assert_eq!(clean("\"hello world\""), "hello world");
}

#[test]
fn clean_strips_smart_quotes() {
    assert_eq!(clean("\u{201C}hello world\u{201D}"), "hello world");
}

#[test]
fn clean_preserves_internal_quotes() {
    assert_eq!(clean("He said \"hi\""), "He said \"hi\"");
}

#[test]
fn clean_handles_empty_and_whitespace_only() {
    assert_eq!(clean(""), "");
    assert_eq!(clean("   "), "");
}

#[test]
fn clean_strips_gemma4_thought_prefix() {
    let raw = "<|channel>thought\nThe user wants me to clean this up.<|message|>Hello world.";
    assert_eq!(clean(raw), "Hello world.");
}

#[test]
fn clean_keeps_lone_and_mismatched_quotes() {
    assert_eq!(clean("\""), "\"");
    assert_eq!(clean("\"hello"), "\"hello");
    assert_eq!(clean("\u{201C}hello\""), "\u{201C}hello\"");
    assert_eq!(clean("\"\""), "");
    assert_eq!(clean("\" padded \""), "padded");
}

#[test]
fn clean_keeps_thought_header_without_later_tag() {
    let raw = "<|channel>thought\nno tag follows";
    assert_eq!(clean(raw), "<|channel>thought\nno tag follows");
}

#[test]
fn transcript_is_framed_after_trimming() {
    assert_eq!(
        transcript_message("  um hi  "),
        "--- TRANSCRIPTION ---\num hi\n--- END ---"
    );
}

#[test]
fn prompt_budget_leaves_room_for_the_reply() {
    assert!(check_prompt_budget(0).is_ok());
    assert!(check_prompt_budget(3840).is_ok());
    let e = check_prompt_budget(3841).unwrap_err();
    assert_eq!(e.prompt_tokens, 3841);
    assert_eq!(batch_capacity(10), 512);
    assert_eq!(batch_capacity(900), 900);
    assert_eq!(generation_limit(100), 356);
}

#[test]
fn cleaned_reply_is_part_of_the_reply() {
    let reply = "  \u{201C}Call me at noon.\u{201D}\n";
    let r = clean(reply);
    assert_eq!(r, "Call me at noon.");
    assert!(reply.contains(r.as_str()));
    let plain = "\t'single' quotes stay ";
    assert_eq!(clean(plain), plain.trim());
}
