use caimanager::history::{new_status_history, push_status_sample, HISTORY_LEN};
use caimanager::log_buffer::{append_output, trim_log, MAX_LOG_BYTES};

#[test]
fn output_within_limit_is_kept_whole() {
    let mut log = String::from("boot\n");
    let chunk = append_output(&mut log, b"ready\n");
    assert_eq!(chunk, "ready\n");
    assert_eq!(log, "boot\nready\n");
}

#[test]
fn invalid_bytes_become_replacement_characters() {
    let mut log = String::new();
    let chunk = append_output(&mut log, &[b'o', 0xff, b'k']);
    assert_eq!(chunk, "o\u{fffd}k");
    assert_eq!(log, "o\u{fffd}k");
}

#[test]
fn ascii_log_is_cut_to_the_limit() {
    let mut log = "a".repeat(MAX_LOG_BYTES);
    append_output(&mut log, b"xyz");
    assert_eq!(log.len(), MAX_LOG_BYTES);
    assert!(log.ends_with("aaaxyz"));
}

#[test]
fn cut_moves_back_to_a_character_boundary() {
    // One ASCII byte, then 5120 two-byte characters: 10241 bytes.
    let mut log = String::from("a") + &"é".repeat(5120);
    append_output(&mut log, b"b");
    // 10242 bytes, 2 over the limit; byte 2 is inside a character, so the
    // cut falls at byte 1.
    assert_eq!(log.len(), MAX_LOG_BYTES + 1);
    assert!(log.starts_with("é"));
    assert!(log.ends_with("éb"));
}

#[test]
fn trim_leaves_short_log_alone() {
    let mut log = String::from("short");
    trim_log(&mut log);
    assert_eq!(log, "short");
    let mut log = "z".repeat(MAX_LOG_BYTES + 7);
    trim_log(&mut log);
    assert_eq!(log.len(), MAX_LOG_BYTES);
}

#[test]
fn history_keeps_the_newest_samples() {
    let mut h = new_status_history::<u32>();
    for i in 0..12u32 {
        push_status_sample(&mut h, i);
    }
    assert_eq!(h.len(), HISTORY_LEN);
    assert_eq!(h.front(), Some(&2));
    assert_eq!(h.back(), Some(&11));
}

#[test]
fn history_grows_until_full() {
    let mut h = new_status_history::<u32>();
    push_status_sample(&mut h, 7);
    push_status_sample(&mut h, 8);
    assert_eq!(h.iter().copied().collect::<Vec<_>>(), vec![7, 8]);
}
