use step_graph::utils::{banner, frame, generate_pretty, MAX_LEN};

#[test]
fn filling_is_half_of_what_is_left() {
    assert_eq!(MAX_LEN, 60);
    assert_eq!(generate_pretty(0, '*'), "*".repeat(30));
    assert_eq!(generate_pretty(1, '*'), "*".repeat(29));
    assert_eq!(generate_pretty(2, '*'), "*".repeat(29));
    assert_eq!(generate_pretty(21, '»'), "»".repeat(19));
    assert_eq!(generate_pretty(58, '-'), "-");
}

#[test]
fn no_filling_where_nothing_is_left() {
    assert_eq!(generate_pretty(59, '-'), "");
    assert_eq!(generate_pretty(60, '-'), "");
}

#[test]
fn frame_of_odd_length_is_symmetric() {
    assert_eq!(frame("END", 3, '»'), format!("{} END {}", "»".repeat(28), "»".repeat(28)));
}

#[test]
fn frame_of_even_length_is_one_shorter_on_the_right() {
    assert_eq!(frame("DONE", 4, '»'), format!("{} DONE {}", "»".repeat(28), "»".repeat(27)));
}

#[test]
fn frame_without_filling() {
    let message = "x".repeat(60);
    assert_eq!(frame(&message, 60, '»'), format!(" {} ", message));
    let message = "x".repeat(59);
    assert_eq!(frame(&message, 59, '»'), format!(" {} ", message));
    let message = "x".repeat(58);
    assert_eq!(frame(&message, 58, '»'), format!("» {} ", message));
}

#[test]
fn banner_is_in_capitals() {
    assert_eq!(
        banner("state machine started", '»'),
        format!("{} STATE MACHINE STARTED {}", "»".repeat(19), "»".repeat(19))
    );
    assert_eq!(banner("end", '»'), format!("{} END {}", "»".repeat(28), "»".repeat(28)));
    assert_eq!(
        banner("parsing started", '»'),
        format!("{} PARSING STARTED {}", "»".repeat(22), "»".repeat(22))
    );
    assert_eq!(
        banner("configuring DynamoDB", '»'),
        format!("{} CONFIGURING DYNAMODB {}", "»".repeat(20), "»".repeat(19))
    );
}

#[test]
fn banner_counts_bytes_not_characters() {
    // Four characters in six bytes.
    assert_eq!(banner("été!", '-'), format!("{} ÉTÉ! {}", "-".repeat(27), "-".repeat(26)));
}

#[test]
fn banner_of_the_empty_message() {
    assert_eq!(banner("", '='), format!("{}  {}", "=".repeat(30), "=".repeat(29)));
}

#[test]
fn banner_of_an_ascii_message_is_61_wide() {
    for len in 0..60 {
        let message = "m".repeat(len);
        assert_eq!(banner(&message, '»').chars().count(), 61, "length {}", len);
    }
    assert_eq!(banner(&"m".repeat(60), '»').chars().count(), 62);
}
