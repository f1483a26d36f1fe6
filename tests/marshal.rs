use april_asr_rs::marshal::{marshal_callback, marshal_token, marshal_tokens};
use april_asr_rs::{AprilResultType, RawToken};

fn raw(text: &[u8], logprob: f32, flags: u32, time_ms: usize) -> RawToken {
    RawToken { text: text.to_vec(), logprob_bits: logprob.to_bits(), flags, time_ms }
}

#[test]
fn absent_token_array_gives_no_tokens() {
    let t = marshal_tokens(None);
    assert!(t.0.is_empty());
    let (r, t) = marshal_callback(4, None);
    assert_eq!(r, AprilResultType::Silence);
    assert!(t.0.is_empty());
}

#[test]
fn tokens_are_copied_in_order() {
    let raws = vec![raw(b" HELLO", -1.25, 1, 40), raw(b" WORLD", -0.5, 1, 480), raw(b".", -0.01, 2, 900)];
    let (r, t) = marshal_callback(2, Some(&raws));
    assert_eq!(r, AprilResultType::RecognitionFinal);
    assert_eq!(t.0.len(), 3);
    assert_eq!(t.0[0].token, " HELLO");
    assert_eq!(f32::from_bits(t.0[0].logprob_bits), -1.25);
    assert_eq!(t.0[0].flag_bits.bits(), 1);
    assert_eq!(t.0[0].time_ms, 40);
    assert_eq!(t.0[1].token, " WORLD");
    assert_eq!(t.0[1].time_ms, 480);
    assert_eq!(t.0[2].token, ".");
    assert_eq!(t.0[2].flag_bits.bits(), 2);
    assert_eq!(t.text(), " HELLO WORLD.");
}

#[test]
fn invalid_text_is_decoded_leniently() {
    let t = marshal_token(&raw(&[b'a', 0xff, b'b'], 0.0, 0, 0));
    assert_eq!(t.token, "a\u{fffd}b");
    let t = marshal_token(&raw("caf\u{e9}".as_bytes(), 0.0, 0, 0));
    assert_eq!(t.token, "caf\u{e9}");
}

#[test]
fn unknown_flag_bits_survive_marshaling() {
    let t = marshal_token(&raw(b"x", 0.0, 0xf0, 7));
    assert_eq!(t.flag_bits.bits(), 0xf0);
}

#[test]
fn unknown_code_in_callback_is_other() {
    let (r, t) = marshal_callback(99, Some(&[]));
    assert_eq!(r, AprilResultType::Other(99));
    assert!(t.0.is_empty());
}
