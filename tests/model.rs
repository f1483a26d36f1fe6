use april_asr_rs::model::{encode_path, load_model, loaded_handle, metadata_result, metadata_text};
use april_asr_rs::{Error, InitGate};

#[test]
fn path_gets_a_terminating_nul() {
    assert_eq!(encode_path(b"/models/en.april".to_vec()), Ok(b"/models/en.april\0".to_vec()));
    assert_eq!(encode_path(Vec::new()), Ok(vec![0u8]));
}

#[test]
fn path_with_nul_is_refused() {
    assert_eq!(
        encode_path(b"ab\0c\0".to_vec()),
        Err(Error::CString { position: 2, bytes: b"ab\0c\0".to_vec() })
    );
    assert_eq!(encode_path(vec![0u8]), Err(Error::CString { position: 0, bytes: vec![0u8] }));
}

#[test]
fn model_loads_through_the_loader() {
    let mut seen: Vec<Vec<u8>> = Vec::new();
    let r = load_model(b"/m/en.april".to_vec(), |b| {
        seen.push(b);
        Some(41u32)
    });
    assert_eq!(r, Ok(41u32));
    assert_eq!(seen, vec![b"/m/en.april\0".to_vec()]);
}

#[test]
fn failed_load_is_null_pointer() {
    let r = load_model(b"/nonexistent/model.april".to_vec(), |_| None::<u32>);
    assert_eq!(r, Err(Error::NullPtr));
}

#[test]
fn path_with_nul_never_reaches_the_loader() {
    let mut calls = 0;
    let r = load_model(b"a\0b".to_vec(), |_| {
        calls += 1;
        Some(1u32)
    });
    assert_eq!(r, Err(Error::CString { position: 1, bytes: b"a\0b".to_vec() }));
    assert_eq!(calls, 0);
}

#[test]
fn null_metadata_is_an_error() {
    assert_eq!(metadata_text(None), Err(Error::NullPtr));
}

#[test]
fn metadata_text_is_borrowed_and_decoded() {
    let bytes = b"aprilv0_en-us".to_vec();
    let text = metadata_text(Some(&bytes)).unwrap();
    assert_eq!(text, "aprilv0_en-us");
    assert_eq!(text.as_ptr(), bytes.as_ptr());
    assert_eq!(metadata_text(Some(b"")), Ok(""));
}

#[test]
fn invalid_metadata_reports_valid_prefix() {
    assert_eq!(
        metadata_text(Some(&[b'e', b'n', 0xc3])),
        Err(Error::InvalidUtf8 { valid_up_to: 2, error_len: None })
    );
    assert_eq!(metadata_text(Some(&[0xff])), Err(Error::InvalidUtf8 { valid_up_to: 0, error_len: Some(1) }));
}

#[test]
fn missing_model_handle_is_null_pointer() {
    assert_eq!(loaded_handle::<u32>(None), Err(Error::NullPtr));
    assert_eq!(loaded_handle(Some(9u32)), Ok(9u32));
}

#[test]
fn setup_runs_once_over_many_loads() {
    let mut gate = InitGate::new();
    let mut runs = 0;
    for _ in 0..10 {
        if gate.enter() {
            runs += 1;
        }
    }
    assert_eq!(runs, 1);
}

#[test]
fn metadata_result_maps_decoding() {
    assert_eq!(metadata_result(Ok("en")), Ok("en"));
    assert_eq!(metadata_result(Err((5, Some(2)))), Err(Error::InvalidUtf8 { valid_up_to: 5, error_len: Some(2) }));
}
