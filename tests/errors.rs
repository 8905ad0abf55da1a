use slang::{result_from_blob, succeeded, Blob, Error};

#[test]
fn status_sign_decides_success() {
    assert!(succeeded(0));
    assert!(succeeded(7));
    assert!(!succeeded(-1));
    assert!(!succeeded(i32::MIN));
}

#[test]
fn failures_keep_their_diagnostics() {
    let diag = Blob::new(b"test.slang(3): error 20001: unexpected '}'".to_vec());
    match result_from_blob(-2147467259, Some(diag)) {
        Err(Error::Blob(b)) => {
            let text = b.as_str().unwrap();
            assert!(!text.is_empty());
            assert!(text.contains("error"));
        },
        _ => panic!("expected diagnostics"),
    }
    match result_from_blob(-5, None) {
        Err(Error::Code(c)) => assert_eq!(c, -5),
        _ => panic!("expected a bare status"),
    }
    assert!(result_from_blob(0, None).is_ok());
    assert!(result_from_blob(1, Some(Blob::new(b"warning".to_vec()))).is_ok());
}

#[test]
fn blob_views_its_own_bytes() {
    let b = Blob::new(vec![0x68, 0x69, 0x00, 0x21]);
    assert_eq!(b.as_slice(), &[0x68, 0x69, 0x00, 0x21]);
    assert_eq!(b.as_slice().len(), 4);
    assert_eq!(b.as_str().unwrap(), "hi\0!");
    let bad = Blob::new(vec![0xff, 0xfe]);
    assert!(bad.as_str().is_err());
    let code = Blob::new(vec![3, 2, 35, 7]);
    assert_eq!(code.as_slice(), Blob::new(vec![3, 2, 35, 7]).as_slice());
    assert!(Blob::new(vec![]).as_str().unwrap().is_empty());
}
