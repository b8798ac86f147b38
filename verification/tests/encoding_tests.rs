use rtmp_encoder::encoding::{base64_encode, video_data_uri};

#[test]
fn base64_of_empty_input_is_empty() {
    assert_eq!(base64_encode(&Vec::new()), "");
}

#[test]
fn base64_of_full_groups() {
    assert_eq!(base64_encode(&b"Man".to_vec()), "TWFu");
    assert_eq!(base64_encode(&b"ManMan".to_vec()), "TWFuTWFu");
}

#[test]
fn base64_pads_a_final_group_of_two_bytes() {
    assert_eq!(base64_encode(&b"Ma".to_vec()), "TWE=");
    assert_eq!(base64_encode(&b"hello".to_vec()), "aGVsbG8=");
}

#[test]
fn base64_pads_a_final_group_of_one_byte() {
    assert_eq!(base64_encode(&b"M".to_vec()), "TQ==");
    assert_eq!(base64_encode(&b"hell".to_vec()), "aGVsbA==");
}

#[test]
fn base64_covers_the_high_alphabet() {
    assert_eq!(base64_encode(&vec![251, 239, 190]), "++++");
    assert_eq!(base64_encode(&vec![255, 255, 255]), "////");
}

#[test]
fn data_uri_prefixes_the_encoded_document() {
    assert_eq!(
        video_data_uri(&b"<html></html>".to_vec()),
        "data:text/html;base64,PGh0bWw+PC9odG1sPg=="
    );
    assert_eq!(video_data_uri(&Vec::new()), "data:text/html;base64,");
}
