use trsfer::{
    Error, FileContent, FileMetadata, Message, Response, StripPrefixError, TrsferSetting,
};

/// Writes a message and reads it back, as any kind of message allows.
fn reread<M: Message>(message: &M) -> M {
    let bytes = message.serialize().unwrap();
    match M::deserialize(&bytes) {
        Ok(read) => read,
        Err(_) => panic!("a written message is to read back"),
    }
}

#[test]
fn a_setting_is_one_byte() {
    assert_eq!(TrsferSetting::new(true).serialize().unwrap(), vec![1]);
    assert_eq!(TrsferSetting::new(false).serialize().unwrap(), vec![0]);
}

#[test]
fn a_setting_round_trips() {
    for is_dry_run in [false, true] {
        let setting = TrsferSetting::new(is_dry_run);
        let bytes = setting.serialize().unwrap();
        assert_eq!(TrsferSetting::deserialize(&bytes).unwrap(), setting);
    }
}

#[test]
fn a_setting_is_refused_when_malformed() {
    assert!(matches!(TrsferSetting::deserialize(&[]), Err(Error::BincodeError(_))));
    assert!(matches!(TrsferSetting::deserialize(&[2]), Err(Error::BincodeError(_))));
    assert!(matches!(TrsferSetting::deserialize(&[255, 1]), Err(Error::BincodeError(_))));
}

#[test]
fn bytes_after_a_message_are_not_looked_at() {
    assert_eq!(TrsferSetting::deserialize(&[1, 9, 9]).unwrap(), TrsferSetting::new(true));
    assert!(!bool::deserialize(&[0, 7]).unwrap());
}

#[test]
fn the_reply_is_one_byte() {
    assert_eq!(true.serialize().unwrap(), vec![1]);
    assert_eq!(false.serialize().unwrap(), vec![0]);
    assert!(bool::deserialize(&[1]).unwrap());
    assert!(!bool::deserialize(&[0]).unwrap());
    assert!(matches!(bool::deserialize(&[3]), Err(Error::BincodeError(_))));
    assert!(matches!(bool::deserialize(&[]), Err(Error::BincodeError(_))));
}

#[test]
fn every_kind_of_message_reads_back_as_written() {
    assert!(reread(&true));
    assert!(!reread(&false));
    assert_eq!(reread(&TrsferSetting::new(true)), TrsferSetting::new(true));
    let metadata = FileMetadata::new(String::from("d/b.txt"), 0);
    assert_eq!(reread(&metadata), metadata);
    let response = Response::new(String::from("out/d/b.txt"));
    assert_eq!(reread(&response), response);
}

#[test]
fn metadata_is_the_path_then_the_size() {
    let metadata = FileMetadata::new(String::from("d/b.txt"), 0x0102);
    let bytes = metadata.serialize().unwrap();
    let mut expected = vec![7u8, 0, 0, 0, 0, 0, 0, 0];
    expected.extend_from_slice(b"d/b.txt");
    expected.extend_from_slice(&[0x02, 0x01, 0, 0, 0, 0, 0, 0]);
    assert_eq!(bytes, expected);
}

#[test]
fn metadata_round_trips() {
    for (path, size) in [("a.txt", 4u64), ("", 0), ("d/b.txt", u64::MAX), ("h\u{e9}llo/\u{4e16}\u{754c}", 77)] {
        let metadata = FileMetadata::new(String::from(path), size);
        let bytes = metadata.serialize().unwrap();
        assert_eq!(FileMetadata::deserialize(&bytes).unwrap(), metadata);
    }
}

#[test]
fn the_length_of_a_text_counts_bytes() {
    let metadata = FileMetadata::new(String::from("\u{e9}"), 1);
    let bytes = metadata.serialize().unwrap();
    assert_eq!(&bytes[..10], &[2, 0, 0, 0, 0, 0, 0, 0, 0xc3, 0xa9]);
}

#[test]
fn metadata_is_refused_when_malformed() {
    let whole = FileMetadata::new(String::from("a.txt"), 4).serialize().unwrap();
    for cut in 0..whole.len() {
        assert!(matches!(FileMetadata::deserialize(&whole[..cut]), Err(Error::BincodeError(_))));
    }
    let mut not_utf8 = vec![1u8, 0, 0, 0, 0, 0, 0, 0, 0xff];
    not_utf8.extend_from_slice(&[0u8; 8]);
    assert!(matches!(FileMetadata::deserialize(&not_utf8), Err(Error::BincodeError(_))));
    let too_long = [0xffu8; 16];
    assert!(matches!(FileMetadata::deserialize(&too_long), Err(Error::BincodeError(_))));
}

#[test]
fn a_response_is_its_save_path() {
    let response = Response::new(String::from("out/a.txt"));
    let bytes = response.serialize().unwrap();
    let mut expected = vec![9u8, 0, 0, 0, 0, 0, 0, 0];
    expected.extend_from_slice(b"out/a.txt");
    assert_eq!(bytes, expected);
    assert_eq!(Response::deserialize(&bytes).unwrap(), response);
}

#[test]
fn a_response_is_refused_when_malformed() {
    assert!(matches!(Response::deserialize(&[]), Err(Error::BincodeError(_))));
    assert!(matches!(Response::deserialize(&[2, 0, 0, 0, 0, 0, 0, 0, b'a']), Err(Error::BincodeError(_))));
    assert!(matches!(
        Response::deserialize(&[1, 0, 0, 0, 0, 0, 0, 0, 0x80]),
        Err(Error::BincodeError(_))
    ));
}

#[test]
fn an_empty_response_round_trips() {
    let response = Response::new(String::new());
    let bytes = response.serialize().unwrap();
    assert_eq!(bytes, vec![0u8; 8]);
    assert_eq!(Response::deserialize(&bytes).unwrap(), response);
}

#[test]
fn strip_prefix_leaves_the_relative_path() {
    let mut metadata = FileMetadata::new(String::from("root/d/b.txt"), 3);
    assert_eq!(metadata.strip_prefix("root"), Ok(()));
    assert_eq!(metadata.path_buf, "d/b.txt");
    assert_eq!(metadata.file_size, 3);
}

#[test]
fn strip_prefix_goes_by_components() {
    let mut metadata = FileMetadata::new(String::from("/home/user/a.txt"), 1);
    assert_eq!(metadata.strip_prefix("/home/"), Ok(()));
    assert_eq!(metadata.path_buf, "user/a.txt");

    let mut metadata = FileMetadata::new(String::from("rooted/a.txt"), 1);
    assert_eq!(metadata.strip_prefix("root"), Err(StripPrefixError));
    assert_eq!(metadata.path_buf, "rooted/a.txt");
}

#[test]
fn strip_prefix_of_the_empty_base_changes_nothing() {
    let mut metadata = FileMetadata::new(String::from("a.txt"), 1);
    assert_eq!(metadata.strip_prefix(""), Ok(()));
    assert_eq!(metadata.path_buf, "a.txt");
}

#[test]
fn strip_prefix_refuses_a_path_outside_the_base() {
    let mut metadata = FileMetadata::new(String::from("elsewhere/a.txt"), 9);
    assert_eq!(metadata.strip_prefix("root"), Err(StripPrefixError));
    assert_eq!(metadata.path_buf, "elsewhere/a.txt");
    assert_eq!(metadata.file_size, 9);
}

#[test]
fn content_hands_its_bytes_back() {
    let content = FileContent::new(vec![1, 2, 3]);
    assert_eq!(content.len(), 3);
    assert_eq!(content.as_slice(), &[1, 2, 3]);
    assert_eq!(content.into_bytes(), vec![1, 2, 3]);
    assert_eq!(FileContent::new(Vec::new()).len(), 0);
}
