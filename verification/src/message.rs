use vstd::prelude::*;
use vstd::bytes::*;
use vstd::utf8::*;
use crate::error::{Error, StripPrefixError};
use crate::frame::{frame_of, lemma_frame_round_trip, parse_frame};
use crate::path::{path_stripped, strip_prefix};

verus! {

/// Per-file flags, sent ahead of the file's description.
#[derive(Clone, Copy, Debug, PartialEq, Eq, Structural)]
pub struct TrsferSetting {
    pub is_dry_run: bool,
}

/// Which file is offered: its path and its size in bytes.
#[derive(Clone, Debug, PartialEq, Eq)]
pub struct FileMetadata {
    pub path_buf: String,
    pub file_size: u64,
}

/// The bytes of one file, whole.
#[derive(Clone, Debug, PartialEq, Eq)]
pub struct FileContent(pub Vec<u8>);

/// The server's word on one file: where it was put.
#[derive(Clone, Debug, PartialEq, Eq)]
pub struct Response {
    pub save_path: String,
}

/// A flag on the wire: one byte, 1 or 0.
pub open spec fn flag_bytes(flag: bool) -> Seq<u8> {
    seq![if flag { 1u8 } else { 0u8 }]
}

/// The flag that a message begins with, if it begins with one.
pub open spec fn parse_flag(bytes: Seq<u8>) -> Option<bool> {
    if bytes.len() >= 1 && bytes[0] == 1 {
        Some(true)
    } else if bytes.len() >= 1 && bytes[0] == 0 {
        Some(false)
    } else {
        None
    }
}

/// Text on the wire: the length of its UTF-8 form as eight little-endian
/// bytes, then that form.
pub open spec fn text_bytes(text: Seq<char>) -> Seq<u8> {
    spec_u64_to_le_bytes(encode_utf8(text).len() as u64) + encode_utf8(text)
}

/// Whether a message begins with a text: a length, and that many bytes of
/// valid UTF-8.
pub open spec fn starts_with_text(bytes: Seq<u8>) -> bool {
    &&& bytes.len() >= 8
    &&& bytes.len() - 8 >= spec_u64_from_le_bytes(bytes.subrange(0, 8))
    &&& valid_utf8(bytes.subrange(8, text_end(bytes)))
}

/// Where the text that a message begins with ends.
pub open spec fn text_end(bytes: Seq<u8>) -> int {
    8 + spec_u64_from_le_bytes(bytes.subrange(0, 8))
}

/// The text that a message begins with.
pub open spec fn parse_text(bytes: Seq<u8>) -> Option<Seq<char>> {
    if starts_with_text(bytes) {
        Some(decode_utf8(bytes.subrange(8, text_end(bytes))))
    } else {
        None
    }
}

/// A text and a number on the wire: the text, then the number as eight
/// little-endian bytes.
pub open spec fn text_and_size_bytes(text: Seq<char>, size: u64) -> Seq<u8> {
    text_bytes(text) + spec_u64_to_le_bytes(size)
}

/// The text and the number that a message begins with.
pub open spec fn parse_text_and_size(bytes: Seq<u8>) -> Option<(Seq<char>, u64)> {
    if starts_with_text(bytes) && bytes.len() - text_end(bytes) >= 8 {
        Some(
            (
                decode_utf8(bytes.subrange(8, text_end(bytes))),
                spec_u64_from_le_bytes(bytes.subrange(text_end(bytes), text_end(bytes) + 8)),
            ),
        )
    } else {
        None
    }
}

/// `bincode::serialize` on a `bool`: with the crate's fixed-width,
/// little-endian default it writes the single byte 1 or 0 into a fresh
/// vector, which cannot fail.
#[verifier::external_body]
fn bincode_serialize_flag(flag: bool) -> (r: Result<Vec<u8>, bincode::Error>)
    ensures
        match r {
            Ok(bytes) => bytes@ == flag_bytes(flag),
            Err(_) => false,
        },
{
    bincode::serialize(&flag)
}

/// `bincode::deserialize` to a `bool`: reads one byte, takes 1 for true and
/// 0 for false, refuses any other byte and an empty input, and does not mind
/// bytes that follow.
#[verifier::external_body]
fn bincode_deserialize_flag(bytes: &[u8]) -> (r: Result<bool, bincode::Error>)
    ensures
        match r {
            Ok(flag) => parse_flag(bytes@) == Some(flag),
            Err(_) => parse_flag(bytes@) is None,
        },
{
    bincode::deserialize::<bool>(bytes)
}

/// `bincode::serialize` on a `str`: the byte length as a `u64`, little-endian,
/// then the bytes of the string; writing into a fresh vector cannot fail.
#[verifier::external_body]
fn bincode_serialize_text(text: &str) -> (r: Result<Vec<u8>, bincode::Error>)
    ensures
        match r {
            Ok(bytes) => bytes@ == text_bytes(text@),
            Err(_) => false,
        },
{
    bincode::serialize(text)
}

/// `bincode::deserialize` to a `String`: reads a little-endian `u64` length,
/// then that many bytes, which must be there and be valid UTF-8; bytes that
/// follow are not looked at.
#[verifier::external_body]
fn bincode_deserialize_text(bytes: &[u8]) -> (r: Result<String, bincode::Error>)
    ensures
        match r {
            Ok(text) => parse_text(bytes@) == Some(text@),
            Err(_) => parse_text(bytes@) is None,
        },
{
    bincode::deserialize::<String>(bytes)
}

/// `bincode::serialize` on a pair of a `str` and a `u64`: the members one
/// after the other, the string as above, the number as eight little-endian
/// bytes.
#[verifier::external_body]
fn bincode_serialize_text_and_size(text: &str, size: u64) -> (r: Result<Vec<u8>, bincode::Error>)
    ensures
        match r {
            Ok(bytes) => bytes@ == text_and_size_bytes(text@, size),
            Err(_) => false,
        },
{
    bincode::serialize(&(text, size))
}

/// `bincode::deserialize` to a pair of a `String` and a `u64`: the string as
/// above, then eight bytes for the number, which must be there.
#[verifier::external_body]
fn bincode_deserialize_text_and_size(bytes: &[u8]) -> (r: Result<(String, u64), bincode::Error>)
    ensures
        match r {
            Ok(pair) => parse_text_and_size(bytes@) == Some((pair.0@, pair.1)),
            Err(_) => parse_text_and_size(bytes@) is None,
        },
{
    bincode::deserialize::<(String, u64)>(bytes)
}

/// A flag that was written reads back as itself, whatever follows it.
pub proof fn lemma_flag_round_trip(flag: bool, rest: Seq<u8>)
    ensures
        parse_flag(flag_bytes(flag) + rest) == Some(flag),
{
}

/// A text that was written reads back as itself, whatever follows it.
pub proof fn lemma_text_round_trip(text: Seq<char>, rest: Seq<u8>)
    requires
        encode_utf8(text).len() <= u64::MAX,
    ensures
        starts_with_text(text_bytes(text) + rest),
        text_end(text_bytes(text) + rest) == text_bytes(text).len(),
        parse_text(text_bytes(text) + rest) == Some(text),
{
    lemma_auto_spec_u64_to_from_le_bytes();
    encode_utf8_valid_utf8(text);
    encode_utf8_decode_utf8(text);
    let bytes = text_bytes(text) + rest;
    let utf8 = encode_utf8(text);
    assert(bytes.subrange(0, 8) =~= spec_u64_to_le_bytes(utf8.len() as u64));
    assert(bytes.subrange(8, 8 + utf8.len() as int) =~= utf8);
}

/// A text and a size that were written read back as themselves, whatever
/// follows them.
pub proof fn lemma_text_and_size_round_trip(text: Seq<char>, size: u64, rest: Seq<u8>)
    requires
        encode_utf8(text).len() <= u64::MAX,
    ensures
        parse_text_and_size(text_and_size_bytes(text, size) + rest) == Some((text, size)),
{
    lemma_auto_spec_u64_to_from_le_bytes();
    let number = spec_u64_to_le_bytes(size);
    let bytes = text_and_size_bytes(text, size) + rest;
    assert(bytes =~= text_bytes(text) + (number + rest));
    lemma_text_round_trip(text, number + rest);
    let end = text_bytes(text).len() as int;
    assert(bytes.subrange(end, end + 8) =~= number);
}

/// A value that travels as one message: the payload of one frame.
pub trait Message: Sized {
    /// What a message of this kind says, as a plain value.
    type Value;

    /// What this message says.
    spec fn value(&self) -> Self::Value;

    /// The message as it goes into a frame.
    spec fn wire(&self) -> Seq<u8>;

    /// What the message at the front of `bytes` says, if one is there.
    spec fn parse(bytes: Seq<u8>) -> Option<Self::Value>;

    /// A message that was written reads back as what it says, whatever
    /// follows it.
    proof fn lemma_round_trip(&self, rest: Seq<u8>)
        requires
            self.wire().len() <= u64::MAX,
        ensures
            Self::parse(self.wire() + rest) == Some(self.value()),
    ;

    /// Writes the message. This cannot fail.
    fn serialize(&self) -> (r: Result<Vec<u8>, Error>)
        ensures
            match r {
                Ok(bytes) => bytes@ == self.wire(),
                Err(_) => false,
            },
    ;

    /// Reads the message at the front of `bytes`, and fails exactly where
    /// none is there.
    fn deserialize(bytes: &[u8]) -> (r: Result<Self, Error>)
        ensures
            match r {
                Ok(message) => Self::parse(bytes@) == Some(message.value()),
                Err(e) => Self::parse(bytes@) is None && e is BincodeError,
            },
    ;
}

/// Whatever message is written into a frame reads back from the stream as
/// what it said: the frame gives back the message's bytes and ends where
/// they end, and the bytes give back what the message says.
pub proof fn lemma_written_message_reads_back<M: Message>(message: M, rest: Seq<u8>)
    requires
        message.wire().len() <= u64::MAX,
    ensures
        parse_frame(frame_of(message.wire()) + rest) == Some((message.wire(), rest)),
        M::parse(message.wire()) == Some(message.value()),
{
    lemma_frame_round_trip(message.wire(), rest);
    message.lemma_round_trip(Seq::empty());
    assert(message.wire() + Seq::<u8>::empty() =~= message.wire());
}

/// The server's reply to an offer: whether the file is there already.
impl Message for bool {
    type Value = bool;

    open spec fn value(&self) -> bool {
        *self
    }

    open spec fn wire(&self) -> Seq<u8> {
        flag_bytes(*self)
    }

    open spec fn parse(bytes: Seq<u8>) -> Option<bool> {
        parse_flag(bytes)
    }

    proof fn lemma_round_trip(&self, rest: Seq<u8>) {
        lemma_flag_round_trip(*self, rest);
    }

    fn serialize(&self) -> (r: Result<Vec<u8>, Error>) {
        match bincode_serialize_flag(*self) {
            Ok(bytes) => Ok(bytes),
            Err(e) => Err(Error::BincodeError(e)),
        }
    }

    fn deserialize(bytes: &[u8]) -> (r: Result<Self, Error>) {
        match bincode_deserialize_flag(bytes) {
            Ok(flag) => Ok(flag),
            Err(e) => Err(Error::BincodeError(e)),
        }
    }
}

impl TrsferSetting {
    pub fn new(is_dry_run: bool) -> (setting: Self)
        ensures
            setting.is_dry_run == is_dry_run,
    {
        TrsferSetting { is_dry_run }
    }
}

impl Message for TrsferSetting {
    type Value = TrsferSetting;

    open spec fn value(&self) -> TrsferSetting {
        *self
    }

    open spec fn wire(&self) -> Seq<u8> {
        flag_bytes(self.is_dry_run)
    }

    open spec fn parse(bytes: Seq<u8>) -> Option<TrsferSetting> {
        match parse_flag(bytes) {
            Some(flag) => Some(TrsferSetting { is_dry_run: flag }),
            None => None,
        }
    }

    proof fn lemma_round_trip(&self, rest: Seq<u8>) {
        lemma_flag_round_trip(self.is_dry_run, rest);
    }

    fn serialize(&self) -> (r: Result<Vec<u8>, Error>) {
        match bincode_serialize_flag(self.is_dry_run) {
            Ok(bytes) => Ok(bytes),
            Err(e) => Err(Error::BincodeError(e)),
        }
    }

    fn deserialize(bytes: &[u8]) -> (r: Result<Self, Error>) {
        match bincode_deserialize_flag(bytes) {
            Ok(flag) => Ok(TrsferSetting { is_dry_run: flag }),
            Err(e) => Err(Error::BincodeError(e)),
        }
    }
}

impl FileMetadata {
    pub fn new(path_buf: String, file_size: u64) -> (metadata: Self)
        ensures
            metadata.path_buf == path_buf,
            metadata.file_size == file_size,
    {
        FileMetadata { path_buf, file_size }
    }

    /// Makes the path relative to `base`. Where `base` is not a prefix of the
    /// path, nothing changes and the error says so.
    pub fn strip_prefix(&mut self, base: &str) -> (r: Result<(), StripPrefixError>)
        ensures
            final(self).file_size == old(self).file_size,
            match path_stripped(old(self).path_buf@, base@) {
                Some(rest) => r is Ok && final(self).path_buf@ == rest,
                None => r is Err && final(self).path_buf == old(self).path_buf,
            },
    {
        match strip_prefix(self.path_buf.as_str(), base) {
            Some(rest) => {
                self.path_buf = rest;
                Ok(())
            },
            None => Err(StripPrefixError),
        }
    }
}

impl Message for FileMetadata {
    type Value = (Seq<char>, u64);

    open spec fn value(&self) -> (Seq<char>, u64) {
        (self.path_buf@, self.file_size)
    }

    open spec fn wire(&self) -> Seq<u8> {
        text_and_size_bytes(self.path_buf@, self.file_size)
    }

    open spec fn parse(bytes: Seq<u8>) -> Option<(Seq<char>, u64)> {
        parse_text_and_size(bytes)
    }

    proof fn lemma_round_trip(&self, rest: Seq<u8>) {
        lemma_text_and_size_round_trip(self.path_buf@, self.file_size, rest);
    }

    fn serialize(&self) -> (r: Result<Vec<u8>, Error>) {
        match bincode_serialize_text_and_size(self.path_buf.as_str(), self.file_size) {
            Ok(bytes) => Ok(bytes),
            Err(e) => Err(Error::BincodeError(e)),
        }
    }

    fn deserialize(bytes: &[u8]) -> (r: Result<Self, Error>) {
        match bincode_deserialize_text_and_size(bytes) {
            Ok(pair) => Ok(FileMetadata { path_buf: pair.0, file_size: pair.1 }),
            Err(e) => Err(Error::BincodeError(e)),
        }
    }
}

impl Response {
    pub fn new(save_path: String) -> (response: Self)
        ensures
            response.save_path == save_path,
    {
        Response { save_path }
    }
}

impl Message for Response {
    type Value = Seq<char>;

    open spec fn value(&self) -> Seq<char> {
        self.save_path@
    }

    open spec fn wire(&self) -> Seq<u8> {
        text_bytes(self.save_path@)
    }

    open spec fn parse(bytes: Seq<u8>) -> Option<Seq<char>> {
        parse_text(bytes)
    }

    proof fn lemma_round_trip(&self, rest: Seq<u8>) {
        lemma_text_round_trip(self.save_path@, rest);
    }

    fn serialize(&self) -> (r: Result<Vec<u8>, Error>) {
        match bincode_serialize_text(self.save_path.as_str()) {
            Ok(bytes) => Ok(bytes),
            Err(e) => Err(Error::BincodeError(e)),
        }
    }

    fn deserialize(bytes: &[u8]) -> (r: Result<Self, Error>) {
        match bincode_deserialize_text(bytes) {
            Ok(save_path) => Ok(Response { save_path }),
            Err(e) => Err(Error::BincodeError(e)),
        }
    }
}

impl View for FileContent {
    type V = Seq<u8>;

    open spec fn view(&self) -> Seq<u8> {
        self.0@
    }
}

impl FileContent {
    pub fn new(bytes: Vec<u8>) -> (content: Self)
        ensures
            content@ == bytes@,
    {
        FileContent(bytes)
    }

    pub fn as_slice(&self) -> (bytes: &[u8])
        ensures
            bytes@ == self@,
    {
        self.0.as_slice()
    }

    pub fn len(&self) -> (n: usize)
        ensures
            n == self@.len(),
    {
        self.0.len()
    }

    pub fn into_bytes(self) -> (bytes: Vec<u8>)
        ensures
            bytes@ == self@,
    {
        self.0
    }
}

} // verus!
