//! The boundary to the eye tracker's programming interface.
//!
//! The tracker is driven through calls that answer with integer codes and,
//! for the version query, a fixed-size text buffer. This module says what each
//! answer means. The caller makes the call and hands the raw answer in.

use vstd::prelude::*;
use vstd::utf8::{
    char_is_scalar, decode_utf8, encode_scalar, encode_utf8, has_width_1_encoding,
    has_width_2_encoding, has_width_3_encoding, last_continuation_byte, leading_byte_width_1,
    leading_byte_width_2, leading_byte_width_3, leading_byte_width_4,
    second_last_continuation_byte, third_last_continuation_byte, valid_utf8,
};
use crate::text::{
    chars_of, find_char, i16_value, parse_i16, rfind_char, scan_back_for, scan_for, trim, trimmed,
    CharClass,
};

verus! {

/// Answer of the data-file transfer: the file could not be opened.
pub const FILE_CANT_OPEN: i32 = -111;

/// Answer of the data-file transfer: the transfer was aborted.
pub const FILE_XFER_ABORTED: i32 = -110;

/// Answer of the drift correction: the escape key ended it.
pub const ESC_KEY: i16 = 27;

#[verifier::external_type_specification]
#[verifier::external_body]
pub struct ExUtf8Error(core::str::Utf8Error);

/// What can go wrong when talking to the tracker.
#[derive(Debug)]
pub enum EyelinkError {
    /// The tracker's address was refused.
    InvalidIp(String),
    /// The connection could not be opened.
    ConnectionError,
    /// Escape was pressed during drift correction.
    EscPressed,
    /// Time expired without any data of the masked types.
    BlockStartError,
    /// No eye data is available.
    EyeDataError,
    /// No sample is available.
    NoSampleError,
    /// No new sample is available.
    NoNewSampleError,
    /// The tracker refused the command; it is kept as the message.
    CommandError(String),
    /// The text holds a NUL byte; the first one stands at the given
    /// position, counted in the bytes of the text in UTF-8.
    CStringError(usize),
    /// The tracker's text is not valid UTF-8.
    Utf8Error(core::str::Utf8Error),
    /// The tracker answered with a code that its interface does not list.
    ApiError(i16),
    /// The data file could not be transferred.
    DataError { code: i32, msg: String },
}

/// How to open the connection.
#[derive(Copy, Clone, Debug, PartialEq, Eq, Structural)]
pub enum OpenMode {
    Dummy,
    Real,
    NoConn,
}

/// Which eye the tracker reports.
#[derive(Copy, Clone, Debug, PartialEq, Eq, Structural)]
pub enum EyeData {
    Left,
    Right,
    Binocular,
}

/// State of the connection.
#[derive(Copy, Clone, Debug, PartialEq, Eq, Structural)]
pub enum ConnectionStatus {
    Closed,
    Simulated,
    Normal,
    Broadcast,
}

/// Position of the first NUL byte at or after `i`, or the length of `b`.
pub open spec fn nul_position(b: Seq<u8>, i: int) -> int
    decreases b.len() - i,
{
    if 0 <= i < b.len() && b[i] != 0 {
        nul_position(b, i + 1)
    } else if i < b.len() {
        i
    } else {
        b.len() as int
    }
}

/// The position of the first NUL byte is a position of `b` or its length;
/// no byte from `i` up to it is a NUL byte.
pub proof fn lemma_nul_position(b: Seq<u8>, i: int)
    requires
        0 <= i <= b.len(),
    ensures
        i <= nul_position(b, i) <= b.len(),
        nul_position(b, i) < b.len() ==> b[nul_position(b, i)] == 0,
        forall|j: int| i <= j < nul_position(b, i) ==> b[j] != 0,
    decreases b.len() - i,
{
    if i < b.len() && b[i] != 0 {
        lemma_nul_position(b, i + 1);
    }
}

/// The first NUL byte of `b` stands at `n` where no byte before `n` is one
/// and `n` holds one or is the length of `b`.
pub proof fn lemma_nul_position_at(b: Seq<u8>, i: int, n: int)
    requires
        0 <= i <= n <= b.len(),
        forall|j: int| i <= j < n ==> b[j] != 0,
        n < b.len() ==> b[n] == 0,
    ensures
        nul_position(b, i) == n,
    decreases n - i,
{
    if i < n {
        lemma_nul_position_at(b, i + 1, n);
    }
}

/// The NUL character takes the one byte 0 in UTF-8; every other character
/// takes one to four bytes, none of which is 0.
pub proof fn lemma_character_bytes(c: char)
    ensures
        1 <= encode_scalar(c as u32).len() <= 4,
        c == '\0' ==> encode_scalar(c as u32)[0] == 0,
        c != '\0' ==> forall|j: int|
            0 <= j < encode_scalar(c as u32).len() ==> #[trigger] encode_scalar(c as u32)[j] != 0,
{
    let v = c as u32;
    char_is_scalar(c);
    if has_width_1_encoding(v) {
        assert((leading_byte_width_1(v) == 0) == (v == 0)) by (bit_vector)
            requires
                v <= 0x7F,
        ;
    } else if has_width_2_encoding(v) {
        assert(leading_byte_width_2(v) != 0 && last_continuation_byte(v) != 0) by (bit_vector);
    } else if has_width_3_encoding(v) {
        assert(leading_byte_width_3(v) != 0 && second_last_continuation_byte(v) != 0
            && last_continuation_byte(v) != 0) by (bit_vector);
    } else {
        assert(leading_byte_width_4(v) != 0 && third_last_continuation_byte(v) != 0
            && second_last_continuation_byte(v) != 0 && last_continuation_byte(v) != 0)
            by (bit_vector);
    }
}

/// A text in UTF-8 holds a NUL byte exactly where it holds a NUL character,
/// and its first NUL byte stands behind the bytes of the characters before
/// its first NUL character.
pub proof fn lemma_nul_bytes(text: Seq<char>)
    ensures
        nul_position(encode_utf8(text), 0) == encode_utf8(
            text.take(find_char(text, 0, '\0')),
        ).len(),
        0 <= find_char(text, 0, '\0') <= text.len(),
        nul_position(encode_utf8(text), 0) <= encode_utf8(text).len(),
        (nul_position(encode_utf8(text), 0) < encode_utf8(text).len()) == (find_char(
            text,
            0,
            '\0',
        ) < text.len()),
    decreases text.len(),
{
    let k = find_char(text, 0, '\0');
    crate::text::lemma_find_char(text, 0, '\0');
    if text.len() == 0 {
        assert(text.take(0) =~= text);
    } else {
        let c = text[0];
        let rest = text.drop_first();
        let first = encode_scalar(c as u32);
        let bytes = encode_utf8(text);
        assert(bytes == first + encode_utf8(rest));
        lemma_character_bytes(c);
        if c == '\0' {
            assert(k == 0);
            assert(text.take(0).len() == 0);
            assert(bytes[0] == first[0]);
            lemma_nul_position_at(bytes, 0, 0);
        } else {
            lemma_nul_bytes(rest);
            crate::text::lemma_find_char(rest, 0, '\0');
            lemma_find_char_after(text, 0, '\0');
            let behind = find_char(rest, 0, '\0');
            assert(k == behind + 1);
            let tail = encode_utf8(rest);
            let n = first.len() + nul_position(tail, 0);
            lemma_nul_position(tail, 0);
            assert forall|j: int| 0 <= j < n implies bytes[j] != 0 by {
                if j < first.len() {
                    assert(bytes[j] == first[j]);
                } else {
                    assert(bytes[j] == tail[j - first.len()]);
                }
            }
            if n < bytes.len() {
                assert(bytes[n] == tail[n - first.len()]);
            }
            lemma_nul_position_at(bytes, 0, n);
            assert(text.take(k).drop_first() =~= rest.take(behind));
            assert(text.take(k)[0] == c);
            assert(encode_utf8(text.take(k)) == first + encode_utf8(rest.take(behind)));
        }
    }
}

/// The search for a character from behind the position `i` finds in a text
/// what it finds from `i` in the text without its first character.
proof fn lemma_find_char_after(s: Seq<char>, i: int, c: char)
    requires
        0 <= i < s.len(),
    ensures
        find_char(s, i + 1, c) == find_char(s.drop_first(), i, c) + 1,
    decreases s.len() - i,
{
    let rest = s.drop_first();
    if i + 1 < s.len() {
        assert(rest[i] == s[i + 1]);
        if s[i + 1] != c {
            lemma_find_char_after(s, i + 1, c);
        }
    }
}

/// The position of the first NUL byte of a text, counted in the bytes of
/// the text in UTF-8, if it has one.
pub open spec fn nul_in(text: Seq<char>) -> Option<usize> {
    let at = nul_position(encode_utf8(text), 0);
    if at < encode_utf8(text).len() {
        Some(at as usize)
    } else {
        None
    }
}

/// The bytes of a fixed-size text buffer up to its first NUL byte.
pub open spec fn buffer_text(b: Seq<u8>) -> Seq<u8> {
    b.take(nul_position(b, 0))
}

/// The piece of a version string that names the major version: what stands
/// between the last space of the trimmed string and the first full stop
/// after that space.
pub open spec fn version_token(s: Seq<char>) -> Seq<char> {
    let (a, b) = trimmed(s, 0, s.len() as int, CharClass::Space);
    let after_space = rfind_char(s, b, ' ') + 1;
    let start = if after_space < a {
        a
    } else {
        after_space
    };
    let stop = find_char(s, start, '.');
    let end = if stop < b {
        stop
    } else {
        b
    };
    s.subrange(start, end)
}

/// What the answer of the connection query means.
pub open spec fn connection_reply(res: i16) -> Option<ConnectionStatus> {
    if res == 0 {
        Some(ConnectionStatus::Closed)
    } else if res == -1 {
        Some(ConnectionStatus::Simulated)
    } else if res == 1 {
        Some(ConnectionStatus::Normal)
    } else if res == 2 {
        Some(ConnectionStatus::Broadcast)
    } else {
        None
    }
}

/// What the answer of the eye query means.
pub open spec fn eye_reply(res: i16) -> Option<EyeData> {
    if res == 1 {
        Some(EyeData::Right)
    } else if res == 0 {
        Some(EyeData::Left)
    } else if res == 2 {
        Some(EyeData::Binocular)
    } else {
        None
    }
}

/// The text of a fixed-size buffer: its bytes up to the first NUL, read as
/// UTF-8.
///
/// Calls `c_fixed_string::CFixedStr::from_bytes` and `CFixedStr::to_str`.
/// Trusted: the result is `Ok` exactly where the bytes before the first NUL
/// byte (all bytes where there is none) are valid UTF-8, and then holds the
/// characters that they encode.
#[verifier::external_body]
fn fixed_buffer_text<'a>(buffer: &'a [u8]) -> (r: Result<&'a str, core::str::Utf8Error>)
    ensures
        r is Ok == valid_utf8(buffer_text(buffer@)),
        r matches Ok(t) ==> t@ == decode_utf8(buffer_text(buffer@)),
{
    c_fixed_string::CFixedStr::from_bytes(buffer).to_str()
}

/// The position of the first NUL byte of `b`, or the length of `b`.
pub fn first_nul(b: &[u8]) -> (at: usize)
    ensures
        at == nul_position(b@, 0),
        at <= b@.len(),
{
    let mut i: usize = 0;
    while i < b.len() && b[i] != 0
        invariant
            i <= b@.len(),
            nul_position(b@, 0) == nul_position(b@, i as int),
        decreases b@.len() - i,
    {
        i = i + 1;
    }
    i
}

/// The position of the first NUL byte of a text, counted in the bytes of
/// the text in UTF-8, if it has one.
pub fn find_nul(text: &str) -> (r: Option<usize>)
    ensures
        r == nul_in(text@),
{
    let bytes = text.as_bytes();
    let at = first_nul(bytes);
    if at < bytes.len() {
        Some(at)
    } else {
        None
    }
}

/// Looks for a NUL byte in a text that is handed to the tracker. Such a text
/// cannot be passed on; the error gives the position of its first NUL byte,
/// counted in the bytes of the text in UTF-8. That is the number of bytes
/// that the characters before the first NUL character take.
pub fn check_c_string(text: &str) -> (r: Result<(), EyelinkError>)
    ensures
        match r {
            Ok(_) => {
                &&& nul_in(text@) is None
                &&& forall|i: int|
                    0 <= i < encode_utf8(text@).len() ==> encode_utf8(text@)[i] != 0
                &&& forall|i: int| 0 <= i < text@.len() ==> text@[i] != '\0'
            },
            Err(EyelinkError::CStringError(at)) => {
                &&& nul_in(text@) == Some(at)
                &&& at < encode_utf8(text@).len()
                &&& encode_utf8(text@)[at as int] == 0
                &&& forall|i: int| 0 <= i < at ==> encode_utf8(text@)[i] != 0
                &&& find_char(text@, 0, '\0') < text@.len()
                &&& at == encode_utf8(text@.take(find_char(text@, 0, '\0'))).len()
            },
            Err(_) => false,
        },
{
    proof {
        lemma_nul_position(encode_utf8(text@), 0);
        lemma_nul_bytes(text@);
        crate::text::lemma_find_char(text@, 0, '\0');
    }
    let bytes = text.as_bytes();
    let at = first_nul(bytes);
    if at < bytes.len() {
        Err(EyelinkError::CStringError(at))
    } else {
        Ok(())
    }
}

/// Reads the major version from a string of the form `EYELINK XX x.xx`.
pub fn parse_sw_version(version: &str) -> (r: Result<i16, ()>)
    ensures
        r == match i16_value(version_token(version@)) {
            Some(n) => Ok::<i16, ()>(n),
            None => Err::<i16, ()>(()),
        },
{
    let v = chars_of(version);
    let (a, b) = trim(&v, 0, v.len(), CharClass::Space);
    let after_space = scan_back_for(&v, b, ' ');
    let start = if after_space < a {
        a
    } else {
        after_space
    };
    let stop = scan_for(&v, start, '.');
    let end = if stop < b {
        stop
    } else {
        b
    };
    match parse_i16(&v, start, end) {
        Some(n) => Ok(n),
        None => Err(()),
    }
}

/// The argument of the connection call for `mode`.
pub fn open_mode_code(mode: OpenMode) -> (code: i16)
    ensures
        code == match mode {
            OpenMode::Dummy => 1i16,
            OpenMode::Real => 0i16,
            OpenMode::NoConn => -1i16,
        },
{
    match mode {
        OpenMode::Dummy => 1,
        OpenMode::Real => 0,
        OpenMode::NoConn => -1,
    }
}

/// Reads the answer of the address call. `addr` is the address that was set.
pub fn set_eyelink_address(addr: &str, res: i16) -> (r: Result<(), EyelinkError>)
    ensures
        res == 0 ==> r is Ok,
        res != 0 ==> (r matches Err(EyelinkError::InvalidIp(a)) && a@ == addr@),
{
    if res == 0 {
        Ok(())
    } else {
        Err(EyelinkError::InvalidIp(addr.to_owned()))
    }
}

/// Reads the answer of the connection call.
pub fn open_eyelink_connection(res: i16) -> (r: Result<(), EyelinkError>)
    ensures
        res == 0 ==> r is Ok,
        res != 0 ==> (r matches Err(EyelinkError::ConnectionError)),
{
    if res == 0 {
        Ok(())
    } else {
        Err(EyelinkError::ConnectionError)
    }
}

/// Reads the answer to a message sent to the tracker.
pub fn eyemsg_printf(res: i16) -> (r: Result<(), EyelinkError>)
    ensures
        res == 0 ==> r is Ok,
        res != 0 ==> (r matches Err(EyelinkError::ApiError(n)) && n == res),
{
    if res == 0 {
        Ok(())
    } else {
        Err(EyelinkError::ApiError(res))
    }
}

/// Reads the answer to a command sent to the tracker. `cmd` is the command.
pub fn eyecmd_printf(cmd: &str, res: i16) -> (r: Result<(), EyelinkError>)
    ensures
        res == 0 ==> r is Ok,
        res != 0 ==> (r matches Err(EyelinkError::CommandError(c)) && c@ == cmd@),
{
    if res == 0 {
        Ok(())
    } else {
        Err(EyelinkError::CommandError(cmd.to_owned()))
    }
}

/// Reads the answer of the version query: the tracker version and the major
/// version of its software, which the buffer names in text.
pub fn eyelink_get_tracker_version(version: i16, buffer: &[u8]) -> (r: Result<
    (i16, i16),
    EyelinkError,
>)
    ensures
        !valid_utf8(buffer_text(buffer@)) ==> (r matches Err(EyelinkError::Utf8Error(_))),
        valid_utf8(buffer_text(buffer@)) ==> match i16_value(
            version_token(decode_utf8(buffer_text(buffer@))),
        ) {
            Some(major) => r matches Ok(pair) && pair == (version, major),
            None => r matches Err(EyelinkError::ApiError(n)) && n == 0,
        },
{
    match fixed_buffer_text(buffer) {
        Err(e) => Err(EyelinkError::Utf8Error(e)),
        Ok(text) => match parse_sw_version(text) {
            Ok(major) => Ok((version, major)),
            Err(_) => Err(EyelinkError::ApiError(0)),
        },
    }
}

/// Reads the answer of the connection query.
pub fn eyelink_is_connected(res: i16) -> (r: Result<ConnectionStatus, EyelinkError>)
    ensures
        match connection_reply(res) {
            Some(status) => r matches Ok(s) && s == status,
            None => r matches Err(EyelinkError::ApiError(n)) && n == res,
        },
{
    if res == 0 {
        Ok(ConnectionStatus::Closed)
    } else if res == -1 {
        Ok(ConnectionStatus::Simulated)
    } else if res == 1 {
        Ok(ConnectionStatus::Normal)
    } else if res == 2 {
        Ok(ConnectionStatus::Broadcast)
    } else {
        Err(EyelinkError::ApiError(res))
    }
}

/// Reads the answer of the break query.
pub fn break_pressed(res: i16) -> (r: Result<bool, EyelinkError>)
    ensures
        res == 0 ==> (r matches Ok(b) && !b),
        res == 1 ==> (r matches Ok(b) && b),
        res != 0 && res != 1 ==> (r matches Err(EyelinkError::ApiError(n)) && n == res),
{
    if res == 0 {
        Ok(false)
    } else if res == 1 {
        Ok(true)
    } else {
        Err(EyelinkError::ApiError(res))
    }
}

/// Reads the answer of the call that opens the data file.
pub fn open_data_file(res: i16) -> (r: Result<(), EyelinkError>)
    ensures
        res == 0 ==> r is Ok,
        res != 0 ==> (r matches Err(EyelinkError::ApiError(n)) && n == res),
{
    if res == 0 {
        Ok(())
    } else {
        Err(EyelinkError::ApiError(res))
    }
}

/// Reads the answer of the data-file transfer: the size of the file, or why
/// there is none.
pub fn receive_data_file(res: i32) -> (r: Result<i32, EyelinkError>)
    ensures
        res == 0 || res == FILE_CANT_OPEN || res == FILE_XFER_ABORTED ==> (r matches Err(
            EyelinkError::DataError { code, msg },
        ) && code == res && msg@ == (if res == 0 {
            "File transfer was cancelled."@
        } else if res == FILE_CANT_OPEN {
            "Cannot open file."@
        } else {
            "Data error. Aborted."@
        })),
        !(res == 0 || res == FILE_CANT_OPEN || res == FILE_XFER_ABORTED) ==> (r matches Ok(n) && n
            == res),
{
    if res == 0 {
        Err(EyelinkError::DataError { code: 0, msg: "File transfer was cancelled.".to_owned() })
    } else if res == FILE_CANT_OPEN {
        Err(EyelinkError::DataError { code: FILE_CANT_OPEN, msg: "Cannot open file.".to_owned() })
    } else if res == FILE_XFER_ABORTED {
        Err(
            EyelinkError::DataError {
                code: FILE_XFER_ABORTED,
                msg: "Data error. Aborted.".to_owned(),
            },
        )
    } else {
        Ok(res)
    }
}

/// Reads the answer of the drift correction.
pub fn do_drift_correct(res: i16) -> (r: Result<(), EyelinkError>)
    ensures
        res == 0 ==> r is Ok,
        res == ESC_KEY ==> (r matches Err(EyelinkError::EscPressed)),
        res != 0 && res != ESC_KEY ==> (r matches Err(EyelinkError::ApiError(n)) && n == res),
{
    if res == 0 {
        Ok(())
    } else if res == ESC_KEY {
        Err(EyelinkError::EscPressed)
    } else {
        Err(EyelinkError::ApiError(res))
    }
}

/// Reads the answer of the call that flushes keys and buttons.
pub fn eyelink_flush_keybuttons(res: i16) -> (r: Result<(), EyelinkError>)
    ensures
        res == 0 ==> r is Ok,
        res != 0 ==> (r matches Err(EyelinkError::ApiError(n)) && n == res),
{
    if res == 0 {
        Ok(())
    } else {
        Err(EyelinkError::ApiError(res))
    }
}

/// Reads the answer of the sample query: whether the buffer it filled holds a
/// new sample.
pub fn eyelink_newest_float_sample(res: i16) -> (r: Result<(), EyelinkError>)
    ensures
        res == 1 ==> r is Ok,
        res == -1 ==> (r matches Err(EyelinkError::NoSampleError)),
        res == 0 ==> (r matches Err(EyelinkError::NoNewSampleError)),
        res != 1 && res != -1 && res != 0 ==> (r matches Err(EyelinkError::ApiError(n)) && n
            == res),
{
    if res == -1 {
        Err(EyelinkError::NoSampleError)
    } else if res == 0 {
        Err(EyelinkError::NoNewSampleError)
    } else if res == 1 {
        Ok(())
    } else {
        Err(EyelinkError::ApiError(res))
    }
}

/// Reads the answer of the eye query.
pub fn eyelink_eye_available(res: i16) -> (r: Result<EyeData, EyelinkError>)
    ensures
        match eye_reply(res) {
            Some(eye) => r matches Ok(e) && e == eye,
            None => if res == -1 {
                r matches Err(EyelinkError::EyeDataError)
            } else {
                r matches Err(EyelinkError::ApiError(n)) && n == res
            },
        },
{
    if res == 1 {
        Ok(EyeData::Right)
    } else if res == 0 {
        Ok(EyeData::Left)
    } else if res == 2 {
        Ok(EyeData::Binocular)
    } else if res == -1 {
        Err(EyelinkError::EyeDataError)
    } else {
        Err(EyelinkError::ApiError(res))
    }
}

/// Reads the answer of the wait for the start of a data block.
pub fn eyelink_wait_for_block_start(res: i16) -> (r: Result<(), EyelinkError>)
    ensures
        res != 0 ==> r is Ok,
        res == 0 ==> (r matches Err(EyelinkError::BlockStartError)),
{
    if res == 0 {
        Err(EyelinkError::BlockStartError)
    } else {
        Ok(())
    }
}

/// Reads the answer of the call that starts recording.
pub fn start_recording(res: i16) -> (r: Result<(), EyelinkError>)
    ensures
        res == 0 ==> r is Ok,
        res != 0 ==> (r matches Err(EyelinkError::ApiError(n)) && n == res),
{
    if res == 0 {
        Ok(())
    } else {
        Err(EyelinkError::ApiError(res))
    }
}

} // verus!
