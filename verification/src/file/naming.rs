//! Names for files that the platform hands over by URI rather than by path:
//! the name to send a file under, its extension and its kind.

use crate::text::{begins_with, chars_of, contains_text, join2, occurs_in, same_text, string_of};
use vstd::prelude::*;
use vstd::string::*;
use vstd::utf8::encode_utf8;

verus! {

/// What a piece of text stands for when its percent escapes are resolved and
/// the result is read as UTF-8, if it can be read so.
pub uninterp spec fn percent_decoded(text: Seq<char>) -> Option<Seq<char>>;

/// A piece of text in lower case.
pub uninterp spec fn lowercase_of(text: Seq<char>) -> Seq<char>;

/// The value of text that may be missing.
pub open spec fn optional_text(s: Option<String>) -> Option<Seq<char>> {
    match s {
        Some(s) => Some(s@),
        None => None,
    }
}

/// `urlencoding::decode`: `text` with every `%` and two hexadecimal digits
/// replaced by the byte they write, read as UTF-8; nothing where the bytes are
/// no UTF-8.
#[verifier::external_body]
fn percent_decode(text: &str) -> (decoded: Option<String>)
    ensures
        optional_text(decoded) == percent_decoded(text@),
{
    urlencoding::decode(text).ok().map(|s| s.into_owned())
}

/// `str::to_lowercase`: the lower-case equivalent of `text`.
#[verifier::external_body]
fn to_lowercase(text: &str) -> (lowered: String)
    ensures
        lowered@ == lowercase_of(text@),
{
    text.to_lowercase()
}

/// Where the last `wanted` of `text` stands, or -1 where there is none.
pub open spec fn last_index_of(text: Seq<char>, wanted: char) -> int
    decreases text.len(),
{
    if text.len() == 0 {
        -1
    } else if text.last() == wanted {
        text.len() - 1
    } else {
        last_index_of(text.drop_last(), wanted)
    }
}

/// Where the last `/` of `text` stands, or -1 where there is none.
pub open spec fn last_slash(text: Seq<char>) -> int {
    last_index_of(text, '/')
}

/// What follows the last `/` of `text`; all of it where there is none.
pub open spec fn last_segment(text: Seq<char>) -> Seq<char> {
    text.skip(last_slash(text) + 1)
}

/// Where the last `.` of `text` stands, or -1 where there is none.
pub open spec fn last_dot(text: Seq<char>) -> int {
    last_index_of(text, '.')
}

/// Whether `text` holds a `.`.
pub open spec fn has_dot(text: Seq<char>) -> bool {
    last_dot(text) >= 0
}

/// The extension that a URI in lower case hints at; `bin` where it hints at
/// none.
pub open spec fn guessed_extension(lowered: Seq<char>) -> Seq<char> {
    if occurs_in(".png"@, lowered) {
        "png"@
    } else if occurs_in(".jpg"@, lowered) || occurs_in(".jpeg"@, lowered) {
        "jpg"@
    } else if occurs_in(".pdf"@, lowered) {
        "pdf"@
    } else if occurs_in(".mp4"@, lowered) {
        "mp4"@
    } else if occurs_in(".mp3"@, lowered) {
        "mp3"@
    } else if occurs_in(".txt"@, lowered) {
        "txt"@
    } else if occurs_in(".doc"@, lowered) || occurs_in(".docx"@, lowered) {
        "docx"@
    } else if occurs_in(".xls"@, lowered) || occurs_in(".xlsx"@, lowered) {
        "xlsx"@
    } else {
        "bin"@
    }
}

/// Whether the last segment of a URI, percent-decoded, serves as a file name:
/// the segment has a dot and does not begin with `msf:`, it can be decoded, and
/// the decoded text has a dot and takes fewer than 200 bytes.
pub open spec fn serves_as_name(segment: Seq<char>, decoded: Option<Seq<char>>) -> bool {
    &&& has_dot(segment)
    &&& !"msf:"@.is_prefix_of(segment)
    &&& decoded is Some
    &&& encode_utf8(decoded->0).len() < 200
    &&& has_dot(decoded->0)
}

/// The name for the file behind a URI, given the URI's last segment, what the
/// segment decodes to, and the URI in lower case: the decoded segment where it
/// serves as a name, otherwise a made-up name with the extension that the URI
/// hints at.
pub open spec fn chosen_name(
    segment: Seq<char>,
    decoded: Option<Seq<char>>,
    lowered: Seq<char>,
) -> Seq<char> {
    if serves_as_name(segment, decoded) {
        decoded->0
    } else {
        "文件."@ + guessed_extension(lowered)
    }
}

/// The name for the file behind a URI.
pub open spec fn name_from_uri(uri: Seq<char>) -> Seq<char> {
    chosen_name(last_segment(uri), percent_decoded(last_segment(uri)), lowercase_of(uri))
}

/// Where the last occurrence of `wanted` in `text` stands, or nothing.
fn last_position(text: &Vec<char>, wanted: char) -> (at: Option<usize>)
    ensures
        match at {
            Some(i) => i < text@.len() && i == last_index_of(text@, wanted),
            None => last_index_of(text@, wanted) == -1,
        },
{
    let mut i: usize = text.len();
    assert(text@.take(text@.len() as int) =~= text@);
    while i > 0
        invariant
            i <= text@.len(),
            last_index_of(text@, wanted) == last_index_of(text@.take(i as int), wanted),
        decreases i,
    {
        proof {
            assert(text@.take(i as int).last() == text@[i - 1]);
            assert(text@.take(i as int).drop_last() =~= text@.take(i - 1));
        }
        if text[i - 1] == wanted {
            return Some(i - 1);
        }
        i = i - 1;
    }
    None
}

/// The extension that a URI in lower case hints at.
fn guess_extension(lowered: &Vec<char>) -> (ext: &'static str)
    ensures
        ext@ == guessed_extension(lowered@),
{
    if contains_text(lowered, &chars_of(".png")) {
        "png"
    } else if contains_text(lowered, &chars_of(".jpg")) || contains_text(
        lowered,
        &chars_of(".jpeg"),
    ) {
        "jpg"
    } else if contains_text(lowered, &chars_of(".pdf")) {
        "pdf"
    } else if contains_text(lowered, &chars_of(".mp4")) {
        "mp4"
    } else if contains_text(lowered, &chars_of(".mp3")) {
        "mp3"
    } else if contains_text(lowered, &chars_of(".txt")) {
        "txt"
    } else if contains_text(lowered, &chars_of(".doc")) || contains_text(
        lowered,
        &chars_of(".docx"),
    ) {
        "docx"
    } else if contains_text(lowered, &chars_of(".xls")) || contains_text(
        lowered,
        &chars_of(".xlsx"),
    ) {
        "xlsx"
    } else {
        "bin"
    }
}

/// The name for the file behind a URI, given the URI's last segment, what the
/// segment decodes to, and the URI in lower case.
pub fn choose_file_name(segment: &str, decoded: Option<String>, lowered: &str) -> (name: String)
    ensures
        name@ == chosen_name(segment@, optional_text(decoded), lowered@),
{
    let segment_chars = chars_of(segment);
    if last_position(&segment_chars, '.').is_some() && !begins_with(
        &segment_chars,
        &chars_of("msf:"),
    ) {
        match decoded {
            Some(text) => {
                let text_chars = chars_of(text.as_str());
                if text.as_str().as_bytes().len() < 200 && last_position(&text_chars, '.').is_some() {
                    return text;
                }
            },
            None => {},
        }
    }
    let lowered_chars = chars_of(lowered);
    join2("文件.", guess_extension(&lowered_chars))
}

/// The name to send the file behind `uri` under, where the platform does not
/// know the file's name.
pub fn get_file_name_from_uri(uri: &str) -> (name: String)
    ensures
        name@ == name_from_uri(uri@),
{
    let chars = chars_of(uri);
    let n: usize = chars.len();
    let from: usize = match last_position(&chars, '/') {
        Some(i) => i + 1,
        None => 0,
    };
    let segment = string_of(&chars, from, n);
    assert(chars@.subrange(from as int, chars@.len() as int) =~= last_segment(uri@));
    let decoded = percent_decode(segment.as_str());
    let lowered = to_lowercase(uri);
    choose_file_name(segment.as_str(), decoded, lowered.as_str())
}

/// The extension of a file name: what follows its last dot, in lower case.
pub open spec fn extension_spec(file_name: Seq<char>) -> Option<Seq<char>> {
    if has_dot(file_name) {
        Some(lowercase_of(file_name.skip(last_dot(file_name) + 1)))
    } else {
        None
    }
}

/// The extension of a file name, if it has one.
pub fn extension_of(file_name: &str) -> (ext: Option<String>)
    ensures
        optional_text(ext) == extension_spec(file_name@),
{
    let chars = chars_of(file_name);
    let n: usize = chars.len();
    match last_position(&chars, '.') {
        Some(i) => {
            let tail = string_of(&chars, i + 1, n);
            assert(chars@.subrange(i + 1, chars@.len() as int) =~= file_name@.skip(i + 1));
            Some(to_lowercase(tail.as_str()))
        },
        None => None,
    }
}

/// The kind of file that an extension in lower case stands for, where it is
/// one of the usual ones.
pub open spec fn mime_spec(extension: Seq<char>) -> Option<Seq<char>> {
    if extension == "jpg"@ || extension == "jpeg"@ {
        Some("image/jpeg"@)
    } else if extension == "png"@ {
        Some("image/png"@)
    } else if extension == "gif"@ {
        Some("image/gif"@)
    } else if extension == "pdf"@ {
        Some("application/pdf"@)
    } else if extension == "mp4"@ {
        Some("video/mp4"@)
    } else if extension == "mp3"@ {
        Some("audio/mpeg"@)
    } else if extension == "txt"@ {
        Some("text/plain"@)
    } else if extension == "doc"@ || extension == "docx"@ {
        Some("application/msword"@)
    } else if extension == "xls"@ || extension == "xlsx"@ {
        Some("application/vnd.ms-excel"@)
    } else if extension == "zip"@ {
        Some("application/zip"@)
    } else {
        None
    }
}

/// The kind of file that an extension in lower case stands for.
pub fn mime_type_for(extension: &str) -> (mime: Option<String>)
    ensures
        optional_text(mime) == mime_spec(extension@),
{
    let kind: &str = if same_text(extension, "jpg") || same_text(extension, "jpeg") {
        "image/jpeg"
    } else if same_text(extension, "png") {
        "image/png"
    } else if same_text(extension, "gif") {
        "image/gif"
    } else if same_text(extension, "pdf") {
        "application/pdf"
    } else if same_text(extension, "mp4") {
        "video/mp4"
    } else if same_text(extension, "mp3") {
        "audio/mpeg"
    } else if same_text(extension, "txt") {
        "text/plain"
    } else if same_text(extension, "doc") || same_text(extension, "docx") {
        "application/msword"
    } else if same_text(extension, "xls") || same_text(extension, "xlsx") {
        "application/vnd.ms-excel"
    } else if same_text(extension, "zip") {
        "application/zip"
    } else {
        return None;
    };
    Some(String::from_str(kind))
}

} // verus!
