use vstd::prelude::*;
use vstd::utf8::encode_utf8;
use crate::message::{device_message_view, Message, MessageView};

verus! {

/// The characters of Unicode's White_Space property.
pub open spec fn is_white_space(c: char) -> bool {
    let n = c as u32;
    (0x9 <= n && n <= 0xD) || n == 0x20 || n == 0x85 || n == 0xA0 || n == 0x1680
        || (0x2000 <= n && n <= 0x200A) || n == 0x2028 || n == 0x2029 || n == 0x202F
        || n == 0x205F || n == 0x3000
}

/// `s` without its leading white space.
pub open spec fn trim_start(s: Seq<char>) -> Seq<char>
    decreases s.len(),
{
    if s.len() > 0 && is_white_space(s[0]) {
        trim_start(s.drop_first())
    } else {
        s
    }
}

/// `s` without its trailing white space.
pub open spec fn trim_end(s: Seq<char>) -> Seq<char>
    decreases s.len(),
{
    if s.len() > 0 && is_white_space(s.last()) {
        trim_end(s.drop_last())
    } else {
        s
    }
}

/// `s` without leading and trailing white space.
pub open spec fn trimmed(s: Seq<char>) -> Seq<char> {
    trim_end(trim_start(s))
}

/// Every byte is ASCII.
pub open spec fn is_ascii_bytes(b: Seq<u8>) -> bool {
    forall|i: int| 0 <= i < b.len() ==> b[i] < 128
}

/// ASCII bytes read as the characters they encode.
pub open spec fn ascii_chars(b: Seq<u8>) -> Seq<char> {
    Seq::new(b.len(), |i: int| b[i] as char)
}

/// The text that UTF-8 decoding with replacement of invalid sequences gives.
pub uninterp spec fn lossy_text(b: Seq<u8>) -> Seq<char>;

/// Relies on `str::trim`: the slice without leading and trailing characters
/// of the White_Space property.
#[verifier::external_body]
fn trim_text(s: &str) -> (r: &str)
    ensures
        r@ == trimmed(s@),
{
    s.trim()
}

/// Relies on `String::from_utf8_lossy`: the bytes decoded as UTF-8, invalid
/// sequences replaced; valid input, ASCII among it, decodes as it stands.
#[verifier::external_body]
fn decode_lossy(b: &[u8]) -> (r: String)
    ensures
        r@ == lossy_text(b@),
        is_ascii_bytes(b@) ==> r@ == ascii_chars(b@),
{
    String::from_utf8_lossy(b).into_owned()
}

/// The message that decoded device text becomes: none when nothing but white
/// space was sent.
pub open spec fn text_message(t: Seq<char>) -> Option<MessageView> {
    if trimmed(t).len() == 0 {
        None
    } else {
        Some(device_message_view(trimmed(t)))
    }
}

/// The message that a chunk of raw device output becomes.
pub open spec fn chunk_message(b: Seq<u8>) -> Option<MessageView> {
    text_message(lossy_text(b))
}

/// The bytes that carry `text` to the device as one line.
pub open spec fn line_bytes(text: Seq<char>) -> Seq<u8> {
    encode_utf8(text).push(10u8)
}

/// Every character is white space.
pub open spec fn is_blank(t: Seq<char>) -> bool {
    forall|i: int| 0 <= i < t.len() ==> is_white_space(#[trigger] t[i])
}

/// Every byte is ASCII white space: tab, line feed, vertical tab, form feed,
/// carriage return or space.
pub open spec fn is_blank_bytes(b: Seq<u8>) -> bool {
    forall|i: int| 0 <= i < b.len() ==> (9 <= #[trigger] b[i] <= 13 || b[i] == 32)
}

proof fn lemma_trim_start_blank(s: Seq<char>)
    requires
        is_blank(s),
    ensures
        trim_start(s).len() == 0,
    decreases s.len(),
{
    if s.len() > 0 {
        assert(is_white_space(s[0]));
        assert(is_blank(s.drop_first())) by {
            assert forall|i: int| 0 <= i < s.drop_first().len() implies is_white_space(
                #[trigger] s.drop_first()[i],
            ) by {
                assert(s.drop_first()[i] == s[i + 1]);
            }
        }
        lemma_trim_start_blank(s.drop_first());
    }
}

/// Text made only of white space gives no message.
pub proof fn blank_text_makes_no_message(t: Seq<char>)
    requires
        is_blank(t),
    ensures
        text_message(t) is None,
{
    lemma_trim_start_blank(t);
    assert(trim_start(t).len() == 0);
    assert(trimmed(t) == trim_start(t));
}

/// Turns decoded device text into a message from the device, trimmed of
/// surrounding white space; none when nothing is left.
pub fn message_from_text(text: &str) -> (r: Option<Message>)
    ensures
        match r {
            Some(m) => text_message(text@) == Some(m@),
            None => text_message(text@) is None,
        },
{
    let t = trim_text(text);
    if t.is_empty() {
        None
    } else {
        Some(Message::from_device(t.to_owned()))
    }
}

/// Turns a chunk of raw device output into a message from the device.
pub fn message_from_chunk(bytes: &[u8]) -> (r: Option<Message>)
    ensures
        match r {
            Some(m) => chunk_message(bytes@) == Some(m@),
            None => chunk_message(bytes@) is None,
        },
        is_ascii_bytes(bytes@) ==> chunk_message(bytes@) == text_message(ascii_chars(bytes@)),
        is_blank_bytes(bytes@) ==> r is None,
{
    let text = decode_lossy(bytes);
    proof {
        if is_blank_bytes(bytes@) {
            assert(is_ascii_bytes(bytes@));
            let t = ascii_chars(bytes@);
            assert forall|i: int| 0 <= i < t.len() implies is_white_space(#[trigger] t[i]) by {
                let b = bytes@[i];
                assert(9 <= b <= 13 || b == 32);
                assert((b as char) as u32 == b as u32);
            }
            blank_text_makes_no_message(t);
        }
    }
    message_from_text(text.as_str())
}

/// The bytes that write `text` to the device: its UTF-8 encoding and one
/// newline.
pub fn encode_line(text: &str) -> (r: Vec<u8>)
    ensures
        r@ == line_bytes(text@),
{
    let bytes = text.as_bytes();
    let mut out: Vec<u8> = Vec::new();
    let mut i: usize = 0;
    while i < bytes.len()
        invariant
            i <= bytes@.len(),
            bytes@ == encode_utf8(text@),
            out@ == bytes@.subrange(0, i as int),
        decreases bytes@.len() - i,
    {
        out.push(bytes[i]);
        i = i + 1;
    }
    out.push(10u8);
    assert(out@ == line_bytes(text@));
    out
}

} // verus!
