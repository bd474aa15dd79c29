use crate::message_content::{same_content_type, MessageContentType};
use vstd::prelude::*;
use vstd::string::StrSliceExecFns;

verus! {

/// This crate's own compact byte format for the kind of a message's content.
/// The tag of a custom kind; tags below it name the built-in kinds.
pub const CUSTOM_TAG: u8 = 17;

/// The tag of a built-in kind; none for a custom kind.
pub open spec fn builtin_tag(t: MessageContentType) -> Option<u8> {
    match t {
        MessageContentType::Text => Some(0u8),
        MessageContentType::Image => Some(1u8),
        MessageContentType::Video => Some(2u8),
        MessageContentType::Audio => Some(3u8),
        MessageContentType::File => Some(4u8),
        MessageContentType::Poll => Some(5u8),
        MessageContentType::Crypto => Some(6u8),
        MessageContentType::Deleted => Some(7u8),
        MessageContentType::Giphy => Some(8u8),
        MessageContentType::GovernanceProposal => Some(9u8),
        MessageContentType::Prize => Some(10u8),
        MessageContentType::PrizeWinner => Some(11u8),
        MessageContentType::MessageReminderCreated => Some(12u8),
        MessageContentType::MessageReminder => Some(13u8),
        MessageContentType::ReportedMessage => Some(14u8),
        MessageContentType::P2PSwap => Some(15u8),
        MessageContentType::VideoCall => Some(16u8),
        MessageContentType::Custom(_) => None,
    }
}

/// What a kind is on the wire: its tag, and for a custom kind its name.
pub open spec fn kind_code(t: MessageContentType) -> (u8, Seq<char>) {
    match t {
        MessageContentType::Custom(k) => (CUSTOM_TAG, k@),
        _ => (builtin_tag(t)->0, Seq::empty()),
    }
}

/// Little-endian bytes of a number.
pub open spec fn le_bytes(v: u32) -> Seq<u8> {
    seq![(v & 0xff) as u8, ((v >> 8) & 0xff) as u8, ((v >> 16) & 0xff) as u8, ((v >> 24) & 0xff) as u8]
}

pub open spec fn from_le(b0: u8, b1: u8, b2: u8, b3: u8) -> u32 {
    (b0 as u32) | ((b1 as u32) << 8) | ((b2 as u32) << 16) | ((b3 as u32) << 24)
}

pub proof fn lemma_le_round_trip(v: u32)
    ensures
        from_le(le_bytes(v)[0], le_bytes(v)[1], le_bytes(v)[2], le_bytes(v)[3]) == v,
{
    let b0 = (v & 0xff) as u8;
    let b1 = ((v >> 8) & 0xff) as u8;
    let b2 = ((v >> 16) & 0xff) as u8;
    let b3 = ((v >> 24) & 0xff) as u8;
    assert((b0 as u32) | ((b1 as u32) << 8) | ((b2 as u32) << 16) | ((b3 as u32) << 24) == v) by (bit_vector)
        requires
            b0 == (v & 0xff) as u8,
            b1 == ((v >> 8) & 0xff) as u8,
            b2 == ((v >> 16) & 0xff) as u8,
            b3 == ((v >> 24) & 0xff) as u8,
    ;
}

/// The code of a character.
pub open spec fn char_code(c: char) -> u32 {
    c as u32
}

/// The character with the given code, if there is one.
pub open spec fn char_of(v: u32) -> Option<char> {
    if exists|c: char| #[trigger] char_code(c) == v {
        Some(choose|c: char| #[trigger] char_code(c) == v)
    } else {
        None
    }
}

/// The characters of a name, four little-endian bytes each.
pub open spec fn chars_bytes(s: Seq<char>) -> Seq<u8>
    decreases s.len(),
{
    if s.len() == 0 {
        Seq::empty()
    } else {
        chars_bytes(s.drop_last()) + le_bytes(s.last() as u32)
    }
}

/// Reads characters of four bytes each; none where the bytes do not split into
/// characters.
pub open spec fn decode_chars(b: Seq<u8>) -> Option<Seq<char>>
    decreases b.len(),
{
    if b.len() == 0 {
        Some(Seq::empty())
    } else if b.len() < 4 {
        None
    } else {
        let n = b.len() - 4;
        match decode_chars(b.subrange(0, n)) {
            Some(cs) => match char_of(from_le(b[n], b[n + 1], b[n + 2], b[n + 3])) {
                Some(c) => Some(cs.push(c)),
                None => None,
            },
            None => None,
        }
    }
}

/// The encoding: a built-in kind is its tag; a custom kind is its tag, the
/// number of characters of its name, and the characters.
pub open spec fn encoded_kind(t: MessageContentType) -> Seq<u8> {
    match t {
        MessageContentType::Custom(k) => seq![CUSTOM_TAG] + le_bytes(k@.len() as u32) + chars_bytes(k@),
        _ => seq![builtin_tag(t)->0],
    }
}

/// What bytes of this format read as; none for bytes that the encoding does
/// not write.
pub open spec fn decoded_kind(b: Seq<u8>) -> Option<(u8, Seq<char>)> {
    if b.len() == 1 {
        if b[0] < CUSTOM_TAG {
            Some((b[0], Seq::empty()))
        } else {
            None
        }
    } else if b.len() >= 5 && b[0] == CUSTOM_TAG && b.len() == 5 + 4 * (from_le(b[1], b[2], b[3], b[4]) as int) {
        match decode_chars(b.subrange(5, b.len() as int)) {
            Some(cs) => Some((CUSTOM_TAG, cs)),
            None => None,
        }
    } else {
        None
    }
}

/// Where a run of bytes reads as characters, so does each of its prefixes of
/// whole characters.
proof fn lemma_decode_prefix(b: Seq<u8>, m: int)
    requires
        0 <= m <= b.len(),
        m % 4 == 0,
        b.len() % 4 == 0,
        decode_chars(b) is Some,
    ensures
        decode_chars(b.subrange(0, m)) is Some,
    decreases b.len(),
{
    if m < b.len() {
        let n = b.len() - 4;
        lemma_decode_prefix(b.subrange(0, n), m);
        assert(b.subrange(0, n).subrange(0, m) =~= b.subrange(0, m));
    } else {
        assert(b.subrange(0, m) =~= b);
    }
}

proof fn lemma_chars_bytes_len(s: Seq<char>)
    ensures
        chars_bytes(s).len() == 4 * s.len(),
    decreases s.len(),
{
    if s.len() > 0 {
        lemma_chars_bytes_len(s.drop_last());
    }
}

proof fn lemma_decode_chars_round_trip(s: Seq<char>)
    ensures
        decode_chars(chars_bytes(s)) == Some(s),
    decreases s.len(),
{
    if s.len() > 0 {
        let b = chars_bytes(s);
        let prev = chars_bytes(s.drop_last());
        lemma_chars_bytes_len(s.drop_last());
        lemma_decode_chars_round_trip(s.drop_last());
        let n = b.len() - 4;
        assert(b.subrange(0, n) =~= prev);
        let v = s.last() as u32;
        lemma_le_round_trip(v);
        assert(b[n] == le_bytes(v)[0]);
        assert(b[n + 1] == le_bytes(v)[1]);
        assert(b[n + 2] == le_bytes(v)[2]);
        assert(b[n + 3] == le_bytes(v)[3]);
        assert(char_code(s.last()) == v);
        assert(exists|c: char| #[trigger] char_code(c) == v);
        let c = choose|c: char| #[trigger] char_code(c) == v;
        vstd::utf8::char_u32_cast(c, v);
        vstd::utf8::char_u32_cast(s.last(), v);
        assert(c == s.last());
        assert(s.drop_last().push(s.last()) =~= s);
    }
}

/// Reading back what the encoding wrote gives the same kind; a custom kind
/// keeps its name.
pub proof fn law_kind_round_trip(t: MessageContentType)
    requires
        t is Custom ==> t->Custom_0@.len() <= u32::MAX,
    ensures
        decoded_kind(encoded_kind(t)) == Some(kind_code(t)),
{
    match t {
        MessageContentType::Custom(k) => {
            let b = encoded_kind(t);
            let n = k@.len() as u32;
            lemma_chars_bytes_len(k@);
            lemma_le_round_trip(n);
            lemma_decode_chars_round_trip(k@);
            assert(b.subrange(5, b.len() as int) =~= chars_bytes(k@));
            assert(b[1] == le_bytes(n)[0]);
            assert(b[2] == le_bytes(n)[1]);
            assert(b[3] == le_bytes(n)[2]);
            assert(b[4] == le_bytes(n)[3]);
        },
        _ => {},
    }
}

/// Kinds with the same code are the same kind.
pub proof fn law_kind_code_identifies(a: MessageContentType, b: MessageContentType)
    ensures
        kind_code(a) == kind_code(b) <==> same_content_type(a, b),
{
}

/// Relies on std's `char::from_u32`: the character with the given code, and
/// none where no character has it.
#[verifier::external_body]
fn char_from_code(v: u32) -> (r: Option<char>)
    ensures
        match r {
            Some(c) => char_code(c) == v,
            None => forall|c: char| #[trigger] char_code(c) != v,
        },
{
    char::from_u32(v)
}

/// Relies on std's `String::push`: the character is added at the end.
#[verifier::external_body]
pub(crate) fn push_char(s: &mut String, c: char)
    ensures
        final(s)@ == old(s)@.push(c),
{
    s.push(c)
}

fn push_le(out: &mut Vec<u8>, v: u32)
    ensures
        final(out)@ == old(out)@ + le_bytes(v),
{
    out.push((v & 0xff) as u8);
    out.push(((v >> 8) & 0xff) as u8);
    out.push(((v >> 16) & 0xff) as u8);
    out.push(((v >> 24) & 0xff) as u8);
    assert(final(out)@ =~= old(out)@ + le_bytes(v));
}

fn tag_of(t: &MessageContentType) -> (r: u8)
    requires
        !(*t is Custom),
    ensures
        Some(r) == builtin_tag(*t),
{
    match t {
        MessageContentType::Text => 0,
        MessageContentType::Image => 1,
        MessageContentType::Video => 2,
        MessageContentType::Audio => 3,
        MessageContentType::File => 4,
        MessageContentType::Poll => 5,
        MessageContentType::Crypto => 6,
        MessageContentType::Deleted => 7,
        MessageContentType::Giphy => 8,
        MessageContentType::GovernanceProposal => 9,
        MessageContentType::Prize => 10,
        MessageContentType::PrizeWinner => 11,
        MessageContentType::MessageReminderCreated => 12,
        MessageContentType::MessageReminder => 13,
        MessageContentType::ReportedMessage => 14,
        MessageContentType::P2PSwap => 15,
        MessageContentType::VideoCall => 16,
        MessageContentType::Custom(_) => 17,
    }
}

fn kind_of_tag(b: u8) -> (r: MessageContentType)
    requires
        b < CUSTOM_TAG,
    ensures
        builtin_tag(r) == Some(b),
{
    match b {
        0 => MessageContentType::Text,
        1 => MessageContentType::Image,
        2 => MessageContentType::Video,
        3 => MessageContentType::Audio,
        4 => MessageContentType::File,
        5 => MessageContentType::Poll,
        6 => MessageContentType::Crypto,
        7 => MessageContentType::Deleted,
        8 => MessageContentType::Giphy,
        9 => MessageContentType::GovernanceProposal,
        10 => MessageContentType::Prize,
        11 => MessageContentType::PrizeWinner,
        12 => MessageContentType::MessageReminderCreated,
        13 => MessageContentType::MessageReminder,
        14 => MessageContentType::ReportedMessage,
        15 => MessageContentType::P2PSwap,
        _ => MessageContentType::VideoCall,
    }
}

/// Writes a kind in this format.
pub fn encode_content_type(t: &MessageContentType) -> (r: Vec<u8>)
    requires
        *t is Custom ==> t->Custom_0@.len() <= u32::MAX,
    ensures
        r@ == encoded_kind(*t),
{
    let mut out: Vec<u8> = Vec::new();
    match t {
        MessageContentType::Custom(k) => {
            let s = k.as_str();
            let n = s.unicode_len();
            out.push(CUSTOM_TAG);
            push_le(&mut out, n as u32);
            let ghost head = out@;
            let mut i: usize = 0;
            while i < n
                invariant
                    0 <= i <= n,
                    n == s@.len(),
                    s@ == k@,
                    out@ == head + chars_bytes(s@.subrange(0, i as int)),
                decreases n - i,
            {
                let c = s.get_char(i);
                push_le(&mut out, c as u32);
                proof {
                    assert(s@.subrange(0, i + 1).drop_last() =~= s@.subrange(0, i as int));
                    assert(out@ =~= head + chars_bytes(s@.subrange(0, i + 1)));
                }
                i = i + 1;
            }
            proof {
                assert(s@.subrange(0, n as int) =~= s@);
                assert(out@ =~= encoded_kind(*t));
            }
        },
        _ => {
            out.push(tag_of(t));
            proof {
                assert(out@ =~= encoded_kind(*t));
            }
        },
    }
    out
}

/// Reads a kind written in this format; none for bytes that the encoding does
/// not write.
pub fn decode_content_type(bytes: &Vec<u8>) -> (r: Option<MessageContentType>)
    ensures
        match r {
            Some(t) => decoded_kind(bytes@) == Some(kind_code(t)),
            None => decoded_kind(bytes@) is None,
        },
{
    let len = bytes.len();
    if len == 1 {
        let b = bytes[0];
        if b < CUSTOM_TAG {
            return Some(kind_of_tag(b));
        } else {
            return None;
        }
    }
    if len < 5 || bytes[0] != CUSTOM_TAG {
        return None;
    }
    let count: u32 = (bytes[1] as u32) | ((bytes[2] as u32) << 8) | ((bytes[3] as u32) << 16) | ((bytes[4] as u32)
        << 24);
    if (len - 5) / 4 != count as usize || (len - 5) % 4 != 0 {
        return None;
    }
    let ghost body = bytes@.subrange(5, len as int);
    let mut name = String::new();
    let mut i: usize = 0;
    while i < count as usize
        invariant
            0 <= i <= count,
            len == bytes@.len(),
            len == 5 + 4 * (count as int),
            body == bytes@.subrange(5, len as int),
            decode_chars(body.subrange(0, 4 * i)) == Some(name@),
        decreases count - i,
    {
        let at = 5 + 4 * i;
        let v: u32 = (bytes[at] as u32) | ((bytes[at + 1] as u32) << 8) | ((bytes[at + 2] as u32) << 16) | ((
        bytes[at + 3] as u32) << 24);
        let ghost prefix = body.subrange(0, 4 * (i + 1));
        proof {
            assert(prefix.subrange(0, 4 * i) =~= body.subrange(0, 4 * i));
            assert(prefix[4 * i] == bytes@[at as int]);
            assert(prefix[4 * i + 1] == bytes@[at + 1]);
            assert(prefix[4 * i + 2] == bytes@[at + 2]);
            assert(prefix[4 * i + 3] == bytes@[at + 3]);
        }
        match char_from_code(v) {
            Some(c) => {
                proof {
                    let d = choose|d: char| #[trigger] char_code(d) == v;
                    vstd::utf8::char_u32_cast(c, v);
                    vstd::utf8::char_u32_cast(d, v);
                    assert(d == c);
                }
                push_char(&mut name, c);
            },
            None => {
                proof {
                    assert(decode_chars(prefix) is None);
                    if decode_chars(body) is Some {
                        lemma_decode_prefix(body, 4 * (i + 1));
                    }
                }
                return None;
            },
        }
        i = i + 1;
    }
    proof {
        assert(body.subrange(0, 4 * count) =~= body);
    }
    Some(MessageContentType::Custom(name))
}

} // verus!
