//! The first line of a tool's textual output.
use vstd::prelude::*;
use vstd::string::StringSliceAdditionalSpecFns;
use vstd::utf8::*;

verus! {

broadcast use vstd::utf8::group_utf8_lib;

/// `line` is the first line of `text`: the longest prefix of `text` that holds
/// no line feed.
pub open spec fn is_first_line(text: Seq<char>, line: Seq<char>) -> bool {
    &&& line.len() <= text.len()
    &&& text.take(line.len() as int) == line
    &&& forall|j: int| 0 <= j < line.len() ==> line[j] != '\n'
    &&& (line.len() == text.len() || text[line.len() as int] == '\n')
}

/// A text has one first line: two prefixes that both meet `is_first_line`
/// are the same.
pub proof fn lemma_first_line_unique(text: Seq<char>, a: Seq<char>, b: Seq<char>)
    requires
        is_first_line(text, a),
        is_first_line(text, b),
    ensures
        a == b,
{
    if a.len() < b.len() {
        assert(b[a.len() as int] == text[a.len() as int]);
    } else if b.len() < a.len() {
        assert(a[b.len() as int] == text[b.len() as int]);
    }
    assert(a =~= b);
}

/// A line feed among the characters shows as the byte 10 in their encoding.
proof fn lemma_line_feed_encoded(chars: Seq<char>, j: int)
    requires
        0 <= j < chars.len(),
        chars[j] == '\n',
    ensures
        exists|k: int| 0 <= k < encode_utf8(chars).len() && encode_utf8(chars)[k] == 10u8,
    decreases chars.len(),
{
    let head = encode_scalar(chars[0] as u32);
    let tail = encode_utf8(chars.drop_first());
    assert(encode_utf8(chars) == head + tail);
    if j == 0 {
        assert(chars[0] as u32 == 10u32);
        assert((10u32 & 0x7F) as u8 == 10u8) by (bit_vector);
        assert(head == seq![10u8]);
        assert(encode_utf8(chars)[0] == 10u8);
    } else {
        assert(chars.drop_first()[j - 1] == '\n');
        lemma_line_feed_encoded(chars.drop_first(), j - 1);
        let k = choose|k: int| 0 <= k < tail.len() && tail[k] == 10u8;
        assert(encode_utf8(chars)[head.len() + k] == 10u8);
    }
}

/// Valid text that begins with the byte 10 begins with a line feed.
proof fn lemma_leading_line_feed(bytes: Seq<u8>)
    requires
        valid_utf8(bytes),
        bytes.len() > 0,
        bytes[0] == 10u8,
    ensures
        decode_utf8(bytes).len() > 0,
        decode_utf8(bytes)[0] == '\n',
{
    assert((10u8 & 0x7F) as u32 == 10u32) by (bit_vector);
    assert(decode_first_scalar(bytes) == 10u32);
}

/// Returns the first line of `text`: everything before the first line feed,
/// or the whole of `text` where it holds none.
pub fn first_line(text: &str) -> (line: &str)
    ensures
        is_first_line(text@, line@),
{
    let bytes = text.as_bytes();
    let n = bytes.len();
    let mut i: usize = 0;
    while i < n
        invariant
            n == bytes@.len(),
            bytes@ == text.spec_bytes(),
            i <= n,
            forall|k: int| 0 <= k < i ==> bytes@[k] != 10u8,
        ensures
            i <= n,
            i < n ==> bytes@[i as int] == 10u8,
            forall|k: int| 0 <= k < i ==> bytes@[k] != 10u8,
        decreases n - i,
    {
        if bytes[i] == 10u8 {
            break;
        }
        i = i + 1;
    }
    let ghost enc = text.spec_bytes();
    proof {
        if i < n {
            assert(!is_continuation_byte(enc[i as int]));
        }
        assert(is_char_boundary(enc, i as int));
    }
    let (line, _) = text.split_at(i);
    proof {
        let pre = enc.subrange(0, i as int);
        let post = enc.subrange(i as int, enc.len() as int);
        assert(line.spec_bytes() == pre);
        assert(line@ == decode_utf8(pre));
        assert(text@ == decode_utf8(enc));
        assert(text@ == line@ + decode_utf8(post));
        assert(text@.take(line@.len() as int) =~= line@);
        if i < n {
            lemma_leading_line_feed(post);
            assert(text@[line@.len() as int] == decode_utf8(post)[0]);
        } else {
            assert(post.len() == 0);
        }
        assert forall|j: int| 0 <= j < line@.len() implies line@[j] != '\n' by {
            if line@[j] == '\n' {
                lemma_line_feed_encoded(line@, j);
            }
        }
    }
    line
}

} // verus!
