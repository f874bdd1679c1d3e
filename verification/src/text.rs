use vstd::prelude::*;
use vstd::string::StrSliceExecFns;
use vstd::utf8::{decode_utf8, encode_utf8, is_ascii_chars, valid_utf8};

verus! {

/// The text that bytes decode to as UTF-8 when every malformed sequence is
/// replaced by U+FFFD.
pub uninterp spec fn lossy_decoding(bytes: Seq<u8>) -> Seq<char>;

/// `text` without the NUL characters at its end.
pub open spec fn without_trailing_nul(text: Seq<char>) -> Seq<char>
    decreases text.len(),
{
    if text.len() > 0 && text.last() == '\0' {
        without_trailing_nul(text.drop_last())
    } else {
        text
    }
}

/// Decodes bytes with `String::from_utf8_lossy`. Not proved: that the result
/// is a function of the bytes, named `lossy_decoding`, and that well-formed
/// UTF-8 decodes to the text it encodes.
#[verifier::external_body]
pub(crate) fn decode_lossy(bytes: &[u8]) -> (r: String)
    ensures
        r@ == lossy_decoding(bytes@),
        valid_utf8(bytes@) ==> r@ == decode_utf8(bytes@),
{
    String::from_utf8_lossy(bytes).into_owned()
}

/// A text whose NUL characters all lie at or after `end`, and which has
/// none just before `end`, is cut at `end`.
pub proof fn lemma_cut_at_last_text(text: Seq<char>, end: int)
    requires
        0 <= end <= text.len(),
        forall|i: int| end <= i < text.len() ==> text[i] == '\0',
        end == 0 || text[end - 1] != '\0',
    ensures
        without_trailing_nul(text) == text.subrange(0, end),
    decreases text.len() - end,
{
    if end == text.len() {
        assert(text.subrange(0, end) =~= text);
    } else {
        assert(text.last() == '\0');
        lemma_cut_at_last_text(text.drop_last(), end);
        assert(text.drop_last().subrange(0, end) =~= text.subrange(0, end));
    }
}

/// Cuts the NUL characters off the end of a text.
pub fn trim_trailing_nul(text: &str) -> (r: &str)
    ensures
        r@ == without_trailing_nul(text@),
{
    let mut end: usize = text.unicode_len();
    loop
        invariant
            end <= text@.len(),
            forall|i: int| end <= i < text@.len() ==> text@[i] == '\0',
        ensures
            end == 0 || text@[end - 1] != '\0',
        decreases end,
    {
        if end == 0 {
            break;
        }
        if text.get_char(end - 1) != '\0' {
            break;
        }
        end -= 1;
    }
    proof {
        lemma_cut_at_last_text(text@, end as int);
    }
    text.substring_char(0, end)
}

/// The text that a zero-padded field holds: its bytes decoded, without the
/// padding.
pub open spec fn field_text(bytes: Seq<u8>) -> Seq<char> {
    without_trailing_nul(lossy_decoding(bytes))
}

/// Reads the text out of a zero-padded field.
pub fn read_field(bytes: &[u8]) -> (r: String)
    ensures
        r@ == field_text(bytes@),
        valid_utf8(bytes@) ==> r@ == without_trailing_nul(decode_utf8(bytes@)),
{
    let decoded: String = decode_lossy(bytes);
    trim_trailing_nul(decoded.as_str()).to_owned()
}

/// `bytes` followed by zeros up to `width` bytes in all.
pub open spec fn zero_padded(bytes: Seq<u8>, width: nat) -> Seq<u8> {
    Seq::new(
        width,
        |i: int|
            if i < bytes.len() {
                bytes[i]
            } else {
                0u8
            },
    )
}

/// Cutting trailing NUL characters undoes appending them to a text that
/// does not end in one.
pub proof fn lemma_trailing_nul_cut(text: Seq<char>, nuls: Seq<char>)
    requires
        text.len() == 0 || text.last() != '\0',
        forall|i: int| 0 <= i < nuls.len() ==> nuls[i] == '\0',
    ensures
        without_trailing_nul(text + nuls) == text,
    decreases nuls.len(),
{
    if nuls.len() == 0 {
        assert(text + nuls =~= text);
    } else {
        let whole = text + nuls;
        assert(whole.last() == nuls.last());
        assert(whole.drop_last() =~= text + nuls.drop_last());
        lemma_trailing_nul_cut(text, nuls.drop_last());
    }
}

/// A text that is written into a zero-padded field of `width` bytes reads
/// back as it was written, provided it fits and does not end in NUL.
pub proof fn lemma_padded_text_reads_back(text: Seq<char>, width: nat)
    requires
        encode_utf8(text).len() <= width,
        text.len() == 0 || text.last() != '\0',
    ensures
        valid_utf8(zero_padded(encode_utf8(text), width)),
        without_trailing_nul(decode_utf8(zero_padded(encode_utf8(text), width))) == text,
{
    let written = encode_utf8(text);
    let field = zero_padded(written, width);
    let count = (width - written.len()) as nat;
    let nuls = Seq::new(count, |i: int| '\0');
    let padding = encode_utf8(nuls);
    assert(is_ascii_chars(nuls));
    vstd::utf8::is_ascii_chars_encode_utf8(nuls);
    assert(field =~= written + padding);
    vstd::utf8::encode_utf8_valid_utf8(text);
    vstd::utf8::encode_utf8_valid_utf8(nuls);
    vstd::utf8::valid_utf8_concat(written, padding);
    let cut = written.len() as int;
    assert(vstd::utf8::is_char_boundary(field, cut)) by {
        if cut < field.len() {
            assert(field[cut] == 0);
            vstd::utf8::is_char_boundary_iff_not_is_continuation_byte(field, cut);
        } else {
            vstd::utf8::is_char_boundary_start_end_of_seq(field);
        }
    }
    vstd::utf8::decode_utf8_split(field, cut);
    assert(field.subrange(0, cut) =~= written);
    assert(field.subrange(cut, field.len() as int) =~= padding);
    vstd::utf8::encode_utf8_decode_utf8(text);
    vstd::utf8::encode_utf8_decode_utf8(nuls);
    assert(decode_utf8(field) == text + nuls);
    lemma_trailing_nul_cut(text, nuls);
}

} // verus!
