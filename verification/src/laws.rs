//! Properties that relate several operations of the library.

use vstd::prelude::*;
use vstd::utf8::*;
use crate::errors::{IoErrorKind, Unavailable};
use crate::serial::{
    after_count, after_probe, count_as_i32, delivered, disconnected, get_data_report, get_data_request,
    get_partial_data_report, get_partial_data_request, probe_succeeds, put_data_report,
    put_data_request, put_partial_data_report, put_partial_data_request, PortProbe, SerialState,
};
use crate::text::text_from_bytes;

verus! {

/// The UTF-8 encoding of two texts one after the other is the encoding of
/// the first followed by the encoding of the second.
pub proof fn lemma_encode_utf8_append(a: Seq<char>, b: Seq<char>)
    ensures
        encode_utf8(a + b) == encode_utf8(a) + encode_utf8(b),
    decreases a.len(),
{
    if a.len() == 0 {
        assert(a + b =~= b);
        assert(encode_utf8(a) + encode_utf8(b) =~= encode_utf8(b));
    } else {
        lemma_encode_utf8_append(a.drop_first(), b);
        assert((a + b).drop_first() =~= a.drop_first() + b);
        assert((a + b)[0] == a[0]);
        assert(encode_scalar(a[0] as u32) + (encode_utf8(a.drop_first()) + encode_utf8(b))
            =~= (encode_scalar(a[0] as u32) + encode_utf8(a.drop_first())) + encode_utf8(b));
    }
}

/// A line written with `writeline` is sent as the bytes that `write_string`
/// sends for the same text, followed by one newline byte (10).
pub proof fn lemma_writeline_appends_newline(s: Seq<char>)
    ensures
        encode_utf8(s.push('\n')) == encode_utf8(s) + seq![10u8],
{
    lemma_encode_utf8_append(s, seq!['\n']);
    assert(s.push('\n') =~= s + seq!['\n']);
    assert(10u32 & 0x7F == 10) by (bit_vector);
    let one = seq!['\n'];
    assert(one[0] as u32 == 10);
    assert(one.drop_first() =~= Seq::<char>::empty());
    assert(encode_utf8(one.drop_first()) =~= Seq::<u8>::empty());
    assert(encode_scalar(10) =~= seq![10u8]);
    assert(encode_utf8(seq!['\n']) =~= seq![10u8]);
}

/// The text that `read_string` makes of the bytes that `write_string` sent
/// for a text is that text again.
pub proof fn lemma_read_string_inverts_write_string(s: Seq<char>)
    ensures
        text_from_bytes(encode_utf8(s)) == s,
{
    encode_utf8_valid_utf8(s);
    encode_utf8_decode_utf8(s);
}

/// Probing twice with the same outcome leaves the session as probing once.
pub proof fn lemma_probe_idempotent(s: SerialState, probe: PortProbe)
    ensures
        after_probe(after_probe(s, probe), probe) == after_probe(s, probe),
{
}

/// After any failed probe the session believes the device disconnected;
/// after a successful one, nothing changed.
pub proof fn lemma_probe_outcome(s: SerialState, probe: PortProbe)
    ensures
        !probe_succeeds(s, probe) ==> !after_probe(s, probe).connected,
        probe_succeeds(s, probe) ==> after_probe(s, probe) == s,
        after_probe(s, probe) == disconnected(s) || after_probe(s, probe) == s,
{
}

/// A port that answers the count of waiting bytes with an error leaves the
/// device disconnected, so the next count answers zero without asking the
/// port; any other answer leaves the session as it was.
pub proof fn lemma_failed_count_disconnects(s: SerialState, probe: PortProbe)
    ensures
        probe is Failed ==> !after_count(s, probe).connected,
        !(probe is Failed) ==> after_count(s, probe) == s,
{
}

/// The signed count reported to the stream interface equals the unsigned
/// count whenever it fits.
pub proof fn lemma_signed_count_agrees(n: u32)
    ensures
        n <= i32::MAX ==> count_as_i32(n) as int == n as int,
        n > i32::MAX ==> count_as_i32(n) == 0,
{
}

/// A partial stream read behaves as a plain one: from the same state, the
/// same probe and count get the same answer, and the same outcome the same
/// report. (Both start with the same probe step, `after_probe`, and both
/// finish with the same change of state, `after_transfer`.)
pub proof fn lemma_partial_read_is_read(
    s: SerialState,
    probe: PortProbe,
    r_bytes: i32,
    outcome: Result<Result<usize, IoErrorKind>, Unavailable>,
)
    ensures
        get_partial_data_request(s, probe, r_bytes) == get_data_request(s, probe, r_bytes),
        get_partial_data_report(outcome) == get_data_report(outcome),
{
}

/// A partial stream write behaves as a plain one: from the same state, the
/// same probe and count get the same answer, and the same outcome the same
/// report. (Both start with the same probe step, `after_probe`, and both
/// finish with the same change of state, `after_transfer`.)
pub proof fn lemma_partial_write_is_write(
    s: SerialState,
    probe: PortProbe,
    p_bytes: i32,
    outcome: Result<Result<usize, IoErrorKind>, Unavailable>,
)
    ensures
        put_partial_data_request(s, probe, p_bytes) == put_data_request(s, probe, p_bytes),
        put_partial_data_report(outcome) == put_data_report(outcome),
{
}

/// Reading text is reading bytes and decoding them. `read_string` asks for
/// the same buffer and changes the session as `read` does, and its text is
/// `text_from_bytes` of the bytes that `read` delivers for the same outcome.
/// When those bytes are valid UTF-8, the text's UTF-8 encoding is exactly
/// those bytes; otherwise, and when nothing was read, the text is empty.
pub proof fn lemma_read_string_is_decoded_read(
    outcome: Result<Result<(Vec<u8>, usize), IoErrorKind>, Unavailable>,
)
    ensures
        valid_utf8(delivered(outcome)) ==> encode_utf8(text_from_bytes(delivered(outcome)))
            == delivered(outcome),
        !valid_utf8(delivered(outcome)) ==> text_from_bytes(delivered(outcome)).len() == 0,
        text_from_bytes(Seq::<u8>::empty()).len() == 0,
{
    let bytes = delivered(outcome);
    if valid_utf8(bytes) {
        decode_utf8_encode_utf8(bytes);
    }
    encode_utf8_valid_utf8(Seq::<char>::empty());
    assert(encode_utf8(Seq::<char>::empty()) =~= Seq::<u8>::empty());
    encode_utf8_decode_utf8(Seq::<char>::empty());
}

} // verus!
