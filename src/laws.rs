//! Properties of the session registry that hold across operations, proved
//! over the step functions that the operations of `TerminalManager` follow.

use vstd::prelude::*;
use vstd::utf8::*;

use crate::model::{
    close_step, create_step, exit_step, feed_step, open_request_step, read_step, resize_step,
    spawn_finished_step, spawn_request_step, take_input_step, write_step, ReadView, Sessions,
    TerminalError,
};

verus! {

/// Session `b` is present in `m2` exactly when in `m1`, and with the same state.
pub open spec fn same_session<H>(m1: Sessions<H>, m2: Sessions<H>, b: Seq<char>) -> bool {
    &&& m1.contains_key(b) == m2.contains_key(b)
    &&& m1.contains_key(b) ==> m1[b] == m2[b]
}

/// Creating a session for an id that already has one changes nothing and
/// opens nothing; once creation succeeded, no second pseudo-terminal is asked
/// for. Once a launch succeeded, the shell is never launched again.
pub proof fn creation_and_launch_are_idempotent<H>(
    m: Sessions<H>,
    id: Seq<char>,
    first: Result<H, String>,
    second: Result<H, String>,
    launched: Result<(), String>,
)
    ensures
        create_step(m, id, first).1 is Ok ==> create_step(m, id, first).0.contains_key(id)
            && open_request_step(create_step(m, id, first).0, id) is None && create_step(
            create_step(m, id, first).0,
            id,
            second,
        ) == (create_step(m, id, first).0, Ok::<(), TerminalError>(())),
        spawn_finished_step(m, id, launched).1 is Ok ==> spawn_request_step(
            spawn_finished_step(m, id, launched).0,
            id,
        ) == Ok::<bool, TerminalError>(false) && spawn_request_step(
            spawn_finished_step(spawn_finished_step(m, id, launched).0, id, launched).0,
            id,
        ) == Ok::<bool, TerminalError>(false),
        m.contains_key(id) && launched is Err ==> spawn_finished_step(m, id, launched).0 == m,
{
}

/// An operation on one segment leaves every other segment as it was: bytes
/// written to or produced by `a` never reach `b`.
pub proof fn sessions_are_isolated<H>(
    m: Sessions<H>,
    a: Seq<char>,
    b: Seq<char>,
    bytes: Seq<u8>,
    opened: Result<H, String>,
    launched: Result<(), String>,
    rows: u16,
    cols: u16,
)
    requires
        a != b,
    ensures
        same_session(m, create_step(m, a, opened).0, b),
        same_session(m, spawn_finished_step(m, a, launched).0, b),
        same_session(m, write_step(m, a, bytes).0, b),
        same_session(m, take_input_step(m, a).0, b),
        same_session(m, feed_step(m, a, bytes).0, b),
        same_session(m, exit_step(m, a).0, b),
        same_session(m, read_step(m, a).0, b),
        same_session(m, resize_step(m, a, rows, cols).0, b),
        same_session(m, close_step(m, a), b),
{
}

/// Writes reach the shell concatenated in the order they were issued.
pub proof fn writes_arrive_in_order<H>(
    m: Sessions<H>,
    id: Seq<char>,
    w1: Seq<u8>,
    w2: Seq<u8>,
    w3: Seq<u8>,
)
    requires
        m.contains_key(id),
    ensures
        take_input_step(
            write_step(write_step(write_step(m, id, w1).0, id, w2).0, id, w3).0,
            id,
        ).1 == Ok::<Seq<u8>, TerminalError>(m[id].input + w1 + w2 + w3),
{
    let m3 = write_step(write_step(write_step(m, id, w1).0, id, w2).0, id, w3).0;
    assert(m3[id].input =~= m[id].input + w1 + w2 + w3);
}

/// Text written with `write` is queued as its UTF-8 encoding, so successive
/// writes of `t1` and `t2` queue the encoding of `t1 + t2`.
pub proof fn written_text_concatenates(t1: Seq<char>, t2: Seq<char>)
    ensures
        encode_utf8(t1) + encode_utf8(t2) == encode_utf8(t1 + t2),
    decreases t1.len(),
{
    if t1.len() == 0 {
        assert(t1 + t2 =~= t2);
        assert(encode_utf8(t1) + encode_utf8(t2) =~= encode_utf8(t2));
    } else {
        written_text_concatenates(t1.drop_first(), t2);
        assert((t1 + t2).drop_first() =~= t1.drop_first() + t2);
        assert((t1 + t2)[0] == t1[0]);
        assert(encode_utf8(t1) + encode_utf8(t2) =~= encode_scalar(t1[0] as u32) + (encode_utf8(
            t1.drop_first(),
        ) + encode_utf8(t2)));
    }
}

/// After a close, every operation on the id reports `SessionNotFound` and
/// changes nothing; closing again is harmless.
pub proof fn closed_session_is_gone<H>(
    m: Sessions<H>,
    id: Seq<char>,
    bytes: Seq<u8>,
    rows: u16,
    cols: u16,
    launched: Result<(), String>,
)
    ensures
        ({
            let c = close_step(m, id);
            &&& !c.contains_key(id)
            &&& write_step(c, id, bytes) == (c, Err::<(), TerminalError>(
                TerminalError::SessionNotFound,
            ))
            &&& read_step(c, id) == (c, Err::<ReadView, TerminalError>(
                TerminalError::SessionNotFound,
            ))
            &&& resize_step(c, id, rows, cols) == (c, Err::<crate::model::PtySize, TerminalError>(
                TerminalError::SessionNotFound,
            ))
            &&& spawn_request_step(c, id) == Err::<bool, TerminalError>(
                TerminalError::SessionNotFound,
            )
            &&& spawn_finished_step(c, id, launched) == (c, Err::<(), TerminalError>(
                TerminalError::SessionNotFound,
            ))
            &&& take_input_step(c, id) == (c, Err::<Seq<u8>, TerminalError>(
                TerminalError::SessionNotFound,
            ))
            &&& feed_step(c, id, bytes) == (c, Err::<(), TerminalError>(
                TerminalError::SessionNotFound,
            ))
            &&& close_step(c, id) == c
        }),
{
    assert(close_step(close_step(m, id), id) =~= close_step(m, id));
}

/// Once the shell has exited, a poll delivers the output still pending (when
/// it is whole text) and then reports the exit, never an error.
pub proof fn exit_is_reported_after_output<H>(m: Sessions<H>, id: Seq<char>)
    requires
        m.contains_key(id),
    ensures
        ({
            let e = exit_step(m, id).0;
            &&& e[id].output.len() == 0 ==> read_step(e, id) == (e, Ok::<ReadView, TerminalError>(
                ReadView::Exited,
            ))
            &&& e[id].output.len() > 0 && valid_utf8(e[id].output) ==> read_step(e, id).1 == Ok::<
                ReadView,
                TerminalError,
            >(ReadView::Data(decode_utf8(e[id].output))) && read_step(read_step(e, id).0, id).1
                == Ok::<ReadView, TerminalError>(ReadView::Exited)
        }),
{
}

/// A poll never loses or alters output: what it delivers, re-encoded, followed
/// by what stays pending, is exactly what was pending before; a poll that
/// delivers nothing leaves the session as it was.
pub proof fn read_keeps_every_byte<H>(m: Sessions<H>, id: Seq<char>)
    requires
        m.contains_key(id),
    ensures
        match read_step(m, id) {
            (m2, Ok(ReadView::Data(t))) => encode_utf8(t) + m2[id].output == m[id].output
                && m2[id].output.len() == 0,
            (m2, _) => m2 == m,
        },
{
    broadcast use decode_utf8_encode_utf8;

    if let (m2, Ok(ReadView::Data(t))) = read_step(m, id) {
        assert(encode_utf8(t) + m2[id].output =~= encode_utf8(t));
    }
}

/// A character whose encoding arrives in two pieces is held back, and the
/// poll flagged, until the rest arrives; then the whole text is delivered.
pub proof fn split_character_is_held_back<H>(
    m: Sessions<H>,
    id: Seq<char>,
    before: Seq<char>,
    c: char,
    k: int,
)
    requires
        m.contains_key(id),
        m[id].output == encode_utf8(before),
        0 < k < encode_utf8(seq![c]).len(),
    ensures
        ({
            let piece = encode_utf8(seq![c]).take(k);
            let rest = encode_utf8(seq![c]).skip(k);
            let m1 = feed_step(m, id, piece).0;
            let m2 = feed_step(m1, id, rest).0;
            &&& read_step(m1, id) == (m1, Err::<ReadView, TerminalError>(
                TerminalError::InvalidEncoding,
            ))
            &&& read_step(m2, id).1 == Ok::<ReadView, TerminalError>(
                ReadView::Data(before + seq![c]),
            )
        }),
{
    broadcast use encode_utf8_valid_utf8, encode_utf8_decode_utf8;

    let e = encode_utf8(seq![c]);
    let piece = e.take(k);
    let rest = e.skip(k);
    let head = encode_utf8(before);
    let m1 = feed_step(m, id, piece).0;
    let m2 = feed_step(m1, id, rest).0;
    encode_utf8_first_scalar(seq![c]);
    assert(seq![c].drop_first() =~= Seq::<char>::empty());
    assert(seq![c][0] == c);
    assert(encode_utf8(Seq::<char>::empty()) == Seq::<u8>::empty());
    assert(e == encode_scalar(c as u32) + encode_utf8(seq![c].drop_first()));
    assert(e =~= encode_scalar(c as u32));
    assert(piece[0] == e[0]);
    assert(!valid_first_scalar(piece));
    assert(!valid_utf8(piece));
    let joined = head + piece;
    assert(m1[id].output == joined);
    if valid_utf8(joined) {
        assert(joined.subrange(head.len() as int, joined.len() as int) =~= piece);
        assert(joined[head.len() as int] == piece[0]);
        is_char_boundary_iff_is_leading_byte(joined, head.len() as int);
        valid_utf8_split(joined, head.len() as int);
    }
    assert(piece + rest =~= e);
    assert(m2[id].output =~= head + e);
    written_text_concatenates(before, seq![c]);
}

} // verus!
