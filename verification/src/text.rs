//! Texts that the programs compose: joined arguments, decoded bodies and
//! the lines that consumers print.

use vstd::prelude::*;
use vstd::utf8::{decode_utf8, valid_utf8};

verus! {

/// `parts` with `separator` between each two of them, as `[T]::join` does.
pub open spec fn seq_join(parts: Seq<Seq<char>>, separator: Seq<char>) -> Seq<char>
    decreases parts.len(),
{
    if parts.len() == 0 {
        Seq::empty()
    } else if parts.len() == 1 {
        parts[0]
    } else {
        seq_join(parts.drop_last(), separator) + separator + parts.last()
    }
}

/// The texts of a sequence of strings.
pub open spec fn texts(strings: Seq<String>) -> Seq<Seq<char>> {
    strings.map_values(|s: String| s@)
}

/// The texts of `parts` from index `start` on, joined with `separator`.
pub fn join_from(parts: &Vec<String>, start: usize, separator: &str) -> (joined: String)
    requires
        start <= parts.len(),
    ensures
        joined@ == seq_join(texts(parts@).skip(start as int), separator@),
{
    let ghost all = texts(parts@);
    let mut joined = String::new();
    let mut i = start;
    assert(all.skip(start as int).take(0) =~= Seq::<Seq<char>>::empty());
    while i < parts.len()
        invariant
            start <= i <= parts.len(),
            all == texts(parts@),
            joined@ == seq_join(all.skip(start as int).take(i - start), separator@),
        decreases parts.len() - i,
    {
        let ghost done = all.skip(start as int).take(i - start);
        let ghost more = all.skip(start as int).take(i + 1 - start);
        assert(more.drop_last() =~= done);
        assert(more.last() == parts@[i as int]@);
        if i > start {
            joined.append(separator);
        }
        joined.append(parts[i].as_str());
        i = i + 1;
    }
    assert(all.skip(start as int).take(i - start) =~= all.skip(start as int));
    joined
}

/// `String::from_utf8`: the text that `bytes` encode, where they are valid
/// UTF-8, and nothing where they are not. The claim rests on the std
/// documentation ("returns `Err` if the slice is not UTF-8") and on vstd's
/// model of UTF-8 (`valid_utf8`, `decode_utf8`), which is the encoding that
/// vstd already gives `str::as_bytes`.
#[verifier::external_body]
pub(crate) fn decode_body(bytes: Vec<u8>) -> (text: Option<String>)
    ensures
        text is Some <==> valid_utf8(bytes@),
        text matches Some(t) ==> t@ == decode_utf8(bytes@),
{
    String::from_utf8(bytes).ok()
}

/// The line that a consumer prints for a message: `[x] <routing key>:<body>`.
pub open spec fn received_line(routing_key: Seq<char>, body: Seq<char>) -> Seq<char> {
    "[x] "@ + routing_key + ":"@ + body
}

/// Composes `[x] <routing key>:<body>`.
pub fn format_received(routing_key: &str, body: &str) -> (line: String)
    ensures
        line@ == received_line(routing_key@, body@),
{
    let mut line = String::from_str("[x] ");
    line.append(routing_key);
    line.append(":");
    line.append(body);
    line
}


/// The line printed for a message is `[x] `, then the routing key, then `:`,
/// then the body, with nothing else: it is as long as the key and the body
/// and five characters more, and each part stands at its place.
pub proof fn lemma_received_line_parts(routing_key: Seq<char>, body: Seq<char>)
    ensures
        ({
            let line = received_line(routing_key, body);
            &&& line.len() == routing_key.len() + body.len() + 5
            &&& line.subrange(0, 4) == seq!['[', 'x', ']', ' ']
            &&& line.subrange(4, 4int + routing_key.len()) == routing_key
            &&& line[4int + routing_key.len()] == ':'
            &&& line.subrange(5int + routing_key.len(), line.len() as int) == body
        }),
{
    reveal_strlit("[x] ");
    reveal_strlit(":");
    let line = received_line(routing_key, body);
    assert(line.subrange(0, 4) =~= seq!['[', 'x', ']', ' ']);
    assert(line.subrange(4, 4int + routing_key.len()) =~= routing_key);
    assert(line.subrange(5int + routing_key.len(), line.len() as int) =~= body);
}

/// Joining: nothing gives the empty text, one text gives itself, and one
/// more text adds the separator and that text at the end.
pub proof fn lemma_seq_join_parts(parts: Seq<Seq<char>>, last: Seq<char>, separator: Seq<char>)
    ensures
        seq_join(Seq::empty(), separator) == Seq::<char>::empty(),
        seq_join(seq![last], separator) == last,
        parts.len() >= 1 ==> seq_join(parts.push(last), separator) == seq_join(parts, separator) + separator + last,
{
    assert(seq![last][0] == last);
    if parts.len() >= 1 {
        assert(parts.push(last).drop_last() =~= parts);
    }
}

} // verus!
