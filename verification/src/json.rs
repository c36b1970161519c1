//! Verified construction of the JSON request bodies and query strings that
//! the client sends on the wire: decimal rendering of integers, JSON string
//! escaping, and the concrete body shapes for login, resource creation,
//! publishing and polling.

use vstd::prelude::*;
use vstd::string::StrSliceExecFns;
use vstd::string::StringExecFns;

verus! {

/// The character for one decimal digit.
pub open spec fn dec_digit(d: nat) -> char {
    if d == 0 {
        '0'
    } else if d == 1 {
        '1'
    } else if d == 2 {
        '2'
    } else if d == 3 {
        '3'
    } else if d == 4 {
        '4'
    } else if d == 5 {
        '5'
    } else if d == 6 {
        '6'
    } else if d == 7 {
        '7'
    } else if d == 8 {
        '8'
    } else {
        '9'
    }
}

/// The decimal digits of `n`, most significant first, with no leading zeros
/// (a single `'0'` for zero).
pub open spec fn dec_of(n: nat) -> Seq<char>
    decreases n,
{
    if n < 10 {
        seq![dec_digit(n)]
    } else {
        dec_of(n / 10).push(dec_digit(n % 10))
    }
}

fn digit_str(d: u64) -> (r: &'static str)
    requires
        d < 10,
    ensures
        r@ =~= seq![dec_digit(d as nat)],
{
    proof {
        reveal_strlit("0");
        reveal_strlit("1");
        reveal_strlit("2");
        reveal_strlit("3");
        reveal_strlit("4");
        reveal_strlit("5");
        reveal_strlit("6");
        reveal_strlit("7");
        reveal_strlit("8");
        reveal_strlit("9");
    }
    if d == 0 {
        "0"
    } else if d == 1 {
        "1"
    } else if d == 2 {
        "2"
    } else if d == 3 {
        "3"
    } else if d == 4 {
        "4"
    } else if d == 5 {
        "5"
    } else if d == 6 {
        "6"
    } else if d == 7 {
        "7"
    } else if d == 8 {
        "8"
    } else {
        "9"
    }
}

/// Renders `n` in decimal.
pub fn u64_to_dec(n: u64) -> (r: String)
    ensures
        r@ == dec_of(n as nat),
    decreases n,
{
    if n < 10 {
        let s = digit_str(n).to_owned();
        s
    } else {
        let mut s = u64_to_dec(n / 10);
        s.append(digit_str(n % 10));
        proof {
            assert(s@ =~= dec_of((n / 10) as nat).push(dec_digit((n % 10) as nat)));
        }
        s
    }
}

/// How one character is written inside a JSON string: quote, backslash and
/// the common control characters get a two-character escape, any other
/// control character gets a `\u00XX` escape, and everything else stands as
/// itself.
pub open spec fn escape_char(c: char) -> Seq<char> {
    if c == '"' {
        seq!['\\', '"']
    } else if c == '\\' {
        seq!['\\', '\\']
    } else if c == '\n' {
        seq!['\\', 'n']
    } else if c == '\r' {
        seq!['\\', 'r']
    } else if c == '\t' {
        seq!['\\', 't']
    } else if (c as nat) < 32 {
        seq!['\\', 'u', '0', '0', hex_digit((c as nat) / 16), hex_digit((c as nat) % 16)]
    } else {
        seq![c]
    }
}

/// The character for one hexadecimal digit (lower case).
pub open spec fn hex_digit(d: nat) -> char {
    if d < 10 {
        dec_digit(d)
    } else if d == 10 {
        'a'
    } else if d == 11 {
        'b'
    } else if d == 12 {
        'c'
    } else if d == 13 {
        'd'
    } else if d == 14 {
        'e'
    } else {
        'f'
    }
}

/// The body of a JSON string: every character escaped as `escape_char` says.
pub open spec fn escaped(s: Seq<char>) -> Seq<char>
    decreases s.len(),
{
    if s.len() == 0 {
        Seq::empty()
    } else {
        escape_char(s[0]) + escaped(s.drop_first())
    }
}

/// A complete JSON string token: the escaped body between double quotes.
pub open spec fn quoted(s: Seq<char>) -> Seq<char> {
    seq!['"'] + escaped(s) + seq!['"']
}

proof fn lemma_escaped_push(t: Seq<char>, c: char)
    ensures
        escaped(t.push(c)) == escaped(t) + escape_char(c),
    decreases t.len(),
{
    if t.len() == 0 {
        assert(t.push(c)[0] == c);
        assert(t.push(c).drop_first() =~= Seq::<char>::empty());
        assert(escaped(t.push(c)) == escape_char(c) + escaped(Seq::<char>::empty()));
        assert(escaped(t.push(c)) =~= escaped(t) + escape_char(c));
    } else {
        lemma_escaped_push(t.drop_first(), c);
        assert(t.push(c).drop_first() =~= t.drop_first().push(c));
        assert(escaped(t.push(c)) =~= escaped(t) + escape_char(c));
    }
}

fn hex_digit_str(d: u32) -> (r: &'static str)
    requires
        d < 16,
    ensures
        r@ =~= seq![hex_digit(d as nat)],
{
    proof {
        reveal_strlit("a");
        reveal_strlit("b");
        reveal_strlit("c");
        reveal_strlit("d");
        reveal_strlit("e");
        reveal_strlit("f");
    }
    if d < 10 {
        digit_str(d as u64)
    } else if d == 10 {
        "a"
    } else if d == 11 {
        "b"
    } else if d == 12 {
        "c"
    } else if d == 13 {
        "d"
    } else if d == 14 {
        "e"
    } else {
        "f"
    }
}

fn append_escaped_char(out: &mut String, c: char)
    ensures
        final(out)@ == old(out)@ + escape_char(c),
{
    proof {
        reveal_strlit("\\\"");
        reveal_strlit("\\\\");
        reveal_strlit("\\n");
        reveal_strlit("\\r");
        reveal_strlit("\\t");
        reveal_strlit("\\u00");
    }
    if c == '"' {
        out.append("\\\"");
        assert(out@ =~= old(out)@ + escape_char(c));
    } else if c == '\\' {
        out.append("\\\\");
        assert(out@ =~= old(out)@ + escape_char(c));
    } else if c == '\n' {
        out.append("\\n");
        assert(out@ =~= old(out)@ + escape_char(c));
    } else if c == '\r' {
        out.append("\\r");
        assert(out@ =~= old(out)@ + escape_char(c));
    } else if c == '\t' {
        out.append("\\t");
        assert(out@ =~= old(out)@ + escape_char(c));
    } else if (c as u32) < 32 {
        let code: u32 = c as u32;
        out.append("\\u00");
        out.append(hex_digit_str(code / 16));
        out.append(hex_digit_str(code % 16));
        assert(out@ =~= old(out)@ + escape_char(c));
    } else {
        push_char(out, c);
        assert(out@ =~= old(out)@ + escape_char(c));
    }
}

/// Relies on `String::push`, which appends the given character to the end of
/// the string.
#[verifier::external_body]
fn push_char(out: &mut String, c: char)
    ensures
        final(out)@ == old(out)@ + seq![c],
{
    out.push(c);
}

/// Escapes `s` for use as the body of a JSON string token.
pub fn json_escape(s: &str) -> (r: String)
    ensures
        r@ == escaped(s@),
{
    let n = s.unicode_len();
    let mut out = String::new();
    let mut i: usize = 0;
    while i < n
        invariant
            n == s@.len(),
            i <= n,
            out@ == escaped(s@.subrange(0, i as int)),
        decreases n - i,
    {
        let c = s.get_char(i);
        append_escaped_char(&mut out, c);
        proof {
            lemma_escaped_push(s@.subrange(0, i as int), c);
            assert(s@.subrange(0, i as int + 1) =~= s@.subrange(0, i as int).push(s@[i as int]));
        }
        i = i + 1;
    }
    proof {
        assert(s@.subrange(0, n as int) =~= s@);
    }
    out
}

/// Renders `s` as a complete JSON string token.
pub fn json_quote(s: &str) -> (r: String)
    ensures
        r@ == quoted(s@),
{
    proof {
        reveal_strlit("\"");
    }
    let mut out = String::from_str("\"");
    let body = json_escape(s);
    out.append(body.as_str());
    out.append("\"");
    proof {
        assert(out@ =~= quoted(s@));
    }
    out
}

/// The login request body: plaintext username and password, exchanged once.
pub open spec fn spec_login_body(u: Seq<char>, p: Seq<char>) -> Seq<char> {
    "{\"username\":"@ + quoted(u) + ",\"password\":"@ + quoted(p) + "}"@
}

/// Builds the login request body for `username` and `password`.
pub fn login_body(username: &str, password: &str) -> (r: String)
    ensures
        r@ == spec_login_body(username@, password@),
{
    let mut out = String::from_str("{\"username\":");
    let u = json_quote(username);
    out.append(u.as_str());
    out.append(",\"password\":");
    let p = json_quote(password);
    out.append(p.as_str());
    out.append("}");
    proof {
        assert(out@ =~= spec_login_body(username@, password@));
    }
    out
}

/// The stream-creation request body.
pub open spec fn spec_create_stream_body(name: Seq<char>) -> Seq<char> {
    "{\"name\":"@ + quoted(name) + "}"@
}

/// Builds the body that creates a stream named `name`.
pub fn create_stream_body(name: &str) -> (r: String)
    ensures
        r@ == spec_create_stream_body(name@),
{
    let mut out = String::from_str("{\"name\":");
    let n = json_quote(name);
    out.append(n.as_str());
    out.append("}");
    proof {
        assert(out@ =~= spec_create_stream_body(name@));
    }
    out
}

/// The topic-creation request body: the name, the partition count, and the
/// fixed policy fields (no compression, no expiry, no size cap, replication
/// factor one).
pub open spec fn spec_create_topic_body(name: Seq<char>, partitions: nat) -> Seq<char> {
    "{\"name\":"@ + quoted(name) + ",\"partitions_count\":"@ + dec_of(partitions)
        + ",\"compression_algorithm\":\"none\",\"message_expiry\":0,\"max_topic_size\":0,\"replication_factor\":1}"@
}

/// Builds the body that creates a topic named `name` with `partitions`
/// partitions.
pub fn create_topic_body(name: &str, partitions: u32) -> (r: String)
    ensures
        r@ == spec_create_topic_body(name@, partitions as nat),
{
    let mut out = String::from_str("{\"name\":");
    let n = json_quote(name);
    out.append(n.as_str());
    out.append(",\"partitions_count\":");
    let d = u64_to_dec(partitions as u64);
    out.append(d.as_str());
    out.append(
        ",\"compression_algorithm\":\"none\",\"message_expiry\":0,\"max_topic_size\":0,\"replication_factor\":1}",
    );
    proof {
        assert(out@ =~= spec_create_topic_body(name@, partitions as nat));
    }
    out
}

/// The query string of a poll request: the consumer identity, the partition,
/// the explicit offset to read from, the batch bound, and the auto-commit
/// flag.
pub open spec fn spec_poll_query(
    consumer: nat,
    partition: nat,
    offset: nat,
    count: nat,
    auto_commit: bool,
) -> Seq<char> {
    "consumer="@ + dec_of(consumer) + "&partition_id="@ + dec_of(partition)
        + "&strategy=offset&value="@ + dec_of(offset) + "&count="@ + dec_of(count)
        + "&auto_commit="@ + (if auto_commit {
        "true"@
    } else {
        "false"@
    })
}

/// Builds the query string of a poll request.
pub fn poll_query(consumer: u32, partition: u32, offset: u64, count: u32, auto_commit: bool) -> (r:
    String)
    ensures
        r@ == spec_poll_query(
            consumer as nat,
            partition as nat,
            offset as nat,
            count as nat,
            auto_commit,
        ),
{
    let mut out = String::from_str("consumer=");
    let c = u64_to_dec(consumer as u64);
    out.append(c.as_str());
    out.append("&partition_id=");
    let p = u64_to_dec(partition as u64);
    out.append(p.as_str());
    out.append("&strategy=offset&value=");
    let o = u64_to_dec(offset);
    out.append(o.as_str());
    out.append("&count=");
    let k = u64_to_dec(count as u64);
    out.append(k.as_str());
    out.append("&auto_commit=");
    if auto_commit {
        out.append("true");
    } else {
        out.append("false");
    }
    proof {
        assert(out@ =~= spec_poll_query(
            consumer as nat,
            partition as nat,
            offset as nat,
            count as nat,
            auto_commit,
        ));
    }
    out
}

} // verus!
