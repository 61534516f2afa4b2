//! The daemon's wire protocol: newline-delimited request and response
//! records.
//!
//! A request names a zone: `{"ZoneProcess":"<name>"}`. A response carries
//! either a process id, `{"ZoneProcess":<pid>}`, or an error message,
//! `{"Error":"<text>"}`, with backslashes, quotes and newlines in the text
//! escaped so that a record never spans or splits a line. Encoding and
//! parsing are exact inverses: the parsers accept precisely the encoders'
//! outputs.

use vstd::prelude::*;
use vstd::string::StrSliceExecFns;
use vstd::string::StringExecFns;

use crate::daemon::Request;
use crate::daemon::RequestV;
use crate::daemon::Response;
use crate::daemon::ResponseV;
use crate::daemon::ZonePid;
use crate::paths::ZoneName;
use crate::paths::valid_name;
use crate::utils::dec_str;
use crate::utils::fmt_u64;
use crate::utils::lemma_dec_str_digits;
use crate::utils::lemma_dec_value_of_dec_str;

verus! {

/// How one character of an error message is written on the wire:
/// backslashes, quotes and newlines hide behind a backslash, everything
/// else stands for itself.
pub open spec fn escape_char(c: char) -> Seq<char> {
    if c == '\\' {
        seq!['\\', '\\']
    } else if c == '"' {
        seq!['\\', '"']
    } else if c == '\n' {
        seq!['\\', 'n']
    } else {
        seq![c]
    }
}

/// A message escaped for the wire, character by character.
pub open spec fn escape_spec(s: Seq<char>) -> Seq<char>
    decreases s.len(),
{
    if s.len() == 0 {
        Seq::empty()
    } else {
        escape_char(s[0]) + escape_spec(s.subrange(1, s.len() as int))
    }
}

/// Escaping distributes over concatenation.
pub proof fn lemma_escape_concat(a: Seq<char>, b: Seq<char>)
    ensures
        escape_spec(a + b) == escape_spec(a) + escape_spec(b),
    decreases a.len(),
{
    if a.len() == 0 {
        assert(a + b =~= b);
        assert(escape_spec(a) + escape_spec(b) =~= escape_spec(b));
    } else {
        assert((a + b)[0] == a[0]);
        assert((a + b).subrange(1, (a + b).len() as int) =~= a.subrange(1, a.len() as int) + b);
        lemma_escape_concat(a.subrange(1, a.len() as int), b);
        assert(escape_char(a[0]) + (escape_spec(a.subrange(1, a.len() as int)) + escape_spec(b))
            =~= (escape_char(a[0]) + escape_spec(a.subrange(1, a.len() as int))) + escape_spec(b));
    }
}

/// Escapes an error message for the wire.
pub fn escape(s: &str) -> (r: String)
    ensures
        r@ == escape_spec(s@),
{
    proof {
        reveal_strlit("\\\\");
        reveal_strlit("\\\"");
        reveal_strlit("\\n");
    }
    let len = s.unicode_len();
    let mut out = String::new();
    let mut i: usize = 0;
    proof {
        assert(s@.subrange(0, 0) =~= Seq::<char>::empty());
    }
    while i < len
        invariant
            0 <= i <= len,
            len == s@.len(),
            out@ == escape_spec(s@.subrange(0, i as int)),
        decreases len - i,
    {
        let c = s.get_char(i);
        proof {
            reveal_strlit("\\\\");
            reveal_strlit("\\\"");
            reveal_strlit("\\n");
            assert(s@.subrange(0, i + 1) =~= s@.subrange(0, i as int) + seq![s@[i as int]]);
            lemma_escape_concat(s@.subrange(0, i as int), seq![s@[i as int]]);
            let unit = seq![s@[i as int]];
            assert(unit.subrange(1, unit.len() as int) =~= Seq::<char>::empty());
            assert(escape_spec(Seq::<char>::empty()) == Seq::<char>::empty());
            assert(unit[0] == s@[i as int]);
            assert(escape_char(s@[i as int]) + Seq::<char>::empty() =~= escape_char(
                s@[i as int],
            ));
            assert(escape_spec(unit) =~= escape_char(s@[i as int]));
        }
        if c == '\\' {
            out.append("\\\\");
            proof {
                assert(out@ =~= escape_spec(s@.subrange(0, i + 1)));
            }
        } else if c == '"' {
            out.append("\\\"");
            proof {
                assert(out@ =~= escape_spec(s@.subrange(0, i + 1)));
            }
        } else if c == '\n' {
            out.append("\\n");
            proof {
                assert(out@ =~= escape_spec(s@.subrange(0, i + 1)));
            }
        } else {
            let unit = s.substring_char(i, i + 1);
            out.append(unit);
            proof {
                assert(unit@ =~= seq![s@[i as int]]);
                assert(out@ =~= escape_spec(s@.subrange(0, i + 1)));
            }
        }
        i += 1;
    }
    proof {
        assert(s@.subrange(0, len as int) =~= s@);
    }
    out
}

/// Decodes the escaped span that ends at the first bare quote: the decoded
/// message, and how many characters precede the quote. Nothing is returned
/// when the span is not in canonical escaped form: an unknown or unfinished
/// escape, a bare newline, or no closing quote at all.
pub open spec fn unescape_prefix(t: Seq<char>) -> Option<(Seq<char>, int)>
    decreases t.len(),
{
    if t.len() == 0 {
        None
    } else if t[0] == '"' {
        Some((Seq::empty(), 0))
    } else if t[0] == '\\' {
        if t.len() < 2 {
            None
        } else if t[1] == '\\' || t[1] == '"' || t[1] == 'n' {
            let c = if t[1] == '\\' {
                '\\'
            } else if t[1] == '"' {
                '"'
            } else {
                '\n'
            };
            match unescape_prefix(t.subrange(2, t.len() as int)) {
                None => None,
                Some((m, j)) => Some((seq![c] + m, j + 2)),
            }
        } else {
            None
        }
    } else if t[0] == '\n' {
        None
    } else {
        match unescape_prefix(t.subrange(1, t.len() as int)) {
            None => None,
            Some((m, j)) => Some((seq![t[0]] + m, j + 1)),
        }
    }
}

/// Decoding inverts escaping: an escaped message followed by its closing
/// quote decodes to the message, whatever comes after the quote.
pub proof fn lemma_unescape_of_escaped(m: Seq<char>, rest: Seq<char>)
    ensures
        unescape_prefix(escape_spec(m) + seq!['"'] + rest) == Some((m, escape_spec(m).len() as int)),
    decreases m.len(),
{
    let t = escape_spec(m) + seq!['"'] + rest;
    if m.len() == 0 {
        assert(escape_spec(m) =~= Seq::<char>::empty());
        assert(t[0] == '"');
        assert(unescape_prefix(t) == Some((Seq::<char>::empty(), 0int)));
        assert(m =~= Seq::<char>::empty());
    } else {
        let c = m[0];
        let m1 = m.subrange(1, m.len() as int);
        lemma_unescape_of_escaped(m1, rest);
        let t1 = escape_spec(m1) + seq!['"'] + rest;
        if c == '\\' || c == '"' || c == '\n' {
            assert(escape_char(c).len() == 2);
            assert(t[0] == '\\');
            assert(t.subrange(2, t.len() as int) =~= t1);
            assert(seq![c] + m1 =~= m);
        } else {
            assert(escape_char(c) =~= seq![c]);
            assert(t[0] == c);
            assert(t.subrange(1, t.len() as int) =~= t1);
            assert(seq![c] + m1 =~= m);
        }
    }
}

/// What a successful decode says of the input: the span before the closing
/// quote is exactly the decoded message, escaped.
pub proof fn lemma_unescape_sound(t: Seq<char>)
    requires
        unescape_prefix(t) is Some,
    ensures
        ({
            let (m, j) = unescape_prefix(t).unwrap();
            &&& 0 <= j < t.len()
            &&& t[j] == '"'
            &&& t.subrange(0, j) == escape_spec(m)
        }),
    decreases t.len(),
{
    let (m, j) = unescape_prefix(t).unwrap();
    if t[0] == '"' {
        assert(t.subrange(0, 0) =~= escape_spec(Seq::<char>::empty()));
    } else if t[0] == '\\' {
        let t2 = t.subrange(2, t.len() as int);
        lemma_unescape_sound(t2);
        let (m2, j2) = unescape_prefix(t2).unwrap();
        assert(t[j] == t2[j2]);
        assert(m == seq![m[0]] + m2);
        assert(m.subrange(1, m.len() as int) =~= m2);
        assert(escape_char(m[0]).len() == 2);
        assert(t.subrange(0, j) =~= escape_char(m[0]) + t2.subrange(0, j2));
    } else {
        let t1 = t.subrange(1, t.len() as int);
        lemma_unescape_sound(t1);
        let (m1, j1) = unescape_prefix(t1).unwrap();
        assert(t[j] == t1[j1]);
        assert(m == seq![t[0]] + m1);
        assert(m.subrange(1, m.len() as int) =~= m1);
        assert(m[0] == t[0]);
        assert(escape_char(m[0]) =~= seq![t[0]]);
        assert(t.subrange(0, j) =~= escape_char(m[0]) + t1.subrange(0, j1));
    }
}

/// Decodes the escaped span of `s` that starts at `i` and ends at the first
/// bare quote, returning the decoded message and the quote's position.
fn unescape_from(s: &str, i: usize) -> (r: Option<(String, usize)>)
    requires
        i <= s@.len(),
    ensures
        match r {
            Some(p) => {
                &&& i <= p.1 < s@.len()
                &&& unescape_prefix(s@.subrange(i as int, s@.len() as int)) == Some(
                    (p.0@, p.1 - i),
                )
            },
            None => unescape_prefix(s@.subrange(i as int, s@.len() as int)) is None,
        },
    decreases s@.len() - i,
{
    proof {
        reveal_strlit("\\");
        reveal_strlit("\"");
        reveal_strlit("\n");
    }
    let ghost t = s@.subrange(i as int, s@.len() as int);
    let len = s.unicode_len();
    if i == len {
        return None;
    }
    let c = s.get_char(i);
    proof {
        assert(t[0] == s@[i as int]);
    }
    if c == '"' {
        let empty = String::new();
        proof {
            assert(empty@ =~= Seq::<char>::empty());
        }
        return Some((empty, i));
    }
    if c == '\\' {
        if i + 1 == len {
            return None;
        }
        let code = s.get_char(i + 1);
        proof {
            assert(t[1] == s@[i + 1]);
            assert(t.subrange(2, t.len() as int) =~= s@.subrange(i + 2, s@.len() as int));
        }
        if code == '\\' || code == '"' || code == 'n' {
            let decoded: &str = if code == '\\' {
                "\\"
            } else if code == '"' {
                "\""
            } else {
                "\n"
            };
            match unescape_from(s, i + 2) {
                None => None,
                Some((m, j)) => {
                    let mut out = decoded.to_owned();
                    out.append(m.as_str());
                    proof {
                        let c_dec = if t[1] == '\\' {
                            '\\'
                        } else if t[1] == '"' {
                            '"'
                        } else {
                            '\n'
                        };
                        assert(decoded@ =~= seq![c_dec]);
                        assert(out@ =~= seq![c_dec] + m@);
                    }
                    Some((out, j))
                },
            }
        } else {
            None
        }
    } else if c == '\n' {
        None
    } else {
        proof {
            assert(t.subrange(1, t.len() as int) =~= s@.subrange(i + 1, s@.len() as int));
        }
        let unit = s.substring_char(i, i + 1);
        match unescape_from(s, i + 1) {
            None => None,
            Some((m, j)) => {
                let mut out = unit.to_owned();
                out.append(m.as_str());
                proof {
                    assert(unit@ =~= seq![t[0]]);
                    assert(out@ =~= seq![t[0]] + m@);
                }
                Some((out, j))
            },
        }
    }
}

/// The wire form of a request for the named zone.
pub open spec fn req_wire(name: Seq<char>) -> Seq<char> {
    "{\"ZoneProcess\":\""@ + name + "\"}"@
}

/// The wire form of a response carrying a zone process id.
pub open spec fn resp_pid_wire(pid: int) -> Seq<char> {
    "{\"ZoneProcess\":"@ + dec_str(pid as nat) + "}"@
}

/// The wire form of a response carrying an error message.
pub open spec fn resp_err_wire(msg: Seq<char>) -> Seq<char> {
    "{\"Error\":\""@ + escape_spec(msg) + "\"}"@
}

/// Writes a request in its wire form. Zone names are valid by construction
/// and contain no quote, backslash or newline, so they need no escaping.
pub fn encode_request(req: &Request) -> (r: String)
    ensures
        match req@ {
            RequestV::ZoneProcess(n) => r@ == req_wire(n),
        },
{
    match req {
        Request::ZoneProcess(name) => {
            let mut out = "{\"ZoneProcess\":\"".to_owned();
            out.append(name.as_str());
            out.append("\"}");
            out
        },
    }
}

/// Writes a response in its wire form.
pub fn encode_response(resp: &Response) -> (r: String)
    requires
        match resp {
            Response::ZoneProcess(p) => p.0 >= 0,
            Response::Error(_) => true,
        },
    ensures
        match resp@ {
            ResponseV::ZoneProcess(p) => r@ == resp_pid_wire(p),
            ResponseV::Error(m) => r@ == resp_err_wire(m),
        },
{
    match resp {
        Response::ZoneProcess(p) => {
            let mut out = "{\"ZoneProcess\":".to_owned();
            let digits = fmt_u64(p.0 as u64);
            out.append(digits.as_str());
            out.append("}");
            out
        },
        Response::Error(m) => {
            let mut out = "{\"Error\":\"".to_owned();
            let escaped = escape(m.as_str());
            out.append(escaped.as_str());
            out.append("\"}");
            out
        },
    }
}

/// Reads a request from its wire form. Exactly the encodings of valid zone
/// names are accepted.
pub fn parse_request(line: &str) -> (r: Option<Request>)
    ensures
        match r {
            Some(req) => match req@ {
                RequestV::ZoneProcess(n) => valid_name(n) && line@ == req_wire(n),
            },
            None => forall|n: Seq<char>| valid_name(n) ==> line@ != req_wire(n),
        },
{
    proof {
        reveal_strlit("{\"ZoneProcess\":\"");
        reveal_strlit("\"}");
    }
    let len = line.unicode_len();
    match crate::utils::strip_prefix("{\"ZoneProcess\":\"", line) {
        None => {
            proof {
                assert forall|n: Seq<char>| valid_name(n) implies line@ != req_wire(n) by {
                    if line@ == req_wire(n) {
                        assert(line@ == "{\"ZoneProcess\":\""@ + (n + "\"}"@));
                    }
                }
            }
            None
        },
        Some(rest) => {
            let rlen = rest.as_str().unicode_len();
            let ghost pfx = "{\"ZoneProcess\":\""@;
            proof {
                assert forall|n: Seq<char>| line@ == req_wire(n) implies rest@ == n + "\"}"@ by {
                    assert(line@ == pfx + rest@);
                    assert(line@ == pfx + (n + "\"}"@));
                    assert forall|k: int| 0 <= k < rest@.len() implies rest@[k] == (n
                        + "\"}"@)[k] by {
                        assert(rest@[k] == line@[pfx.len() + k]);
                        assert((n + "\"}"@)[k] == line@[pfx.len() + k]);
                    }
                    assert(rest@ =~= n + "\"}"@);
                }
            }
            if rlen < 2 || !crate::utils::ends_with(rest.as_str(), "\"}") {
                proof {
                    assert forall|n: Seq<char>| valid_name(n) implies line@ != req_wire(n) by {
                        if line@ == req_wire(n) {
                            assert(rest@ == n + "\"}"@);
                            assert(rest@.subrange(rest@.len() - 2, rest@.len() as int) =~= "\"}"@);
                        }
                    }
                }
                None
            } else {
                let middle = rest.as_str().substring_char(0, rlen - 2);
                proof {
                    assert forall|n: Seq<char>| line@ == req_wire(n) implies middle@ == n by {
                        assert(rest@ == n + "\"}"@);
                        assert(middle@ =~= n);
                    }
                }
                match ZoneName::new(middle.to_owned()) {
                    Ok(name) => {
                        proof {
                            assert(rest@ =~= middle@ + "\"}"@) by {
                                assert(rest@.subrange(rest@.len() - 2, rest@.len() as int)
                                    == "\"}"@);
                                assert(middle@ == rest@.subrange(0, rest@.len() - 2));
                            }
                            assert(line@ =~= pfx + (middle@ + "\"}"@));
                            assert(line@ =~= req_wire(name@));
                        }
                        Some(Request::ZoneProcess(name))
                    },
                    Err(_) => {
                        proof {
                            assert forall|n: Seq<char>| valid_name(n) implies line@ != req_wire(
                                n,
                            ) by {
                                if line@ == req_wire(n) {
                                    assert(middle@ == n);
                                }
                            }
                        }
                        None
                    },
                }
            }
        },
    }
}

/// Reads a response from its wire form. Exactly the encodings of
/// nonnegative process ids that fit a pid and of error messages are
/// accepted.
pub fn parse_response(line: &str) -> (r: Option<Response>)
    ensures
        match r {
            Some(resp) => match resp@ {
                ResponseV::ZoneProcess(p) => 0 <= p <= i32::MAX && line@ == resp_pid_wire(p),
                ResponseV::Error(m) => line@ == resp_err_wire(m),
            },
            None => {
                &&& forall|p: int| 0 <= p <= i32::MAX ==> line@ != resp_pid_wire(p)
                &&& forall|m: Seq<char>| line@ != resp_err_wire(m)
            },
        },
{
    proof {
        reveal_strlit("{\"ZoneProcess\":");
        reveal_strlit("{\"Error\":\"");
        reveal_strlit("}");
        reveal_strlit("\"}");
    }
    let len = line.unicode_len();
    let ghost pid_pfx = "{\"ZoneProcess\":"@;
    let ghost err_pfx = "{\"Error\":\""@;
    proof {
        assert(pid_pfx[2] == 'Z');
        assert(err_pfx[2] == 'E');
        assert forall|m: Seq<char>| #[trigger] resp_err_wire(m)[2] == 'E' by {
            assert(resp_err_wire(m)[2] == err_pfx[2]);
        }
    }
    match crate::utils::strip_prefix("{\"ZoneProcess\":", line) {
        Some(rest) => {
            proof {
                assert(line@[2] == pid_pfx[2]);
                assert forall|m: Seq<char>| line@ != resp_err_wire(m) by {
                    if line@ == resp_err_wire(m) {
                        assert(line@[2] == 'E');
                    }
                }
                assert forall|p: int| 0 <= p <= i32::MAX && line@ == resp_pid_wire(p)
                    implies rest@ == dec_str(p as nat) + "}"@ by {
                    assert(line@ == pid_pfx + rest@);
                    assert(line@ == pid_pfx + (dec_str(p as nat) + "}"@));
                    assert forall|k: int| 0 <= k < rest@.len() implies rest@[k] == (dec_str(
                        p as nat,
                    ) + "}"@)[k] by {
                        assert(rest@[k] == line@[pid_pfx.len() + k]);
                        assert((dec_str(p as nat) + "}"@)[k] == line@[pid_pfx.len() + k]);
                    }
                    assert(rest@ =~= dec_str(p as nat) + "}"@);
                }
            }
            let rlen = rest.as_str().unicode_len();
            if rlen < 1 || !crate::utils::ends_with(rest.as_str(), "}") {
                proof {
                    assert forall|p: int| 0 <= p <= i32::MAX implies line@ != resp_pid_wire(p) by {
                        if line@ == resp_pid_wire(p) {
                            lemma_dec_str_digits(p as nat);
                            assert(rest@ == dec_str(p as nat) + "}"@);
                            assert(rest@.subrange(rest@.len() - 1, rest@.len() as int) =~= "}"@);
                        }
                    }
                }
                None
            } else {
                let middle = rest.as_str().substring_char(0, rlen - 1);
                proof {
                    assert forall|p: int| 0 <= p <= i32::MAX && line@ == resp_pid_wire(p)
                        implies middle@ == dec_str(p as nat) by {
                        assert(rest@ == dec_str(p as nat) + "}"@);
                        assert(middle@ =~= dec_str(p as nat));
                    }
                    assert(middle@.subrange(0, middle@.len() as int) =~= middle@);
                }
                match crate::utils::parse_digits(middle, 0) {
                    None => {
                        proof {
                            assert forall|p: int| 0 <= p <= i32::MAX implies line@
                                != resp_pid_wire(p) by {
                                if line@ == resp_pid_wire(p) {
                                    lemma_dec_str_digits(p as nat);
                                    lemma_dec_value_of_dec_str(p as nat);
                                }
                            }
                        }
                        None
                    },
                    Some(v) => {
                        let canonical = fmt_u64(v as u64);
                        if v > 0x7fff_ffff || !crate::utils::str_eq(
                            canonical.as_str(),
                            middle,
                        ) {
                            proof {
                                assert forall|p: int| 0 <= p <= i32::MAX implies line@
                                    != resp_pid_wire(p) by {
                                    if line@ == resp_pid_wire(p) {
                                        lemma_dec_str_digits(p as nat);
                                        lemma_dec_value_of_dec_str(p as nat);
                                    }
                                }
                            }
                            None
                        } else {
                            let pid = ZonePid(v as i32);
                            proof {
                                assert(canonical@ == dec_str(v as nat));
                                assert(middle@ == dec_str(v as nat));
                                assert(rest@ =~= middle@ + "}"@) by {
                                    assert(rest@.subrange(rest@.len() - 1, rest@.len() as int)
                                        == "}"@);
                                    assert(middle@ == rest@.subrange(0, rest@.len() - 1));
                                }
                                assert(line@ =~= pid_pfx + (middle@ + "}"@));
                                assert(line@ =~= resp_pid_wire(v as int));
                            }
                            Some(Response::ZoneProcess(pid))
                        }
                    },
                }
            }
        },
        None => {
            proof {
                assert forall|p: int| 0 <= p <= i32::MAX implies line@ != resp_pid_wire(p) by {
                    if line@ == resp_pid_wire(p) {
                        assert(line@ == pid_pfx + (dec_str(p as nat) + "}"@));
                    }
                }
            }
            match crate::utils::strip_prefix("{\"Error\":\"", line) {
                None => {
                    proof {
                        assert forall|m: Seq<char>| line@ != resp_err_wire(m) by {
                            if line@ == resp_err_wire(m) {
                                assert(line@ == err_pfx + (escape_spec(m) + "\"}"@));
                                assert(line@ == err_pfx + ((escape_spec(m) + "\"}"@)));
                            }
                        }
                    }
                    None
                },
                Some(_rest) => {
                    let ghost tail = line@.subrange(err_pfx.len() as int, line@.len() as int);
                    proof {
                        assert forall|m: Seq<char>| line@ == resp_err_wire(m) implies tail
                            == escape_spec(m) + seq!['"'] + seq!['}'] by {
                            assert(line@ == err_pfx + (escape_spec(m) + "\"}"@));
                            assert forall|k: int| 0 <= k < tail.len() implies tail[k]
                                == (escape_spec(m) + seq!['"'] + seq!['}'])[k] by {
                                assert(tail[k] == line@[err_pfx.len() + k]);
                                assert("\"}"@ =~= seq!['"'] + seq!['}']);
                                assert((escape_spec(m) + "\"}"@)[k] == line@[err_pfx.len() + k]);
                            }
                            assert(tail =~= escape_spec(m) + seq!['"'] + seq!['}']);
                        }
                    }
                    match unescape_from(line, 10) {
                        None => {
                            proof {
                                assert forall|m: Seq<char>| line@ != resp_err_wire(m) by {
                                    if line@ == resp_err_wire(m) {
                                        lemma_unescape_of_escaped(m, seq!['}']);
                                        assert(escape_spec(m) + seq!['"'] + seq!['}']
                                            =~= escape_spec(m) + (seq!['"'] + seq!['}']));
                                        assert(tail == escape_spec(m) + seq!['"'] + seq!['}']);
                                    }
                                }
                            }
                            None
                        },
                        Some((content, j)) => {
                            if len < 2 || j != len - 2 || line.get_char(j + 1) != '}' {
                                proof {
                                    assert forall|m: Seq<char>| line@ != resp_err_wire(m) by {
                                        if line@ == resp_err_wire(m) {
                                            lemma_unescape_of_escaped(m, seq!['}']);
                                            assert(escape_spec(m) + seq!['"'] + seq!['}']
                                                =~= escape_spec(m) + (seq!['"'] + seq!['}']));
                                            assert(tail == escape_spec(m) + seq!['"'] + seq!['}']);
                                            assert(content@ == m);
                                            assert(j - 10 == escape_spec(m).len());
                                            assert(tail[j - 10 + 1] == '}');
                                            assert(line@[j + 1] == tail[j - 10 + 1]);
                                            assert(line@.len() == 10 + tail.len());
                                        }
                                    }
                                }
                                None
                            } else {
                                proof {
                                    lemma_unescape_sound(tail);
                                    let mj = unescape_prefix(tail).unwrap();
                                    assert(mj.0 == content@ && mj.1 == j - 10);
                                    assert(tail.subrange(0, j - 10) == escape_spec(content@));
                                    assert(tail[j - 10] == '"');
                                    assert(line@[j as int] == tail[j - 10]);
                                    assert(line@[j + 1] == '}');
                                    assert(line@ =~= err_pfx + escape_spec(content@) + "\"}"@) by {
                                        assert("\"}"@ =~= seq!['"'] + seq!['}']);
                                        assert(forall|k: int|
                                            0 <= k < j - 10 ==> tail[k] == escape_spec(
                                                content@,
                                            )[k]);
                                        assert(forall|k: int|
                                            10 <= k < line@.len() ==> line@[k] == tail[k - 10]);
                                    }
                                }
                                Some(Response::Error(content))
                            }
                        },
                    }
                },
            }
        },
    }
}

/// The protocol is unambiguous for requests: one wire record names exactly
/// one zone.
pub proof fn lemma_req_wire_injective(a: Seq<char>, b: Seq<char>)
    requires
        req_wire(a) == req_wire(b),
    ensures
        a == b,
{
    let p = "{\"ZoneProcess\":\""@;
    assert(req_wire(a).len() == p.len() + a.len() + "\"}"@.len());
    assert(req_wire(b).len() == p.len() + b.len() + "\"}"@.len());
    assert forall|i: int| 0 <= i < a.len() implies a[i] == b[i] by {
        assert(req_wire(a)[p.len() + i] == a[i]);
        assert(req_wire(b)[p.len() + i] == b[i]);
    }
    assert(a =~= b);
}

/// The protocol is unambiguous for process-id responses: one wire record
/// carries exactly one pid.
pub proof fn lemma_resp_pid_wire_injective(a: int, b: int)
    requires
        0 <= a,
        0 <= b,
        resp_pid_wire(a) == resp_pid_wire(b),
    ensures
        a == b,
{
    let p = "{\"ZoneProcess\":"@;
    let da = dec_str(a as nat);
    let db = dec_str(b as nat);
    assert(resp_pid_wire(a).len() == p.len() + da.len() + "}"@.len());
    assert(resp_pid_wire(b).len() == p.len() + db.len() + "}"@.len());
    assert forall|i: int| 0 <= i < da.len() implies da[i] == db[i] by {
        assert(resp_pid_wire(a)[p.len() + i] == da[i]);
        assert(resp_pid_wire(b)[p.len() + i] == db[i]);
    }
    assert(da =~= db);
    lemma_dec_value_of_dec_str(a as nat);
    lemma_dec_value_of_dec_str(b as nat);
}

/// The protocol is unambiguous for error responses: one wire record decodes
/// to exactly one message.
pub proof fn lemma_resp_err_wire_injective(a: Seq<char>, b: Seq<char>)
    requires
        resp_err_wire(a) == resp_err_wire(b),
    ensures
        a == b,
{
    reveal_strlit("\"}");
    let p = "{\"Error\":\""@;
    let ta = escape_spec(a) + seq!['"'] + seq!['}'];
    let tb = escape_spec(b) + seq!['"'] + seq!['}'];
    assert(resp_err_wire(a).len() == p.len() + escape_spec(a).len() + "\"}"@.len());
    assert(resp_err_wire(b).len() == p.len() + escape_spec(b).len() + "\"}"@.len());
    assert forall|i: int| 0 <= i < ta.len() implies ta[i] == tb[i] by {
        assert("\"}"@ =~= seq!['"'] + seq!['}']);
        assert(resp_err_wire(a)[p.len() + i] == ta[i]);
        assert(resp_err_wire(b)[p.len() + i] == tb[i]);
    }
    assert(ta =~= tb);
    lemma_unescape_of_escaped(a, seq!['}']);
    lemma_unescape_of_escaped(b, seq!['}']);
    assert(escape_spec(a) + seq!['"'] + seq!['}'] =~= escape_spec(a) + (seq!['"'] + seq!['}']));
}

/// A wire record framed for the socket: the payload with the single
/// terminating newline that delimits messages.
pub fn frame_line(payload: &str) -> (r: String)
    ensures
        r@ == payload@ + "\n"@,
{
    let mut out = payload.to_owned();
    out.append("\n");
    out
}

/// Whether a forked anchor's first message is the expected readiness signal.
pub fn is_ready_msg(data: &str) -> (r: bool)
    ensures
        r == (data@ == "ready\n"@),
{
    crate::utils::str_eq(data, "ready\n")
}

} // verus!
