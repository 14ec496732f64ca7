//! Wire-level pieces of the control connection: reply framing, the feature
//! block, splitting a command line, and the address of PORT and PASV.

use vstd::prelude::*;

use crate::text::{
    dec, decimal, number_of, parse_u64, push_decimal, split_on, split_str, trim, trim_end,
    trim_end_str, trim_str,
};

verus! {

/// A numeric reply with its text.
#[derive(Clone, Debug)]
pub struct Reply {
    pub code: u16,
    pub text: String,
}

/// `"<code> <text>\r\n"`.
pub open spec fn framed(code: u16, text: Seq<char>) -> Seq<char> {
    dec(code as nat) + seq![' '] + text + seq!['\r', '\n']
}

/// The multi-line FEAT reply: a banner, one feature per line without a
/// code, and a closing banner.
pub open spec fn features_text() -> Seq<char> {
    framed(211, "Features"@) + "UTF8"@ + seq!['\r', '\n'] + "MLST type*;size*;modify*;perm*;"@
        + seq!['\r', '\n'] + "PASV"@ + seq!['\r', '\n'] + "PORT"@ + seq!['\r', '\n'] + framed(
        211,
        "End"@,
    )
}

impl Reply {
    /// A reply with `code` and `text`.
    pub fn new(code: u16, text: &str) -> (r: Reply)
        ensures
            r.code == code,
            r.text@ == text@,
    {
        Reply { code, text: text.to_owned() }
    }

    /// The reply as it is written to the control connection.
    pub fn frame(&self) -> (r: String)
        ensures
            r@ == framed(self.code, self.text@),
    {
        let mut r = String::new();
        push_decimal(&mut r, self.code as u64);
        proof {
            reveal_strlit(" ");
            reveal_strlit("\r\n");
        }
        r.append(" ");
        r.append(self.text.as_str());
        r.append("\r\n");
        r
    }
}

/// The FEAT reply as it is written to the control connection.
pub fn features() -> (r: String)
    ensures
        r@ == features_text(),
{
    let mut r = Reply::new(211, "Features").frame();
    proof {
        reveal_strlit("\r\n");
    }
    r.append("UTF8");
    r.append("\r\n");
    r.append("MLST type*;size*;modify*;perm*;");
    r.append("\r\n");
    r.append("PASV");
    r.append("\r\n");
    r.append("PORT");
    r.append("\r\n");
    let end = Reply::new(211, "End").frame();
    r.append(end.as_str());
    r
}

/// `verb` and `arg` are what a command line `t` (already trimmed at its end)
/// splits into at its first space; with no space, `t` is the verb and the
/// argument is empty.
pub open spec fn splits_into(t: Seq<char>, verb: Seq<char>, arg: Seq<char>) -> bool {
    &&& !verb.contains(' ')
    &&& (t == verb + seq![' '] + arg || (t == verb && arg.len() == 0))
}

/// Splits a received line into a verb and its argument. A line that is
/// empty once its trailing white space is removed gives `None`.
pub fn split_line(line: &str) -> (r: Option<(String, String)>)
    ensures
        match r {
            None => trim_end(line@).len() == 0,
            Some((verb, arg)) => trim_end(line@).len() > 0 && splits_into(
                trim_end(line@),
                verb@,
                arg@,
            ),
        },
{
    let t = trim_end_str(line);
    let n = t.unicode_len();
    if n == 0 {
        return None;
    }
    let mut k: usize = 0;
    while k < n && t.get_char(k) != ' '
        invariant
            n == t@.len(),
            k <= n,
            forall|j: int| 0 <= j < k ==> t@[j] != ' ',
        decreases n - k,
    {
        k = k + 1;
    }
    let verb = t.substring_char(0, k).to_owned();
    assert(!verb@.contains(' ')) by {
        assert forall|j: int| 0 <= j < verb@.len() implies #[trigger] verb@[j] != ' ' by {
            assert(verb@[j] == t@[j]);
        }
    }
    if k == n {
        assert(verb@ =~= t@);
        Some((verb, String::new()))
    } else {
        let arg = t.substring_char(k + 1, n).to_owned();
        assert(t@ =~= verb@ + seq![' '] + arg@);
        Some((verb, arg))
    }
}

/// An IPv4 address and a port.
#[derive(Clone, Copy, Debug, PartialEq, Eq, Structural)]
pub struct PeerAddr {
    pub h1: u8,
    pub h2: u8,
    pub h3: u8,
    pub h4: u8,
    pub port: u16,
}

/// A comma-separated field of PORT: a decimal number up to 255, white
/// space around it allowed.
pub open spec fn octet_of(field: Seq<char>) -> Option<u8> {
    match number_of(trim(field)) {
        Some(v) => if v <= 255 { Some(v as u8) } else { None },
        None => None,
    }
}

/// The address that a PORT argument `h1,h2,h3,h4,p1,p2` names.
pub open spec fn port_of(arg: Seq<char>) -> Option<PeerAddr> {
    let f = split_on(arg, ',');
    if f.len() == 6 && octet_of(f[0]) is Some && octet_of(f[1]) is Some && octet_of(f[2]) is Some
        && octet_of(f[3]) is Some && octet_of(f[4]) is Some && octet_of(f[5]) is Some {
        Some(
            PeerAddr {
                h1: octet_of(f[0])->0,
                h2: octet_of(f[1])->0,
                h3: octet_of(f[2])->0,
                h4: octet_of(f[3])->0,
                port: (octet_of(f[4])->0 as nat * 256 + octet_of(f[5])->0 as nat) as u16,
            },
        )
    } else {
        None
    }
}

fn parse_octet(field: &str) -> (r: Option<u8>)
    ensures
        r == octet_of(field@),
{
    let t = trim_str(field);
    match parse_u64(t) {
        Some(v) => if v <= 255 {
            Some(v as u8)
        } else {
            None
        },
        None => None,
    }
}

/// The address that a PORT argument names, if it is well formed.
pub fn parse_port(arg: &str) -> (r: Option<PeerAddr>)
    ensures
        r == port_of(arg@),
{
    let f = split_str(arg, ',');
    if f.len() != 6 {
        return None;
    }
    proof {
        assert(f@[0]@ == split_on(arg@, ',')[0]);
        assert(f@[1]@ == split_on(arg@, ',')[1]);
        assert(f@[2]@ == split_on(arg@, ',')[2]);
        assert(f@[3]@ == split_on(arg@, ',')[3]);
        assert(f@[4]@ == split_on(arg@, ',')[4]);
        assert(f@[5]@ == split_on(arg@, ',')[5]);
    }
    let h1 = parse_octet(f[0].as_str());
    let h2 = parse_octet(f[1].as_str());
    let h3 = parse_octet(f[2].as_str());
    let h4 = parse_octet(f[3].as_str());
    let p1 = parse_octet(f[4].as_str());
    let p2 = parse_octet(f[5].as_str());
    match (h1, h2, h3, h4, p1, p2) {
        (Some(a), Some(b), Some(c), Some(d), Some(x), Some(y)) => {
            Some(PeerAddr { h1: a, h2: b, h3: c, h4: d, port: x as u16 * 256 + y as u16 })
        },
        _ => None,
    }
}

/// The text of the PASV reply for a listener on `h1.h2.h3.h4:port`.
pub open spec fn passive_text(h1: u8, h2: u8, h3: u8, h4: u8, port: u16) -> Seq<char> {
    "Entering Passive Mode ("@ + dec(h1 as nat) + seq![','] + dec(h2 as nat) + seq![','] + dec(
        h3 as nat,
    ) + seq![','] + dec(h4 as nat) + seq![','] + dec((port / 256) as nat) + seq![','] + dec(
        (port % 256) as nat,
    ) + seq![')']
}

/// The PASV reply for a listener on `h1.h2.h3.h4:port`.
pub fn passive_reply(h1: u8, h2: u8, h3: u8, h4: u8, port: u16) -> (r: Reply)
    ensures
        r.code == 227,
        r.text@ == passive_text(h1, h2, h3, h4, port),
{
    proof {
        reveal_strlit(",");
        reveal_strlit(")");
    }
    let mut t = "Entering Passive Mode (".to_owned();
    push_decimal(&mut t, h1 as u64);
    t.append(",");
    push_decimal(&mut t, h2 as u64);
    t.append(",");
    push_decimal(&mut t, h3 as u64);
    t.append(",");
    push_decimal(&mut t, h4 as u64);
    t.append(",");
    push_decimal(&mut t, (port / 256) as u64);
    t.append(",");
    push_decimal(&mut t, (port % 256) as u64);
    t.append(")");
    assert(t@ =~= passive_text(h1, h2, h3, h4, port));
    Reply { code: 227, text: t }
}

/// The reply to SIZE once the file has been looked up.
pub open spec fn size_text(size: u64) -> Seq<char> {
    dec(size as nat)
}

/// The decimal text of a size.
pub fn size_string(size: u64) -> (r: String)
    ensures
        r@ == size_text(size),
{
    decimal(size)
}

} // verus!
