//! Text conversions: absolute URLs, and lists separated by a character.

use vstd::prelude::*;
use vstd::string::StringExecFns;
use crate::text::str_eq;

verus! {

/// The parts of an absolute URL that a link is rebuilt from.
#[derive(Debug, Clone)]
pub struct UrlParts {
    pub scheme: String,
    pub host: String,
    /// The explicit port, if the URL names one.
    pub port: Option<u16>,
    pub path: String,
}

pub open spec fn digit_char(d: nat) -> char
    recommends
        d < 10,
{
    ((d + 48) as u8) as char
}

/// Decimal notation of `n`, without leading zeros.
pub open spec fn decimal(n: nat) -> Seq<char>
    decreases n,
{
    if n < 10 {
        seq![digit_char(n)]
    } else {
        decimal(n / 10).push(digit_char(n % 10))
    }
}

fn digit_str(d: u16) -> (r: &'static str)
    requires
        d < 10,
    ensures
        r@ == seq![digit_char(d as nat)],
{
    proof {
        reveal_strlit("0");
        reveal_strlit("1");
        reveal_strlit("2");
        reveal_strlit("3");
        reveal_strlit("4");
        reveal_strlit("5");
        reveal_strlit("6");
        reveal_strlit("7");
        reveal_strlit("8");
        reveal_strlit("9");
    }
    match d {
        0 => "0",
        1 => "1",
        2 => "2",
        3 => "3",
        4 => "4",
        5 => "5",
        6 => "6",
        7 => "7",
        8 => "8",
        _ => "9",
    }
}

/// Decimal notation of a port number.
pub fn decimal_string(n: u16) -> (r: String)
    ensures
        r@ == decimal(n as nat),
    decreases n,
{
    if n < 10 {
        digit_str(n).to_owned()
    } else {
        let mut s = decimal_string(n / 10);
        s.append(digit_str(n % 10));
        s
    }
}

/// The port a URL reaches: the explicit one, else 443 for `https` and 80 otherwise.
pub open spec fn effective_port(u: UrlParts) -> nat {
    match u.port {
        Some(p) => p as nat,
        None => if u.scheme@ == "https"@ {
            443
        } else {
            80
        },
    }
}

/// `scheme://host[:port]path`, the port written only where it is neither 80 nor 443.
pub open spec fn url_text(u: UrlParts) -> Seq<char> {
    let port = effective_port(u);
    if port == 80 || port == 443 {
        u.scheme@ + "://"@ + u.host@ + u.path@
    } else {
        u.scheme@ + "://"@ + u.host@ + ":"@ + decimal(port) + u.path@
    }
}

/// Writes a URL back as text, leaving out the two standard ports.
pub fn url_to_string(url: UrlParts) -> (r: String)
    ensures
        r@ == url_text(url),
{
    let port: u16 = match url.port {
        Some(p) => p,
        None => if str_eq(url.scheme.as_str(), "https") {
            443
        } else {
            80
        },
    };
    let mut s = url.scheme.clone();
    s.append("://");
    s.append(url.host.as_str());
    if port != 80 && port != 443 {
        s.append(":");
        let digits = decimal_string(port);
        s.append(digits.as_str());
    }
    s.append(url.path.as_str());
    s
}

/// The pieces of `s` between occurrences of `sep`: one more piece than there
/// are separators, empty pieces kept.
pub open spec fn split_on(s: Seq<char>, sep: char) -> Seq<Seq<char>>
    decreases s.len(),
{
    if s.len() == 0 {
        seq![Seq::<char>::empty()]
    } else {
        let init = split_on(s.drop_last(), sep);
        if s.last() == sep {
            init.push(Seq::<char>::empty())
        } else {
            init.update(init.len() - 1, init.last().push(s.last()))
        }
    }
}

proof fn lemma_split_nonempty(s: Seq<char>, sep: char)
    ensures
        split_on(s, sep).len() >= 1,
    decreases s.len(),
{
    if s.len() > 0 {
        lemma_split_nonempty(s.drop_last(), sep);
    }
}

/// Splits `s` at every occurrence of `sep`.
pub fn split_by(s: &str, sep: char) -> (r: Vec<String>)
    ensures
        r@.len() == split_on(s@, sep).len(),
        forall|i: int| 0 <= i < r@.len() ==> #[trigger] r@[i]@ == split_on(s@, sep)[i],
{
    let n = s.unicode_len();
    let mut pieces: Vec<String> = Vec::new();
    let mut start: usize = 0;
    let mut i: usize = 0;
    while i < n
        invariant
            n == s@.len(),
            start <= i <= n,
            split_on(s@.subrange(0, i as int), sep).len() == pieces@.len() + 1,
            forall|j: int|
                0 <= j < pieces@.len() ==> #[trigger] pieces@[j]@ == split_on(
                    s@.subrange(0, i as int),
                    sep,
                )[j],
            split_on(s@.subrange(0, i as int), sep).last() == s@.subrange(start as int, i as int),
        decreases n - i,
    {
        let c = s.get_char(i);
        proof {
            let pre = s@.subrange(0, i + 1);
            assert(pre.drop_last() == s@.subrange(0, i as int));
            assert(pre.last() == c);
            lemma_split_nonempty(s@.subrange(0, i as int), sep);
        }
        if c == sep {
            let piece = s.substring_char(start, i).to_owned();
            pieces.push(piece);
            start = i + 1;
        } else {
            proof {
                assert(s@.subrange(start as int, i + 1) == s@.subrange(start as int, i as int).push(
                    c,
                ));
            }
        }
        i = i + 1;
    }
    let last = s.substring_char(start, n).to_owned();
    pieces.push(last);
    proof {
        assert(s@.subrange(0, n as int) == s@);
    }
    pieces
}

} // verus!
