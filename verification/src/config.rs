use vstd::prelude::*;

verus! {

/// Default port the server binds to when the environment names none, or
/// names something that is not a port number.
pub const DEFAULT_PORT: u16 = 6656;

/// Server configuration, read once at startup and immutable afterwards,
/// shared read-only by all sessions.
#[derive(Clone, Debug)]
pub struct Config {
    /// TCP port the streaming server binds to on the loopback interface.
    pub mcp_port: u16,
}

/// Whether `c` is an ASCII decimal digit.
pub open spec fn is_ascii_digit_char(c: char) -> bool {
    48 <= c as u32 && c as u32 <= 57
}

/// The value of an ASCII decimal digit.
pub open spec fn digit_val(c: char) -> nat
    recommends
        is_ascii_digit_char(c),
{
    (c as u32 - 48) as nat
}

/// Whether every character of `s` is an ASCII decimal digit.
pub open spec fn all_digits(s: Seq<char>) -> bool {
    forall|i: int| 0 <= i < s.len() ==> is_ascii_digit_char(#[trigger] s[i])
}

/// The number a string of decimal digits denotes, most significant first.
pub open spec fn digits_value(s: Seq<char>) -> nat
    decreases s.len(),
{
    if s.len() == 0 {
        0
    } else {
        digits_value(s.drop_last()) * 10 + digit_val(s.last())
    }
}

/// The digits of a port text, once an optional leading plus sign is taken
/// off — the sign the standard unsigned decimal grammar allows.
pub open spec fn port_digits(s: Seq<char>) -> Seq<char> {
    if s.len() > 0 && s[0] == '+' {
        s.drop_first()
    } else {
        s
    }
}

/// Whether `s` is a well-formed port: an optional leading plus sign, then at
/// least one ASCII digit and nothing else, denoting a value a port can hold.
pub open spec fn parses_as_port(s: Seq<char>) -> bool {
    &&& port_digits(s).len() > 0
    &&& all_digits(port_digits(s))
    &&& digits_value(port_digits(s)) <= 65535
}

/// The port a configuration text denotes: its value where it is a
/// well-formed port, the default otherwise.
pub open spec fn spec_port_of(s: Seq<char>) -> u16 {
    if parses_as_port(s) {
        digits_value(port_digits(s)) as u16
    } else {
        DEFAULT_PORT
    }
}

/// A digit prefix never denotes more than the whole digit string.
proof fn lemma_digits_value_take_mono(s: Seq<char>, k: int)
    requires
        0 <= k <= s.len(),
    ensures
        digits_value(s.take(k)) <= digits_value(s),
    decreases s.len() - k,
{
    if k < s.len() {
        lemma_digits_value_take_mono(s, k + 1);
        assert(s.take(k + 1).drop_last() =~= s.take(k));
        assert(digits_value(s.take(k + 1)) == digits_value(s.take(k)) * 10 + digit_val(
            s.take(k + 1).last(),
        ));
    } else {
        assert(s.take(k) =~= s);
    }
}

/// Parses a port text as the standard unsigned decimal grammar does.
fn parse_port(s: &str) -> (r: Option<u16>)
    ensures
        r is Some <==> parses_as_port(s@),
        (r matches Some(p) ==> p == digits_value(port_digits(s@))),
{
    let n = s.unicode_len();
    let start: usize = if n > 0 && s.get_char(0) == '+' {
        1
    } else {
        0
    };
    proof {
        if start == 1 {
            assert(port_digits(s@) =~= s@.skip(1));
        } else {
            assert(port_digits(s@) =~= s@);
        }
    }
    let ghost body = port_digits(s@);
    if n == start {
        proof {
            assert(body.len() == 0);
        }
        return None;
    }
    let mut acc: u32 = 0;
    let mut i: usize = start;
    while i < n
        invariant
            n == s@.len(),
            start <= i <= n,
            start <= 1,
            n > start,
            body == port_digits(s@),
            body.len() == n - start,
            forall|j: int| 0 <= j < body.len() ==> body[j] == s@[j + start],
            all_digits(body.take(i - start)),
            acc == digits_value(body.take(i - start)),
            acc <= 65535,
        decreases n - i,
    {
        let c = s.get_char(i);
        let u = c as u32;
        if !(48 <= u && u <= 57) {
            proof {
                assert(!is_ascii_digit_char(body[i - start]));
            }
            return None;
        }
        let d = u - 48;
        let next: u32 = acc * 10 + d;
        proof {
            assert(body.take(i - start + 1).drop_last() =~= body.take(i - start));
            assert(body.take(i - start + 1).last() == body[i - start]);
            assert(digits_value(body.take(i - start + 1)) == digits_value(body.take(i - start))
                * 10 + digit_val(body[i - start]));
        }
        if next > 65535 {
            proof {
                if parses_as_port(s@) {
                    lemma_digits_value_take_mono(body, i - start + 1);
                }
            }
            return None;
        }
        acc = next;
        proof {
            assert forall|j: int| 0 <= j < i - start + 1 implies is_ascii_digit_char(
                #[trigger] body.take(i - start + 1)[j],
            ) by {
                if j < i - start {
                    assert(is_ascii_digit_char(body.take(i - start)[j]));
                }
            }
        }
        i += 1;
    }
    proof {
        assert(body.take(i - start) =~= body);
    }
    Some(acc as u16)
}

impl Config {
    /// Builds a configuration holding the given port.
    pub fn new(mcp_port: u16) -> (c: Config)
        ensures
            c.mcp_port == mcp_port,
    {
        Config { mcp_port }
    }

    /// The configuration denoted by the `MCP_PORT` environment text: the
    /// default port when the variable is absent, otherwise the port its text
    /// denotes, falling back to the default where the text is not a port.
    pub fn from_port_text(v: Option<&str>) -> (c: Config)
        ensures
            v is None ==> c.mcp_port == DEFAULT_PORT,
            (v matches Some(s) ==> c.mcp_port == spec_port_of(s@)),
    {
        match v {
            Option::None => Config { mcp_port: DEFAULT_PORT },
            Some(s) => match parse_port(s) {
                Some(p) => Config { mcp_port: p },
                Option::None => Config { mcp_port: DEFAULT_PORT },
            },
        }
    }
}

} // verus!
