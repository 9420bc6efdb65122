use vstd::prelude::*;
use crate::runtime::{texts, ProcessCommand};
use crate::text::{chars_of, decimal, decimal_text, digit_char, owned};

verus! {

broadcast use vstd::string::group_string_axioms;

/// The first port tried when none is configured.
pub const DEFAULT_PORT: u16 = 3080;

/// How many ports after the first one are tried.
pub const PORT_SEARCH_SPAN: u16 = 100;

/// Whether `c` is an ASCII digit.
pub open spec fn is_digit(c: char) -> bool {
    '0' <= c <= '9'
}

/// The value of an ASCII digit.
pub open spec fn digit_value(c: char) -> int {
    c as int - '0' as int
}

/// The value of a run of ASCII digits.
pub open spec fn digits_value(s: Seq<char>) -> int
    decreases s.len(),
{
    if s.len() == 0 {
        0
    } else {
        digits_value(s.drop_last()) * 10 + digit_value(s.last())
    }
}

/// The digits of a numeral, after an optional leading `+`.
pub open spec fn numeral_digits(s: Seq<char>) -> Seq<char> {
    if s.len() > 0 && s[0] == '+' {
        s.drop_first()
    } else {
        s
    }
}

/// The port a text names, as `u16::from_str` reads it: an optional `+`,
/// then one or more ASCII digits whose value fits in 16 bits.
pub open spec fn parsed_port(s: Seq<char>) -> Option<u16> {
    let d = numeral_digits(s);
    if d.len() > 0 && (forall|i: int| 0 <= i < d.len() ==> is_digit(#[trigger] d[i]))
        && digits_value(d) <= 0xffff {
        Some(digits_value(d) as u16)
    } else {
        None
    }
}

proof fn lemma_digits_value_nonneg(s: Seq<char>)
    requires
        forall|i: int| 0 <= i < s.len() ==> is_digit(#[trigger] s[i]),
    ensures
        digits_value(s) >= 0,
    decreases s.len(),
{
    if s.len() > 0 {
        lemma_digits_value_nonneg(s.drop_last());
    }
}

proof fn lemma_digits_value_grows(s: Seq<char>, k: int)
    requires
        0 <= k <= s.len(),
        forall|i: int| 0 <= i < s.len() ==> is_digit(#[trigger] s[i]),
    ensures
        digits_value(s) >= digits_value(s.take(k)),
    decreases s.len(),
{
    if k == s.len() {
        assert(s.take(k) =~= s);
    } else {
        lemma_digits_value_grows(s.drop_last(), k);
        assert(s.drop_last().take(k) =~= s.take(k));
        lemma_digits_value_nonneg(s.drop_last());
    }
}

/// Reads a port number as `u16::from_str` does.
pub fn parse_port(text: &str) -> (r: Option<u16>)
    ensures
        r == parsed_port(text@),
{
    let v = chars_of(text);
    let mut i: usize = 0;
    if v.len() > 0 && v[0] == '+' {
        i = 1;
    }
    let ghost d = numeral_digits(text@);
    assert(d =~= v@.skip(i as int));
    if i == v.len() {
        return None;
    }
    let mut value: u32 = 0;
    let start = i;
    while i < v.len()
        invariant
            v@ == text@,
            start <= i <= v.len(),
            d == v@.skip(start as int),
            d == numeral_digits(text@),
            forall|j: int| 0 <= j < i - start ==> is_digit(#[trigger] d[j]),
            value == digits_value(d.take(i - start)),
            value <= 0xffff,
        decreases v.len() - i,
    {
        let c = v[i];
        assert(d[i - start] == c);
        if !('0' <= c && c <= '9') {
            assert(!is_digit(d[i - start]));
            return None;
        }
        let dv: u32 = if c == '0' { 0 } else if c == '1' { 1 } else if c == '2' { 2 } else if c
            == '3' { 3 } else if c == '4' { 4 } else if c == '5' { 5 } else if c == '6' { 6 } else if c
            == '7' { 7 } else if c == '8' { 8 } else { 9 };
        assert(dv == digit_value(c));
        assert(d.take(i - start + 1).drop_last() =~= d.take(i - start));
        assert(d.take(i - start + 1).last() == c);
        let next = value * 10 + dv;
        assert(digits_value(d.take(i - start + 1)) == value * 10 + dv);
        if next > 0xffff {
            proof {
                let k = i - start + 1;
                if forall|j: int| 0 <= j < d.len() ==> is_digit(#[trigger] d[j]) {
                    lemma_digits_value_grows(d, k);
                }
            }
            return None;
        }
        value = next;
        i = i + 1;
    }
    assert(d.take(i - start) =~= d);
    Some(value as u16)
}

proof fn lemma_decimal_digits(n: nat)
    ensures
        decimal(n).len() > 0,
        forall|i: int| 0 <= i < decimal(n).len() ==> is_digit(#[trigger] decimal(n)[i]),
        decimal(n)[0] != '+',
        digits_value(decimal(n)) == n,
    decreases n,
{
    if n < 10 {
        assert(digit_value(digit_char(n)) == n);
        assert(decimal(n).drop_last() =~= Seq::<char>::empty());
        assert(digits_value(Seq::<char>::empty()) == 0);
        assert(decimal(n).last() == digit_char(n));
        assert(digits_value(decimal(n)) == digits_value(decimal(n).drop_last()) * 10
            + digit_value(decimal(n).last()));
    } else {
        lemma_decimal_digits(n / 10);
        let s = decimal(n / 10);
        assert(decimal(n).drop_last() =~= s);
        assert(digit_value(digit_char(n % 10)) == n % 10);
        assert(decimal(n)[0] == s[0]);
        assert(decimal(n).last() == digit_char(n % 10));
        assert(digits_value(decimal(n)) == digits_value(s) * 10 + digit_value(digit_char(n % 10)));
        assert(n == (n / 10) * 10 + n % 10);
    }
}

/// Round-trip law: the decimal numeral of a port reads back as that port.
pub proof fn law_port_numeral_round_trip(port: u16)
    ensures
        parsed_port(decimal(port as nat)) == Some(port),
{
    lemma_decimal_digits(port as nat);
}

/// Why a configured port is refused when it is not a number.
pub open spec fn invalid_port_message() -> Seq<char> {
    "DSH_DESKTOP_PORT 不是有效端口"@
}

/// Why a port cannot be used.
pub open spec fn port_unavailable_text(port: u16) -> Seq<char> {
    "端口 "@ + decimal(port as nat) + " 不可用"@
}

/// Why a port cannot be used.
pub fn port_unavailable_message(port: u16) -> (r: String)
    ensures
        r@ == port_unavailable_text(port),
{
    let mut s = owned("端口 ");
    let p = decimal_text(port as u64);
    s.append(p.as_str());
    s.append(" 不可用");
    s
}

/// The port that `DSH_DESKTOP_PORT` asks for: refused when it is not a
/// number, refused as unavailable when it is 0; otherwise the port, which
/// the shell then tries to bind.
pub fn requested_port(raw: &str) -> (r: Result<u16, String>)
    ensures
        match parsed_port(raw@) {
            None => r matches Err(e) && e@ == invalid_port_message(),
            Some(p) => if p == 0 {
                r matches Err(e) && e@ == port_unavailable_text(0)
            } else {
                r == Ok::<u16, String>(p)
            },
        },
{
    match parse_port(raw) {
        None => Err(owned("DSH_DESKTOP_PORT 不是有效端口")),
        Some(p) => if p == 0 {
            Err(port_unavailable_message(0))
        } else {
            Ok(p)
        },
    }
}

/// The ports tried when none is configured, one after another: the first
/// is `DEFAULT_PORT`, each next one is one above the last, up to
/// `DEFAULT_PORT + PORT_SEARCH_SPAN`; after that there is none. The shell
/// takes the first of them that it can bind.
pub fn next_port_candidate(previous: Option<u16>) -> (r: Option<u16>)
    ensures
        match previous {
            None => r == Some(DEFAULT_PORT),
            Some(p) => if DEFAULT_PORT <= p < DEFAULT_PORT + PORT_SEARCH_SPAN {
                r == Some((p + 1) as u16)
            } else {
                r is None
            },
        },
{
    match previous {
        None => Some(DEFAULT_PORT),
        Some(p) => if DEFAULT_PORT <= p && p < DEFAULT_PORT + PORT_SEARCH_SPAN {
            Some(p + 1)
        } else {
            None
        },
    }
}

/// Why no port could be found.
pub fn no_port_message() -> (r: String)
    ensures
        r@ == "没有可用的本地端口"@,
{
    owned("没有可用的本地端口")
}

/// The command that ends a process and its children: `taskkill` on
/// Windows; nothing elsewhere, where the shell stops the process alone.
pub fn terminate_process_tree(pid: u32, windows: bool) -> (r: Option<ProcessCommand>)
    ensures
        windows ==> (r matches Some(c) && c.program@ == "taskkill.exe"@ && texts(c.args@) == seq![
            "/PID"@,
            decimal(pid as nat),
            "/T"@,
            "/F"@,
        ]),
        !windows ==> r is None,
{
    if !windows {
        return None;
    }
    let mut args: Vec<String> = Vec::new();
    args.push(owned("/PID"));
    args.push(decimal_text(pid as u64));
    args.push(owned("/T"));
    args.push(owned("/F"));
    assert(texts(args@) =~= seq!["/PID"@, decimal(pid as nat), "/T"@, "/F"@]);
    Some(ProcessCommand { program: owned("taskkill.exe"), args })
}

/// The arguments with which Corepack installs pnpm into a directory.
pub fn corepack_enable_args(install_dir: &str) -> (r: Vec<String>)
    ensures
        texts(r@) == seq!["enable"@, "--install-directory"@, install_dir@],
{
    let mut v: Vec<String> = Vec::new();
    v.push(owned("enable"));
    v.push(owned("--install-directory"));
    v.push(owned(install_dir));
    assert(texts(v@) =~= seq!["enable"@, "--install-directory"@, install_dir@]);
    v
}

} // verus!
