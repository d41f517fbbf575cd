use vstd::prelude::*;

verus! {

/// `s` without its first character where that is the name separator `/`.
pub open spec fn strip_separator(s: Seq<char>) -> Seq<char> {
    if s.len() > 0 && s[0] == '/' {
        s.drop_first()
    } else {
        s
    }
}

/// The part of `s` before its first `/`, or all of `s`.
pub open spec fn before_slash(s: Seq<char>) -> Seq<char>
    decreases s.len(),
{
    if s.len() == 0 || s[0] == '/' {
        Seq::empty()
    } else {
        seq![s[0]] + before_slash(s.drop_first())
    }
}

/// The part of `s` after its first `/`, if it has one.
pub open spec fn after_slash(s: Seq<char>) -> Option<Seq<char>>
    decreases s.len(),
{
    if s.len() == 0 {
        None
    } else if s[0] == '/' {
        Some(s.drop_first())
    } else {
        after_slash(s.drop_first())
    }
}

pub open spec fn is_digit(c: char) -> bool {
    '0' <= c && c <= '9'
}

/// Value of a string of decimal digits.
pub open spec fn digits_value(s: Seq<char>) -> nat
    decreases s.len(),
{
    if s.len() == 0 {
        0
    } else {
        digits_value(s.drop_last()) * 10 + ((s.last() as u32) - ('0' as u32)) as nat
    }
}

/// A decimal `u16` in the form std's integer parsing accepts: an optional
/// `+`, then one or more digits, with a value that fits.
pub open spec fn decimal_u16(s: Seq<char>) -> Option<u16> {
    let d = if s.len() > 0 && s[0] == '+' { s.drop_first() } else { s };
    if d.len() > 0 && (forall|i: int| 0 <= i < d.len() ==> is_digit(#[trigger] d[i]))
        && digits_value(d) <= 65535 {
        Some(digits_value(d) as u16)
    } else {
        None
    }
}

/// Relies on std's `str::parse::<u16>`: an optional `+` followed by decimal
/// digits whose value fits in `u16`, and nothing else, parses.
#[verifier::external_body]
pub(crate) fn parse_port(s: &str) -> (r: Option<u16>)
    ensures
        r == decimal_u16(s@),
{
    s.parse::<u16>().ok()
}

/// Removes one leading name separator (`/`), as the engine prefixes
/// container names with it.
pub fn strip_name_separator(name: &str) -> (r: String)
    ensures
        r@ == strip_separator(name@),
{
    let n = name.unicode_len();
    if n > 0 && name.get_char(0) == '/' {
        String::from_str(name.substring_char(1, n))
    } else {
        assert(name@.subrange(0, n as int) =~= name@);
        String::from_str(name.substring_char(0, n))
    }
}

/// Index of the first `/` in `s`, or its length.
fn slash_index(s: &str) -> (k: usize)
    ensures
        k <= s@.len(),
        s@.subrange(0, k as int) == before_slash(s@),
        k < s@.len() ==> after_slash(s@) == Some(s@.subrange(k + 1, s@.len() as int)),
        k == s@.len() ==> after_slash(s@) is None,
{
    let n = s.unicode_len();
    let mut k: usize = 0;
    assert(s@.subrange(0, n as int) =~= s@);
    assert(Seq::<char>::empty() + before_slash(s@) =~= before_slash(s@));
    assert(s@.subrange(0, 0) =~= Seq::<char>::empty());
    while k < n && s.get_char(k) != '/'
        invariant
            k <= n,
            n == s@.len(),
            before_slash(s@) == s@.subrange(0, k as int) + before_slash(s@.subrange(k as int, n as int)),
            after_slash(s@) == after_slash(s@.subrange(k as int, n as int)),
        decreases n - k,
    {
        let ghost rest = s@.subrange(k as int, n as int);
        assert(rest.drop_first() =~= s@.subrange(k + 1, n as int));
        assert(s@.subrange(0, k + 1) =~= s@.subrange(0, k as int) + seq![rest[0]]);
        k = k + 1;
    }
    let ghost rest = s@.subrange(k as int, n as int);
    if k < n {
        assert(rest.drop_first() =~= s@.subrange(k + 1, n as int));
    }
    assert(s@.subrange(0, k as int) + Seq::<char>::empty() =~= s@.subrange(0, k as int));
    k
}

/// The container port of a port-map key (`"80/tcp"`): the number before
/// the first `/`, or 0 where that is no port number.
pub open spec fn key_port(key: Seq<char>) -> u16 {
    match decimal_u16(before_slash(key)) {
        Some(p) => p,
        None => 0,
    }
}

/// The protocol of a port-map key: the part between the first and second
/// `/`, or `tcp` where the key has no `/`.
pub open spec fn key_protocol(key: Seq<char>) -> Seq<char> {
    match after_slash(key) {
        Some(rest) => before_slash(rest),
        None => "tcp"@,
    }
}

/// Splits an engine port-map key into its port and protocol.
pub fn split_port_key(key: &str) -> (r: (u16, String))
    ensures
        r.0 == key_port(key@),
        r.1@ == key_protocol(key@),
{
    let n = key.unicode_len();
    let k = slash_index(key);
    let port = match parse_port(key.substring_char(0, k)) {
        Some(p) => p,
        None => 0,
    };
    if k < n {
        let rest = key.substring_char(k + 1, n);
        let m = slash_index(rest);
        (port, String::from_str(rest.substring_char(0, m)))
    } else {
        (port, String::from_str("tcp"))
    }
}

/// The port-map key for a requested container port: kept as given when it
/// names a protocol, else completed with `/tcp`.
pub open spec fn normalized_port_key(port: Seq<char>) -> Seq<char> {
    if after_slash(port) is Some { port } else { port + "/tcp"@ }
}

/// Completes a container port with the default protocol where it has none.
pub fn port_key(container_port: &str) -> (r: String)
    ensures
        r@ == normalized_port_key(container_port@),
{
    let k = slash_index(container_port);
    if k < container_port.unicode_len() {
        String::from_str(container_port)
    } else {
        String::from_str(container_port).concat("/tcp")
    }
}

} // verus!
