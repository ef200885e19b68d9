//! IPv4 socket addresses, their textual form and the address allocator.
use vstd::prelude::*;

verus! {

/// The decimal digits of `n`, most significant first, without leading zeros.
pub open spec fn decimal(n: nat) -> Seq<char>
    decreases n,
{
    if n < 10 {
        seq![digit_char(n)]
    } else {
        decimal(n / 10) + seq![digit_char(n % 10)]
    }
}

/// The character of a decimal digit.
pub open spec fn digit_char(d: nat) -> char {
    if d == 0 { '0' }
    else if d == 1 { '1' }
    else if d == 2 { '2' }
    else if d == 3 { '3' }
    else if d == 4 { '4' }
    else if d == 5 { '5' }
    else if d == 6 { '6' }
    else if d == 7 { '7' }
    else if d == 8 { '8' }
    else { '9' }
}

fn digit_str(d: u64) -> (s: &'static str)
    requires
        d < 10,
    ensures
        s@ == seq![digit_char(d as nat)],
{
    if d == 0 {
        proof { reveal_strlit("0"); }
        "0"
    } else if d == 1 {
        proof { reveal_strlit("1"); }
        "1"
    } else if d == 2 {
        proof { reveal_strlit("2"); }
        "2"
    } else if d == 3 {
        proof { reveal_strlit("3"); }
        "3"
    } else if d == 4 {
        proof { reveal_strlit("4"); }
        "4"
    } else if d == 5 {
        proof { reveal_strlit("5"); }
        "5"
    } else if d == 6 {
        proof { reveal_strlit("6"); }
        "6"
    } else if d == 7 {
        proof { reveal_strlit("7"); }
        "7"
    } else if d == 8 {
        proof { reveal_strlit("8"); }
        "8"
    } else {
        proof { reveal_strlit("9"); }
        "9"
    }
}

/// Writes `n` in decimal, as `Display` does for unsigned integers.
pub fn decimal_string(n: u64) -> (s: String)
    ensures
        s@ == decimal(n as nat),
    decreases n,
{
    if n < 10 {
        String::from_str(digit_str(n))
    } else {
        let mut s = decimal_string(n / 10);
        s.append(digit_str(n % 10));
        s
    }
}


/// An IPv4 address, by its four octets, most significant first.
#[derive(Clone, Copy, Debug, PartialEq, Eq, Hash, Structural)]
pub struct Ipv4Addr {
    pub a: u8,
    pub b: u8,
    pub c: u8,
    pub d: u8,
}

/// An IPv4 address together with a port.
#[derive(Clone, Copy, Debug, PartialEq, Eq, Hash, Structural)]
pub struct SocketAddrV4 {
    pub ip: Ipv4Addr,
    pub port: u16,
}

impl Ipv4Addr {
    pub fn new(a: u8, b: u8, c: u8, d: u8) -> (r: Ipv4Addr)
        ensures
            r == (Ipv4Addr { a, b, c, d }),
    {
        Ipv4Addr { a, b, c, d }
    }
}

impl SocketAddrV4 {
    pub fn new(ip: Ipv4Addr, port: u16) -> (r: SocketAddrV4)
        ensures
            r == (SocketAddrV4 { ip, port }),
    {
        SocketAddrV4 { ip, port }
    }
}

/// The dotted-quad text of an address, such as `10.0.0.1`.
pub open spec fn ipv4_text(ip: Ipv4Addr) -> Seq<char> {
    decimal(ip.a as nat) + seq!['.'] + decimal(ip.b as nat) + seq!['.'] + decimal(ip.c as nat)
        + seq!['.'] + decimal(ip.d as nat)
}

/// The text of a socket address, such as `10.0.0.1:8080`.
pub open spec fn socket_text(addr: SocketAddrV4) -> Seq<char> {
    ipv4_text(addr.ip) + seq![':'] + decimal(addr.port as nat)
}

/// Writes an address in dotted-quad form, as `Display` does for IPv4 addresses.
pub fn ipv4_to_string(ip: &Ipv4Addr) -> (s: String)
    ensures
        s@ == ipv4_text(*ip),
{
    proof { reveal_strlit("."); }
    let mut s = decimal_string(ip.a as u64);
    s.append(".");
    s.append(decimal_string(ip.b as u64).as_str());
    s.append(".");
    s.append(decimal_string(ip.c as u64).as_str());
    s.append(".");
    s.append(decimal_string(ip.d as u64).as_str());
    s
}

/// Writes a socket address as `address:port`, as `Display` does for socket addresses.
pub fn socket_addr_to_string(addr: &SocketAddrV4) -> (s: String)
    ensures
        s@ == socket_text(*addr),
{
    proof { reveal_strlit(":"); }
    let mut s = ipv4_to_string(&addr.ip);
    s.append(":");
    s.append(decimal_string(addr.port as u64).as_str());
    s
}

/// Whether `c` is one of the characters `0` to `9`.
pub open spec fn is_digit(c: char) -> bool {
    48 <= (c as int) <= 57
}

/// The value of a digit character.
pub open spec fn digit_value(c: char) -> int {
    (c as int) - 48
}

/// The number that a run of decimal digits denotes, most significant first.
pub open spec fn digits_value(s: Seq<char>) -> int
    decreases s.len(),
{
    if s.len() == 0 {
        0
    } else {
        digits_value(s.drop_last()) * 10 + digit_value(s.last())
    }
}

/// Whether `s` is the usual decimal numeral of `n`: at least one digit, only
/// digits, no leading zero, and denoting `n`.
pub open spec fn is_numeral_of(s: Seq<char>, n: int) -> bool {
    &&& s.len() > 0
    &&& forall|i: int| 0 <= i < s.len() ==> is_digit(#[trigger] s[i])
    &&& (s.len() > 1 ==> s[0] != '0')
    &&& digits_value(s) == n
}

proof fn lemma_digit_char(d: nat)
    requires
        d < 10,
    ensures
        is_digit(digit_char(d)),
        digit_value(digit_char(d)) == d,
        (digit_char(d) == '0') == (d == 0),
{
}

/// Every number is written in full by `decimal`: the text is the usual
/// numeral of the number, so reading it back gives the number.
pub proof fn lemma_decimal_is_numeral(n: nat)
    ensures
        is_numeral_of(decimal(n), n as int),
        n > 0 ==> decimal(n)[0] != '0',
    decreases n,
{
    if n < 10 {
        lemma_digit_char(n);
        assert(seq![digit_char(n)].drop_last() =~= Seq::<char>::empty());
        assert(digits_value(Seq::<char>::empty()) == 0);
    } else {
        lemma_decimal_is_numeral(n / 10);
        lemma_digit_char(n % 10);
        let s = decimal(n);
        let h = decimal(n / 10);
        assert(s.drop_last() =~= h);
        assert(s.last() == digit_char(n % 10));
        assert(s[0] == h[0]);
        assert forall|i: int| 0 <= i < s.len() implies is_digit(#[trigger] s[i]) by {
            if i < h.len() {
                assert(s[i] == h[i]);
            }
        }
        assert(n == (n / 10) * 10 + n % 10);
        assert(digits_value(s) == digits_value(h) * 10 + digit_value(digit_char(n % 10)));
        assert(digits_value(s) == n);
        assert(s.len() > 1);
        assert(s[0] != '0');
    }
}

proof fn lemma_numeral_lacks(s: Seq<char>, n: int, c: char)
    requires
        is_numeral_of(s, n),
        !is_digit(c),
    ensures
        !s.contains(c),
{
    if s.contains(c) {
        let i = choose|i: int| 0 <= i < s.len() && s[i] == c;
        assert(is_digit(s[i]));
    }
}

proof fn lemma_split_at(x1: Seq<char>, r1: Seq<char>, x2: Seq<char>, r2: Seq<char>, sep: char)
    requires
        !x1.contains(sep),
        !x2.contains(sep),
        x1 + seq![sep] + r1 == x2 + seq![sep] + r2,
    ensures
        x1 == x2,
        r1 == r2,
{
    let t = x1 + seq![sep] + r1;
    let u = x2 + seq![sep] + r2;
    if x1.len() < x2.len() {
        assert(t[x1.len() as int] == sep);
        assert(u[x1.len() as int] == x2[x1.len() as int]);
        assert(x2.contains(x2[x1.len() as int]));
    } else if x2.len() < x1.len() {
        assert(u[x2.len() as int] == sep);
        assert(t[x2.len() as int] == x1[x2.len() as int]);
        assert(x1.contains(x1[x2.len() as int]));
    }
    assert forall|i: int| 0 <= i < x1.len() implies x1[i] == x2[i] by {
        assert(t[i] == x1[i]);
        assert(u[i] == x2[i]);
    }
    assert(x1 =~= x2);
    assert(t.len() == u.len());
    assert(x1.len() == x2.len());
    assert(t.len() == x1.len() + 1 + r1.len());
    assert(u.len() == x2.len() + 1 + r2.len());
    assert(r1.len() == r2.len());
    assert forall|i: int| 0 <= i < r1.len() implies r1[i] == r2[i] by {
        assert(t[x1.len() + 1 + i] == r1[i]);
        assert(u[x2.len() + 1 + i] == r2[i]);
    }
    assert(r1 =~= r2);
}

proof fn lemma_octet_numerals(ip: Ipv4Addr)
    ensures
        is_numeral_of(decimal(ip.a as nat), ip.a as int),
        is_numeral_of(decimal(ip.b as nat), ip.b as int),
        is_numeral_of(decimal(ip.c as nat), ip.c as int),
        is_numeral_of(decimal(ip.d as nat), ip.d as int),
{
    lemma_decimal_is_numeral(ip.a as nat);
    lemma_decimal_is_numeral(ip.b as nat);
    lemma_decimal_is_numeral(ip.c as nat);
    lemma_decimal_is_numeral(ip.d as nat);
}

/// The dotted-quad text of an address is its four octets, first to last,
/// each written in full as its decimal numeral, with a dot between them;
/// reading the text back gives the four octets.
pub proof fn lemma_ipv4_text_faithful(ip: Ipv4Addr)
    ensures
        exists|sa: Seq<char>, sb: Seq<char>, sc: Seq<char>, sd: Seq<char>|
            #![trigger is_numeral_of(sa, ip.a as int), is_numeral_of(sb, ip.b as int), is_numeral_of(sc, ip.c as int), is_numeral_of(sd, ip.d as int)]
            is_numeral_of(sa, ip.a as int) && is_numeral_of(sb, ip.b as int) && is_numeral_of(
                sc,
                ip.c as int,
            ) && is_numeral_of(sd, ip.d as int) && ipv4_text(ip) == sa + seq!['.'] + sb + seq!['.']
                + sc + seq!['.'] + sd,
{
    lemma_octet_numerals(ip);
    let sa = decimal(ip.a as nat);
    let sb = decimal(ip.b as nat);
    let sc = decimal(ip.c as nat);
    let sd = decimal(ip.d as nat);
    assert(is_numeral_of(sa, ip.a as int) && is_numeral_of(sb, ip.b as int) && is_numeral_of(
        sc,
        ip.c as int,
    ) && is_numeral_of(sd, ip.d as int));
}

/// The text after the first octet's numeral and its dot.
spec fn after_first_octet(ip: Ipv4Addr) -> Seq<char> {
    decimal(ip.b as nat) + seq!['.'] + (decimal(ip.c as nat) + seq!['.'] + decimal(ip.d as nat))
}

proof fn lemma_decimal_lacks(n: nat, c: char)
    requires
        !is_digit(c),
    ensures
        !decimal(n).contains(c),
        digits_value(decimal(n)) == n,
{
    lemma_decimal_is_numeral(n);
    lemma_numeral_lacks(decimal(n), n as int, c);
}

proof fn lemma_ipv4_text_shape(ip: Ipv4Addr)
    ensures
        ipv4_text(ip) == decimal(ip.a as nat) + seq!['.'] + after_first_octet(ip),
        after_first_octet(ip) == decimal(ip.b as nat) + seq!['.'] + (decimal(ip.c as nat) + seq![
            '.',
        ] + decimal(ip.d as nat)),
{
    assert(ipv4_text(ip) =~= decimal(ip.a as nat) + seq!['.'] + after_first_octet(ip));
}

/// Two addresses with the same dotted-quad text are the same address.
pub proof fn lemma_ipv4_text_injective(x: Ipv4Addr, y: Ipv4Addr)
    requires
        ipv4_text(x) == ipv4_text(y),
    ensures
        x == y,
{
    lemma_ipv4_text_shape(x);
    lemma_ipv4_text_shape(y);
    lemma_decimal_lacks(x.a as nat, '.');
    lemma_decimal_lacks(y.a as nat, '.');
    lemma_decimal_lacks(x.b as nat, '.');
    lemma_decimal_lacks(y.b as nat, '.');
    lemma_decimal_lacks(x.c as nat, '.');
    lemma_decimal_lacks(y.c as nat, '.');
    lemma_decimal_lacks(x.d as nat, '.');
    lemma_decimal_lacks(y.d as nat, '.');
    lemma_split_at(decimal(x.a as nat), after_first_octet(x), decimal(y.a as nat), after_first_octet(y), '.');
    lemma_split_at(
        decimal(x.b as nat),
        decimal(x.c as nat) + seq!['.'] + decimal(x.d as nat),
        decimal(y.b as nat),
        decimal(y.c as nat) + seq!['.'] + decimal(y.d as nat),
        '.',
    );
    lemma_split_at(decimal(x.c as nat), decimal(x.d as nat), decimal(y.c as nat), decimal(y.d as nat), '.');
}

/// The text of a socket address is the dotted-quad text of its address, a
/// colon, and its port written in full as its decimal numeral.
pub proof fn lemma_socket_text_faithful(addr: SocketAddrV4)
    ensures
        exists|sp: Seq<char>|
            #![trigger is_numeral_of(sp, addr.port as int)]
            is_numeral_of(sp, addr.port as int) && socket_text(addr) == ipv4_text(addr.ip) + seq![':'] + sp,
{
    lemma_decimal_is_numeral(addr.port as nat);
    assert(is_numeral_of(decimal(addr.port as nat), addr.port as int));
}

/// Two socket addresses with the same text are the same socket address.
pub proof fn lemma_socket_text_injective(x: SocketAddrV4, y: SocketAddrV4)
    requires
        socket_text(x) == socket_text(y),
    ensures
        x == y,
{
    lemma_decimal_lacks(x.port as nat, ':');
    lemma_decimal_lacks(y.port as nat, ':');
    assert(!ipv4_text(x.ip).contains(':')) by {
        ipv4_text_lacks_colon(x.ip);
    }
    assert(!ipv4_text(y.ip).contains(':')) by {
        ipv4_text_lacks_colon(y.ip);
    }
    lemma_split_at(ipv4_text(x.ip), decimal(x.port as nat), ipv4_text(y.ip), decimal(y.port as nat), ':');
    lemma_ipv4_text_injective(x.ip, y.ip);
}

proof fn ipv4_text_lacks_colon(ip: Ipv4Addr)
    ensures
        !ipv4_text(ip).contains(':'),
{
    lemma_octet_numerals(ip);
    let t = ipv4_text(ip);
    if t.contains(':') {
        let i = choose|i: int| 0 <= i < t.len() && t[i] == ':';
        let la = decimal(ip.a as nat).len() as int;
        let lb = decimal(ip.b as nat).len() as int;
        let lc = decimal(ip.c as nat).len() as int;
        if i < la {
            assert(t[i] == decimal(ip.a as nat)[i]);
        } else if i == la {
        } else if i < la + 1 + lb {
            assert(t[i] == decimal(ip.b as nat)[i - la - 1]);
        } else if i == la + 1 + lb {
        } else if i < la + lb + lc + 2 {
            assert(t[i] == decimal(ip.c as nat)[i - la - lb - 2]);
        } else if i == la + lb + lc + 2 {
        } else {
            assert(t[i] == decimal(ip.d as nat)[i - la - lb - lc - 3]);
        }
    }
}

/// The last three octets of an address read as one number in base 256.
pub open spec fn host_number(ip: Ipv4Addr) -> int {
    ip.b * 65536 + ip.c * 256 + ip.d
}

/// The number of distinct values of `host_number`.
pub open spec fn host_space() -> int {
    16777216
}

/// The address that follows `ip`: the last three octets counted up by one,
/// wrapping round to `x.0.0.0` after `x.255.255.255`; the first octet never changes.
pub open spec fn next_ipv4(ip: Ipv4Addr) -> Ipv4Addr {
    if ip.d < 255 {
        Ipv4Addr { d: (ip.d + 1) as u8, ..ip }
    } else if ip.c < 255 {
        Ipv4Addr { c: (ip.c + 1) as u8, d: 0, ..ip }
    } else if ip.b < 255 {
        Ipv4Addr { b: (ip.b + 1) as u8, c: 0, d: 0, ..ip }
    } else {
        Ipv4Addr { b: 0, c: 0, d: 0, ..ip }
    }
}

/// Computes `next_ipv4`: the last octet that is below 255, counting from the
/// fourth towards the second, goes up by one and the octets after it go to 0.
pub fn next_ip(ip: &Ipv4Addr) -> (r: Ipv4Addr)
    ensures
        r == next_ipv4(*ip),
        r.a == ip.a,
        host_number(r) == (host_number(*ip) + 1) % host_space(),
{
    if ip.d < 255 {
        Ipv4Addr { d: ip.d + 1, ..*ip }
    } else if ip.c < 255 {
        Ipv4Addr { c: ip.c + 1, d: 0, ..*ip }
    } else if ip.b < 255 {
        Ipv4Addr { b: ip.b + 1, c: 0, d: 0, ..*ip }
    } else {
        Ipv4Addr { b: 0, c: 0, d: 0, ..*ip }
    }
}

/// The address reached from `ip` after `n` steps of `next_ipv4`.
pub open spec fn ipv4_after(ip: Ipv4Addr, n: nat) -> Ipv4Addr
    decreases n,
{
    if n == 0 {
        ip
    } else {
        next_ipv4(ipv4_after(ip, (n - 1) as nat))
    }
}

proof fn lemma_next_host_number(ip: Ipv4Addr)
    ensures
        next_ipv4(ip).a == ip.a,
        host_number(next_ipv4(ip)) == (host_number(ip) + 1) % host_space(),
{
}

proof fn lemma_host_number_after(ip: Ipv4Addr, n: nat)
    ensures
        ipv4_after(ip, n).a == ip.a,
        host_number(ipv4_after(ip, n)) == (host_number(ip) + n) % host_space(),
    decreases n,
{
    if n > 0 {
        lemma_host_number_after(ip, (n - 1) as nat);
        lemma_next_host_number(ipv4_after(ip, (n - 1) as nat));
        let h: int = host_number(ip);
        let m: int = (h + n - 1) % host_space();
        assert((m + 1) % host_space() == (h + n) % host_space()) by {
            vstd::arithmetic::div_mod::lemma_add_mod_noop(h + n - 1, 1, host_space());
            vstd::arithmetic::div_mod::lemma_mod_twice(h + n - 1, host_space());
        }
    }
}

/// Allocation never repeats itself early: walking the allocator from any
/// address, the addresses reached after `i` and after `j` steps differ
/// whenever `i` and `j` differ by less than the `host_space()` addresses
/// that share a first octet; the first octet never changes.
pub proof fn lemma_allocated_addresses_distinct(ip: Ipv4Addr, i: nat, j: nat)
    requires
        i < j,
        j - i < host_space(),
    ensures
        ipv4_after(ip, i) != ipv4_after(ip, j),
        ipv4_after(ip, j).a == ip.a,
{
    lemma_host_number_after(ip, i);
    lemma_host_number_after(ip, j);
    let h: int = host_number(ip);
    if ipv4_after(ip, i) == ipv4_after(ip, j) {
        assert((h + i) % host_space() == (h + j) % host_space());
        vstd::arithmetic::div_mod::lemma_mod_equivalence(h + j, h + i, host_space());
        assert((j - i) % host_space() == 0) by {
            assert((h + j - (h + i)) == j - i);
        }
        vstd::arithmetic::div_mod::lemma_small_mod((j - i) as nat, host_space() as nat);
    }
}

} // verus!
