//! Choosing the LAN addresses that a share is announced on.
use vstd::prelude::*;

use crate::platform::{lossy_utf8, utf8_lossy};
use crate::text::{
    trim_chars, trim_ws, has_prefix, starts_with,
    chars_equal, decimal, decimal_chars, push_all, string_of, opt_str_view,
    any_infix, any_prefix, ascii_lower_seq, ascii_lower_vec, char_lists, chars_of, contains_any,
    starts_with_any,
};

verus! {

/// Lower-cased name prefixes of interfaces that never carry a share (loopback, tunnels, ...).
pub open spec fn excluded_prefixes() -> Seq<Seq<char>> {
    seq![
        "lo"@, "loopback"@, "utun"@, "awdl"@, "llw"@, "gif"@, "stf"@, "p2p"@, "ipsec"@, "tap"@,
        "tun"@,
    ]
}

/// Lower-cased words that mark a virtual adapter.
pub open spec fn virtual_keywords() -> Seq<Seq<char>> {
    seq![
        "virtual"@, "vethernet"@, "hyper-v"@, "hyperv"@, "wsl"@, "docker"@, "container"@,
        "vmware"@, "virtualbox"@, "tailscale"@, "zerotier"@, "clash"@, "mihomo"@,
        "default switch"@, "veth"@, "virbr"@, "bridge"@, "ham"@,
    ]
}

/// Lower-cased words that mark a physical Ethernet or Wi-Fi adapter.
pub open spec fn physical_keywords() -> Seq<Seq<char>> {
    seq!["ethernet"@, "以太网"@, "wi-fi"@, "wifi"@, "wlan"@, "无线"@, "lan"@]
}

/// The text that the interface is classified by: its name, a space and its display name,
/// ASCII-lower-cased.
pub open spec fn combined_interface_name(interface: Seq<char>, display: Option<Seq<char>>) -> Seq<
    char,
> {
    let d = match display {
        Some(d) => d,
        None => Seq::<char>::empty(),
    };
    ascii_lower_seq(interface + seq![' '] + d)
}

/// Priority of an interface: `None` for excluded ones, 10 for virtual adapters,
/// 100 for physical adapters and 50 for anything else.
pub open spec fn priority_of(interface: Seq<char>, display: Option<Seq<char>>) -> Option<u8> {
    let c = combined_interface_name(interface, display);
    if any_prefix(c, excluded_prefixes()) {
        None
    } else if any_infix(c, virtual_keywords()) {
        Some(10)
    } else if any_infix(c, physical_keywords()) {
        Some(100)
    } else {
        Some(50)
    }
}

/// Classifies a network interface by its name and optional display name.
pub fn interface_priority(interface: &str, display_name: Option<&str>) -> (res: Option<u8>)
    ensures
        res == priority_of(interface@, opt_str_view(display_name)),
{
    let mut combined = chars_of(interface);
    combined.push(' ');
    let display = match display_name {
        Some(d) => chars_of(d),
        None => Vec::new(),
    };
    let ghost before = combined@;
    let mut k: usize = 0;
    while k < display.len()
        invariant
            k <= display.len(),
            combined@ == before + display@.subrange(0, k as int),
        decreases display.len() - k,
    {
        combined.push(display[k]);
        k = k + 1;
        assert(display@.subrange(0, k as int) =~= display@.subrange(0, k - 1).push(
            display@[k - 1],
        ));
    }
    assert(display@.subrange(0, display.len() as int) =~= display@);
    let lowered = ascii_lower_vec(&combined);
    proof {
        let d = match display_name {
            Some(d) => d@,
            None => Seq::<char>::empty(),
        };
        assert(display@ == d);
        assert(lowered@ == combined_interface_name(
            interface@,
            opt_str_view(display_name),
        ));
    }
    let excluded = char_lists(
        &["lo", "loopback", "utun", "awdl", "llw", "gif", "stf", "p2p", "ipsec", "tap", "tun"],
    );
    assert(excluded@.map_values(|p: Vec<char>| p@) =~= excluded_prefixes());
    if starts_with_any(&lowered, &excluded) {
        return None;
    }
    let virtuals = char_lists(
        &[
            "virtual",
            "vethernet",
            "hyper-v",
            "hyperv",
            "wsl",
            "docker",
            "container",
            "vmware",
            "virtualbox",
            "tailscale",
            "zerotier",
            "clash",
            "mihomo",
            "default switch",
            "veth",
            "virbr",
            "bridge",
            "ham",
        ],
    );
    assert(virtuals@.map_values(|p: Vec<char>| p@) =~= virtual_keywords());
    if contains_any(&lowered, &virtuals) {
        return Some(10);
    }
    let physicals = char_lists(&["ethernet", "以太网", "wi-fi", "wifi", "wlan", "无线", "lan"]);
    assert(physicals@.map_values(|p: Vec<char>| p@) =~= physical_keywords());
    if contains_any(&lowered, &physicals) {
        return Some(100);
    }
    Some(50)
}

/// An address a share can be reached at: the interface's display name (when known) and the
/// IPv4 address as text.
#[derive(Debug)]
pub struct LanAddress {
    pub name: Option<String>,
    pub ip: String,
}

/// A network interface address as the system lists it: the interface name and, for an IPv4
/// address, its four octets (`None` for an IPv6 address).
#[derive(Debug)]
pub struct NetInterface {
    pub name: String,
    pub ipv4: Option<[u8; 4]>,
}

/// The text of an optional string.
pub open spec fn opt_string_view(o: Option<String>) -> Option<Seq<char>> {
    match o {
        Some(s) => Some(s@),
        None => None,
    }
}

/// An address as (display name, IP text).
pub open spec fn address_view(a: LanAddress) -> (Option<Seq<char>>, Seq<char>) {
    (opt_string_view(a.name), a.ip@)
}

/// An interface as (name, IPv4 octets).
pub open spec fn interface_view(i: NetInterface) -> (Seq<char>, Option<Seq<u8>>) {
    (
        i.name@,
        match i.ipv4 {
            Some(o) => Some(o@),
            None => None,
        },
    )
}

/// The dotted-decimal text of an IPv4 address.
pub open spec fn ipv4_text(o: Seq<u8>) -> Seq<char> {
    decimal(o[0] as nat) + seq!['.'] + decimal(o[1] as nat) + seq!['.'] + decimal(o[2] as nat)
        + seq!['.'] + decimal(o[3] as nat)
}

/// An IPv4 address that a share may be announced on: not loopback (127.0.0.0/8), not
/// link-local (169.254.0.0/16) and not unspecified (0.0.0.0).
pub open spec fn shareable_ipv4(o: Seq<u8>) -> bool {
    &&& o[0] != 127
    &&& !(o[0] == 169 && o[1] == 254)
    &&& !(o[0] == 0 && o[1] == 0 && o[2] == 0 && o[3] == 0)
}

/// Whether an IPv4 address may carry a share.
pub fn is_shareable_ipv4(address: [u8; 4]) -> (res: bool)
    ensures
        res == shareable_ipv4(address@),
{
    let a = address[0];
    let b = address[1];
    let c = address[2];
    let d = address[3];
    if a == 127 {
        return false;
    }
    if a == 169 && b == 254 {
        return false;
    }
    if a == 0 && b == 0 && c == 0 && d == 0 {
        return false;
    }
    true
}

/// The dotted-decimal text of an IPv4 address, as `Ipv4Addr` displays it.
pub fn ipv4_string(address: [u8; 4]) -> (res: String)
    ensures
        res@ == ipv4_text(address@),
{
    let mut out = decimal_chars(address[0] as u64);
    out.push('.');
    push_all(&mut out, &decimal_chars(address[1] as u64));
    out.push('.');
    push_all(&mut out, &decimal_chars(address[2] as u64));
    out.push('.');
    push_all(&mut out, &decimal_chars(address[3] as u64));
    assert(out@ =~= ipv4_text(address@));
    string_of(out.as_slice())
}

/// The display name recorded for a device; a later entry for the same device wins.
pub open spec fn lookup_display(names: Seq<(Seq<char>, Seq<char>)>, device: Seq<char>) -> Option<
    Seq<char>,
>
    decreases names.len(),
{
    if names.len() == 0 {
        None
    } else if names.last().0 == device {
        Some(names.last().1)
    } else {
        lookup_display(names.drop_last(), device)
    }
}

/// The display names as (device, name) pairs.
pub open spec fn names_view(names: Seq<(String, String)>) -> Seq<(Seq<char>, Seq<char>)> {
    names.map_values(|p: (String, String)| (p.0@, p.1@))
}

/// Looks up the display name of a device.
pub fn display_name_of(names: &Vec<(String, String)>, device: &str) -> (res: Option<String>)
    ensures
        opt_string_view(res) == lookup_display(names_view(names@), device@),
{
    let dev = chars_of(device);
    let ghost all = names_view(names@);
    let mut i: usize = names.len();
    assert(all.take(names.len() as int) =~= all);
    while i > 0
        invariant
            i <= names.len(),
            all == names_view(names@),
            all.len() == names@.len(),
            dev@ == device@,
            lookup_display(all, device@) == lookup_display(all.take(i as int), device@),
        decreases i,
    {
        let ghost pre = all.take(i as int);
        assert(pre.drop_last() =~= all.take(i - 1));
        assert(pre.last() == (names@[i - 1].0@, names@[i - 1].1@));
        let key = chars_of(names[i - 1].0.as_str());
        if chars_equal(&key, &dev) {
            assert(pre.last().0 == device@);
            assert(lookup_display(pre, device@) == Some(pre.last().1));
            let found = names[i - 1].1.clone();
            assert(found@ == pre.last().1);
            return Some(found);
        }
        assert(pre.last().0 != device@);
        assert(lookup_display(pre, device@) == lookup_display(pre.drop_last(), device@));
        i = i - 1;
    }
    None
}

/// A candidate address: (priority, display name, IP text).
pub type Candidate = (u8, Option<Seq<char>>, Seq<char>);

/// Whether some candidate already has this IP text.
pub open spec fn ip_taken(cands: Seq<Candidate>, ip: Seq<char>) -> bool {
    exists|i: int| 0 <= i < cands.len() && cands[i].2 == ip
}

/// The candidates in the order the interfaces are listed: every IPv4 address of an interface
/// that is not excluded and that may carry a share, named by the interface's display name or
/// else its name.
pub open spec fn collect_candidates(
    ifs: Seq<(Seq<char>, Option<Seq<u8>>)>,
    names: Seq<(Seq<char>, Seq<char>)>,
) -> Seq<Candidate>
    decreases ifs.len(),
{
    if ifs.len() == 0 {
        Seq::empty()
    } else {
        let prev = collect_candidates(ifs.drop_last(), names);
        let (name, ip) = ifs.last();
        let display = lookup_display(names, name);
        match priority_of(name, display) {
            None => prev,
            Some(p) => match ip {
                None => prev,
                Some(o) => if o.len() != 4 || !shareable_ipv4(o) {
                    prev
                } else {
                    prev.push(
                        (
                            p,
                            Some(
                                match display {
                                    Some(d) => d,
                                    None => name,
                                },
                            ),
                            ipv4_text(o),
                        ),
                    )
                },
            },
        }
    }
}

/// Each IP text once: the first candidate with it stays, later ones are dropped.
pub open spec fn dedup_ips(c: Seq<Candidate>) -> Seq<Candidate>
    decreases c.len(),
{
    if c.len() == 0 {
        Seq::empty()
    } else {
        let prev = dedup_ips(c.drop_last());
        if ip_taken(prev, c.last().2) {
            prev
        } else {
            prev.push(c.last())
        }
    }
}

/// A candidate as (priority, display name, IP text).
pub open spec fn candidate_view(c: (u8, LanAddress)) -> Candidate {
    (c.0, opt_string_view(c.1.name), c.1.ip@)
}

fn collect_candidates_exec(interfaces: &Vec<NetInterface>, names: &Vec<(String, String)>) -> (res:
    Vec<(u8, LanAddress)>)
    ensures
        res@.map_values(|c: (u8, LanAddress)| candidate_view(c)) == collect_candidates(
            interfaces@.map_values(|i: NetInterface| interface_view(i)),
            names_view(names@),
        ),
{
    let ghost ifs = interfaces@.map_values(|i: NetInterface| interface_view(i));
    let ghost nv = names_view(names@);
    let mut out: Vec<(u8, LanAddress)> = Vec::new();
    let mut k: usize = 0;
    while k < interfaces.len()
        invariant
            k <= interfaces.len(),
            ifs == interfaces@.map_values(|i: NetInterface| interface_view(i)),
            nv == names_view(names@),
            out@.map_values(|c: (u8, LanAddress)| candidate_view(c)) == collect_candidates(
                ifs.take(k as int),
                nv,
            ),
        decreases interfaces.len() - k,
    {
        let ghost prev = out@.map_values(|c: (u8, LanAddress)| candidate_view(c));
        assert(ifs.take(k + 1).drop_last() =~= ifs.take(k as int));
        assert(ifs.take(k + 1).last() == interface_view(interfaces@[k as int]));
        let entry = &interfaces[k];
        let display = display_name_of(names, entry.name.as_str());
        let disp_ref: Option<&str> = match &display {
            Some(d) => Some(d.as_str()),
            None => None,
        };
        let priority = interface_priority(entry.name.as_str(), disp_ref);
        if let Some(p) = priority {
            if let Some(o) = entry.ipv4 {
                if is_shareable_ipv4(o) {
                    let text = ipv4_string(o);
                    let name = match display {
                        Some(d) => d,
                        None => entry.name.clone(),
                    };
                    out.push((p, LanAddress { name: Some(name), ip: text }));
                    assert(out@.map_values(|c: (u8, LanAddress)| candidate_view(c)) =~= prev.push(
                        candidate_view(out@[out@.len() - 1]),
                    ));
                }
            }
        }
        k = k + 1;
    }
    assert(ifs.take(interfaces.len() as int) =~= ifs);
    out
}

/// Keeps the first candidate of each IP text.
fn dedup_ips_exec(cands: Vec<(u8, LanAddress)>) -> (res: Vec<(u8, LanAddress)>)
    ensures
        res@.map_values(|c: (u8, LanAddress)| candidate_view(c)) == dedup_ips(
            cands@.map_values(|c: (u8, LanAddress)| candidate_view(c)),
        ),
{
    let ghost input = cands@.map_values(|c: (u8, LanAddress)| candidate_view(c));
    let mut rest = cands;
    let mut rev: Vec<(u8, LanAddress)> = Vec::new();
    while rest.len() > 0
        invariant
            rest@.len() + rev@.len() == input.len(),
            forall|t: int| 0 <= t < rev@.len() ==> candidate_view(#[trigger] rev@[t]) == input[input.len() - 1 - t],
            forall|t: int| 0 <= t < rest@.len() ==> candidate_view(#[trigger] rest@[t]) == input[t],
        decreases rest.len(),
    {
        let c = rest.pop().unwrap();
        rev.push(c);
    }
    let ghost n = input.len();
    let total = rev.len();
    assert(total == n);
    let mut out: Vec<(u8, LanAddress)> = Vec::new();
    let mut k: usize = 0;
    assert(input.take(0) =~= Seq::<Candidate>::empty());
    while rev.len() > 0
        invariant
            k + rev@.len() == n,
            n == input.len(),
            forall|t: int| 0 <= t < rev@.len() ==> candidate_view(#[trigger] rev@[t]) == input[n - 1 - t],
            n <= usize::MAX,
            out@.map_values(|c: (u8, LanAddress)| candidate_view(c)) == dedup_ips(input.take(k as int)),
        decreases rev.len(),
    {
        let c = rev.pop().unwrap();
        assert(candidate_view(c) == input[k as int]);
        let ghost prev = out@.map_values(|c: (u8, LanAddress)| candidate_view(c));
        assert(input.take(k + 1).drop_last() =~= input.take(k as int));
        assert(input.take(k + 1).last() == input[k as int]);
        let tc = chars_of(c.1.ip.as_str());
        let mut taken = false;
        let mut t: usize = 0;
        while t < out.len()
            invariant
                t <= out.len(),
                prev == out@.map_values(|c: (u8, LanAddress)| candidate_view(c)),
                tc@ == c.1.ip@,
                taken == (exists|j: int| 0 <= j < t && prev[j].2 == c.1.ip@),
            decreases out.len() - t,
        {
            if chars_equal(&chars_of(out[t].1.ip.as_str()), &tc) {
                assert(prev[t as int].2 == c.1.ip@);
                taken = true;
            }
            t = t + 1;
        }
        if !taken {
            out.push(c);
            assert(out@.map_values(|c: (u8, LanAddress)| candidate_view(c)) =~= prev.push(input[k as int]));
        }
        k = k + 1;
    }
    assert(input.take(n as int) =~= input);
    out
}

/// A physical Ethernet or Wi-Fi candidate (priority 80 or more).
pub open spec fn is_physical(c: Candidate) -> bool {
    c.0 >= 80
}

/// When some candidate is physical only the physical ones are kept; virtual addresses serve
/// only as a fallback for machines without a physical interface.
pub open spec fn prefer_physical(c: Seq<Candidate>) -> Seq<Candidate> {
    if exists|i: int| 0 <= i < c.len() && is_physical(#[trigger] c[i]) {
        c.filter(|x: Candidate| is_physical(x))
    } else {
        c
    }
}

/// Lexicographic order of texts by character codes, as `String` compares them.
pub open spec fn lex_lt(a: Seq<char>, b: Seq<char>) -> bool
    decreases a.len(),
{
    if a.len() == 0 {
        b.len() > 0
    } else if b.len() == 0 {
        false
    } else if a[0] < b[0] {
        true
    } else if a[0] > b[0] {
        false
    } else {
        lex_lt(a.drop_first(), b.drop_first())
    }
}

/// `x` is listed before `y`: higher priority first, then the smaller IP text.
pub open spec fn goes_before(x: Candidate, y: Candidate) -> bool {
    x.0 > y.0 || (x.0 == y.0 && lex_lt(x.2, y.2))
}

/// `x` placed into `s` after every element it does not go before.
pub open spec fn insert_sorted(s: Seq<Candidate>, x: Candidate) -> Seq<Candidate>
    decreases s.len(),
{
    if s.len() == 0 {
        seq![x]
    } else if goes_before(x, s[0]) {
        seq![x] + s
    } else {
        seq![s[0]] + insert_sorted(s.drop_first(), x)
    }
}

/// The candidates stably sorted by descending priority, then ascending IP text.
pub open spec fn sort_candidates(s: Seq<Candidate>) -> Seq<Candidate>
    decreases s.len(),
{
    if s.len() == 0 {
        s
    } else {
        insert_sorted(sort_candidates(s.drop_last()), s.last())
    }
}

/// The addresses a share is announced on: the sorted candidates that survive the preference
/// for physical interfaces, each IP once (the first surviving candidate with it wins); when
/// there are none, the system's own local IPv4 address (if it
/// may carry a share), unnamed; else nothing.
pub open spec fn announced_addresses(
    ifs: Seq<(Seq<char>, Option<Seq<u8>>)>,
    names: Seq<(Seq<char>, Seq<char>)>,
    fallback: Option<Seq<u8>>,
) -> Seq<(Option<Seq<char>>, Seq<char>)> {
    let sorted = sort_candidates(dedup_ips(prefer_physical(collect_candidates(ifs, names))));
    if sorted.len() > 0 {
        sorted.map_values(|c: Candidate| (c.1, c.2))
    } else {
        match fallback {
            Some(o) => if o.len() == 4 && shareable_ipv4(o) {
                seq![(None::<Seq<char>>, ipv4_text(o))]
            } else {
                Seq::empty()
            },
            None => Seq::empty(),
        }
    }
}

fn lex_less(a: &Vec<char>, b: &Vec<char>) -> (res: bool)
    ensures
        res == lex_lt(a@, b@),
{
    let mut i: usize = 0;
    assert(a@.skip(0) =~= a@);
    assert(b@.skip(0) =~= b@);
    while i < a.len() && i < b.len() && a[i] == b[i]
        invariant
            i <= a.len(),
            i <= b.len(),
            lex_lt(a@, b@) == lex_lt(a@.skip(i as int), b@.skip(i as int)),
        decreases a.len() - i,
    {
        assert(a@.skip(i as int).drop_first() =~= a@.skip(i + 1));
        assert(b@.skip(i as int).drop_first() =~= b@.skip(i + 1));
        i = i + 1;
    }
    if i == a.len() {
        i < b.len()
    } else if i == b.len() {
        false
    } else {
        a[i] < b[i]
    }
}

fn goes_before_exec(x: &(u8, LanAddress), y: &(u8, LanAddress)) -> (res: bool)
    ensures
        res == goes_before(candidate_view(*x), candidate_view(*y)),
{
    if x.0 != y.0 {
        return x.0 > y.0;
    }
    lex_less(&chars_of(x.1.ip.as_str()), &chars_of(y.1.ip.as_str()))
}

proof fn lemma_insert_at(s: Seq<Candidate>, x: Candidate, pos: int)
    requires
        0 <= pos <= s.len(),
        forall|t: int| 0 <= t < pos ==> !goes_before(x, #[trigger] s[t]),
        pos == s.len() || goes_before(x, s[pos]),
    ensures
        s.insert(pos, x) == insert_sorted(s, x),
    decreases pos,
{
    if pos == 0 {
        assert(s.insert(0, x) =~= seq![x] + s);
    } else {
        let r = s.drop_first();
        assert forall|t: int| 0 <= t < pos - 1 implies !goes_before(x, #[trigger] r[t]) by {
            assert(r[t] == s[t + 1]);
        }
        lemma_insert_at(r, x, pos - 1);
        assert(s.insert(pos, x) =~= seq![s[0]] + r.insert(pos - 1, x));
    }
}

/// Orders the candidates: higher priority first, then by IP text; equal keys keep their order.
fn sort_candidates_exec(cands: Vec<(u8, LanAddress)>) -> (res: Vec<(u8, LanAddress)>)
    ensures
        res@.map_values(|c: (u8, LanAddress)| candidate_view(c)) == sort_candidates(
            cands@.map_values(|c: (u8, LanAddress)| candidate_view(c)),
        ),
{
    let ghost input = cands@.map_values(|c: (u8, LanAddress)| candidate_view(c));
    let mut out: Vec<(u8, LanAddress)> = Vec::new();
    let mut rest = cands;
    // Take the candidates in order, from the front, by reversing once.
    let mut rev: Vec<(u8, LanAddress)> = Vec::new();
    while rest.len() > 0
        invariant
            rest@.len() + rev@.len() == input.len(),
            forall|t: int| 0 <= t < rev@.len() ==> candidate_view(#[trigger] rev@[t]) == input[input.len() - 1 - t],
            forall|t: int| 0 <= t < rest@.len() ==> candidate_view(#[trigger] rest@[t]) == input[t],
        decreases rest.len(),
    {
        let c = rest.pop().unwrap();
        rev.push(c);
    }
    let ghost n = input.len();
    let total = rev.len();
    assert(total == n);
    let mut k: usize = 0;
    assert(input.take(0) =~= Seq::<Candidate>::empty());
    while rev.len() > 0
        invariant
            k + rev@.len() == n,
            n == input.len(),
            n <= usize::MAX,
            forall|t: int| 0 <= t < rev@.len() ==> candidate_view(#[trigger] rev@[t]) == input[n - 1 - t],
            out@.map_values(|c: (u8, LanAddress)| candidate_view(c)) == sort_candidates(input.take(k as int)),
        decreases rev.len(),
    {
        let c = rev.pop().unwrap();
        assert(candidate_view(c) == input[k as int]);
        let ghost sorted = out@.map_values(|c: (u8, LanAddress)| candidate_view(c));
        let mut pos: usize = 0;
        while pos < out.len() && !goes_before_exec(&c, &out[pos])
            invariant
                pos <= out.len(),
                sorted == out@.map_values(|c: (u8, LanAddress)| candidate_view(c)),
                forall|t: int| 0 <= t < pos ==> !goes_before(candidate_view(c), #[trigger] sorted[t]),
            decreases out.len() - pos,
        {
            pos = pos + 1;
        }
        proof {
            lemma_insert_at(sorted, candidate_view(c), pos as int);
            assert(input.take(k + 1).drop_last() =~= input.take(k as int));
        }
        out.insert(pos, c);
        assert(out@.map_values(|c: (u8, LanAddress)| candidate_view(c)) =~= sorted.insert(pos as int, input[k as int]));
        k = k + 1;
    }
    assert(input.take(n as int) =~= input);
    out
}

/// Keeps only the physical candidates when there is one.
fn prefer_physical_exec(cands: Vec<(u8, LanAddress)>) -> (res: Vec<(u8, LanAddress)>)
    ensures
        res@.map_values(|c: (u8, LanAddress)| candidate_view(c)) == prefer_physical(
            cands@.map_values(|c: (u8, LanAddress)| candidate_view(c)),
        ),
{
    let ghost input = cands@.map_values(|c: (u8, LanAddress)| candidate_view(c));
    let mut has_physical = false;
    let mut i: usize = 0;
    while i < cands.len()
        invariant
            i <= cands.len(),
            input == cands@.map_values(|c: (u8, LanAddress)| candidate_view(c)),
            has_physical == (exists|t: int| 0 <= t < i && is_physical(#[trigger] input[t])),
        decreases cands.len() - i,
    {
        if cands[i].0 >= 80 {
            assert(is_physical(input[i as int]));
            has_physical = true;
        }
        i = i + 1;
    }
    if !has_physical {
        return cands;
    }
    let ghost pred = |x: Candidate| is_physical(x);
    let mut out: Vec<(u8, LanAddress)> = Vec::new();
    let mut rest = cands;
    let mut rev: Vec<(u8, LanAddress)> = Vec::new();
    while rest.len() > 0
        invariant
            rest@.len() + rev@.len() == input.len(),
            forall|t: int| 0 <= t < rev@.len() ==> candidate_view(#[trigger] rev@[t]) == input[input.len() - 1 - t],
            forall|t: int| 0 <= t < rest@.len() ==> candidate_view(#[trigger] rest@[t]) == input[t],
        decreases rest.len(),
    {
        let c = rest.pop().unwrap();
        rev.push(c);
    }
    let ghost n = input.len();
    let mut k: usize = 0;
    assert(input.take(0).filter(pred) =~= Seq::<Candidate>::empty()) by {
        reveal(Seq::filter);
    }
    while rev.len() > 0
        invariant
            k + rev@.len() == n,
            n == input.len(),
            n <= usize::MAX,
            pred == (|x: Candidate| is_physical(x)),
            forall|t: int| 0 <= t < rev@.len() ==> candidate_view(#[trigger] rev@[t]) == input[n - 1 - t],
            out@.map_values(|c: (u8, LanAddress)| candidate_view(c)) == input.take(k as int).filter(pred),
        decreases rev.len(),
    {
        let c = rev.pop().unwrap();
        assert(candidate_view(c) == input[k as int]);
        let ghost before = out@.map_values(|c: (u8, LanAddress)| candidate_view(c));
        proof {
            reveal(Seq::filter);
            assert(input.take(k + 1).drop_last() =~= input.take(k as int));
            assert(input.take(k + 1).last() == input[k as int]);
        }
        if c.0 >= 80 {
            out.push(c);
            assert(out@.map_values(|c: (u8, LanAddress)| candidate_view(c)) =~= before.push(input[k as int]));
        }
        k = k + 1;
    }
    assert(input.take(n as int) =~= input);
    out
}

/// The LAN addresses a share is announced on, chosen from the system's interface list, the
/// display names of its devices and the system's own local IPv4 address (`fallback`).
pub fn lan_ipv4_addresses(
    interfaces: &Vec<NetInterface>,
    display_names: &Vec<(String, String)>,
    fallback: Option<[u8; 4]>,
) -> (res: Vec<LanAddress>)
    ensures
        res@.map_values(|a: LanAddress| address_view(a)) == announced_addresses(
            interfaces@.map_values(|i: NetInterface| interface_view(i)),
            names_view(display_names@),
            match fallback {
                Some(o) => Some(o@),
                None => None,
            },
        ),
{
    let cands = collect_candidates_exec(interfaces, display_names);
    let kept = dedup_ips_exec(prefer_physical_exec(cands));
    let sorted = sort_candidates_exec(kept);
    let ghost sv = sorted@.map_values(|c: (u8, LanAddress)| candidate_view(c));
    let mut addresses: Vec<LanAddress> = Vec::new();
    let mut rest = sorted;
    let mut rev: Vec<LanAddress> = Vec::new();
    while rest.len() > 0
        invariant
            rest@.len() + rev@.len() == sv.len(),
            forall|t: int| 0 <= t < rev@.len() ==> address_view(#[trigger] rev@[t]) == (sv[sv.len() - 1 - t].1, sv[sv.len() - 1 - t].2),
            forall|t: int| 0 <= t < rest@.len() ==> candidate_view(#[trigger] rest@[t]) == sv[t],
        decreases rest.len(),
    {
        let c = rest.pop().unwrap();
        rev.push(c.1);
    }
    let ghost n = sv.len();
    while rev.len() > 0
        invariant
            addresses@.len() + rev@.len() == n,
            n == sv.len(),
            forall|t: int| 0 <= t < rev@.len() ==> address_view(#[trigger] rev@[t]) == (sv[n - 1 - t].1, sv[n - 1 - t].2),
            forall|t: int| 0 <= t < addresses@.len() ==> address_view(#[trigger] addresses@[t]) == (sv[t].1, sv[t].2),
        decreases rev.len(),
    {
        let a = rev.pop().unwrap();
        addresses.push(a);
    }
    assert(addresses@.map_values(|a: LanAddress| address_view(a)) =~= sv.map_values(|c: Candidate| (c.1, c.2)));
    if addresses.len() == 0 {
        if let Some(o) = fallback {
            if is_shareable_ipv4(o) {
                addresses.push(LanAddress { name: None, ip: ipv4_string(o) });
                assert(addresses@.map_values(|a: LanAddress| address_view(a)) =~= seq![(None::<Seq<char>>, ipv4_text(o@))]);
            }
        }
    }
    addresses
}

/// The host name as the system reports it, from the buffer that the system call filled: the
/// bytes up to the first NUL, decoded lossily as UTF-8; `None` when no NUL ends the name
/// (a name that may have been cut short is not shown).
pub open spec fn buffer_host_name(buffer: Seq<u8>) -> Option<Seq<char>> {
    if exists|i: int| 0 <= i < buffer.len() && buffer[i] == 0 {
        let n = choose|i: int| 0 <= i < buffer.len() && buffer[i] == 0 && forall|t: int| 0 <= t < i ==> buffer[t] != 0;
        Some(lossy_utf8(buffer.take(n)))
    } else {
        None
    }
}

/// Reads the host name out of the buffer that the system filled.
pub fn system_host_name(buffer: &[u8]) -> (res: Option<String>)
    ensures
        opt_string_view(res) == buffer_host_name(buffer@),
{
    let mut bytes: Vec<u8> = Vec::new();
    let mut i: usize = 0;
    while i < buffer.len()
        invariant
            i <= buffer@.len(),
            bytes@ == buffer@.take(i as int),
            forall|t: int| 0 <= t < i ==> buffer@[t] != 0,
        decreases buffer.len() - i,
    {
        if buffer[i] == 0 {
            let name = utf8_lossy(bytes.as_slice());
            proof {
                let n = choose|n: int| 0 <= n < buffer@.len() && buffer@[n] == 0 && forall|t: int| 0 <= t < n ==> buffer@[t] != 0;
                assert(n == i) by {
                    if n < i {
                        assert(buffer@[n] != 0);
                    } else if n > i {
                        assert(buffer@[i as int] != 0);
                    }
                }
            }
            return Some(name);
        }
        bytes.push(buffer[i]);
        i = i + 1;
        assert(bytes@ =~= buffer@.take(i as int));
    }
    None
}

/// The host name shown for the machine: the system's name without surrounding white
/// space, or `None` when there is no name or nothing but white space.
pub open spec fn shown_host_name(system: Option<Seq<char>>) -> Option<Seq<char>> {
    match system {
        None => None,
        Some(n) => if trim_ws(n).len() == 0 {
            None
        } else {
            Some(trim_ws(n))
        },
    }
}

/// The host name shown for the machine, from the name the system reported.
pub fn host_name(system_name: Option<String>) -> (res: Option<String>)
    ensures
        opt_string_view(res) == shown_host_name(opt_string_view(system_name)),
{
    let name = match system_name {
        Some(n) => n,
        None => {
            return None;
        },
    };
    let trimmed = trim_chars(&chars_of(name.as_str()));
    if trimmed.len() == 0 {
        None
    } else {
        Some(string_of(trimmed.as_slice()))
    }
}

/// Index of the first `c` in `s`, or `s.len()`.
pub open spec fn first_char_index(s: Seq<char>, c: char) -> nat
    decreases s.len(),
{
    if s.len() == 0 {
        0
    } else if s[0] == c {
        0
    } else {
        1 + first_char_index(s.drop_first(), c)
    }
}

/// A line without its trailing `\r`, which is dropped only before a `\n`.
pub open spec fn line_body(line: Seq<char>, ended: bool) -> Seq<char> {
    if ended && line.len() > 0 && line.last() == '\r' {
        line.drop_last()
    } else {
        line
    }
}

/// The lines of a text as `str::lines` yields them: split at `\n`, a `\r` before the
/// `\n` dropped, no empty line after a final `\n`.
pub open spec fn text_lines(s: Seq<char>) -> Seq<Seq<char>>
    decreases s.len(),
{
    if s.len() == 0 {
        Seq::empty()
    } else {
        let k = first_char_index(s, '\n');
        if k < s.len() {
            seq![line_body(s.take(k as int), true)] + text_lines(s.skip((k + 1) as int))
        } else {
            seq![line_body(s, false)]
        }
    }
}

/// The `Hardware Port: ` prefix of a port's name line.
pub open spec fn port_prefix() -> Seq<char> {
    "Hardware Port: "@
}

/// The `Device: ` prefix of a port's device line.
pub open spec fn device_prefix() -> Seq<char> {
    "Device: "@
}

/// Reading the lines in order: a port line names the next device, a device line pairs the
/// device with the pending name (if any) and clears it. The result is the pending name and
/// the (device, name) pairs found, in order.
pub open spec fn scan_ports(lines: Seq<Seq<char>>) -> (Option<Seq<char>>, Seq<(Seq<char>, Seq<char>)>)
    decreases lines.len(),
{
    if lines.len() == 0 {
        (None, Seq::empty())
    } else {
        let (pending, pairs) = scan_ports(lines.drop_last());
        let line = lines.last();
        if has_prefix(line, port_prefix()) {
            (Some(trim_ws(line.skip(port_prefix().len() as int))), pairs)
        } else if has_prefix(line, device_prefix()) {
            match pending {
                Some(name) => (None, pairs.push((trim_ws(line.skip(device_prefix().len() as int)), name))),
                None => (None, pairs),
            }
        } else {
            (pending, pairs)
        }
    }
}

/// The (device, display name) pairs in the output of `networksetup -listallhardwareports`.
pub open spec fn hardware_port_names(text: Seq<char>) -> Seq<(Seq<char>, Seq<char>)> {
    scan_ports(text_lines(text)).1
}

proof fn lemma_first_char_index(s: Seq<char>, c: char, k: int)
    requires
        0 <= k <= s.len(),
        forall|t: int| 0 <= t < k ==> s[t] != c,
        k == s.len() || s[k] == c,
    ensures
        first_char_index(s, c) == k,
    decreases k,
{
    if k > 0 {
        lemma_first_char_index(s.drop_first(), c, k - 1);
    }
}

fn skip_chars(s: &Vec<char>, n: usize) -> (res: Vec<char>)
    requires
        n <= s.len(),
    ensures
        res@ == s@.skip(n as int),
{
    let mut out: Vec<char> = Vec::new();
    let mut i: usize = n;
    while i < s.len()
        invariant
            n <= i <= s.len(),
            out@ == s@.subrange(n as int, i as int),
        decreases s.len() - i,
    {
        out.push(s[i]);
        i = i + 1;
        assert(out@ =~= s@.subrange(n as int, i as int));
    }
    assert(s@.subrange(n as int, s.len() as int) =~= s@.skip(n as int));
    out
}

/// Splits a text into lines as `str::lines` does.
fn split_lines(text: &Vec<char>) -> (res: Vec<Vec<char>>)
    ensures
        res@.map_values(|l: Vec<char>| l@) == text_lines(text@),
{
    let mut out: Vec<Vec<char>> = Vec::new();
    let mut start: usize = 0;
    assert(text@.skip(0) =~= text@);
    while start < text.len()
        invariant
            start <= text.len(),
            out@.map_values(|l: Vec<char>| l@) + text_lines(text@.skip(start as int)) == text_lines(text@),
        decreases text.len() - start,
    {
        let ghost rest = text@.skip(start as int);
        let ghost before = out@.map_values(|l: Vec<char>| l@);
        let mut k: usize = start;
        while k < text.len() && text[k] != '\n'
            invariant
                start <= k <= text.len(),
                forall|t: int| start <= t < k ==> text@[t] != '\n',
            decreases text.len() - k,
        {
            k = k + 1;
        }
        proof {
            assert forall|t: int| 0 <= t < k - start implies rest[t] != '\n' by {
                assert(rest[t] == text@[start + t]);
            }
            if k < text.len() {
                assert(rest[k - start] == text@[k as int]);
            }
            lemma_first_char_index(rest, '\n', k - start);
        }
        let ended = k < text.len();
        let mut end = k;
        if ended && end > start && text[end - 1] == '\r' {
            end = end - 1;
        }
        let mut line: Vec<char> = Vec::new();
        let mut i: usize = start;
        while i < end
            invariant
                start <= i <= end <= text.len(),
                line@ == text@.subrange(start as int, i as int),
            decreases end - i,
        {
            line.push(text[i]);
            i = i + 1;
            assert(line@ =~= text@.subrange(start as int, i as int));
        }
        proof {
            if ended {
                assert(rest.take(k - start) =~= text@.subrange(start as int, k as int));
                assert(line@ =~= line_body(rest.take(k - start), true));
                assert(rest.skip(k - start + 1) =~= text@.skip(k + 1));
            } else {
                assert(rest =~= text@.subrange(start as int, k as int));
                assert(line@ == line_body(rest, false));
            }
        }
        out.push(line);
        assert(out@.map_values(|l: Vec<char>| l@) =~= before.push(line@));
        if ended {
            start = k + 1;
            assert(out@.map_values(|l: Vec<char>| l@) + text_lines(text@.skip(start as int)) =~= before + text_lines(rest));
        } else {
            start = text.len();
            assert(text@.skip(start as int) =~= Seq::<char>::empty());
            assert(out@.map_values(|l: Vec<char>| l@) + text_lines(text@.skip(start as int)) =~= before + text_lines(rest));
        }
    }
    assert(text@.skip(start as int) =~= Seq::<char>::empty());
    assert(out@.map_values(|l: Vec<char>| l@) + Seq::<Seq<char>>::empty() =~= out@.map_values(|l: Vec<char>| l@));
    out
}

/// Reads the (device, display name) pairs out of the hardware port listing of macOS's
/// `networksetup -listallhardwareports`; a later pair for the same device overrides an
/// earlier one when names are looked up.
pub fn macos_interface_display_names(text: &str) -> (res: Vec<(String, String)>)
    ensures
        names_view(res@) == hardware_port_names(text@),
{
    let lines = split_lines(&chars_of(text));
    let ghost lv = lines@.map_values(|l: Vec<char>| l@);
    let port = chars_of("Hardware Port: ");
    let device = chars_of("Device: ");
    proof {
        reveal_strlit("Hardware Port: ");
        reveal_strlit("Device: ");
    }
    let mut pending: Option<Vec<char>> = None;
    let mut names: Vec<(String, String)> = Vec::new();
    let mut i: usize = 0;
    assert(lv.take(0) =~= Seq::<Seq<char>>::empty());
    while i < lines.len()
        invariant
            i <= lines.len(),
            lv == lines@.map_values(|l: Vec<char>| l@),
            port@ == port_prefix(),
            device@ == device_prefix(),
            port@.len() == 15,
            device@.len() == 8,
            scan_ports(lv.take(i as int)) == (
                match pending {
                    Some(p) => Some(p@),
                    None => None,
                },
                names_view(names@),
            ),
        decreases lines.len() - i,
    {
        let ghost pre = names_view(names@);
        assert(lv.take(i + 1).drop_last() =~= lv.take(i as int));
        assert(lv.take(i + 1).last() == lines@[i as int]@);
        let line = &lines[i];
        if starts_with(line, &port) {
            pending = Some(trim_chars(&skip_chars(line, 15)));
        } else if starts_with(line, &device) {
            match pending {
                Some(p) => {
                    let dev = trim_chars(&skip_chars(line, 8));
                    names.push((string_of(dev.as_slice()), string_of(p.as_slice())));
                    assert(names_view(names@) =~= pre.push((dev@, p@)));
                },
                None => {},
            }
            pending = None;
        }
        i = i + 1;
    }
    assert(lv.take(lines.len() as int) =~= lv);
    names
}

/// The display names of the network devices: those read from the hardware port listing when
/// there is one (macOS), else none.
pub fn interface_display_names(listing: Option<&str>) -> (res: Vec<(String, String)>)
    ensures
        listing is None ==> res@.len() == 0,
        listing matches Some(t) ==> names_view(res@) == hardware_port_names(t@),
{
    match listing {
        Some(t) => macos_interface_display_names(t),
        None => Vec::new(),
    }
}

/// The candidates are in listing order: no candidate goes before one listed earlier.
pub open spec fn in_listing_order(s: Seq<Candidate>) -> bool {
    forall|i: int, j: int| 0 <= i < j < s.len() ==> !goes_before(#[trigger] s[j], #[trigger] s[i])
}

proof fn lemma_lex_irreflexive(a: Seq<char>)
    ensures
        !lex_lt(a, a),
    decreases a.len(),
{
    if a.len() > 0 {
        lemma_lex_irreflexive(a.drop_first());
    }
}

proof fn lemma_lex_transitive(a: Seq<char>, b: Seq<char>, c: Seq<char>)
    requires
        lex_lt(a, b),
        lex_lt(b, c),
    ensures
        lex_lt(a, c),
    decreases a.len(),
{
    if a.len() > 0 && b.len() > 0 && c.len() > 0 && a[0] == b[0] && b[0] == c[0] {
        lemma_lex_transitive(a.drop_first(), b.drop_first(), c.drop_first());
    }
}

proof fn lemma_goes_before_transitive(x: Candidate, y: Candidate, z: Candidate)
    requires
        goes_before(x, y),
        goes_before(y, z),
    ensures
        goes_before(x, z),
{
    if x.0 == y.0 && y.0 == z.0 {
        lemma_lex_transitive(x.2, y.2, z.2);
    }
}

proof fn lemma_insert_sorted(s: Seq<Candidate>, x: Candidate)
    requires
        in_listing_order(s),
    ensures
        in_listing_order(insert_sorted(s, x)),
        insert_sorted(s, x).to_multiset() == s.to_multiset().insert(x),
    decreases s.len(),
{
    broadcast use vstd::seq_lib::group_to_multiset_ensures;

    let r = insert_sorted(s, x);
    if s.len() == 0 {
        assert(r =~= Seq::<Candidate>::empty().push(x));
    } else if goes_before(x, s[0]) {
        assert(r =~= seq![x] + s);
        assert forall|i: int, j: int| 0 <= i < j < r.len() implies !goes_before(#[trigger] r[j], #[trigger] r[i]) by {
            if i == 0 {
                assert(r[j] == s[j - 1]);
                if goes_before(s[j - 1], x) {
                    lemma_goes_before_transitive(s[j - 1], x, s[0]);
                    if j - 1 == 0 {
                        lemma_lex_irreflexive(s[0].2);
                    }
                }
            } else {
                assert(r[i] == s[i - 1] && r[j] == s[j - 1]);
            }
        }
        vstd::seq_lib::lemma_multiset_commutative(seq![x], s);
        assert(seq![x] =~= Seq::<Candidate>::empty().push(x));
    } else {
        let rest = s.drop_first();
        assert(in_listing_order(rest)) by {
            assert forall|i: int, j: int| 0 <= i < j < rest.len() implies !goes_before(#[trigger] rest[j], #[trigger] rest[i]) by {
                assert(rest[i] == s[i + 1] && rest[j] == s[j + 1]);
            }
        }
        lemma_insert_sorted(rest, x);
        let ir = insert_sorted(rest, x);
        assert(r =~= seq![s[0]] + ir);
        assert forall|i: int, j: int| 0 <= i < j < r.len() implies !goes_before(#[trigger] r[j], #[trigger] r[i]) by {
            if i == 0 {
                let y = r[j];
                assert(y == ir[j - 1]);
                assert(ir.to_multiset().count(y) > 0);
                if y != x {
                    assert(rest.to_multiset().count(y) > 0);
                    let k = choose|k: int| 0 <= k < rest.len() && rest[k] == y;
                    assert(s[k + 1] == y);
                }
            } else {
                assert(r[i] == ir[i - 1] && r[j] == ir[j - 1]);
            }
        }
        vstd::seq_lib::lemma_multiset_commutative(seq![s[0]], ir);
        vstd::seq_lib::lemma_multiset_commutative(seq![s[0]], rest);
        assert(seq![s[0]] + rest =~= s);
    }
}

/// The addresses come out ordered: a candidate never follows one it goes before (higher
/// priority first, then smaller IP text), and sorting neither drops nor adds a candidate.
pub proof fn candidates_sorted_by_priority_then_ip(s: Seq<Candidate>)
    ensures
        in_listing_order(sort_candidates(s)),
        sort_candidates(s).to_multiset() == s.to_multiset(),
    decreases s.len(),
{
    broadcast use vstd::seq_lib::group_to_multiset_ensures;

    if s.len() > 0 {
        candidates_sorted_by_priority_then_ip(s.drop_last());
        lemma_insert_sorted(sort_candidates(s.drop_last()), s.last());
        assert(s.drop_last().push(s.last()) =~= s);
    }
}

/// No two candidates have the same IP text.
pub open spec fn distinct_ips(s: Seq<Candidate>) -> bool {
    forall|i: int, j: int| 0 <= i < j < s.len() ==> (#[trigger] s[i]).2 != (#[trigger] s[j]).2
}

proof fn lemma_dedup_distinct(c: Seq<Candidate>)
    ensures
        distinct_ips(dedup_ips(c)),
    decreases c.len(),
{
    if c.len() > 0 {
        lemma_dedup_distinct(c.drop_last());
        let prev = dedup_ips(c.drop_last());
        let cur = dedup_ips(c);
        if !ip_taken(prev, c.last().2) {
            assert forall|i: int, j: int| 0 <= i < j < cur.len() implies (#[trigger] cur[i]).2 != (#[trigger] cur[j]).2 by {
                if j == cur.len() - 1 {
                    assert(cur[i] == prev[i]);
                } else {
                    assert(cur[i] == prev[i] && cur[j] == prev[j]);
                }
            }
        }
    }
}

/// Dropping repeated IPs keeps every IP and adds no candidate.
proof fn lemma_dedup_covers(c: Seq<Candidate>)
    ensures
        forall|k: int| 0 <= k < c.len() ==> ip_taken(dedup_ips(c), #[trigger] c[k].2),
        forall|k: int| 0 <= k < dedup_ips(c).len() ==> c.contains(#[trigger] dedup_ips(c)[k]),
    decreases c.len(),
{
    if c.len() > 0 {
        let rest = c.drop_last();
        lemma_dedup_covers(rest);
        let prev = dedup_ips(rest);
        let cur = dedup_ips(c);
        assert forall|k: int| 0 <= k < c.len() implies ip_taken(cur, #[trigger] c[k].2) by {
            if k < c.len() - 1 {
                assert(c[k] == rest[k]);
                assert(ip_taken(prev, rest[k].2));
                let w = choose|w: int| 0 <= w < prev.len() && prev[w].2 == rest[k].2;
                assert(cur[w] == prev[w]);
            } else if !ip_taken(prev, c.last().2) {
                assert(cur[cur.len() - 1] == c.last());
            }
        }
        assert forall|k: int| 0 <= k < cur.len() implies c.contains(#[trigger] cur[k]) by {
            if k < prev.len() {
                assert(cur[k] == prev[k]);
                assert(rest.contains(prev[k]));
                let w = choose|w: int| 0 <= w < rest.len() && rest[w] == prev[k];
                assert(c[w] == rest[w]);
            } else {
                assert(cur[k] == c[c.len() - 1]);
            }
        }
    }
}

/// The candidate an interface gives when it is kept.
pub open spec fn candidate_of(
    ifs: Seq<(Seq<char>, Option<Seq<u8>>)>,
    names: Seq<(Seq<char>, Seq<char>)>,
    i: int,
) -> Candidate {
    let name = ifs[i].0;
    let display = lookup_display(names, name);
    (
        priority_of(name, display)->0,
        Some(
            match display {
                Some(d) => d,
                None => name,
            },
        ),
        ipv4_text(ifs[i].1->0),
    )
}

proof fn lemma_collect_contains(
    ifs: Seq<(Seq<char>, Option<Seq<u8>>)>,
    names: Seq<(Seq<char>, Seq<char>)>,
    i: int,
)
    requires
        0 <= i < ifs.len(),
        priority_of(ifs[i].0, lookup_display(names, ifs[i].0)) is Some,
        ifs[i].1 matches Some(o) && o.len() == 4 && shareable_ipv4(o),
    ensures
        collect_candidates(ifs, names).contains(candidate_of(ifs, names, i)),
    decreases ifs.len(),
{
    let prev = collect_candidates(ifs.drop_last(), names);
    let cur = collect_candidates(ifs, names);
    if i == ifs.len() - 1 {
        assert(cur == prev.push(candidate_of(ifs, names, i)));
        assert(cur[prev.len() as int] == candidate_of(ifs, names, i));
    } else {
        assert(ifs.drop_last()[i] == ifs[i]);
        lemma_collect_contains(ifs.drop_last(), names, i);
        assert(candidate_of(ifs.drop_last(), names, i) == candidate_of(ifs, names, i));
        let w = choose|w: int| 0 <= w < prev.len() && prev[w] == candidate_of(ifs, names, i);
        assert(cur[w] == prev[w]);
    }
}

proof fn lemma_same_multiset_distinct(a: Seq<Candidate>, b: Seq<Candidate>)
    requires
        distinct_ips(a),
        a.to_multiset() == b.to_multiset(),
    ensures
        distinct_ips(b),
{
    broadcast use vstd::seq_lib::group_to_multiset_ensures;

    assert(a.no_duplicates()) by {
        assert forall|i: int, j: int| 0 <= i < a.len() && 0 <= j < a.len() && i != j implies a[i] != a[j] by {
            if i < j {
                assert(a[i].2 != a[j].2);
            } else {
                assert(a[j].2 != a[i].2);
            }
        }
    }
    a.lemma_multiset_has_no_duplicates();
    b.lemma_multiset_has_no_duplicates_conv();
    assert forall|i: int, j: int| 0 <= i < j < b.len() implies (#[trigger] b[i]).2 != (#[trigger] b[j]).2 by {
        if b[i].2 == b[j].2 {
            assert(b.to_multiset().count(b[i]) > 0);
            assert(b.to_multiset().count(b[j]) > 0);
            let k1 = choose|k: int| 0 <= k < a.len() && a[k] == b[i];
            let k2 = choose|k: int| 0 <= k < a.len() && a[k] == b[j];
            if k1 < k2 {
                assert(a[k1].2 != a[k2].2);
            } else if k2 < k1 {
                assert(a[k2].2 != a[k1].2);
            }
            assert(b[i] == b[j]);
        }
    }
}

/// An address is announced at most once: no two announced addresses have the same IP.
pub proof fn announced_ips_are_distinct(
    ifs: Seq<(Seq<char>, Option<Seq<u8>>)>,
    names: Seq<(Seq<char>, Seq<char>)>,
    fallback: Option<Seq<u8>>,
)
    ensures
        ({
            let a = announced_addresses(ifs, names, fallback);
            forall|i: int, j: int| 0 <= i < j < a.len() ==> (#[trigger] a[i]).1 != (#[trigger] a[j]).1
        }),
{
    let c = collect_candidates(ifs, names);
    let kept = dedup_ips(prefer_physical(c));
    lemma_dedup_distinct(prefer_physical(c));
    candidates_sorted_by_priority_then_ip(kept);
    let sorted = sort_candidates(kept);
    lemma_same_multiset_distinct(kept, sorted);
    let a = announced_addresses(ifs, names, fallback);
    if sorted.len() > 0 {
        assert forall|i: int, j: int| 0 <= i < j < a.len() implies (#[trigger] a[i]).1 != (#[trigger] a[j]).1 by {
            assert(a[i].1 == sorted[i].2 && a[j].1 == sorted[j].2);
        }
    }
}

/// A physical Ethernet or Wi-Fi address wins over all virtual adapters: when an interface
/// that is not excluded has physical priority and a shareable IPv4 address, that address is
/// announced, and every announced address comes from a physical interface.
pub proof fn physical_interfaces_win(
    ifs: Seq<(Seq<char>, Option<Seq<u8>>)>,
    names: Seq<(Seq<char>, Seq<char>)>,
    fallback: Option<Seq<u8>>,
    i: int,
)
    requires
        0 <= i < ifs.len(),
        priority_of(ifs[i].0, lookup_display(names, ifs[i].0)) matches Some(p) && p >= 80,
        ifs[i].1 matches Some(o) && o.len() == 4 && shareable_ipv4(o),
    ensures
        ({
            let a = announced_addresses(ifs, names, fallback);
            exists|j: int| 0 <= j < a.len() && (#[trigger] a[j]).1 == ipv4_text(ifs[i].1->0)
        }),
        ({
            let sorted = sort_candidates(dedup_ips(prefer_physical(collect_candidates(ifs, names))));
            forall|j: int| 0 <= j < sorted.len() ==> is_physical(#[trigger] sorted[j])
        }),
{
    broadcast use vstd::seq_lib::group_to_multiset_ensures;

    let c = collect_candidates(ifs, names);
    let p = |x: Candidate| is_physical(x);
    let x = candidate_of(ifs, names, i);
    lemma_collect_contains(ifs, names, i);
    let k = choose|k: int| 0 <= k < c.len() && c[k] == x;
    assert(is_physical(c[k]));
    let kept = prefer_physical(c);
    assert(kept == c.filter(p));
    c.lemma_filter_contains(p, k);
    let kx = choose|w: int| 0 <= w < kept.len() && kept[w] == x;
    let d = dedup_ips(kept);
    lemma_dedup_covers(kept);
    assert(ip_taken(d, kept[kx].2));
    let w = choose|w: int| 0 <= w < d.len() && d[w].2 == x.2;
    candidates_sorted_by_priority_then_ip(d);
    let sorted = sort_candidates(d);
    assert(d.to_multiset().count(d[w]) > 0);
    assert(sorted.contains(d[w]));
    let v = choose|v: int| 0 <= v < sorted.len() && sorted[v] == d[w];
    let a = announced_addresses(ifs, names, fallback);
    assert(sorted.len() > 0);
    assert(a[v].1 == sorted[v].2);
    assert forall|j: int| 0 <= j < sorted.len() implies is_physical(#[trigger] sorted[j]) by {
        assert(sorted.to_multiset().count(sorted[j]) > 0);
        assert(d.contains(sorted[j]));
        let m = choose|m: int| 0 <= m < d.len() && d[m] == sorted[j];
        assert(kept.contains(d[m]));
        let q = choose|q: int| 0 <= q < kept.len() && kept[q] == d[m];
        c.lemma_filter_pred(p, q);
    }
}

/// The prefixes written out: an interface whose lower-cased name begins with `lo`,
/// `loopback`, `utun`, `awdl`, `llw`, `gif`, `stf`, `p2p`, `ipsec`, `tap` or `tun` (loopback,
/// tunnels, peer-to-peer links) never carries a share.
pub open spec fn never_shared_prefix(p: Seq<char>) -> bool {
    p == "lo"@ || p == "loopback"@ || p == "utun"@ || p == "awdl"@ || p == "llw"@ || p == "gif"@
        || p == "stf"@ || p == "p2p"@ || p == "ipsec"@ || p == "tap"@ || p == "tun"@
}

/// An interface whose lower-cased name begins with one of those prefixes gets no priority,
/// whatever its display name.
pub proof fn excluded_interfaces_get_no_priority(
    name: Seq<char>,
    display: Option<Seq<char>>,
    prefix: Seq<char>,
)
    requires
        never_shared_prefix(prefix),
        has_prefix(ascii_lower_seq(name), prefix),
    ensures
        priority_of(name, display) is None,
{
    let d = match display {
        Some(d) => d,
        None => Seq::<char>::empty(),
    };
    let c = combined_interface_name(name, display);
    let lowered = ascii_lower_seq(name);
    assert(c.subrange(0, prefix.len() as int) =~= lowered.subrange(0, prefix.len() as int));
    assert(has_prefix(c, prefix));
    let e = excluded_prefixes();
    let j: int = if prefix == "lo"@ {
        0
    } else if prefix == "loopback"@ {
        1
    } else if prefix == "utun"@ {
        2
    } else if prefix == "awdl"@ {
        3
    } else if prefix == "llw"@ {
        4
    } else if prefix == "gif"@ {
        5
    } else if prefix == "stf"@ {
        6
    } else if prefix == "p2p"@ {
        7
    } else if prefix == "ipsec"@ {
        8
    } else if prefix == "tap"@ {
        9
    } else {
        10
    };
    assert(e[j] == prefix);
    assert(has_prefix(c, e[j]));
    assert(any_prefix(c, e));
}

/// The candidate `c` is the one the `i`-th interface gives, and that interface gets a
/// priority and has an IPv4 address.
pub open spec fn comes_from(
    ifs: Seq<(Seq<char>, Option<Seq<u8>>)>,
    names: Seq<(Seq<char>, Seq<char>)>,
    c: Candidate,
    i: int,
) -> bool {
    &&& 0 <= i < ifs.len()
    &&& priority_of(ifs[i].0, lookup_display(names, ifs[i].0)) is Some
    &&& ifs[i].1 is Some
    &&& c == candidate_of(ifs, names, i)
}

/// Some interface gives the candidate `c`.
pub open spec fn sourced(
    ifs: Seq<(Seq<char>, Option<Seq<u8>>)>,
    names: Seq<(Seq<char>, Seq<char>)>,
    c: Candidate,
) -> bool {
    exists|i: int| comes_from(ifs, names, c, i)
}

proof fn lemma_collect_sources(ifs: Seq<(Seq<char>, Option<Seq<u8>>)>, names: Seq<(Seq<char>, Seq<char>)>)
    ensures
        forall|k: int| 0 <= k < collect_candidates(ifs, names).len() ==> sourced(ifs, names, #[trigger] collect_candidates(ifs, names)[k]),
    decreases ifs.len(),
{
    if ifs.len() > 0 {
        let rest = ifs.drop_last();
        lemma_collect_sources(rest, names);
        let prev = collect_candidates(rest, names);
        let cur = collect_candidates(ifs, names);
        assert forall|k: int| 0 <= k < cur.len() implies sourced(ifs, names, #[trigger] cur[k]) by {
            if k < prev.len() {
                assert(cur[k] == prev[k]);
                let i = choose|i: int| comes_from(rest, names, prev[k], i);
                assert(rest[i] == ifs[i]);
                assert(candidate_of(rest, names, i) == candidate_of(ifs, names, i));
                assert(comes_from(ifs, names, cur[k], i));
            } else {
                let i = ifs.len() - 1;
                assert(cur != prev);
                assert(comes_from(ifs, names, cur[k], i));
            }
        }
        assert(cur == collect_candidates(ifs, names));
    } else {
        assert(collect_candidates(ifs, names).len() == 0);
    }
}

/// Every address a share is announced on (apart from the fallback, used only when no
/// interface qualifies) is an address of an interface that gets a priority, so never one of
/// an interface that is excluded by name.
pub proof fn announced_addresses_come_from_shared_interfaces(
    ifs: Seq<(Seq<char>, Option<Seq<u8>>)>,
    names: Seq<(Seq<char>, Seq<char>)>,
    fallback: Option<Seq<u8>>,
)
    ensures
        ({
            let sorted = sort_candidates(dedup_ips(prefer_physical(collect_candidates(ifs, names))));
            let a = announced_addresses(ifs, names, fallback);
            sorted.len() > 0 ==> forall|j: int| 0 <= j < a.len() ==> exists|i: int| 0 <= i < ifs.len()
                && priority_of(ifs[i].0, lookup_display(names, ifs[i].0)) is Some
                && ifs[i].1 is Some && (#[trigger] a[j]).1 == ipv4_text(ifs[i].1->0)
        }),
{
    broadcast use vstd::seq_lib::group_to_multiset_ensures;

    let c = collect_candidates(ifs, names);
    lemma_collect_sources(ifs, names);
    let kept = prefer_physical(c);
    let d = dedup_ips(kept);
    lemma_dedup_covers(kept);
    candidates_sorted_by_priority_then_ip(d);
    let sorted = sort_candidates(d);
    let a = announced_addresses(ifs, names, fallback);
    if sorted.len() > 0 {
        assert forall|j: int| 0 <= j < a.len() implies exists|i: int| 0 <= i < ifs.len()
            && priority_of(ifs[i].0, lookup_display(names, ifs[i].0)) is Some
            && ifs[i].1 is Some && (#[trigger] a[j]).1 == ipv4_text(ifs[i].1->0) by {
            assert(a[j].1 == sorted[j].2);
            assert(sorted.to_multiset().count(sorted[j]) > 0);
            assert(d.contains(sorted[j]));
            let m = choose|m: int| 0 <= m < d.len() && d[m] == sorted[j];
            assert(kept.contains(d[m]));
            if exists|t: int| 0 <= t < c.len() && is_physical(#[trigger] c[t]) {
                c.lemma_filter_contains_rev(|x: Candidate| is_physical(x), d[m]);
            }
            assert(c.contains(d[m]));
            let k = choose|k: int| 0 <= k < c.len() && c[k] == d[m];
            let i = choose|i: int| comes_from(ifs, names, c[k], i);
            assert(ifs[i].1 is Some && a[j].1 == ipv4_text(ifs[i].1->0));
        }
    }
}

} // verus!
