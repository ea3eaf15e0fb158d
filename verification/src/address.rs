use vstd::prelude::*;
use crate::text::{opt_text, same_text};
use libp2p::multiaddr::Protocol;
use libp2p::{Multiaddr, PeerId};

verus! {

#[verifier::external_type_specification]
#[verifier::external_body]
pub struct ExMultiaddr(Multiaddr);

/// Why a URL could not be turned into a multiaddress.
#[derive(Debug, Clone, Copy, PartialEq, Eq, Structural)]
pub enum FromUrlErr {
    /// The URL could not be parsed, or names no host.
    BadUrl,
    /// The URL's scheme is not the expected one.
    UnsupportedScheme,
    /// Part of the URL would be dropped from the address.
    InformationLoss,
}

/// An IP address read from text: a version 4 address as its 32-bit value,
/// a version 6 address as its 128-bit value (both in network order).
#[derive(Debug, Clone, Copy, PartialEq, Eq, Structural)]
pub enum IpValue {
    V4(u32),
    V6(u128),
}

/// One protocol of a multiaddress, as the translation sees it.
pub enum AddrPart {
    Ip4(u32),
    Ip6(u128),
    Dns(Seq<char>),
    Tcp(u16),
    /// A peer identity, by the bytes of its multihash.
    P2p(Seq<u8>),
}

/// One protocol to append to a multiaddress.
#[derive(Debug, Clone)]
pub enum AddrComponent {
    Ip4(u32),
    Ip6(u128),
    Dns(String),
    Tcp(u16),
    /// A peer identity, by its base-58 text.
    P2p(String),
}

/// The parts of a parsed URL that the translation reads.
#[derive(Debug, Clone)]
pub struct UrlParts {
    pub scheme: String,
    pub username: String,
    pub password: Option<String>,
    pub host: Option<String>,
    pub port: Option<u16>,
    pub path: String,
    pub query: Option<String>,
    pub fragment: Option<String>,
}

/// `UrlParts` with each text as its characters.
pub struct UrlView {
    pub scheme: Seq<char>,
    pub username: Seq<char>,
    pub password: Option<Seq<char>>,
    pub host: Option<Seq<char>>,
    pub port: Option<u16>,
    pub path: Seq<char>,
    pub query: Option<Seq<char>>,
    pub fragment: Option<Seq<char>>,
}

impl View for UrlParts {
    type V = UrlView;

    open spec fn view(&self) -> UrlView {
        UrlView {
            scheme: self.scheme@,
            username: self.username@,
            password: opt_text(self.password),
            host: opt_text(self.host),
            port: self.port,
            path: self.path@,
            query: opt_text(self.query),
            fragment: opt_text(self.fragment),
        }
    }
}

pub open spec fn opt_url_view(o: Option<UrlParts>) -> Option<UrlView> {
    match o {
        Some(p) => Some(p@),
        None => None,
    }
}

/// What `url::Url::parse` makes of a text: `None` where it fails, else the
/// parts of the URL that the translation reads.
pub uninterp spec fn url_parse(input: Seq<char>) -> Option<UrlView>;

/// What parsing a text as `IpAddr` (std's `FromStr`) gives.
pub uninterp spec fn ip_from_text(text: Seq<char>) -> Option<IpValue>;

/// What `PeerId::from_str` makes of a text: `None` where it fails, else the
/// bytes of the peer identity.
pub uninterp spec fn peer_id_from_text(text: Seq<char>) -> Option<Seq<u8>>;

/// The protocols that a multiaddress holds, in order.
pub uninterp spec fn multiaddr_parts(addr: Multiaddr) -> Seq<AddrPart>;

impl View for AddrComponent {
    type V = AddrPart;

    open spec fn view(&self) -> AddrPart {
        match self {
            AddrComponent::Ip4(a) => AddrPart::Ip4(*a),
            AddrComponent::Ip6(a) => AddrPart::Ip6(*a),
            AddrComponent::Dns(name) => AddrPart::Dns(name@),
            AddrComponent::Tcp(port) => AddrPart::Tcp(*port),
            AddrComponent::P2p(id) => AddrPart::P2p(peer_id_from_text(id@)->0),
        }
    }
}

/// A component can be written into a multiaddress: a peer identity must parse.
pub open spec fn component_writable(c: AddrComponent) -> bool {
    match c {
        AddrComponent::P2p(id) => peer_id_from_text(id@) is Some,
        _ => true,
    }
}

/// Calls `url::Url::parse` and reads the scheme, user name, password, host,
/// port, path, query and fragment of the URL; `None` where parsing fails.
/// Claimed: the result is the named result `url_parse` of the input.
#[verifier::external_body]
fn parse_url(input: &str) -> (r: Option<UrlParts>)
    ensures
        opt_url_view(r) == url_parse(input@),
{
    match url::Url::parse(input) {
        Ok(u) => Some(UrlParts {
            scheme: u.scheme().to_owned(),
            username: u.username().to_owned(),
            password: u.password().map(str::to_owned),
            host: u.host_str().map(str::to_owned),
            port: u.port(),
            path: u.path().to_owned(),
            query: u.query().map(str::to_owned),
            fragment: u.fragment().map(str::to_owned),
        }),
        Err(_) => None,
    }
}

/// Calls std's `FromStr` for `IpAddr` and gives the address's integer value.
/// Claimed: the result is the named result `ip_from_text` of the text.
#[verifier::external_body]
fn parse_ip(text: &str) -> (r: Option<IpValue>)
    ensures
        r == ip_from_text(text@),
{
    match text.parse::<core::net::IpAddr>() {
        Ok(core::net::IpAddr::V4(a)) => Some(IpValue::V4(u32::from(a))),
        Ok(core::net::IpAddr::V6(a)) => Some(IpValue::V6(u128::from(a))),
        Err(_) => None,
    }
}

/// Calls `PeerId::from_str` and tells whether it succeeded.
/// Claimed: that is whether the named result `peer_id_from_text` is `Some`.
#[verifier::external_body]
fn is_peer_id(text: &str) -> (r: bool)
    ensures
        r == (peer_id_from_text(text@) is Some),
{
    text.parse::<PeerId>().is_ok()
}

/// Calls `Multiaddr::empty`. Claimed: the new address holds no protocol.
#[verifier::external_body]
fn multiaddr_empty() -> (r: Multiaddr)
    ensures
        multiaddr_parts(r) == Seq::<AddrPart>::empty(),
{
    Multiaddr::empty()
}

/// Calls `Multiaddr::push` with the `Protocol` that the component stands for
/// (a peer identity is read with `PeerId::from_str`, which the `requires`
/// says succeeds). Claimed: the protocol is appended to what the address holds.
#[verifier::external_body]
fn multiaddr_push(addr: &mut Multiaddr, c: &AddrComponent)
    requires
        component_writable(*c),
    ensures
        multiaddr_parts(*final(addr)) == multiaddr_parts(*old(addr)).push(c@),
{
    let protocol = match c {
        AddrComponent::Ip4(a) => Protocol::Ip4((*a).into()),
        AddrComponent::Ip6(a) => Protocol::Ip6((*a).into()),
        AddrComponent::Dns(name) => Protocol::Dns(name.clone().into()),
        AddrComponent::Tcp(port) => Protocol::Tcp(*port),
        AddrComponent::P2p(id) => Protocol::P2p(id.parse::<PeerId>().expect("peer id was checked")),
    };
    addr.push(protocol);
}

/// Splitting a path at '/': the pieces finished so far, and the piece under way.
pub open spec fn split_state(s: Seq<char>) -> (Seq<Seq<char>>, Seq<char>)
    decreases s.len(),
{
    if s.len() == 0 {
        (Seq::empty(), Seq::empty())
    } else {
        let (done, cur) = split_state(s.drop_last());
        if s.last() == '/' {
            if cur.len() > 0 {
                (done.push(cur), Seq::empty())
            } else {
                (done, Seq::empty())
            }
        } else {
            (done, cur.push(s.last()))
        }
    }
}

/// The non-empty pieces of a path between '/' characters, in order.
pub open spec fn path_segments(s: Seq<char>) -> Seq<Seq<char>> {
    let (done, cur) = split_state(s);
    if cur.len() > 0 {
        done.push(cur)
    } else {
        done
    }
}

/// The peer-identity text of a path of the form `/p2p/<peer id>`: exactly two
/// non-empty segments, the first `p2p` and the second a valid peer identity.
pub open spec fn spec_extract_peer_id(path: Seq<char>) -> Option<Seq<char>> {
    let segs = path_segments(path);
    if segs.len() == 2 && segs[0] == "p2p"@ && peer_id_from_text(segs[1]) is Some {
        Some(segs[1])
    } else {
        None
    }
}

/// The start and end (character indices) of each non-empty segment of a path.
fn segment_bounds(path: &str) -> (r: Vec<(usize, usize)>)
    ensures
        r@.len() == path_segments(path@).len(),
        forall|k: int|
            #![trigger r@[k]]
            0 <= k < r@.len() ==> {
                &&& r@[k].0 <= r@[k].1 <= path@.len()
                &&& path@.subrange(r@[k].0 as int, r@[k].1 as int) == path_segments(path@)[k]
            },
{
    let n = path.unicode_len();
    let mut bounds: Vec<(usize, usize)> = Vec::new();
    let mut start: usize = 0;
    let mut i: usize = 0;
    while i < n
        invariant
            n == path@.len(),
            start <= i <= n,
            split_state(path@.take(i as int)).1 == path@.subrange(start as int, i as int),
            bounds@.len() == split_state(path@.take(i as int)).0.len(),
            forall|k: int|
                #![trigger bounds@[k]]
                0 <= k < bounds@.len() ==> {
                    &&& bounds@[k].0 <= bounds@[k].1 <= i
                    &&& path@.subrange(bounds@[k].0 as int, bounds@[k].1 as int) == split_state(
                        path@.take(i as int),
                    ).0[k]
                },
        decreases n - i,
    {
        let c = path.get_char(i);
        let ghost prev = path@.take(i as int);
        let ghost next = path@.take(i + 1);
        let ghost old_bounds = bounds@;
        let ghost old_done = split_state(prev).0;
        let ghost old_cur = split_state(prev).1;
        assert(next.drop_last() =~= prev);
        assert(next.last() == c);
        if c == '/' {
            if start < i {
                bounds.push((start, i));
                assert(split_state(next).0 == old_done.push(old_cur));
            } else {
                assert(split_state(next).0 == old_done);
            }
            start = i + 1;
            assert(path@.subrange(start as int, (i + 1) as int) =~= Seq::<char>::empty());
            assert(split_state(next).1 =~= Seq::<char>::empty());
        } else {
            assert(split_state(next).0 == old_done);
            assert(split_state(next).1 == old_cur.push(c));
            assert(path@.subrange(start as int, (i + 1) as int) =~= path@.subrange(
                start as int,
                i as int,
            ).push(c));
        }
        i = i + 1;
        assert forall|k: int| #![trigger bounds@[k]] 0 <= k < bounds@.len() implies {
            &&& bounds@[k].0 <= bounds@[k].1 <= i
            &&& path@.subrange(bounds@[k].0 as int, bounds@[k].1 as int) == split_state(
                path@.take(i as int),
            ).0[k]
        } by {
            if k < old_bounds.len() {
                assert(bounds@[k] == old_bounds[k]);
                assert(split_state(prev).0[k] == old_done[k]);
            }
        }
    }
    assert(path@.take(n as int) =~= path@);
    let ghost done = split_state(path@).0;
    let ghost old_bounds = bounds@;
    if start < n {
        bounds.push((start, n));
    }
    assert forall|k: int| #![trigger bounds@[k]] 0 <= k < bounds@.len() implies {
        &&& bounds@[k].0 <= bounds@[k].1 <= path@.len()
        &&& path@.subrange(bounds@[k].0 as int, bounds@[k].1 as int) == path_segments(path@)[k]
    } by {
        if k < old_bounds.len() {
            assert(bounds@[k] == old_bounds[k]);
            assert(path_segments(path@)[k] == done[k]);
        }
    }
    bounds
}

/// Finds the peer identity in a path of the form `/p2p/<peer id>` (empty
/// segments ignored) and gives its text.
pub fn extract_peer_id(path: &str) -> (r: Option<&str>)
    ensures
        match r {
            Some(t) => spec_extract_peer_id(path@) == Some(t@),
            None => spec_extract_peer_id(path@) is None,
        },
{
    let bounds = segment_bounds(path);
    if bounds.len() != 2 {
        return None;
    }
    let first = path.substring_char(bounds[0].0, bounds[0].1);
    let second = path.substring_char(bounds[1].0, bounds[1].1);
    assert(first@ == path_segments(path@)[0]);
    assert(second@ == path_segments(path@)[1]);
    if same_text(first, "p2p") && is_peer_id(second) {
        Some(second)
    } else {
        None
    }
}

/// The protocol that a URL's host becomes: an IP protocol where the host
/// reads as an IP address, else a DNS name.
pub open spec fn spec_host_part(host: Seq<char>) -> AddrPart {
    match ip_from_text(host) {
        Some(IpValue::V4(a)) => AddrPart::Ip4(a),
        Some(IpValue::V6(a)) => AddrPart::Ip6(a),
        None => AddrPart::Dns(host),
    }
}

/// The URL carries a user name, a password, a query or a fragment.
pub open spec fn carries_extras(u: UrlView) -> bool {
    u.username.len() > 0 || u.password is Some || u.query is Some || u.fragment is Some
}

/// The path says something that the address cannot hold: it is not empty
/// and not just "/".
pub open spec fn path_is_meaningful(path: Seq<char>) -> bool {
    path != "/"@ && path.len() > 0
}

/// The address that `from_url` makes of a parsed URL, or the error it reports.
pub open spec fn spec_address_from_url(
    name: Seq<char>,
    u: UrlView,
    lossy: bool,
    default_port: u16,
) -> Result<Seq<AddrPart>, FromUrlErr> {
    if u.scheme != name {
        Err(FromUrlErr::UnsupportedScheme)
    } else {
        match u.host {
            None => Err(FromUrlErr::BadUrl),
            Some(h) => {
                if !lossy && carries_extras(u) {
                    Err(FromUrlErr::InformationLoss)
                } else {
                    let port = match u.port {
                        Some(p) => p,
                        None => default_port,
                    };
                    let base = seq![spec_host_part(h), AddrPart::Tcp(port)];
                    match spec_extract_peer_id(u.path) {
                        Some(t) => Ok(base.push(AddrPart::P2p(peer_id_from_text(t)->0))),
                        None => {
                            if !lossy && path_is_meaningful(u.path) {
                                Err(FromUrlErr::InformationLoss)
                            } else {
                                Ok(base)
                            }
                        },
                    }
                }
            },
        }
    }
}

/// The address that `from_url` makes of a URL text, or the error it reports.
pub open spec fn spec_from_url(
    name: Seq<char>,
    url: Seq<char>,
    lossy: bool,
    default_port: u16,
) -> Result<Seq<AddrPart>, FromUrlErr> {
    match url_parse(url) {
        None => Err(FromUrlErr::BadUrl),
        Some(u) => spec_address_from_url(name, u, lossy, default_port),
    }
}

/// An address result as the protocols it holds.
pub open spec fn addr_result_view(r: Result<Multiaddr, FromUrlErr>) -> Result<Seq<AddrPart>, FromUrlErr> {
    match r {
        Ok(a) => Ok(multiaddr_parts(a)),
        Err(e) => Err(e),
    }
}

/// Turns the parts of a parsed URL into a multiaddress: host (IP or DNS),
/// then TCP port (the URL's, else `default_port`), then the peer identity
/// of a `/p2p/<id>` path. Unless `lossy`, a URL whose user name, password,
/// query, fragment or other path would be dropped is refused.
pub fn address_from_url(name: &str, parts: &UrlParts, lossy: bool, default_port: u16) -> (r: Result<
    Multiaddr,
    FromUrlErr,
>)
    ensures
        addr_result_view(r) == spec_address_from_url(name@, parts@, lossy, default_port),
{
    if !same_text(parts.scheme.as_str(), name) {
        return Err(FromUrlErr::UnsupportedScheme);
    }
    let port = match parts.port {
        Some(p) => p,
        None => default_port,
    };
    let host_part = match &parts.host {
        Some(h) => match parse_ip(h.as_str()) {
            Some(IpValue::V4(a)) => AddrComponent::Ip4(a),
            Some(IpValue::V6(a)) => AddrComponent::Ip6(a),
            None => AddrComponent::Dns(h.clone()),
        },
        None => return Err(FromUrlErr::BadUrl),
    };
    if !lossy && (!parts.username.as_str().is_empty() || parts.password.is_some()
        || parts.query.is_some() || parts.fragment.is_some()) {
        return Err(FromUrlErr::InformationLoss);
    }
    let ghost base = seq![host_part@, AddrPart::Tcp(port)];
    let mut addr = multiaddr_empty();
    multiaddr_push(&mut addr, &host_part);
    multiaddr_push(&mut addr, &AddrComponent::Tcp(port));
    assert(multiaddr_parts(addr) =~= base);
    proof {
        let h = parts@.host->0;
        assert(host_part@ == spec_host_part(h));
    }
    let path = parts.path.as_str();
    match extract_peer_id(path) {
        Some(id) => {
            let c = AddrComponent::P2p(String::from_str(id));
            multiaddr_push(&mut addr, &c);
        },
        None => {
            if !lossy && !same_text(path, "/") && !path.is_empty() {
                return Err(FromUrlErr::InformationLoss);
            }
        },
    }
    Ok(addr)
}

/// Turns a URL with scheme `name` into a multiaddress: see `address_from_url`;
/// a text that does not parse as a URL is `BadUrl`.
pub fn from_url<'a>(name: &'a str, url: &str, lossy: bool, default_port: u16) -> (r: Result<
    Multiaddr,
    FromUrlErr,
>)
    ensures
        addr_result_view(r) == spec_from_url(name@, url@, lossy, default_port),
{
    match parse_url(url) {
        Some(parts) => address_from_url(name, &parts, lossy, default_port),
        None => Err(FromUrlErr::BadUrl),
    }
}

/// With `lossy` set, the translation never reports `InformationLoss`.
pub proof fn lemma_lossy_never_loses_information(
    name: Seq<char>,
    url: Seq<char>,
    default_port: u16,
)
    ensures
        spec_from_url(name, url, true, default_port) != Err::<Seq<AddrPart>, FromUrlErr>(
            FromUrlErr::InformationLoss,
        ),
{
}

/// The strict and the lossy translation of a URL agree, except where the
/// strict one reports `InformationLoss`: in particular, an address that the
/// strict translation gives is the one that the lossy translation gives.
pub proof fn lemma_lossy_agrees_with_strict(name: Seq<char>, url: Seq<char>, default_port: u16)
    ensures
        spec_from_url(name, url, false, default_port) == spec_from_url(
            name,
            url,
            true,
            default_port,
        ) || spec_from_url(name, url, false, default_port) == Err::<Seq<AddrPart>, FromUrlErr>(
            FromUrlErr::InformationLoss,
        ),
{
}

/// An address made from a URL is the host (an IP or DNS protocol), then the
/// TCP port (the URL's own, else the default), then at most a peer identity.
pub proof fn lemma_address_shape(name: Seq<char>, url: Seq<char>, lossy: bool, default_port: u16)
    ensures
        spec_from_url(name, url, lossy, default_port) matches Ok(ps) ==> {
            let u = url_parse(url)->0;
            &&& ps.len() == 2 || ps.len() == 3
            &&& ps[0] is Ip4 || ps[0] is Ip6 || ps[0] is Dns
            &&& ps[1] == AddrPart::Tcp(
                match u.port {
                    Some(p) => p,
                    None => default_port,
                },
            )
            &&& ps.len() == 3 ==> ps[2] is P2p
            &&& ps.len() == 3 <==> spec_extract_peer_id(u.path) is Some
        },
{
}

/// Splitting `s + t`, where `t` holds no '/', only extends the piece under
/// way by `t`.
proof fn lemma_split_without_slash(s: Seq<char>, t: Seq<char>)
    requires
        forall|i: int| 0 <= i < t.len() ==> t[i] != '/',
    ensures
        split_state(s + t) == (split_state(s).0, split_state(s).1 + t),
    decreases t.len(),
{
    if t.len() == 0 {
        assert(s + t =~= s);
        assert(split_state(s).1 + t =~= split_state(s).1);
    } else {
        let t0 = t.drop_last();
        lemma_split_without_slash(s, t0);
        assert((s + t).drop_last() =~= s + t0);
        assert((s + t).last() == t.last());
        assert((split_state(s).1 + t0).push(t.last()) =~= split_state(s).1 + t);
    }
}

/// A path `/p2p/<id>`, where `<id>` is a text that reads as a peer identity
/// (and so is not empty and holds no '/'), gives back that text.
pub proof fn lemma_p2p_path_gives_peer_id(id: Seq<char>)
    requires
        id.len() > 0,
        forall|i: int| 0 <= i < id.len() ==> id[i] != '/',
        peer_id_from_text(id) is Some,
    ensures
        spec_extract_peer_id("/p2p/"@ + id) == Some(id),
{
    reveal_strlit("/p2p/");
    reveal_strlit("p2p");
    let p2p = seq!['p', '2', 'p'];
    let s1 = seq!['/'];
    let s2 = seq!['/', 'p'];
    let s3 = seq!['/', 'p', '2'];
    let s4 = seq!['/', 'p', '2', 'p'];
    let s5 = seq!['/', 'p', '2', 'p', '/'];
    assert(s1.drop_last() =~= Seq::<char>::empty());
    assert(split_state(Seq::<char>::empty()).0 =~= Seq::<Seq<char>>::empty());
    assert(split_state(Seq::<char>::empty()).1 =~= Seq::<char>::empty());
    assert(s1.last() == '/');
    assert(split_state(s1).0 =~= Seq::<Seq<char>>::empty());
    assert(split_state(s1).1 =~= Seq::<char>::empty());
    assert(s2.drop_last() =~= s1);
    assert(split_state(s2).1 =~= seq!['p']);
    assert(s3.drop_last() =~= s2);
    assert(split_state(s3).1 =~= seq!['p', '2']);
    assert(s4.drop_last() =~= s3);
    assert(split_state(s4).1 =~= p2p);
    assert(split_state(s4).0 =~= Seq::<Seq<char>>::empty());
    assert(s5.drop_last() =~= s4);
    assert(split_state(s5).0 =~= seq![p2p]);
    assert(split_state(s5).1 =~= Seq::<char>::empty());
    assert("/p2p/"@ =~= s5);
    assert("p2p"@ =~= p2p);
    lemma_split_without_slash(s5, id);
    assert(Seq::<char>::empty() + id =~= id);
    assert(path_segments(s5 + id) =~= seq![p2p, id]);
}

/// A URL whose scheme is not `name` is refused with `UnsupportedScheme`,
/// whatever its host, path, extras or mode.
pub proof fn lemma_wrong_scheme_is_refused(
    name: Seq<char>,
    url: Seq<char>,
    lossy: bool,
    default_port: u16,
)
    requires
        url_parse(url) is Some,
        url_parse(url)->0.scheme != name,
    ensures
        spec_from_url(name, url, lossy, default_port) == Err::<Seq<AddrPart>, FromUrlErr>(
            FromUrlErr::UnsupportedScheme,
        ),
{
}

/// A text that is no URL, or a URL of the right scheme without a host, is
/// refused with `BadUrl`.
pub proof fn lemma_bad_url_is_refused(
    name: Seq<char>,
    url: Seq<char>,
    lossy: bool,
    default_port: u16,
)
    requires
        url_parse(url) is None || (url_parse(url)->0.scheme == name && url_parse(url)->0.host is None),
    ensures
        spec_from_url(name, url, lossy, default_port) == Err::<Seq<AddrPart>, FromUrlErr>(
            FromUrlErr::BadUrl,
        ),
{
}

/// In strict mode, a URL of the right scheme with a host that carries a
/// user name, a password, a query or a fragment is refused with
/// `InformationLoss`, whatever its path (a peer identity included).
pub proof fn lemma_strict_refuses_extras(name: Seq<char>, url: Seq<char>, default_port: u16)
    requires
        url_parse(url) is Some,
        url_parse(url)->0.scheme == name,
        url_parse(url)->0.host is Some,
        url_parse(url)->0.username.len() > 0 || url_parse(url)->0.password is Some
            || url_parse(url)->0.query is Some || url_parse(url)->0.fragment is Some,
    ensures
        spec_from_url(name, url, false, default_port) == Err::<Seq<AddrPart>, FromUrlErr>(
            FromUrlErr::InformationLoss,
        ),
{
}

/// A URL of the right scheme with host `h`, no user name, password, query or
/// fragment, and the path `/p2p/<id>` for a text `<id>` that reads as a peer
/// identity, becomes (strict or lossy, IP or DNS host alike) the host, the TCP
/// port (the URL's, else the default) and that peer identity.
pub proof fn lemma_peer_url_gives_full_address(
    name: Seq<char>,
    url: Seq<char>,
    lossy: bool,
    default_port: u16,
    id: Seq<char>,
)
    requires
        url_parse(url) is Some,
        url_parse(url)->0.scheme == name,
        url_parse(url)->0.host is Some,
        url_parse(url)->0.username.len() == 0,
        url_parse(url)->0.password is None,
        url_parse(url)->0.query is None,
        url_parse(url)->0.fragment is None,
        url_parse(url)->0.path == "/p2p/"@ + id,
        id.len() > 0,
        forall|i: int| 0 <= i < id.len() ==> id[i] != '/',
        peer_id_from_text(id) is Some,
    ensures
        ({
            let u = url_parse(url)->0;
            let h = u.host->0;
            let port = match u.port {
                Some(p) => p,
                None => default_port,
            };
            let host = match ip_from_text(h) {
                Some(IpValue::V4(a)) => AddrPart::Ip4(a),
                Some(IpValue::V6(a)) => AddrPart::Ip6(a),
                None => AddrPart::Dns(h),
            };
            spec_from_url(name, url, lossy, default_port) == Ok::<Seq<AddrPart>, FromUrlErr>(
                seq![host, AddrPart::Tcp(port), AddrPart::P2p(peer_id_from_text(id)->0)],
            )
        }),
{
    lemma_p2p_path_gives_peer_id(id);
    let u = url_parse(url)->0;
    let port = match u.port {
        Some(p) => p,
        None => default_port,
    };
    let base = seq![spec_host_part(u.host->0), AddrPart::Tcp(port)];
    assert(base.push(AddrPart::P2p(peer_id_from_text(id)->0)) =~= seq![
        spec_host_part(u.host->0),
        AddrPart::Tcp(port),
        AddrPart::P2p(peer_id_from_text(id)->0),
    ]);
}

} // verus!
