//! URL related types

use std::collections::hash_map::DefaultHasher;
use std::hash::Hasher;
use std::path::PathBuf;
use url::{ParseError, Url};
use vstd::prelude::*;

use crate::string::{
    chars_of,
    ends_with,
    find_last,
    last_index_of,
    skip_leading,
    starts_with,
    str_equal,
    without_leading,
};
use vstd::std_specs::hash::DefaultHasherAdditionalSpecFns;
use vstd::string::*;
use vstd::utf8::encode_utf8;

verus! {

/// A parsed URL of the `url` crate. Verus sees nothing inside it.
#[verifier::external_type_specification]
#[verifier::external_body]
pub struct ExUrl(Url);

/// The reasons for which the `url` crate refuses a string.
#[verifier::external_type_specification]
#[verifier::external_body]
pub struct ExParseError(ParseError);

/// An owned file system path of the standard library.
#[verifier::external_type_specification]
#[verifier::external_body]
pub struct ExPathBuf(PathBuf);

/// The serialization of a URL: what `Url::as_str` returns. A `Url` compares
/// like its serialization, and its components are read out of it, but for the
/// kind of its host.
pub uninterp spec fn url_text(url: Url) -> Seq<char>;

/// The serialization of the URL that `Url::parse` makes of `input`, or `None`
/// where it refuses `input`.
pub uninterp spec fn url_parse(input: Seq<char>) -> Option<Seq<char>>;

/// The serialization of the URL that `Url::join` makes of `input` against
/// the base URL with the serialization `base`, or `None` where it refuses.
pub uninterp spec fn url_join(base: Seq<char>, input: Seq<char>) -> Option<Seq<char>>;

/// What `Url::scheme` returns for the URL with the serialization `text`.
pub uninterp spec fn url_scheme(text: Seq<char>) -> Seq<char>;

/// What `Url::cannot_be_a_base` returns for the URL with the serialization `text`.
pub uninterp spec fn url_cannot_be_a_base(text: Seq<char>) -> bool;

/// What `Url::fragment` returns for the URL with the serialization `text`.
pub uninterp spec fn url_fragment(text: Seq<char>) -> Option<Seq<char>>;

/// What `Url::path` returns for the URL with the serialization `text`.
pub uninterp spec fn url_path(text: Seq<char>) -> Seq<char>;

/// What `Url::username` returns for the URL with the serialization `text`.
pub uninterp spec fn url_username(text: Seq<char>) -> Seq<char>;

/// What `Url::password` returns for the URL with the serialization `text`.
pub uninterp spec fn url_password(text: Seq<char>) -> Option<Seq<char>>;

/// What `Url::host_str` returns for the URL with the serialization `text`.
pub uninterp spec fn url_host_str(text: Seq<char>) -> Option<Seq<char>>;

/// What `Url::host` returns for a URL. The kind of host is kept beside the
/// serialization: two URLs with the same serialization can have hosts of
/// different kinds, so this is a function of the URL and not of its text.
pub uninterp spec fn url_host(url: Url) -> Option<HostView>;

/// The domain name that a host is, if it is one.
pub open spec fn domain_of_host(host: Option<HostView>) -> Option<Seq<char>> {
    match host {
        Some(HostView::Domain(domain)) => Some(domain),
        _ => None,
    }
}

/// What `Url::port` returns for the URL with the serialization `text`.
pub uninterp spec fn url_port(text: Seq<char>) -> Option<u16>;

/// What `Url::port_or_known_default` returns for the URL with the serialization `text`.
pub uninterp spec fn url_port_or_known_default(text: Seq<char>) -> Option<u16>;

/// What `Url::query` returns for the URL with the serialization `text`.
pub uninterp spec fn url_query(text: Seq<char>) -> Option<Seq<char>>;

/// The segments that `Url::path_segments` walks through for the URL with the
/// serialization `text`, in order, or `None` where it returns `None`.
pub uninterp spec fn url_path_segments(text: Seq<char>) -> Option<Seq<Seq<char>>>;

/// Scheme, host and port of the origin that `Url::origin` gives the URL with
/// the serialization `text`, or `None` where that origin is opaque.
pub uninterp spec fn url_origin(text: Seq<char>) -> Option<(Seq<char>, HostView, u16)>;

/// The serialization after `Url::set_username` with `username` on the URL
/// with the serialization `text`, or `None` where it refuses.
pub uninterp spec fn url_with_username(text: Seq<char>, username: Seq<char>) -> Option<Seq<char>>;

/// The serialization after `Url::set_password` with `password` on the URL
/// with the serialization `text`, or `None` where it refuses.
pub uninterp spec fn url_with_password(text: Seq<char>, password: Option<Seq<char>>) -> Option<
    Seq<char>,
>;

/// The serialization after `Url::set_fragment` with `fragment` on the URL
/// with the serialization `text`.
pub uninterp spec fn url_with_fragment(text: Seq<char>, fragment: Option<Seq<char>>) -> Seq<char>;

/// Scheme, host and port that an origin of the `url` crate holds, or `None`
/// for an opaque one.
pub uninterp spec fn origin_tuple(origin: url::Origin) -> Option<(Seq<char>, HostView, u16)>;

/// An origin of the `url` crate.
#[verifier::external_type_specification]
#[verifier::external_body]
pub struct ExOrigin(url::Origin);

/// `Url::as_str` returns the serialization.
pub assume_specification[ Url::as_str ](url: &Url) -> (text: &str)
    ensures
        text@ == url_text(*url),
;

/// The derived `Clone` of `Url` copies every field: the copy has the same
/// serialization and the same host.
pub assume_specification[ <Url as Clone>::clone ](url: &Url) -> (copy: Url)
    ensures
        url_text(copy) == url_text(*url),
        url_host(copy) == url_host(*url),
;

/// URLs compare like their serialization.
pub assume_specification[ <Url as PartialEq>::eq ](a: &Url, b: &Url) -> (same: bool)
    ensures
        same == (url_text(*a) == url_text(*b)),
;

/// `Url::parse` depends on its input alone.
pub assume_specification[ Url::parse ](input: &str) -> (parsed: Result<Url, ParseError>)
    ensures
        match parsed {
            Ok(url) => url_parse(input@) == Some(url_text(url)),
            Err(_) => url_parse(input@) is None,
        },
;

/// `Url::join` depends on the base URL and its input alone.
pub assume_specification[ Url::join ](url: &Url, input: &str) -> (parsed: Result<Url, ParseError>)
    ensures
        match parsed {
            Ok(joined) => url_join(url_text(*url), input@) == Some(url_text(joined)),
            Err(_) => url_join(url_text(*url), input@) is None,
        },
;

/// `Url::scheme` reads the scheme out of the serialization.
pub assume_specification[ Url::scheme ](url: &Url) -> (scheme: &str)
    ensures
        scheme@ == url_scheme(url_text(*url)),
;

/// `Url::cannot_be_a_base` depends on the serialization alone.
pub assume_specification[ Url::cannot_be_a_base ](url: &Url) -> (b: bool)
    ensures
        b == url_cannot_be_a_base(url_text(*url)),
;

/// `Url::domain` returns the text of the host where `Url::host` returns a
/// domain, and `None` where it returns an address or nothing.
pub assume_specification[ Url::domain ](url: &Url) -> (domain: Option<&str>)
    ensures
        str_option_view(domain) == domain_of_host(url_host(*url)),
;

/// `Url::fragment` depends on the serialization alone.
pub assume_specification[ Url::fragment ](url: &Url) -> (fragment: Option<&str>)
    ensures
        match fragment {
            Some(s) => url_fragment(url_text(*url)) == Some(s@),
            None => url_fragment(url_text(*url)) is None,
        },
;

/// `Url::path` depends on the serialization alone.
pub assume_specification[ Url::path ](url: &Url) -> (path: &str)
    ensures
        path@ == url_path(url_text(*url)),
;

/// `Url::username` depends on the serialization alone.
pub assume_specification[ Url::username ](url: &Url) -> (username: &str)
    ensures
        username@ == url_username(url_text(*url)),
;

/// `Url::password` depends on the serialization alone.
pub assume_specification[ Url::password ](url: &Url) -> (password: Option<&str>)
    ensures
        match password {
            Some(s) => url_password(url_text(*url)) == Some(s@),
            None => url_password(url_text(*url)) is None,
        },
;

/// `Url::host_str` depends on the serialization alone.
pub assume_specification[ Url::host_str ](url: &Url) -> (host: Option<&str>)
    ensures
        match host {
            Some(s) => url_host_str(url_text(*url)) == Some(s@),
            None => url_host_str(url_text(*url)) is None,
        },
;

/// `Url::port` depends on the serialization alone.
pub assume_specification[ Url::port ](url: &Url) -> (port: Option<u16>)
    ensures
        port == url_port(url_text(*url)),
;

/// `Url::port_or_known_default` depends on the serialization alone.
pub assume_specification[ Url::port_or_known_default ](url: &Url) -> (port: Option<u16>)
    ensures
        port == url_port_or_known_default(url_text(*url)),
;

/// `Url::query` depends on the serialization alone.
pub assume_specification[ Url::query ](url: &Url) -> (query: Option<&str>)
    ensures
        match query {
            Some(s) => url_query(url_text(*url)) == Some(s@),
            None => url_query(url_text(*url)) is None,
        },
;

/// `Url::origin` depends on the serialization alone, but for the identity of
/// an opaque origin.
pub assume_specification[ Url::origin ](url: &Url) -> (origin: url::Origin)
    ensures
        origin_tuple(origin) == url_origin(url_text(*url)),
;

/// `Url::set_username` changes the URL as a function of its serialization and
/// of the username, or refuses and leaves it as it was. It never touches the
/// host.
pub assume_specification[ Url::set_username ](url: &mut Url, username: &str) -> (r: Result<(), ()>)
    ensures
        match url_with_username(url_text(*old(url)), username@) {
            Some(text) => r is Ok && url_text(*final(url)) == text,
            None => r is Err && url_text(*final(url)) == url_text(*old(url)),
        },
        url_host(*final(url)) == url_host(*old(url)),
;

/// `Url::set_password` changes the URL as a function of its serialization and
/// of the password, or refuses and leaves it as it was. It never touches the
/// host.
pub assume_specification[ Url::set_password ](url: &mut Url, password: Option<&str>) -> (r: Result<
    (),
    (),
>)
    ensures
        match url_with_password(url_text(*old(url)), str_option_view(password)) {
            Some(text) => r is Ok && url_text(*final(url)) == text,
            None => r is Err && url_text(*final(url)) == url_text(*old(url)),
        },
        url_host(*final(url)) == url_host(*old(url)),
;

/// `Url::set_fragment` changes the URL as a function of its serialization and
/// of the fragment. It never touches the host.
pub assume_specification[ Url::set_fragment ](url: &mut Url, fragment: Option<&str>)
    ensures
        url_text(*final(url)) == url_with_fragment(
            url_text(*old(url)),
            str_option_view(fragment),
        ),
        url_host(*final(url)) == url_host(*old(url)),
;

/// `Url::to_file_path` gives a path or refuses; which path depends on the
/// platform. On every platform it refuses a URL for which `Url::path_segments`
/// returns `None`.
pub assume_specification[ Url::to_file_path ](url: &Url) -> (r: Result<PathBuf, ()>)
    ensures
        r is Ok ==> url_path_segments(url_text(*url)) is Some,
;

/// The characters of an optional string.
pub open spec fn str_option_view(s: Option<&str>) -> Option<Seq<char>> {
    match s {
        Some(s) => Some(s@),
        None => None,
    }
}

/// Calls `Url::host` and copies what it returns into a `Host` of this
/// library, variant by variant. There is a host exactly where `Url::host_str`
/// returns one, and a domain is the text that `Url::host_str` returns.
#[verifier::external_body]
fn host_of_url(url: &Url) -> (host: Option<Host>)
    ensures
        match host {
            Some(h) => url_host(*url) == Some(h@),
            None => url_host(*url) is None,
        },
        host is None <==> url_host_str(url_text(*url)) is None,
        match host {
            Some(Host::Domain(domain)) => url_host_str(url_text(*url)) == Some(domain@),
            _ => true,
        },
{
    match url.host() {
        Some(url::Host::Domain(domain)) => Some(Host::Domain(domain.to_owned())),
        Some(url::Host::Ipv4(address)) => Some(Host::Ipv4(address.to_bits())),
        Some(url::Host::Ipv6(address)) => Some(Host::Ipv6(address.to_bits())),
        None => None,
    }
}

/// Calls `Url::path_segments` and collects the segments in order.
#[verifier::external_body]
fn path_segments_of_url(url: &Url) -> (segments: Option<Vec<String>>)
    ensures
        match segments {
            Some(v) => url_path_segments(url_text(*url)) == Some(
                Seq::new(v@.len(), |i: int| v@[i]@),
            ),
            None => url_path_segments(url_text(*url)) is None,
        },
{
    url.path_segments().map(|segments| segments.map(|s| s.to_owned()).collect())
}

/// Calls `Url::from_file_path`. Which paths it accepts depends on the
/// platform; a URL that it returns is in the `file` scheme.
#[verifier::external_body]
fn url_from_file_path(path: &PathBuf) -> (r: Option<Url>)
    ensures
        r is Some ==> url_scheme(url_text(r.unwrap())) == "file"@,
{
    Url::from_file_path(path).ok()
}

/// Takes an origin of the `url` crate apart: scheme, host and port of a
/// tuple origin, `None` for an opaque one.
#[verifier::external_body]
fn origin_parts(origin: url::Origin) -> (parts: Option<(String, Host, u16)>)
    ensures
        match parts {
            Some((scheme, host, port)) => origin_tuple(origin) == Some((scheme@, host@, port)),
            None => origin_tuple(origin) is None,
        },
{
    match origin {
        url::Origin::Opaque(_) => None,
        url::Origin::Tuple(scheme, url::Host::Domain(domain), port) => Some(
            (scheme, Host::Domain(domain), port),
        ),
        url::Origin::Tuple(scheme, url::Host::Ipv4(address), port) => Some(
            (scheme, Host::Ipv4(address.to_bits()), port),
        ),
        url::Origin::Tuple(scheme, url::Host::Ipv6(address), port) => Some(
            (scheme, Host::Ipv6(address.to_bits()), port),
        ),
    }
}

/// What `Origin::ascii_serialization` returns for a tuple origin that holds
/// this scheme, host and port.
pub uninterp spec fn origin_ascii(scheme: Seq<char>, host: HostView, port: u16) -> Seq<char>;

/// Makes a tuple origin of the `url` crate of scheme, host and port, and
/// calls `Origin::ascii_serialization` on it.
#[verifier::external_body]
fn tuple_ascii_serialization(scheme: &String, host: &Host, port: u16) -> (r: String)
    ensures
        r@ == origin_ascii(scheme@, host@, port),
{
    let host = match host {
        Host::Domain(domain) => url::Host::Domain(domain.clone()),
        Host::Ipv4(bits) => url::Host::Ipv4(From::from(*bits)),
        Host::Ipv6(bits) => url::Host::Ipv6(From::from(*bits)),
    };
    url::Origin::Tuple(scheme.clone(), host, port).ascii_serialization()
}

/// Makes an origin of the `url` crate: a tuple origin of scheme, host and
/// port, or, without them, a new opaque origin from `Origin::new_opaque`.
#[verifier::external_body]
fn make_url_origin(parts: Option<(String, Host, u16)>) -> (origin: url::Origin)
    ensures
        match parts {
            Some((scheme, host, port)) => origin_tuple(origin) == Some((scheme@, host@, port)),
            None => origin_tuple(origin) is None,
        },
{
    match parts {
        None => url::Origin::new_opaque(),
        Some((scheme, host, port)) => {
            let host = match host {
                Host::Domain(domain) => url::Host::Domain(domain),
                Host::Ipv4(bits) => url::Host::Ipv4(From::from(bits)),
                Host::Ipv6(bits) => url::Host::Ipv6(From::from(bits)),
            };
            url::Origin::Tuple(scheme, host, port)
        },
    }
}

/// The bits of a UUID that hold its version and its variant.
pub const UUID_VERSION_AND_VARIANT: u128 = 0x0000_0000_0000_f000_c000_0000_0000_0000;

/// What the bits of version and variant are in a random UUID: version 4 and
/// the variant of RFC 4122.
pub const UUID_RANDOM: u128 = 0x0000_0000_0000_4000_8000_0000_0000_0000;

/// Whether `bits` are the bits of a random UUID: one of version 4 in the
/// variant of RFC 4122. The other 122 bits are free.
pub open spec fn is_random_uuid(bits: u128) -> bool {
    bits & UUID_VERSION_AND_VARIANT == UUID_RANDOM
}

/// Calls `Uuid::new_v4`, which draws a random identifier, and returns its
/// 128 bits. `Uuid::new_v4` sets the bits of version and variant and draws
/// the rest: nothing else is known of the value.
#[verifier::external_body]
fn fresh_uuid() -> (bits: u128)
    ensures
        is_random_uuid(bits),
{
    uuid::Uuid::new_v4().as_u128()
}

/// What `DOMUrl::to_file_path` makes of what `Url::to_file_path` returned:
/// the path, or `UrlError::ToFilePath` in place of the refusal.
pub fn file_path_or_error(outcome: Result<PathBuf, ()>) -> (r: Result<PathBuf, UrlError>)
    ensures
        r == (match outcome {
            Ok(path) => Ok::<PathBuf, UrlError>(path),
            Err(_) => Err::<PathBuf, UrlError>(UrlError::ToFilePath),
        }),
{
    match outcome {
        Ok(path) => Ok(path),
        Err(_) => Err(UrlError::ToFilePath),
    }
}

/// Error type of `DOMUrl`.
#[derive(Clone, Copy, Debug, PartialEq, Eq, Structural)]
pub enum UrlError {
    /// Error when setting user name.
    SetUsername,
    /// Error when setting IP Host.
    SetIpHost,
    /// Error when setting password.
    SetPassword,
    /// Error when convert to file path.
    ToFilePath,
    /// Error when convert from file path.
    FromFilePath,
}

/// The host name of an URL.
#[derive(Debug)]
pub enum Host {
    /// A DNS domain name, as '.' dot-separated labels.
    Domain(String),
    /// An IPv4 address, as its 32 bits.
    Ipv4(u32),
    /// An IPv6 address, as its 128 bits.
    Ipv6(u128),
}

/// What a `Host` is in contracts.
pub enum HostView {
    /// A DNS domain name.
    Domain(Seq<char>),
    /// An IPv4 address.
    Ipv4(u32),
    /// An IPv6 address.
    Ipv6(u128),
}

impl View for Host {
    type V = HostView;

    open spec fn view(&self) -> HostView {
        match self {
            Host::Domain(domain) => HostView::Domain(domain@),
            Host::Ipv4(bits) => HostView::Ipv4(*bits),
            Host::Ipv6(bits) => HostView::Ipv6(*bits),
        }
    }
}

impl Clone for Host {
    fn clone(&self) -> (copy: Self)
        ensures
            copy@ == self@,
    {
        match self {
            Host::Domain(domain) => Host::Domain(domain.clone()),
            Host::Ipv4(bits) => Host::Ipv4(*bits),
            Host::Ipv6(bits) => Host::Ipv6(*bits),
        }
    }
}

impl Host {
    /// Whether two hosts are the same host.
    pub fn same(&self, other: &Host) -> (r: bool)
        ensures
            r == (self@ == other@),
    {
        match (self, other) {
            (Host::Domain(a), Host::Domain(b)) => str_equal(a.as_str(), b.as_str()),
            (Host::Ipv4(a), Host::Ipv4(b)) => *a == *b,
            (Host::Ipv6(a), Host::Ipv6(b)) => *a == *b,
            _ => false,
        }
    }
}

/// A URL type used in DOM context.
#[derive(Debug)]
pub struct DOMUrl(Url);

impl View for DOMUrl {
    type V = Seq<char>;

    /// The serialization of the URL.
    closed spec fn view(&self) -> Seq<char> {
        url_text(self.0)
    }
}

impl Clone for DOMUrl {
    fn clone(&self) -> (copy: Self)
        ensures
            copy@ == self@,
            copy.spec_host() == self.spec_host(),
    {
        DOMUrl(self.0.clone())
    }
}

impl DOMUrl {
    /// The host of the URL. It is kept beside the serialization: a URL whose
    /// host was set to an address can have the serialization of a URL whose
    /// host is a domain.
    pub closed spec fn spec_host(&self) -> Option<HostView> {
        url_host(self.0)
    }

    /// Create a `DOMUrl` from provided `Url`.
    pub fn from_url(url: Url) -> (r: Self)
        ensures
            r@ == url_text(url),
            r.spec_host() == url_host(url),
    {
        DOMUrl(url)
    }

    /// Create a `DOMUrl` from a string with a base: the string is parsed alone
    /// where there is no base, and joined to the base where there is one.
    pub fn parse_with_base(base: Option<&Self>, input: &str) -> (r: Result<Self, ParseError>)
        ensures
            match r {
                Ok(url) => Self::spec_parse_with_base(base, input@) == Some(url@),
                Err(_) => Self::spec_parse_with_base(base, input@) is None,
            },
    {
        match base {
            None => Self::parse(input),
            Some(b) => b.join(input),
        }
    }

    /// The serialization that `parse_with_base` gives, if it gives one.
    pub open spec fn spec_parse_with_base(base: Option<&Self>, input: Seq<char>) -> Option<
        Seq<char>,
    > {
        match base {
            None => url_parse(input),
            Some(b) => url_join(b@, input),
        }
    }

    /// Convert into `String`: the serialization.
    pub fn into_string(self) -> (s: String)
        ensures
            s@ == self@,
    {
        self.0.as_str().to_owned()
    }

    /// Convert into `Url`.
    pub fn into_url(self) -> (url: Url)
        ensures
            url_text(url) == self@,
            url_host(url) == self.spec_host(),
    {
        self.0
    }

    /// Get the reference of `Url`.
    pub fn as_url(&self) -> (url: &Url)
        ensures
            url_text(*url) == self@,
            url_host(*url) == self.spec_host(),
    {
        &self.0
    }

    /// Create a `DOMUrl` from a string.
    pub fn parse(input: &str) -> (r: Result<Self, ParseError>)
        ensures
            match r {
                Ok(url) => url_parse(input@) == Some(url@),
                Err(_) => url_parse(input@) is None,
            },
    {
        match Url::parse(input) {
            Ok(url) => Ok(DOMUrl(url)),
            Err(e) => Err(e),
        }
    }

    /// Return whether this URL is a cannot-be-a-base URL,
    /// meaning that parsing a relative URL string with this URL as the base will return an error.
    pub fn cannot_be_a_base(&self) -> (b: bool)
        ensures
            b == url_cannot_be_a_base(self@),
    {
        self.0.cannot_be_a_base()
    }

    /// If this URL has a host and it is a domain name (not an IP address), return it.
    pub fn domain(&self) -> (domain: Option<&str>)
        ensures
            str_option_view(domain) == domain_of_host(self.spec_host()),
    {
        self.0.domain()
    }

    /// Return this URL's fragment identifier, if any.
    pub fn fragment(&self) -> (fragment: Option<&str>)
        ensures
            str_option_view(fragment) == url_fragment(self@),
    {
        self.0.fragment()
    }

    /// Return the path for this URL, as a percent-encoded ASCII string.
    pub fn path(&self) -> (path: &str)
        ensures
            path@ == url_path(self@),
    {
        self.0.path()
    }

    /// Get the origin of the URL.
    pub fn origin(&self) -> (origin: ImmutableOrigin)
        ensures
            match url_origin(self@) {
                Some((scheme, host, port)) => origin@ == OriginView::Tuple(scheme, host, port),
                None => origin@ is Opaque && origin@->Opaque_0 is Opaque,
            },
    {
        ImmutableOrigin::new(self.0.origin())
    }

    /// Return the scheme of this URL, lower-cased, as an ASCII string without the ':' delimiter.
    pub fn scheme(&self) -> (scheme: &str)
        ensures
            scheme@ == url_scheme(self@),
    {
        self.0.scheme()
    }

    /// Check if scheme is "https" or "wss".
    pub fn is_secure_scheme(&self) -> (b: bool)
        ensures
            b == (url_scheme(self@) == "https"@ || url_scheme(self@) == "wss"@),
    {
        let scheme = self.scheme();
        str_equal(scheme, "https") || str_equal(scheme, "wss")
    }

    /// <https://fetch.spec.whatwg.org/#local-scheme>
    pub fn is_local_scheme(&self) -> (b: bool)
        ensures
            b == (url_scheme(self@) == "about"@ || url_scheme(self@) == "blob"@ || url_scheme(
                self@,
            ) == "data"@),
    {
        let scheme = self.scheme();
        str_equal(scheme, "about") || str_equal(scheme, "blob") || str_equal(scheme, "data")
    }

    /// <https://url.spec.whatwg.org/#special-scheme>
    pub fn is_special_scheme(&self) -> (b: bool)
        ensures
            b == (url_scheme(self@) == "ftp"@ || url_scheme(self@) == "file"@ || url_scheme(self@)
                == "http"@ || url_scheme(self@) == "https"@ || url_scheme(self@) == "ws"@
                || url_scheme(self@) == "wss"@),
    {
        let scheme = self.scheme();
        str_equal(scheme, "ftp") || str_equal(scheme, "file") || str_equal(scheme, "http")
            || str_equal(scheme, "https") || str_equal(scheme, "ws") || str_equal(scheme, "wss")
    }

    /// Return the serialization of this URL.
    pub fn as_str(&self) -> (text: &str)
        ensures
            text@ == self@,
    {
        self.0.as_str()
    }

    /// Get mutable reference of `Url`. What is written through it is what the
    /// `DOMUrl` holds afterwards.
    pub fn as_mut_url(&mut self) -> (url: &mut Url)
        ensures
            url_text(*url) == old(self)@,
            url_host(*url) == old(self).spec_host(),
            final(self)@ == url_text(*final(url)),
            final(self).spec_host() == url_host(*final(url)),
    {
        &mut self.0
    }

    /// Change this URL's username.
    ///
    /// If this URL is cannot-be-a-base or does not have a host, do nothing and return
    /// `UrlError:SetUsername`.
    pub fn set_username(&mut self, user: &str) -> (r: Result<(), UrlError>)
        ensures
            match url_with_username(old(self)@, user@) {
                Some(text) => r == Ok::<(), UrlError>(()) && final(self)@ == text,
                None => r == Err::<(), UrlError>(UrlError::SetUsername) && final(self)@ == old(
                    self,
                )@,
            },
            final(self).spec_host() == old(self).spec_host(),
    {
        match self.0.set_username(user) {
            Ok(_) => Ok(()),
            Err(_) => Err(UrlError::SetUsername),
        }
    }

    /// Change this URL's password.
    ///
    /// If this URL is cannot-be-a-base or does not have a host, do nothing and return
    /// `UrlError::SetPassword`.
    pub fn set_password(&mut self, pass: Option<&str>) -> (r: Result<(), UrlError>)
        ensures
            match url_with_password(old(self)@, str_option_view(pass)) {
                Some(text) => r == Ok::<(), UrlError>(()) && final(self)@ == text,
                None => r == Err::<(), UrlError>(UrlError::SetPassword) && final(self)@ == old(
                    self,
                )@,
            },
            final(self).spec_host() == old(self).spec_host(),
    {
        match self.0.set_password(pass) {
            Ok(_) => Ok(()),
            Err(_) => Err(UrlError::SetPassword),
        }
    }

    /// Change this URL's fragment identifier.
    pub fn set_fragment(&mut self, fragment: Option<&str>)
        ensures
            final(self)@ == url_with_fragment(old(self)@, str_option_view(fragment)),
            final(self).spec_host() == old(self).spec_host(),
    {
        self.0.set_fragment(fragment)
    }

    /// Return the username for this URL (typically the empty string)
    /// as a percent-encoded ASCII string.
    pub fn username(&self) -> (username: &str)
        ensures
            username@ == url_username(self@),
    {
        self.0.username()
    }

    /// Return the password for this URL, if any, as a percent-encoded ASCII string.
    pub fn password(&self) -> (password: Option<&str>)
        ensures
            str_option_view(password) == url_password(self@),
    {
        self.0.password()
    }

    /// Assuming the URL is in the `file` scheme or similar,
    /// convert its path to an absolute `std::path::Path`.
    ///
    /// Which path comes out depends on the platform. The one error is
    /// `UrlError::ToFilePath`, and a URL without path segments gets it on
    /// every platform.
    pub fn to_file_path(&self) -> (r: Result<PathBuf, UrlError>)
        ensures
            r is Err ==> r->Err_0 == UrlError::ToFilePath,
            url_path_segments(self@) is None ==> r is Err,
    {
        file_path_or_error(self.0.to_file_path())
    }

    /// Return the parsed representation of the host for this URL. There is
    /// a host exactly where `host_str` returns one, and a domain is the text
    /// that `host_str` returns.
    pub fn host(&self) -> (host: Option<Host>)
        ensures
            match host {
                Some(h) => self.spec_host() == Some(h@),
                None => self.spec_host() is None,
            },
            self.spec_host() is None <==> url_host_str(self@) is None,
            domain_of_host(self.spec_host()) is Some ==> url_host_str(self@) == domain_of_host(
                self.spec_host(),
            ),
    {
        host_of_url(&self.0)
    }

    /// Return the string representation of the host (domain or IP address) for this URL, if any.
    pub fn host_str(&self) -> (host: Option<&str>)
        ensures
            str_option_view(host) == url_host_str(self@),
    {
        self.0.host_str()
    }

    /// Return the port number for this URL, if any.
    pub fn port(&self) -> (port: Option<u16>)
        ensures
            port == url_port(self@),
    {
        self.0.port()
    }

    /// Return the port number for this URL, or the default port number if it is known.
    pub fn port_or_known_default(&self) -> (port: Option<u16>)
        ensures
            port == url_port_or_known_default(self@),
    {
        self.0.port_or_known_default()
    }

    /// Parse a string as an URL, with this URL as the base URL.
    pub fn join(&self, input: &str) -> (r: Result<DOMUrl, ParseError>)
        ensures
            match r {
                Ok(url) => url_join(self@, input@) == Some(url@),
                Err(_) => url_join(self@, input@) is None,
            },
    {
        match self.0.join(input) {
            Ok(url) => Ok(DOMUrl(url)),
            Err(e) => Err(e),
        }
    }

    /// Unless this URL is cannot-be-a-base, return the '/' slash-separated
    /// path segments, each as a percent-encoded ASCII string.
    ///
    /// Return `None` for cannot-be-a-base URLs.
    pub fn path_segments(&self) -> (segments: Option<Vec<String>>)
        ensures
            match segments {
                Some(v) => url_path_segments(self@) == Some(Seq::new(v@.len(), |i: int| v@[i]@)),
                None => url_path_segments(self@) is None,
            },
    {
        path_segments_of_url(&self.0)
    }

    /// Return this URL's query string, if any, as a percent-encoded ASCII string.
    pub fn query(&self) -> (query: Option<&str>)
        ensures
            str_option_view(query) == url_query(self@),
    {
        self.0.query()
    }

    /// Convert a file name into an URL in the `file` scheme.
    ///
    /// Which paths are accepted depends on the platform; the one error is
    /// `UrlError::FromFilePath`.
    pub fn from_file_path(path: &PathBuf) -> (r: Result<Self, UrlError>)
        ensures
            match r {
                Ok(url) => url_scheme(url@) == "file"@,
                Err(e) => e == UrlError::FromFilePath,
            },
    {
        match url_from_file_path(path) {
            Some(url) => Ok(DOMUrl(url)),
            None => Err(UrlError::FromFilePath),
        }
    }
}

/// The text without `prefix` at its start, where it starts with it.
pub open spec fn without_prefix(text: Seq<char>, prefix: Seq<char>) -> Seq<char> {
    if prefix.is_prefix_of(text) {
        text.skip(prefix.len() as int)
    } else {
        text
    }
}

/// The shortened form of a URL with the serialization `text`, the scheme
/// `scheme` and the path `path`.
///
/// For `http` and `https` the scheme, the colon and the slashes after it are
/// left out, unless nothing would be left. For `file` only what follows the
/// last slash but one of the path is kept, unless the path has no slash or
/// that slash is its first character. Any other URL is not shortened.
pub open spec fn compact(text: Seq<char>, scheme: Seq<char>, path: Seq<char>) -> Seq<char> {
    if scheme == "http"@ || scheme == "https"@ {
        let rest = without_leading(without_prefix(without_prefix(text, scheme), ":"@), '/');
        if rest.len() == 0 {
            text
        } else {
            rest
        }
    } else if scheme == "file"@ {
        match last_index_of(path, '/') {
            None => path,
            Some(i) => {
                let cut = match last_index_of(path.subrange(0, i), '/') {
                    Some(j) => j,
                    None => i,
                };
                if cut == 0 {
                    path
                } else {
                    path.skip(cut + 1)
                }
            },
        }
    } else {
        text
    }
}

/// Whether `domain` is `localhost` or ends with `.localhost`.
pub open spec fn is_localhost(domain: Seq<char>) -> bool {
    domain == "localhost"@ || ".localhost"@.is_suffix_of(domain)
}

/// <https://w3c.github.io/webappsec-secure-contexts/#is-origin-trustworthy>
///
/// A tuple origin is potentially trustworthy where its scheme is `https`,
/// `wss` or `file`; else where its host is an IPv4 address whose first byte
/// is 127; else where its host is a domain that is the text of a loopback
/// address, as `domain_is_loopback` says, or is `localhost` or ends with
/// `.localhost`. An IPv4 host that is no loopback address is not trustworthy,
/// whatever else holds. An opaque origin is not.
pub open spec fn origin_is_trustworthy(origin: OriginView, domain_is_loopback: bool) -> bool {
    match origin {
        OriginView::Opaque(_) => false,
        OriginView::Tuple(scheme, host, _) => {
            if scheme == "https"@ || scheme == "wss"@ || scheme == "file"@ {
                true
            } else {
                match host {
                    HostView::Ipv4(bits) => bits >> 24 == 127,
                    HostView::Ipv6(_) => false,
                    HostView::Domain(domain) => domain_is_loopback || is_localhost(domain),
                }
            }
        },
    }
}

impl DOMUrl {
    /// Return a non-standard shortened form of the URL. Mainly intended to be
    /// used for debug printing in a constrained space (e.g., thread names).
    pub fn debug_compact(&self) -> (r: &str)
        ensures
            r@ == compact(self@, url_scheme(self@), url_path(self@)),
    {
        let scheme = self.scheme();
        if str_equal(scheme, "http") || str_equal(scheme, "https") {
            // Strip `scheme://`, which is hardly useful for identifying websites
            let text = self.as_str();
            let chars = chars_of(text);
            let scheme_chars = chars_of(scheme);
            let colon = chars_of(":");
            let mut start: usize = 0;
            if starts_with(&chars, &scheme_chars) {
                start = scheme_chars.len();
            }
            assert(chars@.skip(start as int) == without_prefix(self@, scheme@));
            proof {
                reveal_strlit(":");
                assert(":"@ =~= seq![':']);
                let rest = chars@.skip(start as int);
                if start < chars@.len() {
                    assert(rest[0] == chars@[start as int]);
                    if chars@[start as int] == ':' {
                        assert(rest.subrange(0, 1) =~= seq![':']);
                    } else {
                        assert(rest.subrange(0, 1)[0] == rest[0]);
                    }
                }
            }
            let ghost before_colon = start;
            if start < chars.len() && chars[start] == ':' {
                start = start + 1;
                assert(chars@.skip(before_colon as int).skip(1) =~= chars@.skip(start as int));
            }
            assert(chars@.skip(start as int) == without_prefix(
                without_prefix(self@, scheme@),
                ":"@,
            ));
            let place = skip_leading(&chars, start, '/');
            // Don't want to return an empty string
            if place == chars.len() {
                text
            } else {
                let r = text.substring_char(place, chars.len());
                assert(text@.subrange(place as int, chars@.len() as int) =~= chars@.skip(
                    place as int,
                ));
                r
            }
        } else if str_equal(scheme, "file") {
            // The only useful part in a `file` URL is usually only the last
            // few components
            let path = self.path();
            let chars = chars_of(path);
            assert(chars@.subrange(0, chars@.len() as int) =~= chars@);
            match find_last(&chars, chars.len(), '/') {
                None => path,
                Some(i) => {
                    let cut = match find_last(&chars, i, '/') {
                        Some(j) => j,
                        None => i,
                    };
                    if cut == 0 {
                        path
                    } else {
                        let r = path.substring_char(cut + 1, chars.len());
                        assert(path@.subrange(cut + 1, chars@.len() as int) =~= chars@.skip(
                            cut + 1,
                        ));
                        r
                    }
                },
            }
        } else {
            self.as_str()
        }
    }

    /// <https://w3c.github.io/webappsec-secure-contexts/#potentially-trustworthy-url>
    ///
    /// `about:blank`, `about:srcdoc` and every `data` URL are potentially
    /// trustworthy; any other URL is where its origin is.
    /// `domain_is_loopback` says whether the host of the URL, where it is a
    /// domain, is the text of a loopback address.
    pub fn is_potentially_trustworthy(&self, domain_is_loopback: bool) -> (b: bool)
        ensures
            self@ == "about:blank"@ || self@ == "about:srcdoc"@ || url_scheme(self@) == "data"@
                ==> b,
            !(self@ == "about:blank"@ || self@ == "about:srcdoc"@ || url_scheme(self@) == "data"@)
                ==> b == (match url_origin(self@) {
                Some((scheme, host, port)) => origin_is_trustworthy(
                    OriginView::Tuple(scheme, host, port),
                    domain_is_loopback,
                ),
                None => false,
            }),
    {
        if str_equal(self.as_str(), "about:blank") || str_equal(self.as_str(), "about:srcdoc") {
            return true;
        }
        if str_equal(self.scheme(), "data") {
            return true;
        }
        self.origin().is_potentially_trustworthy(domain_is_loopback)
    }
}

/// The number of characters of a `data` URL that `debug_string` shows.
pub const DATA_URL_DISPLAY_LENGTH: usize = 40;

/// The hexadecimal digit for a number below 16, in lower case.
pub open spec fn hex_digit(d: nat) -> char {
    if d == 0 {
        '0'
    } else if d == 1 {
        '1'
    } else if d == 2 {
        '2'
    } else if d == 3 {
        '3'
    } else if d == 4 {
        '4'
    } else if d == 5 {
        '5'
    } else if d == 6 {
        '6'
    } else if d == 7 {
        '7'
    } else if d == 8 {
        '8'
    } else if d == 9 {
        '9'
    } else if d == 10 {
        'a'
    } else if d == 11 {
        'b'
    } else if d == 12 {
        'c'
    } else if d == 13 {
        'd'
    } else if d == 14 {
        'e'
    } else {
        'f'
    }
}

/// The hexadecimal digits of `n`, most significant first, in lower case and
/// without leading zeros; `0` for zero.
pub open spec fn hex_digits(n: nat) -> Seq<char>
    decreases n,
{
    if n < 16 {
        seq![hex_digit(n)]
    } else {
        hex_digits(n / 16).push(hex_digit(n % 16))
    }
}

/// The text that `debug_string` gives a URL with the serialization `text`
/// and the scheme `scheme`: the serialization, but for a `data` URL of more
/// than 40 bytes its first 40 characters, three dots, and in brackets the
/// hash of the serialization in hexadecimal digits.
pub open spec fn debug_text(text: Seq<char>, scheme: Seq<char>) -> Seq<char> {
    if scheme != "data"@ || encode_utf8(text).len() <= DATA_URL_DISPLAY_LENGTH {
        text
    } else {
        let shown = if text.len() <= DATA_URL_DISPLAY_LENGTH {
            text
        } else {
            text.take(DATA_URL_DISPLAY_LENGTH as int)
        };
        shown + "... ("@ + hex_digits(
            DefaultHasher::spec_finish(seq![encode_utf8(text)]) as nat,
        ) + ")"@
    }
}

/// The hexadecimal digit for `d` as a string.
fn hex_digit_str(d: u64) -> (r: &'static str)
    requires
        d < 16,
    ensures
        r@ == seq![hex_digit(d as nat)],
{
    proof {
        reveal_strlit("0");
        reveal_strlit("1");
        reveal_strlit("2");
        reveal_strlit("3");
        reveal_strlit("4");
        reveal_strlit("5");
        reveal_strlit("6");
        reveal_strlit("7");
        reveal_strlit("8");
        reveal_strlit("9");
        reveal_strlit("a");
        reveal_strlit("b");
        reveal_strlit("c");
        reveal_strlit("d");
        reveal_strlit("e");
        reveal_strlit("f");
    }
    let r = if d == 0 {
        "0"
    } else if d == 1 {
        "1"
    } else if d == 2 {
        "2"
    } else if d == 3 {
        "3"
    } else if d == 4 {
        "4"
    } else if d == 5 {
        "5"
    } else if d == 6 {
        "6"
    } else if d == 7 {
        "7"
    } else if d == 8 {
        "8"
    } else if d == 9 {
        "9"
    } else if d == 10 {
        "a"
    } else if d == 11 {
        "b"
    } else if d == 12 {
        "c"
    } else if d == 13 {
        "d"
    } else if d == 14 {
        "e"
    } else {
        "f"
    };
    assert(r@ =~= seq![hex_digit(d as nat)]);
    r
}

/// The hexadecimal digits of `n`.
pub fn to_hex(n: u64) -> (r: String)
    ensures
        r@ == hex_digits(n as nat),
{
    let mut digits: Vec<u64> = Vec::new();
    let mut rest: u64 = n;
    while rest >= 16
        invariant
            forall|i: int| 0 <= i < digits@.len() ==> digits@[i] < 16,
            hex_digits(n as nat) == hex_digits(rest as nat) + Seq::new(
                digits@.len(),
                |i: int| hex_digit(digits@[digits@.len() - 1 - i] as nat),
            ),
        decreases rest,
    {
        let ghost before = digits@;
        digits.push(rest % 16);
        proof {
            let tail_before = Seq::new(
                before.len(),
                |i: int| hex_digit(before[before.len() - 1 - i] as nat),
            );
            let tail_after = Seq::new(
                digits@.len(),
                |i: int| hex_digit(digits@[digits@.len() - 1 - i] as nat),
            );
            assert(tail_after =~= seq![hex_digit((rest % 16) as nat)] + tail_before);
            assert(hex_digits(rest as nat) == hex_digits((rest / 16) as nat).push(
                hex_digit((rest % 16) as nat),
            ));
            assert(hex_digits(rest as nat) + tail_before =~= hex_digits((rest / 16) as nat)
                + tail_after);
        }
        rest = rest / 16;
    }
    let mut r = String::from_str(hex_digit_str(rest));
    let mut i: usize = digits.len();
    while i > 0
        invariant
            i <= digits@.len(),
            forall|j: int| 0 <= j < digits@.len() ==> digits@[j] < 16,
            r@ == hex_digits(rest as nat) + Seq::new(
                (digits@.len() - i) as nat,
                |j: int| hex_digit(digits@[digits@.len() - 1 - j] as nat),
            ),
        decreases i,
    {
        r.append(hex_digit_str(digits[i - 1]));
        proof {
            assert(r@ =~= hex_digits(rest as nat) + Seq::new(
                (digits@.len() - (i - 1)) as nat,
                |j: int| hex_digit(digits@[digits@.len() - 1 - j] as nat),
            ));
        }
        i = i - 1;
    }
    r
}

impl DOMUrl {
    /// The URL for debug output: its serialization, but a shortened form
    /// with a hash for a long `data` URL.
    pub fn debug_string(&self) -> (r: String)
        ensures
            r@ == debug_text(self@, url_scheme(self@)),
    {
        let text = self.as_str();
        if !str_equal(self.scheme(), "data") || text.as_bytes().len() <= DATA_URL_DISPLAY_LENGTH {
            return String::from_str(text);
        }
        let mut hasher = DefaultHasher::new();
        hasher.write(text.as_bytes());
        let hash = hasher.finish();
        assert(hasher@ =~= seq![encode_utf8(text@)]);
        let count = text.unicode_len();
        let shown = if count <= DATA_URL_DISPLAY_LENGTH {
            assert(text@.subrange(0, count as int) =~= text@);
            text
        } else {
            text.substring_char(0, DATA_URL_DISPLAY_LENGTH)
        };
        let mut r = String::from_str(shown);
        r.append("... (");
        r.append(to_hex(hash).as_str());
        r.append(")");
        r
    }
}

impl PartialEq for DOMUrl {
    fn eq(&self, other: &Self) -> (r: bool) {
        self.0 == other.0
    }
}

impl Eq for DOMUrl {

}

impl vstd::std_specs::cmp::PartialEqSpecImpl for DOMUrl {
    open spec fn obeys_eq_spec() -> bool {
        true
    }

    open spec fn eq_spec(&self, other: &Self) -> bool {
        self@ == other@
    }
}

/// Opaque identifier for URLs that have file or other schemes
#[derive(Clone, Copy, Debug, PartialEq, Eq, Structural, Hash)]
pub enum OpaqueOrigin {
    /// An Opaque origin, with the 128 bits of its identifier.
    Opaque(u128),
    /// Workers created from `data:` urls will have opaque origins but need to be treated
    /// as inheriting the secure context they were created in. This tracks that the origin
    /// was created in such a context
    SecureWorkerFromDataUrl(u128),
}

/// The origin of an URL
#[derive(Debug)]
pub enum ImmutableOrigin {
    /// A globally unique identifier
    Opaque(OpaqueOrigin),
    /// Consists of the URL's scheme, host and port
    Tuple(String, Host, u16),
}

/// What an `ImmutableOrigin` is in contracts.
pub enum OriginView {
    /// A globally unique identifier
    Opaque(OpaqueOrigin),
    /// Scheme, host and port
    Tuple(Seq<char>, HostView, u16),
}

impl View for ImmutableOrigin {
    type V = OriginView;

    open spec fn view(&self) -> OriginView {
        match self {
            ImmutableOrigin::Opaque(id) => OriginView::Opaque(*id),
            ImmutableOrigin::Tuple(scheme, host, port) => OriginView::Tuple(scheme@, host@, *port),
        }
    }
}

impl Clone for ImmutableOrigin {
    fn clone(&self) -> (copy: Self)
        ensures
            copy@ == self@,
    {
        match self {
            ImmutableOrigin::Opaque(id) => ImmutableOrigin::Opaque(*id),
            ImmutableOrigin::Tuple(scheme, host, port) => ImmutableOrigin::Tuple(
                scheme.clone(),
                host.clone(),
                *port,
            ),
        }
    }
}

impl ImmutableOrigin {
    /// Create an `ImmutableOrigin` from provided `Origin`: a tuple origin keeps
    /// scheme, host and port, an opaque one gets a new identifier.
    pub fn new(origin: url::Origin) -> (r: ImmutableOrigin)
        ensures
            match origin_tuple(origin) {
                Some((scheme, host, port)) => r@ == OriginView::Tuple(scheme, host, port),
                None => r@ is Opaque && r@->Opaque_0 is Opaque,
            },
    {
        match origin_parts(origin) {
            None => ImmutableOrigin::new_opaque(),
            Some((scheme, host, port)) => ImmutableOrigin::Tuple(scheme, host, port),
        }
    }

    /// Whether two origins are the same origin.
    pub fn same(&self, other: &ImmutableOrigin) -> (r: bool)
        ensures
            r == (self@ == other@),
    {
        match (self, other) {
            (ImmutableOrigin::Opaque(a), ImmutableOrigin::Opaque(b)) => *a == *b,
            (
                ImmutableOrigin::Tuple(scheme, host, port),
                ImmutableOrigin::Tuple(other_scheme, other_host, other_port),
            ) => {
                str_equal(scheme.as_str(), other_scheme.as_str()) && host.same(other_host)
                    && *port == *other_port
            },
            _ => false,
        }
    }

    /// Creates a new opaque origin whose identifier is a random UUID.
    pub fn new_opaque() -> (r: ImmutableOrigin)
        ensures
            r@ is Opaque,
            r@->Opaque_0 is Opaque,
            is_random_uuid(r@->Opaque_0->Opaque_0),
    {
        ImmutableOrigin::Opaque(OpaqueOrigin::Opaque(fresh_uuid()))
    }

    /// For use in mixed security context tests because data: URL workers inherit contexts
    pub fn new_opaque_data_url_worker() -> (r: ImmutableOrigin)
        ensures
            r@ is Opaque,
            r@->Opaque_0 is SecureWorkerFromDataUrl,
    {
        ImmutableOrigin::Opaque(OpaqueOrigin::SecureWorkerFromDataUrl(fresh_uuid()))
    }

    /// Get the scheme of the origin.
    pub fn scheme(&self) -> (scheme: Option<&str>)
        ensures
            match self@ {
                OriginView::Opaque(_) => scheme is None,
                OriginView::Tuple(s, _, _) => str_option_view(scheme) == Some(s),
            },
    {
        match self {
            ImmutableOrigin::Opaque(_) => None,
            ImmutableOrigin::Tuple(scheme, _, _) => Some(scheme.as_str()),
        }
    }

    /// Get the host of the origin.
    pub fn host(&self) -> (host: Option<&Host>)
        ensures
            match self@ {
                OriginView::Opaque(_) => host is None,
                OriginView::Tuple(_, h, _) => host is Some && host.unwrap()@ == h,
            },
    {
        match self {
            ImmutableOrigin::Opaque(_) => None,
            ImmutableOrigin::Tuple(_, host, _) => Some(host),
        }
    }

    /// Get the port of the origin.
    pub fn port(&self) -> (port: Option<u16>)
        ensures
            match self@ {
                OriginView::Opaque(_) => port is None,
                OriginView::Tuple(_, _, p) => port == Some(p),
            },
    {
        match self {
            ImmutableOrigin::Opaque(_) => None,
            ImmutableOrigin::Tuple(_, _, port) => Some(*port),
        }
    }

    /// Return whether this origin is a (scheme, host, port) tuple
    /// (as opposed to an opaque origin).
    pub fn is_tuple(&self) -> (b: bool)
        ensures
            b == (self@ is Tuple),
    {
        match self {
            ImmutableOrigin::Opaque(_) => false,
            ImmutableOrigin::Tuple(_, _, _) => true,
        }
    }

    /// Check if `other` has the same origin.
    pub fn same_origin(&self, other: &MutableOrigin) -> (b: bool)
        ensures
            b == (self@ == other.spec_immutable()@),
    {
        self.same(other.immutable())
    }

    /// Check if `other` has the same origin domain: it has no domain of its
    /// own and the same origin.
    pub fn same_origin_domain(&self, other: &MutableOrigin) -> (b: bool)
        ensures
            b == (other.spec_domain() is None && self@ == other.spec_immutable()@),
    {
        !other.has_domain() && self.same(other.immutable())
    }

    /// Convert into `Origin`: a tuple origin keeps scheme, host and port, an
    /// opaque one becomes a new opaque origin of the `url` crate.
    pub fn into_url_origin(self) -> (origin: url::Origin)
        ensures
            match self@ {
                OriginView::Opaque(_) => origin_tuple(origin) is None,
                OriginView::Tuple(scheme, host, port) => origin_tuple(origin) == Some(
                    (scheme, host, port),
                ),
            },
    {
        match self {
            ImmutableOrigin::Opaque(_) => make_url_origin(None),
            ImmutableOrigin::Tuple(scheme, host, port) => make_url_origin(
                Some((scheme, host, port)),
            ),
        }
    }

    /// <https://w3c.github.io/webappsec-secure-contexts/#is-origin-trustworthy>
    ///
    /// `domain_is_loopback` says whether the host of the origin, where it is
    /// a domain, is the text of a loopback address.
    pub fn is_potentially_trustworthy(&self, domain_is_loopback: bool) -> (b: bool)
        ensures
            b == origin_is_trustworthy(self@, domain_is_loopback),
    {
        match self {
            // If origin is an opaque origin return "Not Trustworthy".
            ImmutableOrigin::Opaque(_) => false,
            ImmutableOrigin::Tuple(scheme, host, _) => {
                // If origin's scheme is either "https" or "wss", return "Potentially Trustworthy".
                if str_equal(scheme.as_str(), "https") || str_equal(scheme.as_str(), "wss") {
                    return true;
                }
                // If origin's scheme is "file", return "Potentially Trustworthy".
                if str_equal(scheme.as_str(), "file") {
                    return true;
                }
                match host {
                    // If origin's host matches 127.0.0.0/8, return "Potentially Trustworthy".
                    Host::Ipv4(bits) => *bits >> 24 == 127,
                    Host::Ipv6(_) => false,
                    Host::Domain(domain) => {
                        if domain_is_loopback {
                            return true;
                        }
                        // If origin's host is "localhost" or ends with ".localhost",
                        // return "Potentially Trustworthy".
                        str_equal(domain.as_str(), "localhost") || ends_with(
                            &chars_of(domain.as_str()),
                            &chars_of(".localhost"),
                        )
                    },
                }
            },
        }
    }

    /// <https://html.spec.whatwg.org/multipage/#ascii-serialisation-of-an-origin>
    ///
    /// `null` for an opaque origin; for a tuple origin what the `url` crate
    /// makes of scheme, host and port.
    pub fn ascii_serialization(&self) -> (r: String)
        ensures
            r@ == (match self@ {
                OriginView::Opaque(_) => "null"@,
                OriginView::Tuple(scheme, host, port) => origin_ascii(scheme, host, port),
            }),
    {
        match self {
            ImmutableOrigin::Opaque(_) => String::from_str("null"),
            ImmutableOrigin::Tuple(scheme, host, port) => tuple_ascii_serialization(
                scheme,
                host,
                *port,
            ),
        }
    }
}

impl PartialEq for ImmutableOrigin {
    fn eq(&self, other: &Self) -> (r: bool) {
        self.same(other)
    }
}

impl Eq for ImmutableOrigin {

}

impl vstd::std_specs::cmp::PartialEqSpecImpl for ImmutableOrigin {
    open spec fn obeys_eq_spec() -> bool {
        true
    }

    open spec fn eq_spec(&self, other: &Self) -> bool {
        self@ == other@
    }
}

/// A representation of an [origin](https://html.spec.whatwg.org/multipage/#origin-2):
/// an origin and the domain that was set for it, if one was.
#[derive(Debug)]
pub struct MutableOrigin {
    origin: ImmutableOrigin,
    domain: Option<Host>,
}

impl Clone for MutableOrigin {
    fn clone(&self) -> (copy: Self)
        ensures
            copy.spec_immutable()@ == self.spec_immutable()@,
            copy.spec_domain() == self.spec_domain(),
    {
        MutableOrigin {
            origin: self.origin.clone(),
            domain: match &self.domain {
                Some(domain) => Some(domain.clone()),
                None => None,
            },
        }
    }
}

impl MutableOrigin {
    /// The origin.
    pub closed spec fn spec_immutable(&self) -> ImmutableOrigin {
        self.origin
    }

    /// The domain that was set, if one was.
    pub closed spec fn spec_domain(&self) -> Option<HostView> {
        match self.domain {
            Some(domain) => Some(domain@),
            None => None,
        }
    }

    /// The host of the origin, if it has one; in its place the domain that
    /// was set, if one was.
    pub open spec fn spec_effective_domain(&self) -> Option<HostView> {
        match self.spec_immutable()@ {
            OriginView::Opaque(_) => None,
            OriginView::Tuple(_, host, _) => match self.spec_domain() {
                Some(domain) => Some(domain),
                None => Some(host),
            },
        }
    }

    /// The scheme of the origin, if it has one.
    pub open spec fn spec_scheme(&self) -> Option<Seq<char>> {
        match self.spec_immutable()@ {
            OriginView::Opaque(_) => None,
            OriginView::Tuple(scheme, _, _) => Some(scheme),
        }
    }

    /// Create a `MutableOrigin` from `ImmutableOrigin`: no domain is set.
    pub fn new(origin: ImmutableOrigin) -> (r: MutableOrigin)
        ensures
            r.spec_immutable() == origin,
            r.spec_domain() is None,
    {
        MutableOrigin { origin, domain: None }
    }

    /// Get the reference of `ImmutableOrigin`.
    pub fn immutable(&self) -> (origin: &ImmutableOrigin)
        ensures
            *origin == self.spec_immutable(),
    {
        &self.origin
    }

    /// Return whether this origin is a (scheme, host, port) tuple
    /// (as opposed to an opaque origin).
    pub fn is_tuple(&self) -> (b: bool)
        ensures
            b == (self.spec_immutable()@ is Tuple),
    {
        self.origin.is_tuple()
    }

    /// Get the scheme of the origin.
    pub fn scheme(&self) -> (scheme: Option<&str>)
        ensures
            str_option_view(scheme) == self.spec_scheme(),
    {
        self.origin.scheme()
    }

    /// Get the host of the origin.
    pub fn host(&self) -> (host: Option<&Host>)
        ensures
            match self.spec_immutable()@ {
                OriginView::Opaque(_) => host is None,
                OriginView::Tuple(_, h, _) => host is Some && host.unwrap()@ == h,
            },
    {
        self.origin.host()
    }

    /// Get the port of the origin.
    pub fn port(&self) -> (port: Option<u16>)
        ensures
            match self.spec_immutable()@ {
                OriginView::Opaque(_) => port is None,
                OriginView::Tuple(_, _, p) => port == Some(p),
            },
    {
        self.origin.port()
    }

    /// Check if `other` has the same origin.
    pub fn same_origin(&self, other: &MutableOrigin) -> (b: bool)
        ensures
            b == (self.spec_immutable()@ == other.spec_immutable()@),
    {
        self.origin.same(&other.origin)
    }

    /// Check if `other` has the same origin domain: where a domain was set
    /// for this origin, one was set for `other` too, it is the same, and the
    /// schemes are the same; where none was set, none was set for `other` and
    /// the origins are the same.
    pub fn same_origin_domain(&self, other: &MutableOrigin) -> (b: bool)
        ensures
            b == (match self.spec_domain() {
                Some(domain) => other.spec_domain() == Some(domain) && self.spec_scheme()
                    == other.spec_scheme(),
                None => other.spec_domain() is None && self.spec_immutable()@
                    == other.spec_immutable()@,
            }),
    {
        match &self.domain {
            Some(self_domain) => match &other.domain {
                Some(other_domain) => self_domain.same(other_domain) && same_optional_text(
                    self.origin.scheme(),
                    other.origin.scheme(),
                ),
                None => false,
            },
            None => self.origin.same_origin_domain(other),
        }
    }

    /// Get the domain of the origin.
    pub fn domain(&self) -> (domain: Option<Host>)
        ensures
            match domain {
                Some(d) => self.spec_domain() == Some(d@),
                None => self.spec_domain() is None,
            },
    {
        match &self.domain {
            Some(domain) => Some(domain.clone()),
            None => None,
        }
    }

    /// Set the domain of the origin.
    pub fn set_domain(&mut self, domain: Host)
        ensures
            final(self).spec_domain() == Some(domain@),
            final(self).spec_immutable() == old(self).spec_immutable(),
    {
        self.domain = Some(domain);
    }

    /// Check if the origin has domain.
    pub fn has_domain(&self) -> (b: bool)
        ensures
            b == (self.spec_domain() is Some),
    {
        self.domain.is_some()
    }

    /// Get the effective domain of the origin.
    pub fn effective_domain(&self) -> (domain: Option<Host>)
        ensures
            match domain {
                Some(d) => self.spec_effective_domain() == Some(d@),
                None => self.spec_effective_domain() is None,
            },
    {
        match self.origin.host() {
            Some(host) => match self.domain() {
                Some(domain) => Some(domain),
                None => Some(host.clone()),
            },
            None => None,
        }
    }
}

/// Whether two optional texts are both absent or the same text.
fn same_optional_text(a: Option<&str>, b: Option<&str>) -> (same: bool)
    ensures
        same == (str_option_view(a) == str_option_view(b)),
{
    match (a, b) {
        (Some(a), Some(b)) => str_equal(a, b),
        (None, None) => true,
        _ => false,
    }
}

} // verus!
