use ohim::dom_url::{file_path_or_error, to_hex, DOMUrl, Host, ImmutableOrigin, MutableOrigin};
use ohim::dom_url::{OpaqueOrigin, UrlError, UUID_RANDOM, UUID_VERSION_AND_VARIANT};
use std::path::PathBuf;

#[test]
fn parse_reads_components() {
    let url = DOMUrl::parse("https://user:pw@example.com:8443/a/b?q=1#frag").unwrap();
    assert_eq!(url.as_str(), "https://user:pw@example.com:8443/a/b?q=1#frag");
    assert_eq!(url.scheme(), "https");
    assert_eq!(url.username(), "user");
    assert_eq!(url.password(), Some("pw"));
    assert_eq!(url.host_str(), Some("example.com"));
    assert_eq!(url.domain(), Some("example.com"));
    assert_eq!(url.port(), Some(8443));
    assert_eq!(url.port_or_known_default(), Some(8443));
    assert_eq!(url.path(), "/a/b");
    assert_eq!(url.query(), Some("q=1"));
    assert_eq!(url.fragment(), Some("frag"));
    assert!(!url.cannot_be_a_base());
    assert_eq!(
        url.path_segments(),
        Some(vec![String::from("a"), String::from("b")])
    );
    assert!(matches!(url.host(), Some(Host::Domain(d)) if d == "example.com"));
}

#[test]
fn parse_refuses_what_is_no_url() {
    assert!(DOMUrl::parse("not a url").is_err());
    assert!(DOMUrl::parse("").is_err());
}

#[test]
fn absent_components() {
    let url = DOMUrl::parse("data:text/plain,Stuff").unwrap();
    assert!(url.cannot_be_a_base());
    assert_eq!(url.host_str(), None);
    assert_eq!(url.domain(), None);
    assert!(url.host().is_none());
    assert_eq!(url.port(), None);
    assert_eq!(url.port_or_known_default(), None);
    assert_eq!(url.query(), None);
    assert_eq!(url.fragment(), None);
    assert_eq!(url.password(), None);
    assert_eq!(url.username(), "");
    assert_eq!(url.path_segments(), None);
    let http = DOMUrl::parse("http://example.com").unwrap();
    assert_eq!(http.port(), None);
    assert_eq!(http.port_or_known_default(), Some(80));
    assert_eq!(http.path_segments(), Some(vec![String::new()]));
}

#[test]
fn ip_hosts() {
    let v4 = DOMUrl::parse("http://127.0.0.1/").unwrap();
    assert!(matches!(v4.host(), Some(Host::Ipv4(0x7f00_0001))));
    assert_eq!(v4.domain(), None);
    let v6 = DOMUrl::parse("http://[::1]/").unwrap();
    assert!(matches!(v6.host(), Some(Host::Ipv6(1))));
    assert_eq!(v6.host_str(), Some("[::1]"));
}

#[test]
fn scheme_classes() {
    let https = DOMUrl::parse("https://a.example/").unwrap();
    assert!(https.is_secure_scheme() && https.is_special_scheme() && !https.is_local_scheme());
    let wss = DOMUrl::parse("wss://a.example/").unwrap();
    assert!(wss.is_secure_scheme() && wss.is_special_scheme());
    let http = DOMUrl::parse("http://a.example/").unwrap();
    assert!(!http.is_secure_scheme() && http.is_special_scheme());
    for special in ["ftp://a/", "file:///a", "ws://a/"] {
        let url = DOMUrl::parse(special).unwrap();
        assert!(url.is_special_scheme() && !url.is_secure_scheme() && !url.is_local_scheme());
    }
    for local in ["about:blank", "blob:https://a/x", "data:,x"] {
        let url = DOMUrl::parse(local).unwrap();
        assert!(url.is_local_scheme() && !url.is_special_scheme() && !url.is_secure_scheme());
    }
    let other = DOMUrl::parse("mailto:a@b.example").unwrap();
    assert!(!other.is_local_scheme() && !other.is_special_scheme() && !other.is_secure_scheme());
}

#[test]
fn join_and_parse_with_base() {
    let base = DOMUrl::parse("https://example.com/a/b").unwrap();
    assert_eq!(base.join("c").unwrap().as_str(), "https://example.com/a/c");
    assert_eq!(base.join("/x?y").unwrap().as_str(), "https://example.com/x?y");
    assert_eq!(
        DOMUrl::parse_with_base(Some(&base), "../z").unwrap().as_str(),
        "https://example.com/z"
    );
    assert_eq!(
        DOMUrl::parse_with_base(None, "http://other.example/").unwrap().as_str(),
        "http://other.example/"
    );
    assert!(DOMUrl::parse_with_base(None, "c").is_err());
    let data = DOMUrl::parse("data:,x").unwrap();
    assert!(data.join("c").is_err());
}

#[test]
fn conversions_keep_the_serialization() {
    let url = DOMUrl::parse("https://example.com/a").unwrap();
    assert_eq!(url.as_url().as_str(), "https://example.com/a");
    let copy = url.clone();
    assert!(copy == url);
    assert_eq!(copy.into_string(), "https://example.com/a");
    let inner = url.into_url();
    assert_eq!(inner.as_str(), "https://example.com/a");
    let back = DOMUrl::from_url(inner);
    assert_eq!(back.as_str(), "https://example.com/a");
    assert!(back != DOMUrl::parse("https://example.com/b").unwrap());
}

#[test]
fn setters_change_the_url() {
    let mut url = DOMUrl::parse("https://example.com/a").unwrap();
    assert_eq!(url.set_username("me"), Ok(()));
    assert_eq!(url.as_str(), "https://me@example.com/a");
    assert_eq!(url.set_password(Some("pw")), Ok(()));
    assert_eq!(url.as_str(), "https://me:pw@example.com/a");
    assert_eq!(url.set_password(None), Ok(()));
    assert_eq!(url.as_str(), "https://me@example.com/a");
    url.set_fragment(Some("top"));
    assert_eq!(url.as_str(), "https://me@example.com/a#top");
    url.set_fragment(None);
    assert_eq!(url.as_str(), "https://me@example.com/a");
    url.as_mut_url().set_query(Some("q"));
    assert_eq!(url.as_str(), "https://me@example.com/a?q");
}

#[test]
fn setters_refuse_urls_without_host() {
    let mut url = DOMUrl::parse("data:,x").unwrap();
    assert_eq!(url.set_username("me"), Err(UrlError::SetUsername));
    assert_eq!(url.set_password(Some("pw")), Err(UrlError::SetPassword));
    assert_eq!(url.as_str(), "data:,x");
}

#[test]
fn file_paths() {
    let path = PathBuf::from("/tmp/some file.txt");
    let url = DOMUrl::from_file_path(&path).unwrap();
    assert_eq!(url.scheme(), "file");
    assert_eq!(url.as_str(), "file:///tmp/some%20file.txt");
    assert_eq!(url.to_file_path(), Ok(path));
    assert_eq!(
        DOMUrl::from_file_path(&PathBuf::from("relative/path")).err(),
        Some(UrlError::FromFilePath)
    );
    let remote = DOMUrl::parse("file://remote.example/a").unwrap();
    assert_eq!(remote.to_file_path(), Err(UrlError::ToFilePath));
    let data = DOMUrl::parse("data:,x").unwrap();
    assert_eq!(data.to_file_path(), Err(UrlError::ToFilePath));
}

#[test]
fn debug_compact_shortens_http_and_file_urls() {
    let http = DOMUrl::parse("https://example.com/a/b").unwrap();
    assert_eq!(http.debug_compact(), "example.com/a/b");
    let plain = DOMUrl::parse("http://example.com/").unwrap();
    assert_eq!(plain.debug_compact(), "example.com/");
    let file = DOMUrl::parse("file:///home/user/dir/name.txt").unwrap();
    assert_eq!(file.debug_compact(), "dir/name.txt");
    let short = DOMUrl::parse("file:///name.txt").unwrap();
    assert_eq!(short.debug_compact(), "/name.txt");
    let two = DOMUrl::parse("file:///dir/name.txt").unwrap();
    assert_eq!(two.debug_compact(), "/dir/name.txt");
    let other = DOMUrl::parse("about:blank").unwrap();
    assert_eq!(other.debug_compact(), "about:blank");
}

#[test]
fn debug_string_shortens_long_data_urls() {
    let short = DOMUrl::parse("data:text/plain,abc").unwrap();
    assert_eq!(short.debug_string(), "data:text/plain,abc");
    let http = DOMUrl::parse("https://example.com/a/very/long/path/that/is/longer/than/forty").unwrap();
    assert_eq!(http.debug_string(), http.as_str());
    let long = DOMUrl::parse("data:text/plain,0123456789012345678901234567890123456789").unwrap();
    let text = long.debug_string();
    assert!(text.starts_with("data:text/plain,012345678901234567890123... ("));
    assert!(text.ends_with(")"));
    let digits = &text["data:text/plain,012345678901234567890123... (".len()..text.len() - 1];
    assert!(!digits.is_empty() && digits.len() <= 16);
    assert!(digits.chars().all(|c| c.is_ascii_digit() || ('a'..='f').contains(&c)));
    assert_eq!(text, long.clone().debug_string());
}

#[test]
fn hexadecimal_digits() {
    assert_eq!(to_hex(0), "0");
    assert_eq!(to_hex(9), "9");
    assert_eq!(to_hex(10), "a");
    assert_eq!(to_hex(15), "f");
    assert_eq!(to_hex(16), "10");
    assert_eq!(to_hex(255), "ff");
    assert_eq!(to_hex(0xdead_beef), "deadbeef");
    assert_eq!(to_hex(u64::MAX), "ffffffffffffffff");
    assert_eq!(to_hex(0x1000), "1000");
}

#[test]
fn trustworthy_urls() {
    assert!(DOMUrl::parse("about:blank").unwrap().is_potentially_trustworthy(false));
    assert!(DOMUrl::parse("about:srcdoc").unwrap().is_potentially_trustworthy(false));
    assert!(DOMUrl::parse("data:,x").unwrap().is_potentially_trustworthy(false));
    assert!(DOMUrl::parse("https://example.com/").unwrap().is_potentially_trustworthy(false));
    assert!(DOMUrl::parse("wss://example.com/").unwrap().is_potentially_trustworthy(false));
    assert!(!DOMUrl::parse("http://example.com/").unwrap().is_potentially_trustworthy(false));
    assert!(DOMUrl::parse("http://localhost/").unwrap().is_potentially_trustworthy(false));
    assert!(DOMUrl::parse("http://a.localhost/").unwrap().is_potentially_trustworthy(false));
    assert!(!DOMUrl::parse("http://notlocalhost/").unwrap().is_potentially_trustworthy(false));
    assert!(DOMUrl::parse("http://127.0.0.1/").unwrap().is_potentially_trustworthy(false));
    assert!(DOMUrl::parse("http://127.9.9.9/").unwrap().is_potentially_trustworthy(false));
    assert!(!DOMUrl::parse("http://128.0.0.1/").unwrap().is_potentially_trustworthy(false));
    assert!(!DOMUrl::parse("http://[::1]/").unwrap().is_potentially_trustworthy(false));
    // An opaque origin is not trustworthy.
    assert!(!DOMUrl::parse("about:other").unwrap().is_potentially_trustworthy(false));
    assert!(!DOMUrl::parse("file:///a").unwrap().is_potentially_trustworthy(false));
}

#[test]
fn trustworthy_origins() {
    let tuple = |scheme: &str, host: Host| ImmutableOrigin::Tuple(String::from(scheme), host, 80);
    assert!(tuple("file", Host::Domain(String::from("x"))).is_potentially_trustworthy(false));
    assert!(tuple("https", Host::Ipv4(1)).is_potentially_trustworthy(false));
    assert!(!tuple("http", Host::Domain(String::from("x"))).is_potentially_trustworthy(false));
    assert!(tuple("http", Host::Domain(String::from("127.0.0.1"))).is_potentially_trustworthy(true));
    assert!(tuple("http", Host::Domain(String::from("localhost"))).is_potentially_trustworthy(false));
    assert!(!tuple("http", Host::Domain(String::from("localhost."))).is_potentially_trustworthy(false));
    assert!(tuple("http", Host::Ipv4(0x7fff_ffff)).is_potentially_trustworthy(false));
    assert!(!tuple("http", Host::Ipv4(0x7eff_ffff)).is_potentially_trustworthy(true));
    assert!(!tuple("http", Host::Ipv6(1)).is_potentially_trustworthy(true));
    assert!(!ImmutableOrigin::new_opaque().is_potentially_trustworthy(true));
}

#[test]
fn origin_of_http_url_is_a_tuple() {
    let url = DOMUrl::parse("http://example.com/").unwrap();
    let origin = url.origin();
    assert!(origin.is_tuple());
    assert_eq!(origin.scheme(), Some("http"));
    assert_eq!(origin.port(), Some(80));
    assert!(matches!(origin.host(), Some(Host::Domain(d)) if d == "example.com"));
    assert!(origin == url.origin());
    assert_eq!(origin.ascii_serialization(), "http://example.com");
    let other = DOMUrl::parse("http://example.com:81/").unwrap().origin();
    assert!(origin != other);
    assert_eq!(other.ascii_serialization(), "http://example.com:81");
    let v4 = DOMUrl::parse("https://10.0.0.1/").unwrap().origin();
    assert_eq!(v4.ascii_serialization(), "https://10.0.0.1");
}

#[test]
fn origin_of_about_blank_is_opaque() {
    let url = DOMUrl::parse("about:blank").unwrap();
    let a = url.origin();
    let b = url.origin();
    assert!(!a.is_tuple());
    assert!(a != b);
    assert!(a == a.clone());
    assert!(matches!(a, ImmutableOrigin::Opaque(OpaqueOrigin::Opaque(_))));
    assert_eq!(a.scheme(), None);
    assert_eq!(a.port(), None);
    assert!(a.host().is_none());
    assert_eq!(a.ascii_serialization(), "null");
}

#[test]
fn opaque_origins_of_both_kinds() {
    let a = ImmutableOrigin::new_opaque();
    let b = ImmutableOrigin::new_opaque_data_url_worker();
    assert!(matches!(a, ImmutableOrigin::Opaque(OpaqueOrigin::Opaque(_))));
    assert!(matches!(b, ImmutableOrigin::Opaque(OpaqueOrigin::SecureWorkerFromDataUrl(_))));
    assert!(a != b);
    let same_bits_a = ImmutableOrigin::Opaque(OpaqueOrigin::Opaque(7));
    let same_bits_b = ImmutableOrigin::Opaque(OpaqueOrigin::SecureWorkerFromDataUrl(7));
    assert!(same_bits_a != same_bits_b);
    assert!(same_bits_a == ImmutableOrigin::Opaque(OpaqueOrigin::Opaque(7)));
}

#[test]
fn url_origin_round_trip() {
    let origin = DOMUrl::parse("https://example.com:444/").unwrap().origin();
    let outside = origin.clone().into_url_origin();
    assert!(outside.is_tuple());
    assert_eq!(outside.ascii_serialization(), "https://example.com:444");
    assert!(ImmutableOrigin::new(outside) == origin);
    let opaque = ImmutableOrigin::new_opaque().into_url_origin();
    assert!(!opaque.is_tuple());
    assert!(!ImmutableOrigin::new(opaque).is_tuple());
    let v6 = ImmutableOrigin::Tuple(String::from("http"), Host::Ipv6(1), 8080);
    assert_eq!(v6.clone().into_url_origin().ascii_serialization(), "http://[::1]:8080");
    assert!(ImmutableOrigin::new(v6.clone().into_url_origin()) == v6);
}

#[test]
fn hosts_compare_by_kind_and_value() {
    assert!(Host::Domain(String::from("a")).same(&Host::Domain(String::from("a"))));
    assert!(!Host::Domain(String::from("a")).same(&Host::Domain(String::from("b"))));
    assert!(Host::Ipv4(5).same(&Host::Ipv4(5)));
    assert!(!Host::Ipv4(5).same(&Host::Ipv4(6)));
    assert!(!Host::Ipv4(5).same(&Host::Ipv6(5)));
    assert!(Host::Ipv6(5).same(&Host::Ipv6(5).clone()));
}

#[test]
fn mutable_origin_domains() {
    let a = DOMUrl::parse("https://a.example.com/").unwrap().origin();
    let b = DOMUrl::parse("https://b.example.com/").unwrap().origin();
    let mut ma = MutableOrigin::new(a.clone());
    let mut mb = MutableOrigin::new(b.clone());
    assert!(ma.is_tuple());
    assert_eq!(ma.scheme(), Some("https"));
    assert_eq!(ma.port(), Some(443));
    assert!(ma.host().unwrap().same(&Host::Domain(String::from("a.example.com"))));
    assert!(ma.immutable() == &a);
    assert!(!ma.has_domain());
    assert!(ma.domain().is_none());
    assert!(ma.effective_domain().unwrap().same(&Host::Domain(String::from("a.example.com"))));
    assert!(ma.same_origin(&ma.clone()));
    assert!(!ma.same_origin(&mb));
    assert!(ma.same_origin_domain(&ma.clone()));
    assert!(!ma.same_origin_domain(&mb));
    assert!(a.same_origin(&ma));
    assert!(!a.same_origin(&mb));
    assert!(a.same_origin_domain(&ma));
    ma.set_domain(Host::Domain(String::from("example.com")));
    assert!(ma.has_domain());
    assert!(ma.domain().unwrap().same(&Host::Domain(String::from("example.com"))));
    assert!(ma.effective_domain().unwrap().same(&Host::Domain(String::from("example.com"))));
    // One side has a domain, the other has none.
    assert!(!ma.same_origin_domain(&mb));
    assert!(!mb.same_origin_domain(&ma));
    assert!(!a.same_origin_domain(&ma));
    assert!(a.same_origin(&ma));
    mb.set_domain(Host::Domain(String::from("example.com")));
    assert!(ma.same_origin_domain(&mb));
    assert!(!ma.same_origin(&mb));
    let mut http = MutableOrigin::new(DOMUrl::parse("http://a.example.com/").unwrap().origin());
    http.set_domain(Host::Domain(String::from("example.com")));
    assert!(!ma.same_origin_domain(&http));
    let opaque = MutableOrigin::new(ImmutableOrigin::new_opaque());
    assert!(!opaque.is_tuple());
    assert!(opaque.effective_domain().is_none());
    assert!(opaque.host().is_none());
    assert_eq!(opaque.scheme(), None);
    assert_eq!(opaque.port(), None);
}

#[test]
fn new_opaque_origin_holds_a_random_uuid() {
    let mut seen = Vec::new();
    for _ in 0..16 {
        match ImmutableOrigin::new_opaque() {
            ImmutableOrigin::Opaque(OpaqueOrigin::Opaque(bits)) => {
                assert_eq!(bits & UUID_VERSION_AND_VARIANT, UUID_RANDOM);
                assert_eq!((bits >> 76) & 0xf, 4);
                assert_eq!((bits >> 62) & 0x3, 2);
                assert!(!seen.contains(&bits));
                seen.push(bits);
            }
            _ => panic!("not an opaque origin"),
        }
    }
}

#[test]
fn file_path_outcomes() {
    let path = PathBuf::from("/a/b");
    assert_eq!(file_path_or_error(Ok(path.clone())), Ok(path));
    assert_eq!(file_path_or_error(Err(())), Err(UrlError::ToFilePath));
    // A URL without path segments has no file path.
    let mail = DOMUrl::parse("mailto:a@b.example").unwrap();
    assert_eq!(mail.path_segments(), None);
    assert_eq!(mail.to_file_path(), Err(UrlError::ToFilePath));
    let local = DOMUrl::parse("file://localhost/etc/hosts").unwrap();
    assert_eq!(local.to_file_path(), Ok(PathBuf::from("/etc/hosts")));
}

#[test]
fn host_kind_is_kept_beside_the_serialization() {
    let mut set = DOMUrl::parse("sc://h/x").unwrap();
    set.as_mut_url().set_ip_host("1.2.3.4".parse().unwrap()).unwrap();
    let parsed = DOMUrl::parse("sc://1.2.3.4/x").unwrap();
    // The two have the same serialization and compare equal.
    assert_eq!(set.as_str(), "sc://1.2.3.4/x");
    assert!(set == parsed);
    assert_eq!(set.host_str(), parsed.host_str());
    // Their hosts are of different kinds.
    assert!(matches!(set.host(), Some(Host::Ipv4(0x0102_0304))));
    assert_eq!(set.domain(), None);
    assert!(matches!(parsed.host(), Some(Host::Domain(d)) if d == "1.2.3.4"));
    assert_eq!(parsed.domain(), Some("1.2.3.4"));
    // A copy keeps the kind, and so do the setters.
    let mut copy = set.clone();
    assert!(matches!(copy.host(), Some(Host::Ipv4(0x0102_0304))));
    copy.set_fragment(Some("f"));
    assert_eq!(copy.set_username("u"), Ok(()));
    assert_eq!(copy.set_password(Some("p")), Ok(()));
    assert!(matches!(copy.host(), Some(Host::Ipv4(0x0102_0304))));
    assert_eq!(copy.domain(), None);
    assert!(matches!(DOMUrl::from_url(set.into_url()).host(), Some(Host::Ipv4(_))));
}

#[test]
fn host_and_host_text_agree() {
    for text in ["https://example.com/", "http://10.1.2.3/", "http://[::1]/", "data:,x", "sc://h/"] {
        let url = DOMUrl::parse(text).unwrap();
        assert_eq!(url.host().is_none(), url.host_str().is_none());
        match url.host() {
            Some(Host::Domain(domain)) => {
                assert_eq!(url.host_str(), Some(domain.as_str()));
                assert_eq!(url.domain(), Some(domain.as_str()));
            }
            _ => assert_eq!(url.domain(), None),
        }
    }
}
