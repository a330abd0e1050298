use coap::message::error::{ErrorKind, FormatError};
use coap::message::option::{
    cache_key_of, class_of, is_registered, proxy_of, Cache, Class, Opt, Opts, Proxy,
};
use coap::message::registry::{
    Accept, ContentFormat, ETag, IfMatch, IfNoneMatch, LocationPath, LocationQuery, MaxAge,
    NoResponse, Observe, ProxyScheme, ProxyUri, Size1, UriHost, UriPath, UriPort, UriQuery,
};

#[test]
fn numbers_of_the_registry() {
    assert_eq!(IfMatch::NUMBER, 1);
    assert_eq!(UriHost::NUMBER, 3);
    assert_eq!(ETag::NUMBER, 4);
    assert_eq!(IfNoneMatch::NUMBER, 5);
    assert_eq!(Observe::NUMBER, 6);
    assert_eq!(UriPort::NUMBER, 7);
    assert_eq!(LocationPath::NUMBER, 8);
    assert_eq!(UriPath::NUMBER, 11);
    assert_eq!(ContentFormat::NUMBER, 12);
    assert_eq!(MaxAge::NUMBER, 14);
    assert_eq!(UriQuery::NUMBER, 15);
    assert_eq!(Accept::NUMBER, 17);
    assert_eq!(LocationQuery::NUMBER, 20);
    assert_eq!(ProxyUri::NUMBER, 35);
    assert_eq!(ProxyScheme::NUMBER, 39);
    assert_eq!(Size1::NUMBER, 60);
    assert_eq!(NoResponse::NUMBER, 284);
    for n in [1u16, 3, 4, 5, 6, 7, 8, 11, 12, 14, 15, 17, 20, 35, 39, 60, 284] {
        assert!(is_registered(n));
    }
    for n in [0u16, 2, 9, 10, 13, 16, 23, 61, 283, 285, 65535] {
        assert!(!is_registered(n));
    }
}

#[test]
fn policies_from_the_number() {
    assert_eq!(class_of(11), Class::Critical);
    assert_eq!(class_of(12), Class::Elective);
    assert_eq!(UriPath::class(), Class::Critical);
    assert_eq!(ContentFormat::class(), Class::Elective);
    assert_eq!(proxy_of(3), Proxy::Unsafe);
    assert_eq!(proxy_of(35), Proxy::Unsafe);
    assert_eq!(proxy_of(4), Proxy::SafeToForward);
    assert_eq!(UriHost::proxy(), Proxy::Unsafe);
    assert_eq!(ETag::proxy(), Proxy::SafeToForward);
    assert_eq!(cache_key_of(60), Cache::NoCacheKey);
    assert_eq!(cache_key_of(284), Cache::NoCacheKey);
    assert_eq!(cache_key_of(4), Cache::CacheKey(1));
    assert_eq!(cache_key_of(11), Cache::CacheKey(2));
    assert_eq!(Size1::cache_key(), Cache::NoCacheKey);
    assert_eq!(UriHost::cache_key(), Cache::CacheKey(0));
}

#[test]
fn uint_is_stripped_of_leading_zeros() {
    assert_eq!(MaxAge::new(0).to_bytes(), Vec::<u8>::new());
    assert_eq!(MaxAge::new(0).len(), 0);
    assert_eq!(MaxAge::new(60).to_bytes(), vec![60]);
    assert_eq!(MaxAge::new(255).to_bytes(), vec![255]);
    assert_eq!(MaxAge::new(256).to_bytes(), vec![1, 0]);
    assert_eq!(UriPort::new(5683).to_bytes(), vec![0x16, 0x33]);
    assert_eq!(Size1::new(0x01020304).to_bytes(), vec![1, 2, 3, 4]);
    assert_eq!(Size1::new(0x01020304).len(), 4);
    assert_eq!(Size1::new(0x0102030405060708).to_bytes(), vec![1, 2, 3, 4, 5, 6, 7, 8]);
    assert_eq!(Size1::new(u64::MAX).to_bytes(), vec![255; 8]);
    assert_eq!(Size1::new(0x0100_0000_0000).to_bytes(), vec![1, 0, 0, 0, 0, 0]);
}

#[test]
fn uint_from_bytes() {
    assert_eq!(UriPort::from_bytes(&[]).unwrap().val(), 0);
    assert_eq!(UriPort::from_bytes(&[0x16, 0x33]).unwrap().val(), 5683);
    assert_eq!(UriPort::from_bytes(&[0x00, 0x33]).unwrap().val(), 0x33);
    assert_eq!(MaxAge::from_bytes(&[1, 2, 3, 4]).unwrap().val(), 0x01020304);
    let err = UriPort::from_bytes(&[1, 2, 3]).unwrap_err();
    assert_eq!(
        err.kind(),
        &ErrorKind::MessageFormat(FormatError::InvalidOptionValue { range: 0..2, actual: 3 })
    );
    assert!(err.header().is_none());
}

#[test]
fn opaque_bounds() {
    assert_eq!(ETag::from_bytes(&[1, 2, 3]).unwrap().val(), &[1, 2, 3]);
    assert_eq!(ETag::from_bytes(&[]).unwrap().val(), &[] as &[u8]);
    assert!(ETag::from_bytes(&[0; 8]).is_ok());
    let err = ETag::from_bytes(&[0; 9]).unwrap_err();
    assert_eq!(
        err.kind(),
        &ErrorKind::MessageFormat(FormatError::InvalidOptionValue { range: 0..8, actual: 9 })
    );
    assert!(IfMatch::from_bytes(&[0; 9]).is_ok());
    assert!(IfMatch::from_bytes(&[0; 10]).is_err());
    assert_eq!(ETag::new(vec![9, 8]).to_bytes(), vec![9, 8]);
    assert_eq!(ETag::new(vec![9, 8]).len(), 2);
}

#[test]
fn string_bounds_and_utf8() {
    assert_eq!(UriPath::from_bytes(b"hello").unwrap().val(), "hello");
    assert_eq!(UriPath::from_bytes("h\u{e9}llo \u{1F600}".as_bytes()).unwrap().val(), "h\u{e9}llo \u{1F600}");
    assert_eq!(UriPath::from_bytes(b"").unwrap().val(), "");
    assert!(UriPath::from_bytes(&[b'a'; 255]).is_ok());
    let err = UriPath::from_bytes(&[b'a'; 256]).unwrap_err();
    assert_eq!(
        err.kind(),
        &ErrorKind::MessageFormat(FormatError::InvalidOptionValue { range: 0..255, actual: 256 })
    );
    let err = UriHost::from_bytes(b"").unwrap_err();
    assert_eq!(
        err.kind(),
        &ErrorKind::MessageFormat(FormatError::InvalidOptionValue { range: 1..8, actual: 0 })
    );
    let err = UriPath::from_bytes(&[0xC3, 0x28]).unwrap_err();
    assert!(matches!(err.kind(), ErrorKind::MessageFormat(FormatError::InvalidOption(_))));
    assert_eq!(UriPath::new("a/b".to_string()).to_bytes(), b"a/b".to_vec());
    assert_eq!(UriPath::new("\u{e9}".to_string()).to_bytes(), vec![0xC3, 0xA9]);
    assert_eq!(UriPath::new("\u{e9}".to_string()).len(), 2);
    assert!(ProxyUri::from_bytes(&[b'x'; 1034]).is_ok());
    assert!(ProxyUri::from_bytes(&[b'x'; 1035]).is_err());
    assert!(ProxyScheme::from_bytes(b"coap").is_ok());
    assert!(LocationPath::from_bytes(b"x").is_ok());
    assert!(LocationQuery::from_bytes(b"x").is_ok());
    assert!(UriQuery::from_bytes(b"a=1").is_ok());
}

#[test]
fn empty_option() {
    assert!(IfNoneMatch::from_bytes(&[]).is_ok());
    let err = IfNoneMatch::from_bytes(&[1]).unwrap_err();
    assert_eq!(
        err.kind(),
        &ErrorKind::MessageFormat(FormatError::InvalidOptionValue { range: 0..0, actual: 1 })
    );
    assert_eq!(IfNoneMatch::new(()).to_bytes(), Vec::<u8>::new());
    assert_eq!(IfNoneMatch::new(()).len(), 0);
}

#[test]
fn push_keeps_order() {
    let mut opts = Opts::new();
    opts.push(UriPath::new("a".to_string()));
    opts.push(ContentFormat::new(50));
    opts.push(UriHost::new("host".to_string()));
    opts.push(UriPath::new("b".to_string()));
    opts.push_raw(11, b"c");
    opts.push(Observe::new(0));
    let numbers: Vec<u16> = (0..opts.len()).map(|i| opts.number_at(i)).collect();
    assert_eq!(numbers, vec![3, 6, 11, 11, 11, 12]);
    assert_eq!(opts.value_at(0), b"host");
    assert_eq!(opts.value_at(1), b"");
    assert_eq!(opts.value_at(2), b"a");
    assert_eq!(opts.value_at(3), b"b");
    assert_eq!(opts.value_at(4), b"c");
    assert_eq!(opts.value_at(5), &[50]);
    let copy = opts.clone();
    assert_eq!(copy, opts);
}

#[test]
fn get_reads_all_of_a_number() {
    let mut opts = Opts::new();
    opts.push_raw(11, b"a");
    opts.push_raw(12, &[0]);
    opts.push_raw(11, b"b");
    let paths = opts.get::<UriPath>().unwrap().unwrap();
    assert_eq!(paths.len(), 2);
    assert_eq!(paths[0].val(), "a");
    assert_eq!(paths[1].val(), "b");
    assert_eq!(opts.get::<ContentFormat>().unwrap().unwrap()[0].val(), 0);
    assert!(opts.get::<UriHost>().unwrap().is_none());
    assert!(Opts::new().get::<UriPath>().unwrap().is_none());
}

#[test]
fn get_reports_the_first_bad_value() {
    let mut opts = Opts::new();
    opts.push_raw(7, &[1]);
    opts.push_raw(7, &[1, 2, 3]);
    opts.push_raw(7, &[1, 2, 3, 4]);
    let err = opts.get::<UriPort>().unwrap_err();
    assert_eq!(
        err.kind(),
        &ErrorKind::MessageFormat(FormatError::InvalidOptionValue { range: 0..2, actual: 3 })
    );
}

#[test]
fn unknown_critical() {
    let mut opts = Opts::new();
    assert!(!opts.has_unknown_critical());
    opts.push_raw(11, b"a");
    opts.push_raw(10, b"a");
    opts.push_raw(2000, b"a");
    assert!(!opts.has_unknown_critical());
    opts.push_raw(9, b"");
    assert!(opts.has_unknown_critical());
}
