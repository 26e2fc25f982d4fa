use tripwire::classifier::{classify, contains_substring, detect_nmap_scan, signature_list,
    Classification};

#[test]
fn fragment_with_tool_name_is_scan() {
    assert_eq!(classify("GET / HTTP/1.1\r\nUser-Agent: Nmap\r\n\r\n"), Classification::Scan);
    assert!(detect_nmap_scan("xxNmapyy"));
}

#[test]
fn fragment_with_library_agent_is_scan() {
    assert_eq!(
        classify("GET / HTTP/1.1\r\nUser-Agent: libwww-perl/6.05\r\n\r\n"),
        Classification::Scan
    );
    assert!(detect_nmap_scan("libwww-perl"));
}

#[test]
fn fragment_with_scripting_engine_agent_is_scan() {
    let probe =
        "Mozilla/5.0 (compatible; Nmap Scripting Engine; http://nmap.org/book/nse.html)";
    assert_eq!(classify(probe), Classification::Scan);
    assert!(detect_nmap_scan(probe));
}

#[test]
fn fragment_without_signature_is_benign() {
    assert_eq!(classify("GET / HTTP/1.1\r\nHost: example\r\n\r\n"), Classification::Benign);
    assert!(!detect_nmap_scan("GET / HTTP/1.1\r\nHost: example\r\n\r\n"));
}

#[test]
fn empty_fragment_is_benign() {
    assert_eq!(classify(""), Classification::Benign);
    assert!(!detect_nmap_scan(""));
}

#[test]
fn matching_is_case_sensitive() {
    assert_eq!(classify("user-agent: nmap"), Classification::Benign);
    assert_eq!(classify("LIBWWW-PERL"), Classification::Benign);
    assert_eq!(classify("user-agent: Nmap"), Classification::Scan);
}

#[test]
fn garbled_fragment_never_fails() {
    let garbled = String::from_utf8_lossy(&[0xffu8, 0xfe, 0x00, 0x41, 0xff]).to_string();
    assert_eq!(classify(&garbled), Classification::Benign);
    let garbled_scan =
        String::from_utf8_lossy(&[0xffu8, b'N', b'm', b'a', b'p', 0xfe]).to_string();
    assert_eq!(classify(&garbled_scan), Classification::Scan);
}

#[test]
fn substring_search_finds_occurrences() {
    assert!(contains_substring("hello world", "world"));
    assert!(contains_substring("hello world", "hello"));
    assert!(contains_substring("hello world", "o w"));
    assert!(contains_substring("abc", ""));
    assert!(contains_substring("", ""));
    assert!(!contains_substring("hello world", "worlds"));
    assert!(!contains_substring("", "a"));
    assert!(!contains_substring("ab", "abc"));
    assert!(!contains_substring("aab", "ab c"));
}

#[test]
fn signature_set_is_fixed_data() {
    let signatures = signature_list();
    assert_eq!(signatures.len(), 3);
    assert_eq!(signatures[0], "Nmap");
    assert_eq!(signatures[1], "libwww-perl");
    assert_eq!(
        signatures[2],
        "Mozilla/5.0 (compatible; Nmap Scripting Engine; http://nmap.org/book/nse.html)"
    );
}
