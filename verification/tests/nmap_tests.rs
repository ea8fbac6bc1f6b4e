use btc_toolkit::network::nmap_range::{
    chars_of, generate_ip_addresses, has_char, list_span, parse_nmap_range, parse_octet, read_octet,
    read_part, split_chars,
};

fn chars(text: &str) -> Vec<char> {
    text.chars().collect()
}

fn address(a: u32, b: u32, c: u32, d: u32) -> u32 {
    (a << 24) | (b << 16) | (c << 8) | d
}

#[test]
fn text_is_cut_at_every_separator() {
    let pieces = |text: &str, sep: char| -> Vec<String> {
        split_chars(&chars(text), sep).iter().map(|p| p.iter().collect()).collect()
    };
    assert_eq!(pieces("a.b.c", '.'), vec!["a", "b", "c"]);
    assert_eq!(pieces("", '.'), vec![""]);
    assert_eq!(pieces("abc", '.'), vec!["abc"]);
    assert_eq!(pieces(".a..b.", '.'), vec!["", "a", "", "b", ""]);
    for text in ["", "1-8", "-", "--", "1,2,,3", "192.168.1.1"] {
        for sep in ['.', ',', '-'] {
            let expected: Vec<String> = text.split(sep).map(|p| p.to_string()).collect();
            assert_eq!(pieces(text, sep), expected);
        }
    }
    assert_eq!(chars_of("a+é"), chars("a+é"));
    assert!(has_char(&chars("1-8"), '-'));
    assert!(!has_char(&chars("18"), '-'));
}

#[test]
fn octet_numerals() {
    assert_eq!(parse_octet(&chars("0")), Some(0));
    assert_eq!(parse_octet(&chars("7")), Some(7));
    assert_eq!(parse_octet(&chars("255")), Some(255));
    assert_eq!(parse_octet(&chars("256")), None);
    assert_eq!(parse_octet(&chars("1000")), None);
    assert_eq!(parse_octet(&chars("007")), Some(7));
    assert_eq!(parse_octet(&chars("0000255")), Some(255));
    assert_eq!(parse_octet(&chars("+5")), Some(5));
    assert_eq!(parse_octet(&chars("+")), None);
    assert_eq!(parse_octet(&chars("")), None);
    assert_eq!(parse_octet(&chars("-5")), None);
    assert_eq!(parse_octet(&chars("5 ")), None);
    assert_eq!(parse_octet(&chars(" 5")), None);
    assert_eq!(parse_octet(&chars("1a")), None);
    assert_eq!(parse_octet(&chars("300x")), None);
    assert_eq!(parse_octet(&chars("++5")), None);
    for text in ["0", "9", "10", "99", "100", "255", "256", "999", "+0", "+255", "+256", "", "+", "x", "12x", "1.5"] {
        assert_eq!(parse_octet(&chars(text)), text.parse::<u8>().ok());
    }
}

#[test]
fn spans_and_parts() {
    assert_eq!(list_span(1, 4), vec![1, 2, 3, 4]);
    assert_eq!(list_span(9, 9), vec![9]);
    assert!(list_span(5, 4).is_empty());
    assert_eq!(list_span(254, 255), vec![254, 255]);
    assert_eq!(list_span(0, 255).len(), 256);
    assert_eq!(read_part(&chars("7")), vec![7]);
    assert_eq!(read_part(&chars("1-3")), vec![1, 2, 3]);
    assert!(read_part(&chars("3-1")).is_empty());
    assert!(read_part(&chars("1-2-3")).is_empty());
    assert!(read_part(&chars("a-3")).is_empty());
    assert!(read_part(&chars("1-")).is_empty());
    assert!(read_part(&chars("-")).is_empty());
    assert!(read_part(&chars("")).is_empty());
    assert!(read_part(&chars("300")).is_empty());
    assert_eq!(read_octet(&chars("1,3,5-7")), vec![1, 3, 5, 6, 7]);
    assert_eq!(read_octet(&chars("5-7,1,x,2")), vec![5, 6, 7, 1, 2]);
    assert_eq!(read_octet(&chars("1,1")), vec![1, 1]);
    assert!(read_octet(&chars("")).is_empty());
}

#[test]
fn range_with_spans_lists_every_combination() {
    let addresses = parse_nmap_range("192.6.1-2.1-3");
    assert_eq!(
        addresses,
        vec![
            address(192, 6, 1, 1),
            address(192, 6, 1, 2),
            address(192, 6, 1, 3),
            address(192, 6, 2, 1),
            address(192, 6, 2, 2),
            address(192, 6, 2, 3),
        ]
    );
    assert_eq!(parse_nmap_range("192.6.1-8.1-50").len(), 400);
    assert_eq!(parse_nmap_range("10.0.0.1"), vec![address(10, 0, 0, 1)]);
    assert_eq!(
        parse_nmap_range("10,11.0.0.5"),
        vec![address(10, 0, 0, 5), address(11, 0, 0, 5)]
    );
    assert_eq!(parse_nmap_range("255.255.255.255"), vec![u32::MAX]);
    assert_eq!(parse_nmap_range("0.0.0.0"), vec![0]);
}

#[test]
fn range_that_cannot_be_read_lists_nothing() {
    assert!(parse_nmap_range("").is_empty());
    assert!(parse_nmap_range("192.168.1").is_empty());
    assert!(parse_nmap_range("192.168.1.1.1").is_empty());
    assert!(parse_nmap_range("192.168.x.1").is_empty());
    assert!(parse_nmap_range("192.168.1.256").is_empty());
    assert!(parse_nmap_range("192.168.1.").is_empty());
    assert!(parse_nmap_range("192.168.9-1.1").is_empty());
}

#[test]
fn addresses_are_generated_from_a_depth() {
    let lists: Vec<Vec<u8>> = vec![vec![1], vec![2], vec![3, 4], vec![5, 6]];
    let mut result = vec![7];
    generate_ip_addresses(&mut result, &lists, 2, (1 << 8) | 2);
    assert_eq!(
        result,
        vec![7, address(1, 2, 3, 5), address(1, 2, 3, 6), address(1, 2, 4, 5), address(1, 2, 4, 6)]
    );
    let mut whole = Vec::new();
    generate_ip_addresses(&mut whole, &lists, 4, 99);
    assert_eq!(whole, vec![99]);
}
