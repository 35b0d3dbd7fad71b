use kafka_publish::headers::parse_headers;

fn pairs(expected: &[(&str, &str)]) -> Vec<(String, String)> {
    expected.iter().map(|(k, v)| (k.to_string(), v.to_string())).collect()
}

#[test]
fn two_headers_in_order() {
    assert_eq!(
        parse_headers("key1:val1,key2:val2"),
        pairs(&[("key1", "val1"), ("key2", "val2")])
    );
}

#[test]
fn a_segment_without_colon_is_dropped() {
    assert_eq!(parse_headers("key1val1,key2:val2"), pairs(&[("key2", "val2")]));
    assert_eq!(parse_headers("key1:val1,key2val2"), pairs(&[("key1", "val1")]));
    assert_eq!(
        parse_headers("a:1,broken,b:2"),
        pairs(&[("a", "1"), ("b", "2")])
    );
}

#[test]
fn the_empty_string_holds_no_header() {
    assert_eq!(parse_headers(""), pairs(&[]));
}

#[test]
fn a_string_without_colon_holds_no_header() {
    assert_eq!(parse_headers("novalue"), pairs(&[]));
    assert_eq!(parse_headers(",,,"), pairs(&[]));
    assert_eq!(parse_headers("a,b,c"), pairs(&[]));
}

#[test]
fn one_header() {
    assert_eq!(parse_headers("k:v"), pairs(&[("k", "v")]));
}

#[test]
fn only_the_first_colon_divides() {
    assert_eq!(parse_headers("k:v:w"), pairs(&[("k", "v:w")]));
    assert_eq!(parse_headers("url:http://host:80/x"), pairs(&[("url", "http://host:80/x")]));
    assert_eq!(parse_headers("::"), pairs(&[("", ":")]));
}

#[test]
fn key_and_value_may_be_empty() {
    assert_eq!(parse_headers("k:"), pairs(&[("k", "")]));
    assert_eq!(parse_headers(":v"), pairs(&[("", "v")]));
    assert_eq!(parse_headers(":"), pairs(&[("", "")]));
    assert_eq!(parse_headers(":,:"), pairs(&[("", ""), ("", "")]));
}

#[test]
fn empty_segments_are_dropped() {
    assert_eq!(parse_headers("a:b,,c:d"), pairs(&[("a", "b"), ("c", "d")]));
    assert_eq!(parse_headers("a:b,"), pairs(&[("a", "b")]));
    assert_eq!(parse_headers(",a:b"), pairs(&[("a", "b")]));
}

#[test]
fn spaces_are_kept() {
    assert_eq!(
        parse_headers(" k : v , x:y "),
        pairs(&[(" k ", " v "), (" x", "y ")])
    );
}

#[test]
fn repeated_keys_are_kept() {
    assert_eq!(parse_headers("k:1,k:2"), pairs(&[("k", "1"), ("k", "2")]));
}

#[test]
fn characters_of_several_bytes_are_kept_whole() {
    assert_eq!(
        parse_headers("clé:valeur é,ключ:значение,鍵:値"),
        pairs(&[("clé", "valeur é"), ("ключ", "значение"), ("鍵", "値")])
    );
}

#[test]
fn parsing_agrees_with_splitting_by_hand() {
    let inputs = [
        "",
        ":",
        ",",
        "a",
        "a:b",
        "a:b,c",
        "a:b,c:d,e:f",
        "x:,:y,z",
        "k:v:w,,p:q:",
        "é:ü,ß",
    ];
    for input in inputs {
        let mut expected = Vec::new();
        for segment in input.split(',') {
            let mut parts = segment.splitn(2, ':');
            if let (Some(key), Some(value)) = (parts.next(), parts.next()) {
                expected.push((key.to_string(), value.to_string()));
            }
        }
        assert_eq!(parse_headers(input), expected);
    }
}
