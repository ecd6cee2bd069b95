use toy_load_balancer::file_utils::FileReader;

#[test]
fn value_follows_the_first_equals_sign() {
    assert_eq!(FileReader::property_value("host1=http://localhost:3001"), "http://localhost:3001");
    assert_eq!(FileReader::property_value("a=b=c"), "b=c");
    assert_eq!(FileReader::property_value("=x"), "x");
    assert_eq!(FileReader::property_value("key="), "");
    assert_eq!(FileReader::property_value("clé=välue"), "välue");
}

#[test]
fn pair_splits_at_the_first_equals_sign() {
    assert_eq!(
        FileReader::property_pair("host1=http://localhost:3001"),
        ("host1".to_string(), "http://localhost:3001".to_string())
    );
    assert_eq!(FileReader::property_pair("a=b=c"), ("a".to_string(), "b=c".to_string()));
    assert_eq!(FileReader::property_pair("=x"), ("".to_string(), "x".to_string()));
    assert_eq!(FileReader::property_pair("clé=välue"), ("clé".to_string(), "välue".to_string()));
}

#[test]
fn pairs_of_all_lines_in_order() {
    let lines = vec!["host1=http://localhost:3001".to_string(), "host2=http://localhost:3002".to_string()];
    assert_eq!(
        FileReader::properties(&lines),
        vec![
            ("host1".to_string(), "http://localhost:3001".to_string()),
            ("host2".to_string(), "http://localhost:3002".to_string()),
        ]
    );
    assert!(FileReader::properties(&Vec::new()).is_empty());
}
