use rmqtt::topic::TopicFilter;

fn matches_name(filter: &str, name: &str) -> bool {
    TopicFilter::parse(filter).unwrap().matches_str(name)
}

#[test]
fn wildcards_fill_whole_levels() {
    for text in ["a/b", "+", "#", "a/+/c", "a/#", "/", "", "+/+", "$SYS/#"] {
        assert_eq!(TopicFilter::parse(text).unwrap().as_str(), text);
    }
    for text in ["a+", "a/#/c", "a#", "#/a", "a/b+/c", "++"] {
        assert!(TopicFilter::parse(text).is_none(), "{}", text);
    }
}

#[test]
fn levels_are_counted() {
    assert_eq!(TopicFilter::parse("a").unwrap().len(), 1);
    assert_eq!(TopicFilter::parse("a/b/c").unwrap().len(), 3);
    assert_eq!(TopicFilter::parse("/").unwrap().len(), 2);
}

#[test]
fn single_level_wildcard_stands_for_one_level() {
    assert!(matches_name("a/+/c", "a/b/c"));
    assert!(matches_name("+/+", "/b"));
    assert!(!matches_name("a/+", "a/b/c"));
    assert!(!matches_name("+", "a/b"));
}

#[test]
fn multi_level_wildcard_stands_for_the_rest() {
    assert!(matches_name("#", "a/b/c"));
    assert!(matches_name("a/#", "a"));
    assert!(matches_name("a/#", "a/b/c"));
    assert!(!matches_name("a/#", "b"));
}

#[test]
fn leading_wildcards_do_not_match_system_topics() {
    assert!(!matches_name("#", "$SYS/load"));
    assert!(!matches_name("+/load", "$SYS/load"));
    assert!(matches_name("$SYS/#", "$SYS/load"));
    assert!(matches_name("$SYS/+", "$SYS/load"));
}

#[test]
fn plain_filters_match_their_own_name() {
    assert!(matches_name("a/b/c", "a/b/c"));
    assert!(!matches_name("a/b/c", "a/b"));
    assert!(!matches_name("a/b", "a/b/c"));
    assert!(!matches_name("a/b", "a/B"));
}
