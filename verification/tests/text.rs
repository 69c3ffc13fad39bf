use league_config_manager::text::decimal;
use league_config_manager::text::find;
use league_config_manager::text::join;

#[test]
fn decimal_writes_base_ten() {
    assert_eq!(decimal(0), "0");
    assert_eq!(decimal(7), "7");
    assert_eq!(decimal(10), "10");
    assert_eq!(decimal(14), "14");
    assert_eq!(decimal(523), "523");
    assert_eq!(decimal(1_000_000), "1000000");
    assert_eq!(decimal(u32::MAX), "4294967295");
}

#[test]
fn decimal_agrees_with_the_standard_formatting() {
    for n in 0..2000u32 {
        assert_eq!(decimal(n), format!("{}", n));
    }
}

#[test]
fn join_puts_one_slash_between() {
    assert_eq!(join("/games/lol", "Config"), "/games/lol/Config");
    assert_eq!(join("", "x"), "/x");
    assert_eq!(join("a", ""), "a/");
    assert_eq!(join("C:\\Riot Games\\League of Legends", "Config"), "C:\\Riot Games\\League of Legends/Config");
}

#[test]
fn find_gives_the_first_place() {
    assert_eq!(find(b"abcabc", b"bc"), Some(1));
    assert_eq!(find(b"abcabc", b"abc"), Some(0));
    assert_eq!(find(b"abcabc", b"cab"), Some(2));
    assert_eq!(find(b"aaab", b"ab"), Some(2));
    assert_eq!(find(b"abc", b"abc"), Some(0));
}

#[test]
fn find_of_what_is_not_there() {
    assert_eq!(find(b"abcabc", b"cb"), None);
    assert_eq!(find(b"ab", b"abc"), None);
    assert_eq!(find(b"", b"a"), None);
}

#[test]
fn find_of_the_empty_pattern_is_the_start() {
    assert_eq!(find(b"abc", b""), Some(0));
    assert_eq!(find(b"", b""), Some(0));
}
