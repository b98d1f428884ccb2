use damascus::number::digit_of;
use damascus::number::push_isize;
use damascus::number::push_usize;
use damascus::stack::join_texts;
use damascus::stack::fuse_layers;
use damascus::stack::kernel_layers;
use damascus::stack::union_layers;
use damascus::text::chars_of;
use damascus::text::contains_text;
use damascus::text::is_text;
use damascus::text::push_escaped;
use damascus::text::same_chars;
use damascus::text::split_text;
use damascus::text::strip_prefix;

fn strings(items: &[&str]) -> Vec<String> {
    items.iter().map(|s| s.to_string()).collect()
}

#[test]
fn split_keeps_empty_pieces() {
    assert_eq!(split_text("a,b,c", ','), strings(&["a", "b", "c"]));
    assert_eq!(split_text("", ','), strings(&[""]));
    assert_eq!(split_text(",", ','), strings(&["", ""]));
    assert_eq!(split_text("a,,b,", ','), strings(&["a", "", "b", ""]));
    assert_eq!(split_text("no separator", ','), strings(&["no separator"]));
    assert_eq!(split_text("/a:/b", ':'), strings(&["/a", "/b"]));
}

#[test]
fn split_counts_characters_not_bytes() {
    assert_eq!(split_text("é,ü,日本", ','), strings(&["é", "ü", "日本"]));
}

#[test]
fn join_puts_the_separator_between_neighbours() {
    assert_eq!(join_texts(&strings(&[]), ":"), "");
    assert_eq!(join_texts(&strings(&["a"]), ":"), "a");
    assert_eq!(join_texts(&strings(&["a", "b", "c"]), ":"), "a:b:c");
    assert_eq!(join_texts(&strings(&["", ""]), ","), ",");
}

#[test]
fn escaping_puts_a_backslash_before_special_characters() {
    let cases = [
        ("", ""),
        ("/plain/path", "/plain/path"),
        ("/a:b", "/a\\:b"),
        ("/a,b", "/a\\,b"),
        ("/a\\b", "/a\\\\b"),
        (":", "\\:"),
        (":,\\", "\\:\\,\\\\"),
        ("a::b", "a\\:\\:b"),
        ("/é:ü", "/é\\:ü"),
    ];
    for (path, escaped) in cases {
        let mut out = String::from("x=");
        push_escaped(&mut out, path);
        assert_eq!(out, format!("x={}", escaped));
    }
}

#[test]
fn contains_finds_a_run_anywhere() {
    assert!(contains_text("nodev\tsysfs\nnodev\toverlay\n\text4\n", "overlay"));
    assert!(contains_text("overlay", "overlay"));
    assert!(contains_text("xoverlay", "overlay"));
    assert!(!contains_text("nodev\tsysfs\n\text4\n", "overlay"));
    assert!(!contains_text("overla", "overlay"));
    assert!(!contains_text("", "overlay"));
    assert!(contains_text("", ""));
    assert!(contains_text("abc", ""));
}

#[test]
fn literals_are_recognised() {
    let t = chars_of("lowerdir=/a");
    assert_eq!(t.len(), 11);
    assert_eq!(t[8], '=');
    assert!(is_text(&t, "lowerdir=/a"));
    assert!(!is_text(&t, "lowerdir="));
    assert!(!is_text(&t, "lowerdir=/ab"));
    assert!(!is_text(&t, ""));
    assert!(is_text(&chars_of(""), ""));
    assert_eq!(strip_prefix(&t, "lowerdir="), Some(9));
    assert_eq!(strip_prefix(&t, "lowerdir=/a"), Some(11));
    assert_eq!(strip_prefix(&t, "lowerdir=/ab"), None);
    assert_eq!(strip_prefix(&t, "upperdir="), None);
    assert_eq!(strip_prefix(&t, ""), Some(0));
    assert!(same_chars(&t, &chars_of("lowerdir=/a")));
    assert!(!same_chars(&t, &chars_of("lowerdir=/b")));
    assert!(!same_chars(&t, &chars_of("lowerdir=/")));
    assert_eq!(chars_of("日本").len(), 2);
}

#[test]
fn numbers_are_written_in_decimal() {
    let cases: [(usize, &str); 6] = [(0, "0"), (7, "7"), (10, "10"), (99, "99"), (100, "100"), (4096, "4096")];
    for (n, text) in cases {
        let mut out = String::new();
        push_usize(&mut out, n);
        assert_eq!(out, text);
    }
    let mut out = String::new();
    push_usize(&mut out, usize::MAX);
    assert_eq!(out, usize::MAX.to_string());
    let signed: [(isize, &str); 4] = [(0, "0"), (-1, "-1"), (42, "42"), (-120, "-120")];
    for (n, text) in signed {
        let mut out = String::from("k=");
        push_isize(&mut out, n);
        assert_eq!(out, format!("k={}", text));
    }
    let mut out = String::new();
    push_isize(&mut out, isize::MIN);
    assert_eq!(out, isize::MIN.to_string());
}

#[test]
fn digits_are_told() {
    assert_eq!(digit_of('0'), Some(0));
    assert_eq!(digit_of('7'), Some(7));
    assert_eq!(digit_of('9'), Some(9));
    assert_eq!(digit_of('a'), None);
    assert_eq!(digit_of('+'), None);
    assert_eq!(digit_of('７'), None);
}

#[test]
fn kernel_layers_are_written_with_escaped_paths() {
    let lower = strings(&["/l1", "/l2"]);
    assert_eq!(kernel_layers(&lower, &None, &None), "lowerdir=/l1:/l2");
    assert_eq!(
        kernel_layers(&lower, &Some("/u".to_string()), &Some("/w".to_string())),
        "lowerdir=/l1:/l2,upperdir=/u,workdir=/w"
    );
    assert_eq!(kernel_layers(&lower, &Some("/u".to_string()), &None), "lowerdir=/l1:/l2");
    assert_eq!(kernel_layers(&lower, &None, &Some("/w".to_string())), "lowerdir=/l1:/l2");
    assert_eq!(kernel_layers(&strings(&[]), &None, &None), "lowerdir=");
    assert_eq!(
        kernel_layers(&strings(&["/a:b", "/c,d"]), &Some("/u\\v".to_string()), &Some("/w:x".to_string())),
        "lowerdir=/a\\:b:/c\\,d,upperdir=/u\\\\v,workdir=/w\\:x"
    );
}

#[test]
fn fuse_layers_are_written_with_paths_as_they_are() {
    let lower = strings(&["/l1", "/l2"]);
    assert_eq!(fuse_layers(&lower, &None, &None), "lowerdir=/l1:/l2");
    assert_eq!(
        fuse_layers(&lower, &Some("/u".to_string()), &Some("/w".to_string())),
        "lowerdir=/l1:/l2,upperdir=/u,workdir=/w"
    );
    assert_eq!(fuse_layers(&lower, &Some("/u".to_string()), &None), "lowerdir=/l1:/l2");
    assert_eq!(fuse_layers(&lower, &None, &Some("/w".to_string())), "lowerdir=/l1:/l2");
    assert_eq!(fuse_layers(&strings(&[]), &None, &None), "lowerdir=");
    assert_eq!(fuse_layers(&strings(&[",", "b"]), &None, &None), "lowerdir=,:b");
    assert_eq!(
        fuse_layers(&strings(&["/a:b", "/c,d"]), &Some("/u\\v".to_string()), &Some("/w:x".to_string())),
        "lowerdir=/a:b:/c,d,upperdir=/u\\v,workdir=/w:x"
    );
}

#[test]
fn union_layers_are_marked_and_joined() {
    let lower = strings(&["/l1", "/l2"]);
    assert_eq!(union_layers(&lower, &None), "/l1=ro:/l2=ro");
    assert_eq!(union_layers(&lower, &Some("/u".to_string())), "/l1=ro:/l2=ro:/u=rw");
    assert_eq!(union_layers(&strings(&[]), &Some("/u".to_string())), "/u=rw");
    assert_eq!(union_layers(&strings(&[]), &None), "");
}
