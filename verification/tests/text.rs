use upx_tools::text::{
    borrowed, chars_of, contains, cut, glue, has_prefix, has_suffix, is_whitespace, join, owned,
    run_end, str_eq, trim_bounds,
};

fn chars(s: &str) -> Vec<char> {
    s.chars().collect()
}

fn trimmed(s: &str) -> String {
    let v = chars(s);
    let (from, to) = trim_bounds(&v);
    v[from..to].iter().collect()
}

const SAMPLES: [&str; 16] = [
    "",
    " ",
    "a",
    "  a  ",
    "\t\r\n a b \u{3000}",
    "\u{a0}x\u{2003}",
    "\u{200b}x\u{200b}",
    "\u{85}\u{1680}y\u{2028}\u{2029}\u{202f}\u{205f}",
    "no space",
    " lead",
    "trail ",
    "\n",
    "中 文",
    " 中文\t",
    "a\u{180e}",
    "\u{feff}a",
];

#[test]
fn chars_of_a_string() {
    assert_eq!(chars_of(""), Vec::<char>::new());
    assert_eq!(chars_of("aé中"), vec!['a', 'é', '中']);
}

#[test]
fn white_space_is_the_unicode_property() {
    for n in 0..=0x10ffffu32 {
        if let Some(c) = char::from_u32(n) {
            assert_eq!(is_whitespace(c), c.is_whitespace(), "U+{:04X}", n);
        }
    }
}

#[test]
fn trimming_agrees_with_std() {
    for s in SAMPLES {
        assert_eq!(trimmed(s), s.trim(), "for {:?}", s);
    }
}

#[test]
fn trimming_all_white_space_leaves_nothing() {
    let v = chars(" \t \n");
    let (from, to) = trim_bounds(&v);
    assert_eq!(from, to);
}

#[test]
fn prefixes_and_suffixes() {
    let pairs = [
        ("", ""),
        ("a", ""),
        ("", "a"),
        ("abc", "ab"),
        ("abc", "bc"),
        ("abc", "abc"),
        ("abc", "abcd"),
        ("abc", "b"),
        ("UPX 4.0", "UPX "),
        ("app-setup.exe", "-setup.exe"),
        ("-setup.exe", "-setup.exe"),
        ("setup.exe", "-setup.exe"),
        ("中文", "中"),
        ("中文", "文"),
    ];
    for (s, p) in pairs {
        assert_eq!(has_prefix(&chars(s), &chars(p)), s.starts_with(p), "{:?} {:?}", s, p);
        assert_eq!(has_suffix(&chars(s), &chars(p)), s.ends_with(p), "{:?} {:?}", s, p);
    }
}

#[test]
fn searching_agrees_with_std() {
    let hays = ["", "a", "abc", "aab", "abababc", "upx: already packed by UPX", "中文字符"];
    let needles = ["", "a", "b", "ab", "abc", "abd", "aab", "ababc", "already packed", "文字", "字文"];
    for h in hays {
        for n in needles {
            assert_eq!(contains(&chars(h), &chars(n)), h.contains(n), "{:?} in {:?}", n, h);
        }
    }
}

#[test]
fn runs_stop_at_the_first_stop() {
    let v = chars("ab.cd..e");
    assert_eq!(run_end(&v, 0, '.'), 2);
    assert_eq!(run_end(&v, 2, '.'), 2);
    assert_eq!(run_end(&v, 3, '.'), 5);
    assert_eq!(run_end(&v, 6, '.'), 6);
    assert_eq!(run_end(&v, 7, '.'), 8);
    assert_eq!(run_end(&v, 8, '.'), 8);
}

#[test]
fn cutting_counts_characters() {
    assert_eq!(cut("a中文b", 1, 3), "中文");
    assert_eq!(cut("abc", 0, 0), "");
    assert_eq!(cut("abc", 3, 3), "");
    assert_eq!(cut("abc", 0, 3), "abc");
}

#[test]
fn joining_and_concatenating() {
    assert_eq!(glue("ab", "cd"), "abcd");
    assert_eq!(glue("", ""), "");
    assert_eq!(join(&vec![], "\n"), "");
    assert_eq!(join(&vec!["a"], "\n"), "a");
    assert_eq!(join(&vec!["a", "b", ""], ", "), "a, b, ");
    assert_eq!(join(&vec!["a", "b", "c"], ""), "abc");
}

#[test]
fn borrowing_and_owning() {
    let list = vec!["a".to_string(), "".to_string(), "中".to_string()];
    assert_eq!(borrowed(&list), vec!["a", "", "中"]);
    assert_eq!(owned(&vec!["a", "", "中"]), list);
    assert_eq!(borrowed(&vec![]), Vec::<&str>::new());
    assert_eq!(owned(&vec![]), Vec::<String>::new());
}

#[test]
fn equal_strings() {
    assert!(str_eq("", ""));
    assert!(str_eq("best", "best"));
    assert!(!str_eq("best", "Best"));
    assert!(!str_eq("best", "best "));
}
