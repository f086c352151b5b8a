//! Texts, numbers, rows and the other values that the backends share.
use day_toolkits::json::json_str;
use day_toolkits::keys::{drop_first, drop_second, find_second, take_out, Keys};
use day_toolkits::logging::{filter_of, number_of, Level, LevelFilter};
use day_toolkits::model::{Font, FontSpec, TextRun, Underline};
use day_toolkits::num::Num;
use day_toolkits::rows::RowSet;
use day_toolkits::runs::{label_stretches, piece_of, Segment};
use day_toolkits::table::{found, found_or, Table};
use day_toolkits::text::{
    cat2, cat3, decimal_of, join_with, last_part_of, parse_u64, push_signed, same, split_on,
    text_of_bytes,
};

fn n(x: f64) -> Num {
    Num { bits: x.to_bits() }
}

fn font() -> FontSpec {
    FontSpec {
        style: Font::Body,
        weight: None,
        italic: false,
        monospace: false,
        tabular: false,
        scale: n(1.0),
        size: String::from("1"),
        units: 0,
    }
}

fn run(start: usize, end: usize) -> TextRun {
    TextRun {
        start,
        end,
        font: font(),
        color: None,
        background: None,
        underline: Underline::Off,
        strikethrough: false,
        link: None,
    }
}

#[test]
fn numbers_are_written_and_read_back() {
    for k in [0u64, 7, 10, 4096, u64::MAX] {
        assert_eq!(decimal_of(k), k.to_string());
        assert_eq!(parse_u64(&decimal_of(k)), Some(k));
    }
    assert_eq!(parse_u64("+12"), Some(12));
    assert_eq!(parse_u64("18446744073709551616"), None);
    assert_eq!(parse_u64(""), None);
    assert_eq!(parse_u64("-1"), None);
    assert_eq!(parse_u64("1x"), None);
    let mut s = String::new();
    push_signed(&mut s, i64::MIN);
    assert_eq!(s, "-9223372036854775808");
}

#[test]
fn texts_are_joined_and_split() {
    assert_eq!(cat2("a", "b"), "ab");
    assert_eq!(cat3("a", "-", "b"), "a-b");
    assert!(same("käse", "käse"));
    assert!(!same("a", "A"));
    assert_eq!(split_on("a,b,,c", ','), vec!["a", "b", "", "c"]);
    assert_eq!(split_on("", ','), vec![""]);
    assert_eq!(join_with(&split_on("x|y|z", '|'), '|'), "x|y|z");
    assert_eq!(last_part_of("C:\\a/b.txt", '/', '\\'), "b.txt");
    assert_eq!(last_part_of("plain", '/', '\\'), "plain");
    assert_eq!(last_part_of("dir/", '/', '\\'), "");
}

#[test]
fn broken_utf8_is_replaced() {
    assert_eq!(text_of_bytes(&"grüße".as_bytes().to_vec()), "grüße");
    assert_eq!(text_of_bytes(&vec![b'a', 0xff, b'b']), "a\u{fffd}b");
    assert_eq!(text_of_bytes(&Vec::new()), "");
}

#[test]
fn json_strings_escape_what_must_be() {
    let mut s = String::new();
    json_str(&mut s, "a\"b\\c\n\u{1}é");
    assert_eq!(s, "\"a\\\"b\\\\c\\n\\u0001é\"");
}

#[test]
fn floats_are_cut_like_casts() {
    for x in [0.0f64, 0.5, 1.0, 1.999, 255.0, 65535.5, 4294967295.0, 4294967296.0, 1e19, 1e300] {
        assert_eq!(n(x).to_u64(), x as u64);
        assert_eq!(n(x).to_u32(), x as u32);
        assert_eq!(n(x).to_i64(), x as i64);
        assert_eq!(n(-x).to_u64(), (-x) as u64);
        assert_eq!(n(-x).to_i64(), (-x) as i64);
    }
    for x in [f64::NAN, f64::INFINITY, f64::NEG_INFINITY] {
        assert_eq!(n(x).to_u64(), x as u64);
        assert_eq!(n(x).to_i64(), x as i64);
        assert_eq!(n(x).is_positive(), x > 0.0);
        assert_eq!(n(x).is_nonzero(), x != 0.0);
    }
    assert!(n(1e-300).is_positive());
    assert!(!n(-0.0).is_positive());
    assert!(!n(-0.0).is_nonzero());
    assert_eq!(Num::zero(), n(0.0));
}

#[test]
fn levels_have_names_and_numbers() {
    assert_eq!(filter_of(&Some(String::from("Debug"))), Some(LevelFilter::Debug));
    assert_eq!(filter_of(&Some(String::from("OFF"))), Some(LevelFilter::Off));
    assert_eq!(filter_of(&Some(String::from("error"))), Some(LevelFilter::Error));
    assert_eq!(filter_of(&Some(String::from("wArN"))), Some(LevelFilter::Warn));
    assert_eq!(filter_of(&Some(String::from("info"))), Some(LevelFilter::Info));
    assert_eq!(filter_of(&Some(String::from("trace"))), Some(LevelFilter::Trace));
    assert_eq!(filter_of(&Some(String::from("loud"))), None);
    assert_eq!(filter_of(&None), None);
    assert!(number_of(Level::Error) < number_of(Level::Trace));
}

#[test]
fn rows_are_kept_in_order() {
    let mut s = RowSet::of(&vec![5, 1, 3, 1]);
    assert_eq!(s.rows, vec![1, 3, 5]);
    assert_eq!(s.last(), Some(5));
    s.toggle(3);
    assert_eq!(s.rows, vec![1, 5]);
    s.toggle(3);
    assert_eq!(s.rows, vec![1, 3, 5]);
    s.insert(4);
    assert!(s.has(4));
    assert!(s.remove(1));
    assert!(!s.remove(1));
    assert_eq!(s.numbers(), vec![3, 4, 5]);
    assert!(RowSet::between(7, 5).equals(&RowSet::of(&vec![5, 6, 7])));
    assert!(RowSet::between(5, 7).equals(&RowSet::of(&vec![5, 6, 7])));
    assert_eq!(RowSet::empty().last(), None);
    assert_eq!(RowSet::one(9).numbers(), vec![9]);
}

#[test]
fn keys_and_tables_remember() {
    let mut k = Keys::new();
    assert!(k.is_empty());
    assert!(k.put(4));
    assert!(!k.put(4));
    assert!(k.has(4));
    assert!(k.drop(4));
    assert!(!k.drop(4));
    k.put(1);
    k.clear();
    assert!(k.is_empty());
    let mut t: Table<u64> = Table::new();
    t.put(1, 10);
    t.put(1, 11);
    assert_eq!(found(&t, 1), Some(11));
    assert_eq!(found_or(&t, 2, 5), 5);
    assert_eq!(t.take(1), Some(11));
    assert!(!t.has(1));
    let pairs = vec![(1, 2), (3, 4), (1, 5)];
    assert_eq!(find_second(&pairs, 1), Some(5));
    assert_eq!(drop_first(&pairs, 1), vec![(3, 4)]);
    assert_eq!(drop_second(&pairs, 4), vec![(1, 2), (1, 5)]);
    assert_eq!(take_out(&vec![1, 2, 1, 3], 1), vec![2, 3]);
}

#[test]
fn runs_and_what_is_between_them_make_up_the_text() {
    let text = "grün und blau";
    let segs = label_stretches(text, &vec![run(0, 5), run(10, 14)]);
    let parts: Vec<String> = segs.iter().map(|s| piece_of(text, s.start, s.end)).collect();
    assert_eq!(parts, vec!["grün", " und ", "blau", ""]);
    assert_eq!(segs[0].run, Some(0));
    assert_eq!(segs[1].run, None);
    assert_eq!(segs[2].run, Some(1));
    let whole: Vec<Segment> = label_stretches("abc", &Vec::new());
    assert_eq!(whole.len(), 1);
    assert_eq!((whole[0].start, whole[0].end, whole[0].run), (0, 3, None));
}
