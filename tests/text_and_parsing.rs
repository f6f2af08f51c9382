use gerris::clog::{self, Status};
use gerris::parser::{self, Combinator};
use gerris::publish::{self, Timestamp};
use gerris::text;

#[test]
fn split_keeps_empty_pieces() {
    assert_eq!(text::split("a b  c", ' '), vec!["a", "b", "", "c"]);
    assert_eq!(text::split("", ' '), vec![""]);
}

#[test]
fn lines_drop_final_line_feed() {
    assert_eq!(text::lines("a\nb\n"), vec!["a", "b"]);
    assert_eq!(text::lines("a\n\nb"), vec!["a", "", "b"]);
    assert!(text::lines("").is_empty());
}

#[test]
fn character_and_whitespace() {
    let (rest, c) = parser::character('x', "xyz").ok().unwrap();
    assert_eq!((rest, c), ("yz", 'x'));
    let e = parser::character('x', "abc").err().unwrap();
    assert_eq!(e.input, "abc");
    assert!(matches!(e.combinator, Combinator::Character('x')));
    assert_eq!(parser::whitespace(" a").ok().unwrap().0, "a");
    assert!(matches!(parser::whitespace("a").err().unwrap().combinator, Combinator::Whitespace));
}

#[test]
fn alpha_num_alphanum() {
    assert_eq!(parser::alpha("Qr").ok().unwrap(), ("r", 'Q'));
    assert!(matches!(parser::alpha("1").err().unwrap().combinator, Combinator::Alpha));
    assert_eq!(parser::num("7a").ok().unwrap(), ("a", '7'));
    assert!(matches!(parser::num("a").err().unwrap().combinator, Combinator::Num));
    assert_eq!(parser::alphanum("z9").ok().unwrap(), ("9", 'z'));
    assert_eq!(parser::alphanum("9z").ok().unwrap(), ("z", '9'));
    assert!(matches!(parser::alphanum("-").err().unwrap().combinator, Combinator::Num));
    assert!(parser::alphanum("").is_err());
    assert!(parser::alpha("é").is_err());
}

#[test]
fn tag_and_either() {
    assert_eq!(parser::tag("OK", "OK then").ok().unwrap(), (" then", "OK"));
    match parser::tag("OK", "FAILED").err().unwrap().combinator {
        Combinator::Tag(t) => assert_eq!(t, "OK"),
        _ => panic!("expected a tag error"),
    }
    let r = parser::either(|i| parser::tag("OK", i), |i| parser::tag("FAILED", i), "FAILED");
    assert_eq!(r.ok().unwrap(), ("", "FAILED"));
    let r = parser::either(|i| parser::tag("OK", i), |i| parser::tag("FAILED", i), "nope");
    assert!(r.is_err());
}

#[test]
fn hash_reads_longest_run() {
    assert_eq!(clog::hash("71e2a04e: FAILED").ok().unwrap(), (": FAILED", "71e2a04e".to_string()));
    let e = clog::hash(": x").err().unwrap();
    match e.combinator {
        Combinator::Custom(n) => assert_eq!(n, "hash"),
        _ => panic!("expected the hash error"),
    }
}

#[test]
fn checking_lines() {
    let l = clog::parse_checking_line("Checking 71e2a04ec5668c6b1b7f5afecf6fdee4b54888fa: FAILED")
        .ok()
        .unwrap();
    assert_eq!(l.hash, "71e2a04ec5668c6b1b7f5afecf6fdee4b54888fa");
    assert_eq!(l.status, Status::Failed);
    let l = clog::parse_checking_line("Checking a9422b51c1355f1414a6418e6a5ae1abdd9b9f9b: OK")
        .ok()
        .unwrap();
    assert_eq!(l.status, Status::Success);
    assert!(clog::parse_checking_line("ERR: cannot find a ChangeLog location in message").is_err());
    assert!(clog::parse_checking_line("Checking : OK").is_err());
    assert!(clog::parse_checking_line("Checking abc: MAYBE").is_err());
    assert!(clog::parse_checking_line("Checking abc:OK").is_err());
}

#[test]
fn branch_name_and_title() {
    let t = Timestamp { year: 2023, month: 3, day: 7, micros: 1678186800123456 };
    assert_eq!(publish::branch_name(&t), "prepare-2023-03-07-1678186800123456");
    assert_eq!(publish::pull_request_title(&t), "[upstream] [2023-03-07] Prepare commits");
}

#[test]
fn dates_out_of_four_digits() {
    let t = Timestamp { year: 12345, month: 12, day: 31, micros: -5 };
    assert_eq!(publish::branch_name(&t), "prepare-+12345-12-31--5");
    let t = Timestamp { year: -7, month: 1, day: 1, micros: 0 };
    assert_eq!(publish::pull_request_title(&t), "[upstream] [-0007-01-01] Prepare commits");
    let t = Timestamp { year: 9, month: 10, day: 10, micros: i64::MIN };
    assert_eq!(publish::branch_name(&t), "prepare-0009-10-10--9223372036854775808");
}

#[test]
fn names_now_share_the_date() {
    let (branch, title) = publish::names_now();
    assert!(branch.starts_with("prepare-"));
    let date = &title["[upstream] [".len().."[upstream] [".len() + 10];
    assert!(branch.contains(date));
    assert_eq!(publish::head_ref("me", &branch), format!("me:{branch}"));
}
