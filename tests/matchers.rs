use tparse::{
    AddMatcher, AllConsumed, Alt, End, Is, IsNot, Or, RangedChar, RemainingLength, StrConst,
    TParse, TStr, VecN,
};

struct Word;
impl StrConst for Word {
    fn text() -> &'static str {
        "test_str"
    }
}

struct Dash;
impl StrConst for Dash {
    fn text() -> &'static str {
        "-"
    }
}

struct Accent;
impl StrConst for Accent {
    fn text() -> &'static str {
        "é"
    }
}

type Digit = RangedChar<0x30, 0x39>;
type LetterA = RangedChar<0x61, 0x61>;

#[test]
fn literal_matches_prefix_and_consumes_its_length() {
    let (lit, n) = TStr::<Word>::tparse("test_str and more").unwrap();
    assert_eq!(n, 8);
    assert_eq!(lit.str(), "test_str");
    assert!(TStr::<Word>::tparse("test_str").is_some());
}

#[test]
fn literal_fails_on_other_or_shorter_input() {
    assert!(TStr::<Word>::tparse("test_stX").is_none());
    assert!(TStr::<Word>::tparse("test").is_none());
    assert!(TStr::<Word>::tparse("").is_none());
}

#[test]
fn literal_counts_characters_not_bytes() {
    let (_, n) = TStr::<Accent>::tparse("éa").unwrap();
    assert_eq!(n, 1);
}

#[test]
fn any_char_reads_one_character() {
    assert_eq!(char::tparse("xyz"), Some(('x', 1)));
    assert_eq!(char::tparse("ñu"), Some(('ñ', 1)));
    assert_eq!(char::tparse(""), None);
}

#[test]
fn ranged_char_checks_bounds_inclusively() {
    assert_eq!(Digit::tparse("0").map(|(c, n)| (c.0, n)), Some(('0', 1)));
    assert_eq!(Digit::tparse("9x").map(|(c, n)| (c.0, n)), Some(('9', 1)));
    assert!(Digit::tparse("a").is_none());
    assert!(Digit::tparse("/").is_none());
    assert!(Digit::tparse("").is_none());
}

#[test]
fn remaining_length_consumes_nothing() {
    let (len, n) = RemainingLength::tparse("héllo").unwrap();
    assert_eq!(len.0, 5);
    assert_eq!(n, 0);
    let (len, n) = RemainingLength::tparse("").unwrap();
    assert_eq!(len.0, 0);
    assert_eq!(n, 0);
}

#[test]
fn sequence_of_three_sums_consumption() {
    let ((a, b, c), n) = <(char, Digit, char)>::tparse("x7yz").unwrap();
    assert_eq!((a, b.0, c), ('x', '7', 'y'));
    assert_eq!(n, 3);
    assert!(<(char, Digit, char)>::tparse("xy7").is_none());
    assert!(<(char, Digit, char)>::tparse("x7").is_none());
}

#[test]
fn repetition_collects_until_failure() {
    let (vs, n) = Vec::<LetterA>::tparse("aaab").unwrap();
    assert_eq!(vs.iter().map(|c| c.0).collect::<String>(), "aaa");
    assert_eq!(n, 3);
    let (vs, n) = Vec::<LetterA>::tparse("").unwrap();
    assert!(vs.is_empty());
    assert_eq!(n, 0);
}

#[test]
fn repetition_stops_after_a_match_that_consumes_nothing() {
    let (vs, n) = Vec::<Option<TStr<Dash>>>::tparse("--x").unwrap();
    assert_eq!(vs.len(), 3);
    assert!(vs[0].is_some() && vs[1].is_some() && vs[2].is_none());
    assert_eq!(n, 2);
    let (vs, n) = Vec::<Option<TStr<Dash>>>::tparse("xyz").unwrap();
    assert_eq!(vs.len(), 1);
    assert_eq!(n, 0);
}

#[test]
fn at_least_n_agrees_with_repetition() {
    let (all, n_all) = Vec::<Digit>::tparse("12a").unwrap();
    let (some, n_some) = VecN::<2, Digit>::tparse("12a").unwrap();
    assert_eq!(all.len(), 2);
    assert_eq!(some.0.len(), 2);
    assert_eq!(n_all, n_some);
    assert_eq!(n_some, 2);
    assert!(VecN::<3, Digit>::tparse("12a").is_none());
    assert!(VecN::<1, Digit>::tparse("").is_none());
    assert_eq!(VecN::<0, Digit>::tparse("").map(|(v, n)| (v.0.len(), n)), Some((0, 0)));
}

#[test]
fn optional_never_fails() {
    let (v, n) = Option::<char>::tparse("").unwrap();
    assert!(v.is_none());
    assert_eq!(n, 0);
    let (v, n) = Option::<Digit>::tparse("x").unwrap();
    assert!(v.is_none());
    assert_eq!(n, 0);
    let (v, n) = Option::<Digit>::tparse("4").unwrap();
    assert_eq!(v.map(|c| c.0), Some('4'));
    assert_eq!(n, 1);
}

#[test]
fn lookahead_consumes_nothing() {
    assert_eq!(Is::<Digit>::tparse("5").map(|(_, n)| n), Some(0));
    assert!(Is::<Digit>::tparse("x").is_none());
    assert_eq!(IsNot::<Digit>::tparse("x").map(|(_, n)| n), Some(0));
    assert_eq!(IsNot::<char>::tparse("").map(|(_, n)| n), Some(0));
    assert!(IsNot::<Digit>::tparse("5").is_none());
}

#[test]
fn fully_consumed_requires_whole_input() {
    let (v, n) = AllConsumed::<Vec<Digit>>::tparse("123").unwrap();
    assert_eq!(v.0.len(), 3);
    assert_eq!(n, 3);
    assert!(AllConsumed::<Vec<Digit>>::tparse("12a").is_none());
    assert_eq!(AllConsumed::<Vec<Digit>>::tparse("").map(|(_, n)| n), Some(0));
}

#[test]
fn csv_rejects_malformed_records() {
    type Field = (Option<TStr<Dash>>, VecN<1, Digit>);
    type File = AllConsumed<Vec<(Field, Vec<(Comma, Field)>, Newline)>>;
    assert!(File::tparse("1,2\n-3\n").is_some());
    assert!(File::tparse("1,,2\n").is_none());
    assert!(File::tparse("1,2").is_none());
    assert!(File::tparse("--1\n").is_none());
}

struct CommaText;
impl StrConst for CommaText {
    fn text() -> &'static str {
        ","
    }
}
type Comma = TStr<CommaText>;

struct NewlineText;
impl StrConst for NewlineText {
    fn text() -> &'static str {
        "\n"
    }
}
type Newline = TStr<NewlineText>;

#[test]
fn sequence_value_keeps_both_parts() {
    let ((c, lit), n) = <(char, TStr<Word>)>::tparse("ctest_str").unwrap();
    assert_eq!(c, 'c');
    assert_eq!(lit.str(), "test_str");
    assert_eq!(n, 9);
}

#[test]
fn alternation_first_match_wins() {
    type Choice = Or<Alt<char, Alt<TStr<Word>, End>>>;
    let (v, n) = Choice::tparse("test_str").unwrap();
    assert_eq!(v.index(), 0);
    assert_eq!(n, 1);
    assert!(matches!(v.0, Alt::Here('t')));
}

#[test]
fn alternation_falls_through_to_later_alternative() {
    type Choice = Or<Alt<Digit, Alt<TStr<Word>, Alt<char, End>>>>;
    let (v, n) = Choice::tparse("test_str").unwrap();
    assert_eq!(v.index(), 1);
    assert_eq!(n, 8);
    let (v, n) = Choice::tparse("q").unwrap();
    assert_eq!(v.index(), 2);
    assert_eq!(n, 1);
    assert!(Choice::tparse("").is_none());
}

#[test]
fn alternation_of_one() {
    type Choice = Or<Alt<Digit, End>>;
    assert_eq!(Choice::tparse("3").map(|(v, n)| (v.index(), n)), Some((0, 1)));
    assert!(Choice::tparse("x").is_none());
}

type Three = Or<Alt<Digit, Alt<TStr<Word>, Alt<char, End>>>>;

fn classify(input: &str, log: &mut Vec<usize>) -> String {
    let parsed = Three::tparse(input).unwrap().0;
    let m = parsed.matcher(log);
    let m = AddMatcher::<2, _>::add_matcher(m, |c: char, log: &mut Vec<usize>| {
        log.push(2);
        format!("char {c}")
    });
    let m = AddMatcher::<0, _>::add_matcher(m, |d: Digit, log: &mut Vec<usize>| {
        log.push(0);
        format!("digit {}", d.0)
    });
    let m = AddMatcher::<1, _>::add_matcher(m, |w: TStr<Word>, log: &mut Vec<usize>| {
        log.push(1);
        format!("word {}", w.str())
    });
    m.do_match()
}

#[test]
fn extraction_runs_only_the_winning_handler() {
    let mut log = Vec::new();
    assert_eq!(classify("7", &mut log), "digit 7");
    assert_eq!(classify("test_str", &mut log), "word test_str");
    assert_eq!(classify("z", &mut log), "char z");
    assert_eq!(log, vec![0, 1, 2]);
}

#[test]
fn extraction_passes_shared_arguments() {
    type Two = Or<Alt<TStr<Dash>, Alt<Digit, End>>>;
    let parsed = Two::tparse("5").unwrap().0;
    let m = parsed.matcher((10u32, 'k'));
    let m = AddMatcher::<1, _>::add_matcher(m, |d: Digit, (base, tag): (u32, char)| {
        (base + d.0.to_digit(10).unwrap(), tag)
    });
    let m = AddMatcher::<0, _>::add_matcher(m, |_: TStr<Dash>, (_, tag): (u32, char)| (0, tag));
    assert_eq!(m.do_match(), (15, 'k'));
}

#[test]
fn remaining_length_inside_a_sequence() {
    let ((_, left), n) = <(TStr<Word>, RemainingLength)>::tparse("test_str!?").unwrap();
    assert_eq!(left.0, 2);
    assert_eq!(n, 8);
}

#[test]
fn sequence_of_eight() {
    type Eight = (char, Digit, char, Digit, char, Digit, char, RemainingLength);
    let (v, n) = Eight::tparse("a1b2c3d!").unwrap();
    assert_eq!((v.0, v.1 .0, v.2, v.3 .0, v.4, v.5 .0, v.6), ('a', '1', 'b', '2', 'c', '3', 'd'));
    assert_eq!(v.7 .0, 1);
    assert_eq!(n, 7);
    assert!(Eight::tparse("a1b2c3x").is_some());
    assert!(Eight::tparse("a1b2cxd").is_none());
}

type Five = Or<Alt<TStr<Dash>, Alt<Digit, Alt<LetterA, Alt<TStr<Word>, Alt<char, End>>>>>>;

fn five_way(input: &str) -> (usize, usize) {
    let parsed = Five::tparse(input).unwrap().0;
    let index = parsed.index();
    let m = parsed.matcher(());
    let m = AddMatcher::<4, _>::add_matcher(m, |_: char, _: ()| 4usize);
    let m = AddMatcher::<0, _>::add_matcher(m, |_: TStr<Dash>, _: ()| 0usize);
    let m = AddMatcher::<3, _>::add_matcher(m, |_: TStr<Word>, _: ()| 3usize);
    let m = AddMatcher::<1, _>::add_matcher(m, |_: Digit, _: ()| 1usize);
    let m = AddMatcher::<2, _>::add_matcher(m, |_: LetterA, _: ()| 2usize);
    (index, m.do_match())
}

#[test]
fn five_way_alternation_in_any_registration_order() {
    assert_eq!(five_way("-"), (0, 0));
    assert_eq!(five_way("8"), (1, 1));
    assert_eq!(five_way("a"), (2, 2));
    assert_eq!(five_way("test_str"), (3, 3));
    assert_eq!(five_way("?"), (4, 4));
}

type Sixteen = Or<Alt<Digit, Alt<Digit, Alt<Digit, Alt<Digit, Alt<Digit, Alt<Digit, Alt<Digit, Alt<Digit, Alt<Digit, Alt<Digit, Alt<Digit, Alt<Digit, Alt<Digit, Alt<Digit, Alt<Digit, Alt<char, End>>>>>>>>>>>>>>>>>;

#[test]
fn sixteen_way_alternation_reaches_last_slot() {
    let parsed = Sixteen::tparse("x").unwrap().0;
    assert_eq!(parsed.index(), 15);
    let m = parsed.matcher(100usize);
    let m = AddMatcher::<0, _>::add_matcher(m, |_: Digit, base: usize| base + 0);
    let m = AddMatcher::<1, _>::add_matcher(m, |_: Digit, base: usize| base + 1);
    let m = AddMatcher::<2, _>::add_matcher(m, |_: Digit, base: usize| base + 2);
    let m = AddMatcher::<3, _>::add_matcher(m, |_: Digit, base: usize| base + 3);
    let m = AddMatcher::<4, _>::add_matcher(m, |_: Digit, base: usize| base + 4);
    let m = AddMatcher::<5, _>::add_matcher(m, |_: Digit, base: usize| base + 5);
    let m = AddMatcher::<6, _>::add_matcher(m, |_: Digit, base: usize| base + 6);
    let m = AddMatcher::<7, _>::add_matcher(m, |_: Digit, base: usize| base + 7);
    let m = AddMatcher::<8, _>::add_matcher(m, |_: Digit, base: usize| base + 8);
    let m = AddMatcher::<9, _>::add_matcher(m, |_: Digit, base: usize| base + 9);
    let m = AddMatcher::<10, _>::add_matcher(m, |_: Digit, base: usize| base + 10);
    let m = AddMatcher::<11, _>::add_matcher(m, |_: Digit, base: usize| base + 11);
    let m = AddMatcher::<12, _>::add_matcher(m, |_: Digit, base: usize| base + 12);
    let m = AddMatcher::<13, _>::add_matcher(m, |_: Digit, base: usize| base + 13);
    let m = AddMatcher::<14, _>::add_matcher(m, |_: Digit, base: usize| base + 14);
    let m = AddMatcher::<15, _>::add_matcher(m, |c: char, base: usize| base + c.len_utf8() + 14);
    assert_eq!(m.do_match(), 115);
}
