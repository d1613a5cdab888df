use std::marker::PhantomData;

use tparse::{
    AddMatcher, AllConsumed, Alt, End, IsNot, Or, RangedChar, StrConst, TParse, TStr, VecN,
};

struct TestStr;
impl StrConst for TestStr {
    fn text() -> &'static str {
        "test_str"
    }
}

struct Minus;
impl StrConst for Minus {
    fn text() -> &'static str {
        "-"
    }
}

struct Comma;
impl StrConst for Comma {
    fn text() -> &'static str {
        ","
    }
}

struct Newline;
impl StrConst for Newline {
    fn text() -> &'static str {
        "\n"
    }
}

struct Something;
impl StrConst for Something {
    fn text() -> &'static str {
        "something"
    }
}

#[test]
fn test_simple_concat() {
    type Lit = TStr<TestStr>;

    let tests: [(&str, Option<((char, Lit), usize)>); 3] = [
        ("ctest_str", Some((('c', TStr(PhantomData)), 9))),
        ("test_str", None),
        ("\0test_str\0\0\0", Some((('\0', TStr(PhantomData)), 9))),
    ];

    for (input, output) in tests {
        let parsed = <(char, Lit)>::tparse(input);
        match (parsed, output) {
            (None, None) => {}
            (Some(parsed), Some(output)) => {
                assert_eq!(parsed.0 .0, output.0 .0);
                assert_eq!(parsed.0 .1.str(), output.0 .1.str());
                assert_eq!(parsed.1, output.1);
            }
            _ => panic!(),
        }
    }
}

#[test]
fn test_csv() {
    type Field = (Option<TStr<Minus>>, VecN<1, RangedChar<0x30, 0x39>>);
    type Record = (Field, Vec<(TStr<Comma>, Field)>, TStr<Newline>);

    type File = AllConsumed<Vec<Record>>;

    let input = "65279,1179403647,1463895090
31415927,27182817,-1618034
-40,-27315
13,42
65537
";
    let parsed = File::tparse(input);
    assert!(parsed.is_some());
}

#[test]
fn test_or() {
    type SomeOr = Or<Alt<TStr<Something>, Alt<(IsNot<char>, char), End>>>;
    let parsed = SomeOr::tparse("something").unwrap().0;

    let mut string = String::new();
    let set = false;

    let matcher = parsed.matcher((&mut string, set));
    let matcher = AddMatcher::<0, _>::add_matcher(
        matcher,
        |tstr: TStr<Something>, (string, set): (&mut String, bool)| {
            string.push_str(tstr.str());
            set
        },
    );
    let matcher = matcher
        .add_matcher(|_: (IsNot<char>, char), (_, _): (&mut String, bool)| -> bool { unreachable!() });
    let out = matcher.do_match();
    assert_eq!(out, set);
    assert_eq!(string, "something");
}
