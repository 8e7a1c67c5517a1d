use pekoms::alt::alt;
use pekoms::Parser;

//some parsers
fn dog(inp: &str) -> Result<(&str, &str), &'static str> {
    match &inp[0..3] {
        "dog" => Ok((&inp[0..3], &inp[3..])),
        _ => Err("oh no"),
    }
}

fn cat(inp: &str) -> Result<(&str, &str), usize> {
    match &inp[0..3] {
        "cat" => Ok((&inp[0..3], &inp[3..])),
        _ => Err(15),
    }
}

fn fish(inp: &str) -> Result<(&str, &str), bool> {
    match &inp[0..4] {
        "fish" => Ok((&inp[0..4], &inp[4..])),
        _ => Err(false),
    }
}

#[test]
fn test_alts() {
    let z = alt((dog, cat, fish));

    let (out, res) = z.parse("dogzone").expect("the dog parser should succeed");
    assert_eq!("dog", out);
    assert_eq!("zone", res);

    let (out, res) = z.parse("fisherman").expect("the fish parser should succeed");
    assert_eq!("fish", out);
    assert_eq!("erman", res);

    let (out, res) = z.parse("catseldorf").expect("the cat parser should succeed");
    assert_eq!("cat", out);
    assert_eq!("seldorf", res);

    let bad = z
        .parse("if you can't hang with the big dog, get off the porch")
        .expect_err("this should error all over the place");
    assert!(matches!(bad, ("oh no", 15, false)));
}

fn digit(inp: &str) -> Result<(char, &str), u8> {
    match inp.chars().next() {
        Some(c) if c.is_ascii_digit() => Ok((c, &inp[1..])),
        _ => Err(1),
    }
}

fn letter(inp: &str) -> Result<(char, &str), u8> {
    match inp.chars().next() {
        Some(c) if c.is_ascii_alphabetic() => Ok((c, &inp[1..])),
        _ => Err(2),
    }
}

fn any(inp: &str) -> Result<(char, &str), u8> {
    match inp.chars().next() {
        Some(c) => Ok((c, &inp[c.len_utf8()..])),
        None => Err(3),
    }
}

#[test]
fn alt_first_match_wins() {
    // `any` also matches a letter, but `letter` comes first
    let z = alt((digit, letter, any));
    assert_eq!(z.parse("x1"), Ok(('x', "1")));
    assert_eq!(z.parse("7x"), Ok(('7', "x")));
    assert_eq!(z.parse("?x"), Ok(('?', "x")));
    assert_eq!(z.parse(""), Err((1, 2, 3)));

    // in the other order `any` takes everything
    let y = alt((any, digit));
    assert_eq!(y.parse("7x"), Ok(('7', "x")));
}

#[test]
fn alt_of_two_and_of_many() {
    let two = alt((digit, letter));
    assert_eq!(two.parse("!"), Err((1, 2)));
    assert_eq!(two.parse("b"), Ok(('b', "")));

    let many = alt((digit, digit, digit, digit, digit, digit, letter));
    assert_eq!(many.parse("q"), Ok(('q', "")));
    assert_eq!(many.parse("."), Err((1, 1, 1, 1, 1, 1, 2)));
}

#[test]
fn alt_built_by_into() {
    let z: pekoms::alt::Alt<&str, _> = (digit, letter).into();
    assert_eq!(z.parse("a"), Ok(('a', "")));
    let w = pekoms::alt::Alt::new((letter, digit));
    assert_eq!(w.parse("5"), Ok(('5', "")));
}
