use pekoms::Parser;

fn guy(input: &str) -> Result<(&str, &str), &str> {
    match input {
        "" => Err("it's bad"),
        s => Ok((&s[0..1], &s[1..])),
    }
}

fn fzer(input: &str) -> Result<usize, &str> {
    match input {
        "f" => Err("it's no good"),
        s => Ok(s.len()),
    }
}

#[test]
fn check_map() {
    //check to see if mapping is good here
    let z = guy.map(|s| s.chars().next().unwrap() as u32);
    let (out, res) = z.parse("fishburns").expect("the parsing shouldn't fail");
    assert_eq!(102, out, "the parser should match the first letter and convert it to an int");
    assert_eq!("ishburns", res, "the rest of the string should be the residual");
}

#[test]
fn check_and_then() {
    let z = guy.and_then(fzer);
    let (out, res) = z.parse("gibbles").expect("gibbles should parse");
    assert_eq!(out, 1, "the parser should match the first letter count it");
    assert_eq!("ibbles", res, "the rest of the string should be the residual");

    let bad = z.parse("fish");
    assert!(bad.is_err(), "the word fish should fail to parse");
}

#[test]
fn map_keeps_errors_and_residual() {
    let z = guy.map(|s: &str| s.len());
    assert_eq!(z.parse("abc"), Ok((1, "bc")));
    assert_eq!(z.parse(""), Err("it's bad"));
}

#[test]
fn and_then_error_comes_from_either_step() {
    let z = guy.and_then(fzer);
    // the first step fails
    assert_eq!(z.parse(""), Err("it's bad"));
    // the first step succeeds and the second rejects its output
    assert_eq!(z.parse("fx"), Err("it's no good"));
    assert_eq!(z.parse("xf"), Ok((1, "f")));
}

#[test]
fn map_err_changes_only_errors() {
    let z = guy.map_err(|e: &str| e.len());
    assert_eq!(z.parse(""), Err(8));
    assert_eq!(z.parse("hey"), Ok(("h", "ey")));
}

#[test]
fn closure_is_a_parser() {
    let first_two = |s: &'static str| if s.len() >= 2 { Ok((&s[..2], &s[2..])) } else { Err(s.len()) };
    assert_eq!(first_two.parse("abc"), Ok(("ab", "c")));
    assert_eq!(first_two.parse("a"), Err(1));
}

#[test]
fn parsing_twice_gives_the_same_result() {
    let z = guy.map(|s: &str| s.to_uppercase());
    assert_eq!(z.parse("qrs"), z.parse("qrs"));
}

#[test]
fn map_identity_and_composition() {
    assert_eq!(guy.map(|s| s).parse("xyz"), guy.parse("xyz"));
    let twice = guy.map(|s: &str| s.len()).map(|n: usize| n * 10);
    let once = guy.map(|s: &str| s.len() * 10);
    assert_eq!(twice.parse("xyz"), once.parse("xyz"));
    assert_eq!(twice.parse("xyz"), Ok((10, "yz")));
    assert_eq!(twice.parse(""), once.parse(""));
}

#[test]
fn and_then_with_ok_is_map() {
    let a = guy.and_then(|s: &str| Ok(s.len() + 1));
    let m = guy.map(|s: &str| s.len() + 1);
    assert_eq!(a.parse("pq"), m.parse("pq"));
    assert_eq!(a.parse("pq"), Ok((2, "q")));
    assert_eq!(a.parse(""), m.parse(""));
}
