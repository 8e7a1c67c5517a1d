use pekoms::iter::vector;
use pekoms::Parser;

#[derive(Debug)]
struct ErrorMsg(String);

impl From<&str> for ErrorMsg {
    fn from(s: &str) -> Self {
        ErrorMsg(s.to_string())
    }
}

//anything but a comma
fn guy(input: &str) -> Result<(&str, &str), ErrorMsg> {
    match input.chars().next() {
        None => Err("it's over".into()),
        Some(s) if s.is_alphanumeric() => Ok(input.split_at(s.len_utf8())),
        _ => Err("boo urns".into()),
    }
}

fn bad_guy(input: &str) -> Result<(&str, &str), ErrorMsg> {
    match input {
        "" => Err("it's over".into()),
        s if s.starts_with("f") => Err("it's the bad one!".into()),
        s => Ok((&s[0..1], &input[1..])),
    }
}

fn comma(input: &str) -> Result<(&str, &str), ErrorMsg> {
    input.strip_prefix(",").map(|r| (",", r)).ok_or("it's no good".into())
}

#[test]
fn check_star_vec() {
    let z = vector::star(guy);

    let (out, res) = z.parse("fish").expect("it should go!");
    assert_eq!(vec!["f", "i", "s", "h"], out, "the parse should go right");
    assert_eq!("", res, "all the input should be used up");

    let z = vector::star(bad_guy);

    let (out, res) = z.parse("dangfish").expect("it should go!");
    assert_eq!(vec!["d", "a", "n", "g"], out, "the short parse should go right");
    assert_eq!("fish", res, "some input should remain");
}

#[test]
fn check_plus_vec() {
    let z = vector::plus(bad_guy);

    let bad = z.parse("fish");
    assert!(bad.is_err(), "the line fish should fail to parse");

    let (out, res) = z.parse("stabs").expect("it should go!");
    assert_eq!(vec!["s", "t", "a", "b", "s"], out, "the non-fish parse should go right");
    assert_eq!("", res, "the input should all get used up");
}

#[test]
fn check_sep_list_vec() {
    let z = vector::sep_list(guy, comma);

    let (out, res) = z.parse(",f,i,s,h").expect("rudy can't fail");
    assert!(out.is_empty(), "no items should be found in the first list");
    assert_eq!(",f,i,s,h", res, "no text should be consumed");

    let (out, res) = z.parse("s,t,a,b,s").expect("it should go!");
    assert_eq!(vec!["s", "t", "a", "b", "s"], out, "the non-fish parse should go right");
    assert_eq!("", res, "the input should all get used up");
}

#[test]
fn check_sep_list_plus_vec() {
    let z = vector::sep_list_plus(guy, comma);

    let _bad = z.parse(",f,i,s,h").expect_err("rudy should fail!");

    let (out, res) = z.parse("s,t,a,b,s").expect("it should go!");
    assert_eq!(vec!["s", "t", "a", "b", "s"], out, "the non-fish parse should go right");
    assert_eq!("", res, "the input should all get used up");

    //this should match just one item with no separator
    let (out, res) = z.parse("s ffff").expect("it should go!");
    assert_eq!(vec!["s"], out);
    assert_eq!(" ffff", res);
}

#[test]
fn star_of_nothing() {
    let z = vector::star(guy);
    let (out, res) = z.parse(",abc").expect("star never fails");
    assert!(out.is_empty());
    assert_eq!(",abc", res);
}

#[test]
fn plus_is_one_then_star() {
    let p = vector::plus(guy);
    let s = vector::star(guy);
    let (all, rest) = p.parse("ab1,c").unwrap();
    let (first, mid) = guy.parse("ab1,c").unwrap();
    let (tail, rest2) = s.parse(mid).unwrap();
    assert_eq!(all[0], first);
    assert_eq!(all[1..].to_vec(), tail);
    assert_eq!(rest, rest2);
    assert_eq!(rest, ",c");
}

#[test]
fn sep_list_goes_on_without_separator() {
    let z = vector::sep_list(guy, comma);
    let (out, res) = z.parse("ab,c d").unwrap();
    assert_eq!(vec!["a", "b", "c"], out);
    assert_eq!(" d", res);
}

#[test]
fn sep_list_plus_is_sep_list_with_one_match() {
    let z = vector::sep_list_plus(guy, comma);
    let l = vector::sep_list(guy, comma);
    // no separator after the first item: the list goes on all the same
    let (out, res) = z.parse("ab").unwrap();
    assert_eq!(vec!["a", "b"], out);
    assert_eq!("", res);
    for input in ["ab,c d", "a,bc,d", "s ffff", "x"] {
        let (out, res) = z.parse(input).unwrap();
        let (out2, res2) = l.parse(input).unwrap();
        assert_eq!(out, out2);
        assert_eq!(res, res2);
    }
    assert_eq!(z.parse("ab,c d").unwrap().0, vec!["a", "b", "c"]);
}

#[test]
fn sep_list_is_star_of_item_then_optional_separator() {
    let l = vector::sep_list(guy, comma);
    let s = vector::star((guy, pekoms::basics::optional(comma)));
    let (items, rest) = l.parse("a,b c,").unwrap();
    let (pairs, rest2) = s.parse("a,b c,").unwrap();
    let firsts: Vec<&str> = pairs.iter().map(|p| p.0).collect();
    assert_eq!(items, firsts);
    assert_eq!(rest, rest2);
    assert_eq!(items, vec!["a", "b"]);
    assert_eq!(rest, " c,");
}

#[test]
fn sep_list_plus_error_is_item_error() {
    let z = vector::sep_list_plus(guy, comma);
    let e = z.parse("").expect_err("no item");
    assert_eq!(e.0, "it's over");
}

#[test]
fn parse_iter_steps() {
    let p = guy;
    let mut it = pekoms::iter::ParseIter::new(&p, "ab,");
    assert_eq!(it.next(), Some("a"));
    assert_eq!(it.next(), Some("b"));
    assert_eq!(it.next(), None);
    // a failure leaves the remaining input as it was
    assert_eq!(it.next(), None);
    assert_eq!(it.remains(), ",");
}

#[test]
fn alt_err_from_input() {
    let e: pekoms::AltErr<&str> = "left over".into();
    assert_eq!(e.inp, "left over");
    let f = pekoms::AltErr::from(3u8);
    assert_eq!(f.inp, 3);
    assert_eq!(f.message(), "None of the options were found");
    assert_eq!(f.debug_name(), "AltErr");
}
