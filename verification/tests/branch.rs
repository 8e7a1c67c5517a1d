use pekoms::branch::branch;
use pekoms::Parser;

fn dot(inp: &str) -> Result<(&str, &str), usize> {
    inp.strip_prefix(".").map(|r| (".", r)).ok_or(1)
}

fn dash(inp: &str) -> Result<(&str, &str), usize> {
    inp.strip_prefix("-").map(|r| ("-", r)).ok_or(2)
}

fn space(inp: &str) -> Result<(&str, &str), usize> {
    inp.strip_prefix(" ").map(|r| (" ", r)).ok_or(3)
}

#[test]
fn test_branch() {
    let seq1 = (dot, dash, dot).map(|_| 1).map_err(|e| Some(e).take_if(|e| *e != 1).map(|_| "seq1"));
    let seq2 = (dash, dot, dash, dot, dot)
        .map(|_| 2)
        .map_err(|e| Some(e).take_if(|e| *e != 2).map(|_| "seq2"));
    let seq3 = (space, dot, dash, dot, dot)
        .map(|_| 3)
        .map_err(|e| Some(e).take_if(|e| *e != 3).map(|_| "seq3"));

    let b = branch((seq1, seq2, seq3));
    let (good1, _) = b.parse(".-.").expect("1st seq shouldn't fail");
    assert_eq!(good1, 1);

    let (good2, _) = b.parse("-.-..").expect("2nd seq shouldn't fail");
    assert_eq!(good2, 2);

    let (good3, _) = b.parse(" .-..").expect("3rd seq shouldn't fail");
    assert_eq!(good3, 3);

    let bad1 = b.parse(". .").expect_err("the first segment should fail");
    assert!(matches!(bad1, Some("seq1")));

    let bad2 = b.parse("- .").expect_err("the 2nd segment should fail");
    assert!(matches!(bad2, Some("seq2")));

    let bad3 = b.parse(" - ").expect_err("the 3nd segment should fail");
    assert!(matches!(bad3, Some("seq3")));

    let bad4 = b.parse("#asdf").expect_err("all segments should fail");
    assert!(bad4.is_none());
}

fn tagged(tag: &'static str) -> impl Fn(&str) -> Result<(usize, &str), Option<&'static str>> {
    move |inp: &str| match inp.strip_prefix(tag) {
        None => Err(None),
        Some(rest) => match rest.find(';') {
            Some(end) => Ok((end, &rest[end + 1..])),
            None => Err(Some(tag)),
        },
    }
}

#[test]
fn branch_stops_at_a_real_error() {
    let b = branch((tagged("a:"), tagged("ab:"), tagged("b:")));
    assert_eq!(b.parse("a:xyz;rest"), Ok((3, "rest")));
    assert_eq!(b.parse("b:;"), Ok((0, "")));
    // "a:" matches the tag but has no terminator: the search stops there
    assert_eq!(b.parse("a:xyz"), Err(Some("a:")));
    // none of the tags matches
    assert_eq!(b.parse("c:1;"), Err(None));
}

#[test]
fn branch_of_two() {
    let b = branch((tagged("x"), tagged("y")));
    assert_eq!(b.parse("y1;"), Ok((1, "")));
    assert_eq!(b.parse("z1;"), Err(None));
}
