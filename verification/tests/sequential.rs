use pekoms::Parser;

fn dot(inp: &str) -> Result<(&str, &str), ()> {
    inp.strip_prefix(".").map(|r| (".", r)).ok_or(())
}

fn dash(inp: &str) -> Result<(&str, &str), ()> {
    inp.strip_prefix("-").map(|r| ("-", r)).ok_or(())
}

fn space(inp: &str) -> Result<(&str, &str), ()> {
    inp.strip_prefix(" ").map(|r| (" ", r)).ok_or(())
}

#[test]
fn seq_parser() {
    let morse_s = (dot, dot, dot);
    let morse_o = (dash, dash, dash);
    let morse_sos = (morse_s, space, morse_o, space, morse_s);

    let (out, res) = morse_s.parse("...").expect("S shouldn't fail to parse");
    assert_eq!((".", ".", "."), out);
    assert_eq!("", res);

    let bad = morse_s.parse("..F.");
    assert!(bad.is_err(), "the s parser should fail if there is another letter in there");

    let bad = morse_s.parse("..");
    assert!(bad.is_err(), "a sequential parser should fail if there isn't enough input");

    let (out, res) = morse_o.parse("--- HEY!").expect("O shouldn't fail to parse");
    assert_eq!(("-", "-", "-"), out);
    assert_eq!(" HEY!", res);

    let bad = morse_o.parse(".---");
    assert!(bad.is_err());

    let (out, res) = morse_sos.parse("... --- ...").expect("SOS shouldn't fail to parse");
    assert_eq!(((".", ".", "."), " ", ("-", "-", "-"), " ", (".", ".", ".")), out);
    assert_eq!("", res);

    let bad = morse_sos.parse("...---...");
    assert!(bad.is_err());
}

#[test]
fn single_tuple_is_its_parser() {
    let one = (dot,);
    assert_eq!(one.parse(".-"), Ok((".", "-")));
    assert_eq!(one.parse("-"), Err(()));
}

#[test]
fn pair_threads_the_residual() {
    let pair = (dot, dash);
    assert_eq!(pair.parse(".-x"), Ok(((".", "-"), "x")));
    assert_eq!(pair.parse(".."), Err(()));
    assert_eq!(pair.parse("-"), Err(()));
}

fn num(inp: &str) -> Result<(u32, &str), usize> {
    let n = inp.chars().take_while(|c| c.is_ascii_digit()).count();
    if n == 0 {
        Err(inp.len())
    } else {
        Ok((inp[..n].parse().unwrap(), &inp[n..]))
    }
}

fn comma(inp: &str) -> Result<((), &str), usize> {
    inp.strip_prefix(",").map(|r| ((), r)).ok_or(inp.len())
}

#[test]
fn sequence_stops_at_first_error() {
    let p = (num, comma, num, comma, num);
    assert_eq!(p.parse("1,22,333!"), Ok(((1, (), 22, (), 333), "!")));
    // the error is the one of the parser that failed: here the second `comma`
    assert_eq!(p.parse("1,22;333"), Err(4));
}

#[test]
fn long_tuple() {
    let p = (num, comma, num, comma, num, comma, num, comma, num, comma, num, comma);
    assert_eq!(
        p.parse("1,2,3,4,5,6,"),
        Ok(((1, (), 2, (), 3, (), 4, (), 5, (), 6, ()), ""))
    );
}
