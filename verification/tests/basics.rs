use pekoms::basics::optional;
use pekoms::Parser;

fn dot(inp: &str) -> Result<(&str, &str), ()> {
    inp.strip_prefix(".").map(|r| (".", r)).ok_or(())
}

fn dash(inp: &str) -> Result<(&str, &str), ()> {
    inp.strip_prefix("-").map(|r| ("-", r)).ok_or(())
}

#[test]
fn test_optional() {
    let input = ".";
    let opt_dot = optional(dot);
    let opt_dash = optional(dash);

    let res1 = opt_dot.parse(input);
    match res1 {
        Ok((Some(v), t)) => {
            assert_eq!(v, ".", "the correct value should be in the option");
            assert_eq!(t, "", "the correct remainig text should be returned");
        },
        _ => panic!("res1 should be a success"),
    };

    let res2 = opt_dash.parse(input);
    match res2 {
        Ok((None, t)) => assert_eq!(t, input, "the unaltered input should return on a fail"),
        _ => panic!("res2 should be a None"),
    }
}

#[test]
fn optional_keeps_residual_of_success() {
    let z = optional(dot);
    assert_eq!(z.parse("..x"), Ok((Some("."), ".x")));
    assert_eq!(z.parse(""), Ok((None, "")));
    assert_eq!(z.parse("x."), Ok((None, "x.")));
}
