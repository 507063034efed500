use css::color::{hsl, parse_color, parse_by_name, rgb, rgba};
use css::fixed::Fixed;

fn fx(micro: i64) -> Fixed {
    Fixed::of_micro(micro)
}

#[test]
fn test_parsing_rgb() {
    assert!(parse_color("red").unwrap().eq(&parse_color("rgb(255,0,0)").unwrap()));
    assert!(parse_color("red").unwrap().eq(&parse_color("rgba(255,0,0,1.0)").unwrap()));
    assert!(parse_color("red").unwrap().eq(&parse_color("rgba(255,0,0,1)").unwrap()));
    assert!(parse_color("lime").unwrap().eq(&parse_color("rgba(0,255,0,1.00)").unwrap()));
    assert!(rgb(1u8, 2u8, 3u8).eq(&parse_color("rgb(1,2,03)").unwrap()));
    assert!(rgba(15u8, 250u8, 3u8, fx(500_000)).eq(&parse_color("rgba(15,250,3,.5)").unwrap()));
    assert!(rgba(15u8, 250u8, 3u8, fx(500_000)).eq(&parse_color("rgba(15,250,3,0.5)").unwrap()));
    assert!(None == parse_color("rbga(1,2,3)"));
}

#[test]
fn test_parsing_hsl() {
    assert!(parse_color("red").unwrap().eq(&parse_color("hsl(0,1,.5)").unwrap()));
    assert!(parse_color("lime").unwrap().eq(&parse_color("hsl(120.0,1.0,.5)").unwrap()));
    assert!(parse_color("blue").unwrap().eq(&parse_color("hsl(240.0,1.0,.5)").unwrap()));
    assert!(parse_color("green").unwrap().eq(&parse_color("hsl(120.0,1.0,.25)").unwrap()));
    assert!(parse_color("white").unwrap().eq(&parse_color("hsl(1.0,1.,1.0)").unwrap()));
    assert!(parse_color("white").unwrap().eq(&parse_color("hsl(129.0,0.3,1.0)").unwrap()));
    assert!(parse_color("black").unwrap().eq(&parse_color("hsl(231.2,0.75,0.0)").unwrap()));
    assert!(parse_color("black").unwrap().eq(&parse_color("hsl(11.2,0.0,0.0)").unwrap()));
    assert!(parse_color("gray").unwrap().eq(&parse_color("hsl(0.0,0.0,0.5)").unwrap()));
    assert!(parse_color("maroon").unwrap().eq(&parse_color("hsl(0.0,1.0,0.25)").unwrap()));
    assert!(parse_color("purple").unwrap().eq(&parse_color("hsl(300.0,1.0,0.25)").unwrap()));
    assert!(parse_color("fuchsia").unwrap().eq(&parse_color("hsl(300,1.0,0.5)").unwrap()));
    assert!(parse_color("olive").unwrap().eq(&parse_color("hsl(60.,1.0,0.25)").unwrap()));
    assert!(parse_color("yellow").unwrap().eq(&parse_color("hsl(60.,1.0,0.5)").unwrap()));
    assert!(parse_color("navy").unwrap().eq(&parse_color("hsl(240.0,1.0,.25)").unwrap()));
    assert!(parse_color("teal").unwrap().eq(&parse_color("hsl(180.0,1.0,.25)").unwrap()));
    assert!(parse_color("aqua").unwrap().eq(&parse_color("hsl(180.0,1.0,.5)").unwrap()));
    assert!(None == parse_color("hsl(1,2,3,.4)"));
}

#[test]
fn test_rgba_roundtrip() {
    let c = rgba(12, 34, 56, fx(250_000));
    assert!(c.red == 12);
    assert!(c.green == 34);
    assert!(c.blue == 56);
    assert!(c.alpha == fx(250_000));
}

#[test]
fn test_hsl_primaries() {
    assert!(hsl(fx(0), fx(1_000_000), fx(500_000)) == rgb(255, 0, 0));
    assert!(hsl(fx(120_000_000), fx(1_000_000), fx(500_000)) == rgb(0, 255, 0));
    assert!(hsl(fx(240_000_000), fx(1_000_000), fx(500_000)) == rgb(0, 0, 255));
    assert!(hsl(fx(0), fx(0), fx(0)) == rgb(0, 0, 0));
    assert!(hsl(fx(77_000_000), fx(900_000), fx(0)) == rgb(0, 0, 0));
    assert!(hsl(fx(191_000_000), fx(0), fx(1_000_000)) == rgb(255, 255, 255));
}

#[test]
fn test_keyword_case_insensitive() {
    assert!(parse_color("RED") == parse_color("red"));
    assert!(parse_color("Red") == parse_color("red"));
    assert!(parse_color("  red  ") == parse_color("red"));
    assert!(parse_color("foobarbaz").is_none());
    assert!(parse_by_name("LightGoldenrodYellow") == Some(rgb(250, 250, 210)));
}

#[test]
fn test_malformed_color_literals() {
    assert!(parse_color("rgb(1,2)").is_none());
    assert!(parse_color("rgb(1,2,3,4)").is_none());
    assert!(parse_color("rgb(256,0,0)").is_none());
    assert!(parse_color("rgb(1,2,x)").is_none());
    assert!(parse_color("rgba(1,2,3)").is_none());
    assert!(parse_color("hsl(1,2)").is_none());
    assert!(parse_color("hsl(400,1,0.5)").is_none());
    assert!(parse_color("").is_none());
    assert!(parse_color("rgb(").is_none());
}

#[test]
fn test_whitespace_in_tokens() {
    assert!(parse_color("rgb( 255 , 0 , 0 )") == Some(rgb(255, 0, 0)));
    assert!(parse_color("rgba( 1, 2, 3 , .5 )") == Some(rgba(1, 2, 3, fx(500_000))));
}
