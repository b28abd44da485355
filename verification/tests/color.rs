use aaag::RGBColorTextExt;

#[test]
fn rgb_builds_the_truecolor_escape() {
    assert_eq!('.'.rgb(1, 2, 3), "\u{1b}[38;2;1;2;3m.");
    assert_eq!('x'.rgb(255, 255, 255), "\u{1b}[38;2;255;255;255mx");
}

#[test]
fn rgb_renders_each_channel_width() {
    assert_eq!('#'.rgb(0, 10, 100), "\u{1b}[38;2;0;10;100m#");
    assert_eq!('#'.rgb(9, 99, 199), "\u{1b}[38;2;9;99;199m#");
}

#[test]
fn default_builds_the_reset_escape() {
    assert_eq!('A'.default(), "\u{1b}[39mA");
    assert_eq!('\n'.default(), "\u{1b}[39m\n");
}

#[test]
fn parse_config_keeps_every_field() {
    let c = aaag::parse_config(
        String::from("cat.png"),
        String::from("cat.txt"),
        Some(12),
        None,
        true,
    );
    assert_eq!(c.image, "cat.png");
    assert_eq!(c.output, "cat.txt");
    assert_eq!(c.width, Some(12));
    assert_eq!(c.height, None);
    assert!(c.color);
}
