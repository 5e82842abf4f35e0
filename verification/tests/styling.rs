use gory::{Color, ColorString, Colorable, Policy};

#[test]
fn test_color_enabled() {
    let p = Policy::detect(None);
    assert!(Color::enabled(&p) || !Color::enabled(&p));
}

#[test]
fn test_colors() {
    let mut p = Policy::new(false);

    // Force color
    assert!(!Color::force_on(&p));
    assert!(!Color::force_off(&p));
    Color::force(&mut p, Some(true));
    assert!(Color::force_on(&p));
    assert!(!Color::force_off(&p));

    // Clear color
    let foo = String::from("foo").red();
    assert_eq!("\u{1b}[1;91m\u{1b}[0m", "".red().render(&p));
    assert_eq!(String::from("foo"), foo.clear());

    // Deref
    assert_eq!(String::from("foo"), *foo.deref());

    // Update color
    assert_eq!("\u{1b}[1;91m\u{1b}[0m", "".black().red().render(&p));

    assert_eq!("\u{1b}[1;90m\u{1b}[0m", "".black().render(&p));
    assert_eq!("\u{1b}[1;92m\u{1b}[0m", "".green().render(&p));
    assert_eq!("\u{1b}[1;93m\u{1b}[0m", "".yellow().render(&p));
    assert_eq!("\u{1b}[1;94m\u{1b}[0m", "".blue().render(&p));
    assert_eq!("\u{1b}[1;95m\u{1b}[0m", "".magenta().render(&p));
    assert_eq!("\u{1b}[1;96m\u{1b}[0m", "".cyan().render(&p));
    assert_eq!("\u{1b}[1;97m\u{1b}[0m", "".white().render(&p));

    Color::force(&mut p, Some(false));
    assert!(Color::force_off(&p));
    assert!(!Color::force_on(&p));
    assert_eq!("", "".black().render(&p));
    assert_eq!("", "".red().render(&p));
    assert_eq!("", "".green().render(&p));
    assert_eq!("", "".yellow().render(&p));
    assert_eq!("", "".blue().render(&p));
    assert_eq!("", "".magenta().render(&p));
    assert_eq!("", "".cyan().render(&p));
    assert_eq!("", "".white().render(&p));

    Color::force(&mut p, None);
}

#[test]
fn render_force_disabled_yields_text() {
    let mut p = Policy::new(true);
    Color::force(&mut p, Some(false));
    assert_eq!("some text", "some text".red().render(&p));
    assert_eq!("some text", "some text".blue().render(&p));
    assert_eq!("", "".white().render(&p));
}

#[test]
fn render_force_enabled_exact_bytes() {
    let mut p = Policy::new(false);
    Color::force(&mut p, Some(true));
    assert_eq!("\u{1b}[1;91mhello\u{1b}[0m", "hello".red().render(&p));
    assert_eq!("\u{1b}[1;94mworld\u{1b}[0m", "world".blue().render(&p));
    let rendered = "hi".green().render(&p);
    assert_eq!(rendered.as_bytes(), b"\x1b[1;92mhi\x1b[0m");
}

#[test]
fn clear_removes_styling_for_good() {
    let mut p = Policy::new(false);
    Color::force(&mut p, Some(true));
    let cleared = "hello".red().clear();
    assert_eq!("hello", cleared);
    // Rendering what was cleared stays plain even when forced on.
    let plain = ColorString::default();
    assert_eq!("", plain.render(&p));
}

#[test]
fn chaining_last_write_wins() {
    let mut p = Policy::new(false);
    Color::force(&mut p, Some(true));
    assert_eq!("x".green().render(&p), "x".red().green().render(&p));
    assert_eq!("x".black().red().render(&p), "x".red().render(&p));
    let restyled = "t".red().green();
    let once = "t".green();
    assert_eq!(restyled, once);
}

#[test]
fn deref_is_transparent() {
    let mut p = Policy::new(true);
    assert_eq!("payload", "payload".red().deref());
    Color::force(&mut p, Some(true));
    assert_eq!("payload", "payload".cyan().deref());
    assert_eq!(7, "payload".yellow().deref().len());
}

#[test]
fn color_codes_are_bright_parameters() {
    assert_eq!("90", Color::Black.code());
    assert_eq!("91", Color::Red.code());
    assert_eq!("92", Color::Green.code());
    assert_eq!("93", Color::Yellow.code());
    assert_eq!("94", Color::Blue.code());
    assert_eq!("95", Color::Magenta.code());
    assert_eq!("96", Color::Cyan.code());
    assert_eq!("97", Color::White.code());
}

#[test]
fn tty_attached_scenario() {
    // A tty attached, the environment flag unset and no force: the policy's
    // automatic part is on, and red renders with the escape sequences.
    let p = Policy::new(true);
    assert_eq!("\u{1b}[1;91mhello\u{1b}[0m", "hello".red().render(&p));
}

#[test]
fn no_tty_scenario() {
    // No tty attached: rendering yields the plain text.
    let p = Policy::new(false);
    assert_eq!("hello", "hello".red().render(&p));
}

#[test]
fn styled_equality_compares_payload_and_color() {
    assert_eq!("a".red(), "a".red());
    assert_ne!("a".red(), "a".green());
    assert_ne!("a".red(), "b".red());
    assert_eq!(ColorString::default(), ColorString::default());
    assert_ne!(ColorString::default(), "".red());
}
