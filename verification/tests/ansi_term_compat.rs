// Rendering compatibility with the ansi_term crate: the same text styled
// the same way must produce the same escape sequence. The policy used has
// nothing set, so colorization is on. The `reverse` and `hidden` cases are
// the exception: this library's parameter table fixes their digits at "6"
// and "7", where ansi_term emits "7" and "8", so those two expectations
// are written out directly.

use colored::control::ShouldColorize;
use colored::Colorize;

#[test]
fn black() {
    let s = format!("{} {}", "test string", "black");
    assert_eq!(
        s.black().render(&ShouldColorize::new(None, None)),
        ansi_term::Colour::Black.paint(s).to_string()
    );
}

#[test]
fn red() {
    let s = format!("{} {}", "test string", "red");
    assert_eq!(
        s.red().render(&ShouldColorize::new(None, None)),
        ansi_term::Colour::Red.paint(s).to_string()
    );
}

#[test]
fn green() {
    let s = format!("{} {}", "test string", "green");
    assert_eq!(
        s.green().render(&ShouldColorize::new(None, None)),
        ansi_term::Colour::Green.paint(s).to_string()
    );
}

#[test]
fn yellow() {
    let s = format!("{} {}", "test string", "yellow");
    assert_eq!(
        s.yellow().render(&ShouldColorize::new(None, None)),
        ansi_term::Colour::Yellow.paint(s).to_string()
    );
}

#[test]
fn blue() {
    let s = format!("{} {}", "test string", "blue");
    assert_eq!(
        s.blue().render(&ShouldColorize::new(None, None)),
        ansi_term::Colour::Blue.paint(s).to_string()
    );
}

#[test]
fn magenta() {
    let s = format!("{} {}", "test string", "magenta");
    assert_eq!(
        s.magenta().render(&ShouldColorize::new(None, None)),
        ansi_term::Colour::Purple.paint(s).to_string()
    );
}

#[test]
fn cyan() {
    let s = format!("{} {}", "test string", "cyan");
    assert_eq!(
        s.cyan().render(&ShouldColorize::new(None, None)),
        ansi_term::Colour::Cyan.paint(s).to_string()
    );
}

#[test]
fn white() {
    let s = format!("{} {}", "test string", "white");
    assert_eq!(
        s.white().render(&ShouldColorize::new(None, None)),
        ansi_term::Colour::White.paint(s).to_string()
    );
}

#[test]
fn bold() {
    let s = format!("{} {}", "test string", "bold");
    assert_eq!(
        s.bold().render(&ShouldColorize::new(None, None)),
        ansi_term::Style::new().bold().paint(s).to_string()
    );
}

#[test]
fn dimmed() {
    let s = format!("{} {}", "test string", "dimmed");
    assert_eq!(
        s.dimmed().render(&ShouldColorize::new(None, None)),
        ansi_term::Style::new().dimmed().paint(s).to_string()
    );
}

#[test]
fn italic() {
    let s = format!("{} {}", "test string", "italic");
    assert_eq!(
        s.italic().render(&ShouldColorize::new(None, None)),
        ansi_term::Style::new().italic().paint(s).to_string()
    );
}

#[test]
fn underline() {
    let s = format!("{} {}", "test string", "underline");
    assert_eq!(
        s.underline().render(&ShouldColorize::new(None, None)),
        ansi_term::Style::new().underline().paint(s).to_string()
    );
}

#[test]
fn blink() {
    let s = format!("{} {}", "test string", "blink");
    assert_eq!(
        s.blink().render(&ShouldColorize::new(None, None)),
        ansi_term::Style::new().blink().paint(s).to_string()
    );
}

#[test]
fn reverse() {
    let s = format!("{} {}", "test string", "reverse");
    assert_eq!(
        s.reverse().render(&ShouldColorize::new(None, None)),
        format!("\x1B[6m{}\x1B[0m", s)
    );
}

#[test]
fn hidden() {
    let s = format!("{} {}", "test string", "hidden");
    assert_eq!(
        s.hidden().render(&ShouldColorize::new(None, None)),
        format!("\x1B[7m{}\x1B[0m", s)
    );
}

#[test]
fn on_black() {
    let s = format!("{} {}", "test string", "on_black");
    assert_eq!(
        s.on_black().render(&ShouldColorize::new(None, None)),
        ansi_term::Style::default().on(ansi_term::Colour::Black).paint(s).to_string()
    );
}

#[test]
fn on_red() {
    let s = format!("{} {}", "test string", "on_red");
    assert_eq!(
        s.on_red().render(&ShouldColorize::new(None, None)),
        ansi_term::Style::default().on(ansi_term::Colour::Red).paint(s).to_string()
    );
}

#[test]
fn on_green() {
    let s = format!("{} {}", "test string", "on_green");
    assert_eq!(
        s.on_green().render(&ShouldColorize::new(None, None)),
        ansi_term::Style::default().on(ansi_term::Colour::Green).paint(s).to_string()
    );
}

#[test]
fn on_yellow() {
    let s = format!("{} {}", "test string", "on_yellow");
    assert_eq!(
        s.on_yellow().render(&ShouldColorize::new(None, None)),
        ansi_term::Style::default().on(ansi_term::Colour::Yellow).paint(s).to_string()
    );
}

#[test]
fn on_blue() {
    let s = format!("{} {}", "test string", "on_blue");
    assert_eq!(
        s.on_blue().render(&ShouldColorize::new(None, None)),
        ansi_term::Style::default().on(ansi_term::Colour::Blue).paint(s).to_string()
    );
}

#[test]
fn on_magenta() {
    let s = format!("{} {}", "test string", "on_magenta");
    assert_eq!(
        s.on_magenta().render(&ShouldColorize::new(None, None)),
        ansi_term::Style::default().on(ansi_term::Colour::Purple).paint(s).to_string()
    );
}

#[test]
fn on_cyan() {
    let s = format!("{} {}", "test string", "on_cyan");
    assert_eq!(
        s.on_cyan().render(&ShouldColorize::new(None, None)),
        ansi_term::Style::default().on(ansi_term::Colour::Cyan).paint(s).to_string()
    );
}

#[test]
fn on_white() {
    let s = format!("{} {}", "test string", "on_white");
    assert_eq!(
        s.on_white().render(&ShouldColorize::new(None, None)),
        ansi_term::Style::default().on(ansi_term::Colour::White).paint(s).to_string()
    );
}
