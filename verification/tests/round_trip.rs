use objio::{HasOptions, ObjectReader, ObjectWriter};
use std::io::{ErrorKind, Read, Write};

#[derive(Debug, PartialEq)]
enum Failure {
    Io(ErrorKind, String),
    Malformed,
}

impl From<std::io::Error> for Failure {
    fn from(e: std::io::Error) -> Self {
        Failure::Io(e.kind(), e.to_string())
    }
}

#[derive(Debug, Clone, PartialEq)]
struct Line {
    text: String,
}

#[derive(Debug, Default, Clone, Copy)]
struct Indent {
    indent: usize,
}

/// One line of text behind a run of spaces, in both directions.
#[derive(Debug, Default)]
struct Indented {
    options: Indent,
}

impl HasOptions<Indent> for Indented {
    fn set_options(&mut self, options: Indent) {
        self.options = options;
    }

    fn options(&self) -> &Indent {
        &self.options
    }
}

impl ObjectWriter<Line> for Indented {
    type Error = Failure;

    fn write(&self, w: &mut Vec<u8>, object: &Line) -> Result<(), Self::Error> {
        let indent = self.options.indent;
        let text = &object.text;
        w.write_all(format!("{:indent$}{text}", "").as_bytes())?;
        Ok(())
    }
}

impl ObjectReader<Line> for Indented {
    type Error = Failure;

    fn read(&self, source: &mut &[u8]) -> Result<Line, Self::Error> {
        let mut all = String::new();
        source.read_to_string(&mut all)?;
        let indent = self.options.indent;
        if all.len() < indent || !all.as_bytes()[..indent].iter().all(|b| *b == b' ') {
            return Err(Failure::Malformed);
        }
        Ok(Line { text: all[indent..].to_string() })
    }
}

fn samples() -> Vec<Line> {
    vec![
        Line { text: "Hello".to_string() },
        Line { text: String::new() },
        Line { text: "two words".to_string() },
        Line { text: "gr\u{fc}\u{df}e \u{1f600}".to_string() },
    ]
}

#[test]
fn text_round_trip_gives_the_value_again() {
    for indent in [0usize, 2, 5] {
        let format = Indented::default().with_options(Indent { indent });
        for line in samples() {
            let written = format.write_to_string(&line).unwrap();
            assert_eq!(format.read_from_string(&written), Ok(line));
        }
    }
}

#[test]
fn text_round_trip_of_the_indented_greeting() {
    let format = Indented::default().with_options(Indent { indent: 2 });
    let written = format.write_to_string(&Line { text: "Hello".to_string() }).unwrap();
    assert_eq!(written, "  Hello");
    assert_eq!(format.read_from_string(&written), Ok(Line { text: "Hello".to_string() }));
}

#[test]
fn stored_content_round_trip_gives_the_value_again() {
    for indent in [0usize, 1, 4] {
        let format = Indented::default().with_options(Indent { indent });
        for line in samples() {
            let content = format.write_to_file(&line, Ok(())).unwrap();
            assert_eq!(format.read_from_file(Ok(content)), Ok(line));
        }
    }
}

#[test]
fn new_content_holds_nothing_of_the_old() {
    let format = Indented::default();
    let first = format.write_to_file(&Line { text: "a long first line".to_string() }, Ok(()));
    let second = format.write_to_file(&Line { text: "b".to_string() }, Ok(()));
    assert_eq!(first, Ok(b"a long first line".to_vec()));
    assert_eq!(second, Ok(b"b".to_vec()));
}

#[test]
fn reader_of_another_format_does_not_take_the_value_back() {
    let writer = Indented::default();
    let reader = Indented::default().with_options(Indent { indent: 2 });
    let written = writer.write_to_string(&Line { text: "Hello".to_string() }).unwrap();
    assert_eq!(reader.read_from_string(&written), Err(Failure::Malformed));
}
