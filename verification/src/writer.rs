//! Writing one object to a byte sink.

use crate::failure::{invalid_data, invalid_data_failure};
use crate::text::decode_text;
use vstd::prelude::*;
use vstd::std_specs::convert::FromSpec;
use vstd::utf8::{decode_utf8, valid_utf8};

verus! {

/// The message of the failure that stands for output that is not UTF-8.
pub open spec fn not_text_message() -> Seq<char> {
    "written bytes are not valid UTF-8"@
}

/// What `write_to_string` returns, by what the primitive put out: the writer's
/// own failure as it is; the text that the bytes encode; or, where they are not
/// UTF-8, the I/O failure of invalid data, made into the writer's error type.
pub open spec fn is_text_outcome<E: From<std::io::Error>>(
    rendered: Result<Seq<u8>, E>,
    outcome: Result<String, E>,
) -> bool {
    match rendered {
        Err(e) => outcome == Err::<String, E>(e),
        Ok(bytes) => if valid_utf8(bytes) {
            outcome matches Ok(s) && s@ == decode_utf8(bytes)
        } else {
            outcome matches Err(e) && (E::obeys_from_spec() ==> e == E::from_spec(
                invalid_data_failure(not_text_message()),
            ))
        },
    }
}

/// What `write_to_file` returns, by what opening the file came to and what the
/// primitive put out: the failure to open, made into the writer's error type;
/// the writer's own failure as it is; or the bytes, which are the whole of the
/// file's new content.
pub open spec fn is_file_outcome<E: From<std::io::Error>>(
    opened: Result<(), std::io::Error>,
    rendered: Result<Seq<u8>, E>,
    outcome: Result<Vec<u8>, E>,
) -> bool {
    match opened {
        Err(failure) => outcome matches Err(e) && (E::obeys_from_spec() ==> e == E::from_spec(
            failure,
        )),
        Ok(_) => match rendered {
            Ok(bytes) => outcome matches Ok(content) && content@ == bytes,
            Err(e) => outcome == Err::<Vec<u8>, E>(e),
        },
    }
}

/// A component that writes objects of type `T`.
pub trait ObjectWriter<T> {
    /// The failures of this writer. An I/O failure can always be made into one.
    type Error: From<std::io::Error>;

    /// What writing `object` puts out: its bytes, or the failure.
    open spec fn rendered(&self, object: &T) -> Result<Seq<u8>, Self::Error> {
        arbitrary()
    }

    /// Appends the bytes of `object` to `sink`. This is the one operation that
    /// an implementation supplies. What the sink held stays in front, also
    /// where the writer fails.
    fn write(&self, sink: &mut Vec<u8>, object: &T) -> (r: Result<(), Self::Error>)
        ensures
            old(sink)@.is_prefix_of(final(sink)@),
            match self.rendered(object) {
                Ok(bytes) => r is Ok && final(sink)@ == old(sink)@ + bytes,
                Err(e) => r == Err::<(), Self::Error>(e),
            },
    ;

    /// Writes `object` to a buffer in memory and returns what was written as
    /// text. Output that is not UTF-8 is reported as an I/O failure of invalid
    /// data.
    fn write_to_string(&self, object: &T) -> (r: Result<String, Self::Error>)
        ensures
            is_text_outcome(self.rendered(object), r),
    {
        let mut buffer: Vec<u8> = Vec::new();
        match self.write(&mut buffer, object) {
            Err(e) => Err(e),
            Ok(()) => written_text(buffer),
        }
    }

    /// Writes `object` for a file, given what opening the file for writing,
    /// made where absent and emptied where present, came to. Returns the whole
    /// of the file's new content. Where the file could not be opened, nothing
    /// is written.
    fn write_to_file(&self, object: &T, opened: Result<(), std::io::Error>) -> (r: Result<
        Vec<u8>,
        Self::Error,
    >)
        ensures
            is_file_outcome(opened, self.rendered(object), r),
    {
        match opened {
            Err(failure) => Err(Self::Error::from(failure)),
            Ok(_) => {
                let mut content: Vec<u8> = Vec::new();
                match self.write(&mut content, object) {
                    Err(e) => Err(e),
                    Ok(()) => Ok(content),
                }
            },
        }
    }
}

/// Decodes what a writer put into its buffer: the text, or the I/O failure of
/// invalid data as an `E`.
pub fn written_text<E: From<std::io::Error>>(buffer: Vec<u8>) -> (r: Result<String, E>)
    ensures
        is_text_outcome(Ok::<Seq<u8>, E>(buffer@), r),
{
    match decode_text(buffer) {
        Some(text) => Ok(text),
        None => Err(E::from(invalid_data("written bytes are not valid UTF-8"))),
    }
}

} // verus!
