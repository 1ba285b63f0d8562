//! Reading one object from a byte source.

use vstd::prelude::*;
use vstd::std_specs::convert::FromSpec;
use vstd::utf8::encode_utf8;

verus! {

/// A component that reads objects of type `T`.
pub trait ObjectReader<T> {
    /// The failures of this reader: an I/O failure can always be made into one,
    /// and malformed content is reported through the same type.
    type Error: From<std::io::Error>;

    /// What reading makes of a source that holds `input`: the object, or the
    /// failure.
    open spec fn parsed(&self, input: Seq<u8>) -> Result<T, Self::Error> {
        arbitrary()
    }

    /// Reads one object from the front of `source`, which is left at what was
    /// not consumed. This is the one operation that an implementation
    /// supplies.
    fn read(&self, source: &mut &[u8]) -> (r: Result<T, Self::Error>)
        ensures
            r == self.parsed(old(source)@),
            final(source)@.is_suffix_of(old(source)@),
    ;

    /// Reads one object from the bytes of `text`, taken as they are.
    fn read_from_string(&self, text: &str) -> (r: Result<T, Self::Error>)
        ensures
            r == self.parsed(encode_utf8(text@)),
    {
        let mut source: &[u8] = text.as_bytes();
        self.read(&mut source)
    }

    /// Reads one object from a file, given what opening it for reading and
    /// taking its content came to. A failure there is made into the reader's
    /// error type and nothing is read.
    fn read_from_file(&self, content: Result<Vec<u8>, std::io::Error>) -> (r: Result<
        T,
        Self::Error,
    >)
        ensures
            match content {
                Ok(bytes) => r == self.parsed(bytes@),
                Err(failure) => r matches Err(e) && (Self::Error::obeys_from_spec() ==> e
                    == Self::Error::from_spec(failure)),
            },
    {
        match content {
            Ok(bytes) => {
                let mut source: &[u8] = bytes.as_slice();
                self.read(&mut source)
            },
            Err(failure) => Err(Self::Error::from(failure)),
        }
    }
}

} // verus!
