//! What holds of a reader and a writer that share a format.

use crate::reader::ObjectReader;
use crate::writer::{is_file_outcome, is_text_outcome, ObjectWriter};
use vstd::prelude::*;
use vstd::utf8::{decode_utf8_encode_utf8, encode_utf8, valid_utf8};

verus! {

/// `writer` puts `value` out without failure, and `reader` makes `value` again
/// of those bytes: the two agree on the format of `value`.
pub open spec fn reads_back<T, W: ObjectWriter<T>, R: ObjectReader<T>>(
    writer: &W,
    reader: &R,
    value: T,
) -> bool {
    writer.rendered(&value) matches Ok(bytes) && reader.parsed(bytes) == Ok::<T, R::Error>(value)
}

/// Round trip through text. Where reader and writer agree on the format of
/// `value` and the writer's output for it is UTF-8, `write_to_string` succeeds,
/// and `read_from_string` on the text it returned gives `value` again.
pub proof fn text_round_trip<T, W: ObjectWriter<T>, R: ObjectReader<T>>(
    writer: &W,
    reader: &R,
    value: T,
    written: Result<String, W::Error>,
)
    requires
        reads_back(writer, reader, value),
        valid_utf8(writer.rendered(&value)->Ok_0),
        is_text_outcome(writer.rendered(&value), written),
    ensures
        written matches Ok(text) && reader.parsed(encode_utf8(text@)) == Ok::<T, R::Error>(value),
{
    decode_utf8_encode_utf8(writer.rendered(&value)->Ok_0);
}

/// Round trip through stored content. Where reader and writer agree on the
/// format of `value` and the file could be opened, `write_to_file` succeeds,
/// and `read_from_file` on the content it returned gives `value` again.
pub proof fn file_round_trip<T, W: ObjectWriter<T>, R: ObjectReader<T>>(
    writer: &W,
    reader: &R,
    value: T,
    stored: Result<Vec<u8>, W::Error>,
)
    requires
        reads_back(writer, reader, value),
        is_file_outcome(Ok(()), writer.rendered(&value), stored),
    ensures
        stored matches Ok(content) && reader.parsed(content@) == Ok::<T, R::Error>(value),
{
}

} // verus!
