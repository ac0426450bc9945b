//! The two streams of a validation, held in memory: the output is a growing
//! vector of bytes, the input a slice that shrinks as it is read.

use vstd::prelude::*;
use vstd::slice::slice_subrange;
use vstd::string::StrSliceExecFns;
use vstd::utf8::encode_utf8;

verus! {

/// The first byte of `input`, if it has one.
pub open spec fn first_of(input: Seq<u8>) -> Option<u8> {
    if input.len() > 0 {
        Some(input[0])
    } else {
        None
    }
}

/// What is left of `input` once its first byte, if it has one, was taken.
pub open spec fn rest_of(input: Seq<u8>) -> Seq<u8> {
    if input.len() > 0 {
        input.subrange(1, input.len() as int)
    } else {
        input
    }
}

/// Writing the empty text leaves the output as it was.
pub proof fn lemma_empty_text_adds_nothing(output: Seq<u8>)
    ensures
        output + encode_utf8(Seq::<char>::empty()) == output,
{
    assert(output + encode_utf8(Seq::<char>::empty()) =~= output);
}

/// Appends `text` to the output, encoded as UTF-8.
pub fn write_text(writer: &mut Vec<u8>, text: &str)
    ensures
        final(writer)@ == old(writer)@ + encode_utf8(text@),
{
    let mut bytes = text.as_bytes_vec();
    writer.append(&mut bytes);
}

/// Takes one byte from the input. At the end of the input there is none to
/// take, and the input stays as it is.
pub fn read_byte(reader: &mut &[u8]) -> (byte: Option<u8>)
    ensures
        byte == first_of(old(reader)@),
        final(reader)@ == rest_of(old(reader)@),
{
    let input: &[u8] = *reader;
    if input.len() == 0 {
        None
    } else {
        let byte = input[0];
        *reader = slice_subrange(input, 1, input.len());
        Some(byte)
    }
}

} // verus!
