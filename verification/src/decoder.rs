//! The H.264 decoder of the `openh264` crate as this library sees it: an
//! opaque state that turns access units into pictures. What a call returns
//! depends on everything the decoder was given before, so nothing is claimed
//! of it; the library checks every picture before it uses it.

use openh264::decoder::Decoder;
use openh264::formats::YUVSource;
use vstd::prelude::*;

use crate::error::Error;
use crate::picture::Picture;

verus! {

/// `openh264::decoder::Decoder`: the decoder's state, opaque.
#[verifier::external_type_specification]
#[verifier::external_body]
pub struct ExDecoder(openh264::decoder::Decoder);

/// What the decoder made of one access unit.
#[derive(Debug)]
pub enum Decoded {
    /// A picture.
    Picture(Picture),
    /// No picture yet: the decoder is still gathering reference data.
    Buffering,
    /// The access unit was refused.
    Failed(Error),
}

impl Decoded {
    /// A picture, where there is one, can be shown.
    pub open spec fn well_formed(self) -> bool {
        self matches Decoded::Picture(p) ==> p.well_formed()
    }
}

/// The longest access unit that the decoder is given: it takes the length
/// as a signed 32-bit number.
pub const MAX_ACCESS_UNIT_SIZE: usize = 0x7FFF_FFFF;

/// `Decoder::decode`: hands the access unit to the decoder and copies out
/// what it returns: of a picture the dimensions, the strides and the three
/// planes, as the decoder gives them; of an error its text. The decoder
/// takes the length as a signed 32-bit number, so longer input is left out.
/// Nothing is promised of the result.
#[verifier::external_body]
pub(crate) fn decoder_decode(decoder: &mut Decoder, access_unit: &[u8]) -> (r: Result<
    Option<Picture>,
    String,
>)
    requires
        access_unit@.len() <= MAX_ACCESS_UNIT_SIZE,
{
    match decoder.decode(access_unit) {
        Ok(Some(yuv)) => {
            let (width, height) = yuv.dimensions();
            let (stride_y, stride_u, stride_v) = yuv.strides();
            let (y, u, v) = (yuv.y().to_vec(), yuv.u().to_vec(), yuv.v().to_vec());
            Ok(Some(Picture { width, height, y, u, v, stride_y, stride_u, stride_v }))
        },
        Ok(None) => Ok(None),
        Err(e) => Err(e.to_string()),
    }
}

/// Whether `decoded` is what the library makes of the decoder's answer
/// `result`: a picture that can be shown is handed on; one that cannot is a
/// decode failure of the library's own; no picture is `Buffering`; the
/// decoder's error is a decode failure with the decoder's text.
pub open spec fn answers(result: Result<Option<Picture>, String>, decoded: Decoded) -> bool {
    match result {
        Ok(Some(picture)) => if picture.well_formed() {
            decoded == Decoded::Picture(picture)
        } else {
            decoded is Failed && decoded->Failed_0 is Decode && decoded->Failed_0.message()
                == "decoder returned a malformed picture"@
        },
        Ok(None) => decoded == Decoded::Buffering,
        Err(text) => decoded == Decoded::Failed(Error::Decode(text)),
    }
}

/// Makes of the decoder's answer what the presenter works with. A picture
/// whose planes are too short for its dimensions counts as a failure.
pub fn decoded_from(result: Result<Option<Picture>, String>) -> (decoded: Decoded)
    ensures
        decoded.well_formed(),
        answers(result, decoded),
{
    match result {
        Ok(Some(picture)) => {
            if picture.is_valid() {
                Decoded::Picture(picture)
            } else {
                Decoded::Failed(
                    Error::Decode(String::from_str("decoder returned a malformed picture")),
                )
            }
        },
        Ok(None) => Decoded::Buffering,
        Err(text) => Decoded::Failed(Error::Decode(text)),
    }
}

/// Decodes one access unit. An access unit that is too long for the decoder
/// is refused without being handed to it. Any other goes to the decoder as
/// it is, and the result is what `decoded_from` makes of the decoder's
/// answer, whatever that is.
pub fn decode_access_unit(decoder: &mut Decoder, access_unit: &[u8]) -> (decoded: Decoded)
    ensures
        decoded.well_formed(),
        access_unit@.len() > MAX_ACCESS_UNIT_SIZE ==> decoded is Failed && decoded->Failed_0 is Decode
            && decoded->Failed_0.message() == "access unit too large"@,
        access_unit@.len() <= MAX_ACCESS_UNIT_SIZE ==> exists|
            result: Result<Option<Picture>, String>,
        | #[trigger] answers(result, decoded),
{
    if access_unit.len() > MAX_ACCESS_UNIT_SIZE {
        return Decoded::Failed(Error::Decode(String::from_str("access unit too large")));
    }
    let result = decoder_decode(decoder, access_unit);
    let ghost answer = result;
    let decoded = decoded_from(result);
    assert(answers(answer, decoded));
    decoded
}

} // verus!
