use vstd::prelude::*;
use crate::frame::{rgb_of, Frame};

verus! {

#[verifier::external_type_specification]
#[verifier::external_body]
pub struct ExImageError(image::ImageError);

/// What the image decoder makes of an encoded image file: its width, its
/// height and its pixels as row-major RGBA bytes, or `None` where it rejects
/// the bytes.
pub uninterp spec fn decoded_rgba(data: Seq<u8>) -> Option<(u32, u32, Seq<u8>)>;

/// Relies on `image::load_from_memory`, which guesses the format from the
/// bytes and decodes them, and on `DynamicImage::to_rgba8` and
/// `ImageBuffer::into_raw` for the pixels as RGBA bytes; an `ImageBuffer`
/// always holds at least four bytes for each of its `width * height` pixels.
#[verifier::external_body]
fn decode_rgba(data: &[u8]) -> (r: Result<(u32, u32, Vec<u8>), image::ImageError>)
    ensures
        match r {
            Ok((w, h, rgba)) => decoded_rgba(data@) == Some((w, h, rgba@)) && rgba@.len() >= 4 * w * h,
            Err(_) => decoded_rgba(data@).is_none(),
        },
{
    let img = image::load_from_memory(data)?;
    let (width, height) = (img.width(), img.height());
    Ok((width, height, img.to_rgba8().into_raw()))
}

/// Why an image could not be loaded.
#[derive(Debug)]
pub enum DecodeError {
    /// The file could not be read.
    Unreadable(String),
    /// The decoder rejected the file's contents.
    Image(image::ImageError),
}

/// A pixel-art animation: an ordered sequence of frames that share one
/// width and one height. An image decodes to a single frame.
#[derive(Debug)]
pub struct Animation {
    frames: Vec<Frame>,
    width: u32,
    height: u32,
}

impl View for Animation {
    type V = Seq<Frame>;

    closed spec fn view(&self) -> Seq<Frame> {
        self.frames@
    }
}

impl Animation {
    pub closed spec fn spec_width(&self) -> nat {
        self.width as nat
    }

    pub closed spec fn spec_height(&self) -> nat {
        self.height as nat
    }

    /// At least one frame, and every frame is well formed and of the
    /// animation's dimensions.
    pub open spec fn wf(&self) -> bool {
        &&& self@.len() >= 1
        &&& forall|i: int|
            0 <= i < self@.len() ==> {
                &&& (#[trigger] self@[i]).wf()
                &&& self@[i].spec_width() == self.spec_width()
                &&& self@[i].spec_height() == self.spec_height()
            }
    }

    /// An animation of the one frame `frame`.
    pub fn from_frame(frame: Frame) -> (a: Animation)
        requires
            frame.wf(),
        ensures
            a.wf(),
            a@ == seq![frame],
            a.spec_width() == frame.spec_width(),
            a.spec_height() == frame.spec_height(),
    {
        let width = frame.width();
        let height = frame.height();
        let frames: Vec<Frame> = vec![frame];
        let a = Animation { frames, width, height };
        assert(a@ =~= seq![frame]);
        a
    }

    /// Decodes an encoded image file (PNG and other common formats) into an
    /// animation of one frame that spans the whole image, with the alpha
    /// channel dropped. Fails with `DecodeError::Image` exactly when the
    /// decoder rejects the bytes.
    pub fn decode(data: &[u8]) -> (r: Result<Animation, DecodeError>)
        ensures
            match decoded_rgba(data@) {
                Some((w, h, rgba)) => match r {
                    Ok(a) => {
                        &&& a.wf()
                        &&& a@.len() == 1
                        &&& a.spec_width() == w
                        &&& a.spec_height() == h
                        &&& a@[0]@.len() == w * h
                        &&& a@[0]@ == rgb_of(rgba, (w * h) as nat)
                    },
                    Err(_) => false,
                },
                None => r matches Err(DecodeError::Image(_)),
            },
    {
        match decode_rgba(data) {
            Ok((width, height, rgba)) => {
                let frame = Frame::from_rgba(rgba.as_slice(), width, height);
                Ok(Animation::from_frame(frame))
            },
            Err(e) => Err(DecodeError::Image(e)),
        }
    }

    /// The frame at `index`, or `None` past the last frame.
    pub fn get_frame(&self, index: usize) -> (r: Option<&Frame>)
        ensures
            index < self@.len() ==> r == Some(&self@[index as int]),
            index >= self@.len() ==> r.is_none(),
    {
        if index < self.frames.len() {
            Some(&self.frames[index])
        } else {
            None
        }
    }

    pub fn frame_count(&self) -> (r: usize)
        ensures
            r == self@.len(),
    {
        self.frames.len()
    }

    pub fn width(&self) -> (r: u32)
        ensures
            r == self.spec_width(),
    {
        self.width
    }

    pub fn height(&self) -> (r: u32)
        ensures
            r == self.spec_height(),
    {
        self.height
    }
}

} // verus!
