//! The boundary to the H.264 encoder.
//!
//! The encoder is an outside library that answers with integer codes. This
//! module says which settings each stream is encoded with and what the
//! encoder's answers mean. The caller applies the settings and makes the
//! calls.

use vstd::prelude::*;
use crate::{Crf, NalData};

verus! {

/// What can go wrong in the encoder.
#[derive(Debug)]
pub enum X264Error {
    GenericError(String),
}

/// How the encoder spends its bits.
#[derive(Copy, Clone, Debug, PartialEq, Eq, Structural)]
pub enum RateControl {
    /// A constant quantiser.
    Qp(i32),
    /// A constant rate factor.
    Crf(Crf),
}

/// The speed presets that the streams use.
#[derive(Copy, Clone, Debug, PartialEq, Eq, Structural)]
pub enum Preset {
    Superfast,
    Veryfast,
    Faster,
}

/// The settings of an encoder.
#[derive(Copy, Clone, Debug, PartialEq, Eq, Structural)]
pub struct EncoderSetup {
    pub preset: Preset,
    /// Whether the encoder is tuned for zero latency.
    pub zerolatency: bool,
    /// Whether the settings of the encoder's command-line tool for 4K video
    /// are applied on top of the preset.
    pub cli_defaults: bool,
    pub width: u32,
    pub height: u32,
    /// Smallest and largest distance between key frames, where it is set.
    pub keyint: Option<i32>,
    /// Whether scene-cut detection is switched off.
    pub no_scenecut: bool,
    pub rate: RateControl,
}

impl Preset {
    /// The name of the preset as the encoder knows it.
    pub open spec fn spec_name(self) -> Seq<char> {
        match self {
            Preset::Superfast => "superfast"@,
            Preset::Veryfast => "veryfast"@,
            Preset::Faster => "faster"@,
        }
    }

    /// The name of the preset as the encoder knows it.
    pub fn name(self) -> (n: &'static str)
        ensures
            n@ == self.spec_name(),
    {
        match self {
            Preset::Superfast => "superfast",
            Preset::Veryfast => "veryfast",
            Preset::Faster => "faster",
        }
    }
}

/// Settings of the background stream with a constant quantiser: a single
/// key frame at the start and no scene cuts.
pub fn setup_x264_params_bg(width: u32, height: u32, qp: i32) -> (s: EncoderSetup)
    ensures
        s == (EncoderSetup {
            preset: Preset::Faster,
            zerolatency: true,
            cli_defaults: false,
            width,
            height,
            keyint: Some(i32::MAX),
            no_scenecut: true,
            rate: RateControl::Qp(qp),
        }),
{
    EncoderSetup {
        preset: Preset::Faster,
        zerolatency: true,
        cli_defaults: false,
        width,
        height,
        keyint: Some(i32::MAX),
        no_scenecut: true,
        rate: RateControl::Qp(qp),
    }
}

/// Settings of a full-quality stream with a constant quantiser: a single
/// key frame at the start and no scene cuts.
pub fn setup_x264_params(width: u32, height: u32, qp: i32) -> (s: EncoderSetup)
    ensures
        s == (EncoderSetup {
            preset: Preset::Superfast,
            zerolatency: true,
            cli_defaults: true,
            width,
            height,
            keyint: Some(i32::MAX),
            no_scenecut: true,
            rate: RateControl::Qp(qp),
        }),
{
    EncoderSetup {
        preset: Preset::Superfast,
        zerolatency: true,
        cli_defaults: true,
        width,
        height,
        keyint: Some(i32::MAX),
        no_scenecut: true,
        rate: RateControl::Qp(qp),
    }
}

/// Settings of the background stream with a constant rate factor.
pub fn setup_x264_params_bg_crf(width: u32, height: u32, crf: Crf) -> (s: EncoderSetup)
    ensures
        s == (EncoderSetup {
            preset: Preset::Faster,
            zerolatency: true,
            cli_defaults: false,
            width,
            height,
            keyint: None,
            no_scenecut: false,
            rate: RateControl::Crf(crf),
        }),
{
    EncoderSetup {
        preset: Preset::Faster,
        zerolatency: true,
        cli_defaults: false,
        width,
        height,
        keyint: None,
        no_scenecut: false,
        rate: RateControl::Crf(crf),
    }
}

/// Settings of a full-quality stream with a constant rate factor.
pub fn setup_x264_params_crf(width: u32, height: u32, crf: Crf) -> (s: EncoderSetup)
    ensures
        s == (EncoderSetup {
            preset: Preset::Veryfast,
            zerolatency: true,
            cli_defaults: true,
            width,
            height,
            keyint: None,
            no_scenecut: false,
            rate: RateControl::Crf(crf),
        }),
{
    EncoderSetup {
        preset: Preset::Veryfast,
        zerolatency: true,
        cli_defaults: true,
        width,
        height,
        keyint: None,
        no_scenecut: false,
        rate: RateControl::Crf(crf),
    }
}

/// Reads the answer of a call that changes the encoder's parameters.
pub fn param_reply(code: i32) -> (r: Result<(), &'static str>)
    ensures
        code == 0 ==> r is Ok,
        code == -1 ==> (r matches Err(m) && m@ == "Invalid Argument"@),
        code != 0 && code != -1 ==> (r matches Err(m) && m@ == "Unexpected"@),
{
    if code == 0 {
        Ok(())
    } else if code == -1 {
        Err("Invalid Argument")
    } else {
        Err("Unexpected")
    }
}

/// What an encode call has given.
#[derive(Copy, Clone, Debug, PartialEq, Eq, Structural)]
pub enum Encoded {
    /// The encoder wrote this many units.
    Units(usize),
    /// The encoder took the picture and holds its output back.
    Delayed,
}

/// Reads the answer of an encode call: the code that it returned and the
/// number of units that it wrote.
pub fn encode_reply(ret: i32, nb_nal: i32) -> (r: Result<Encoded, &'static str>)
    ensures
        ret < 0 ==> (r matches Err(m) && m@ == "Error encoding"@),
        ret >= 0 && nb_nal > 0 ==> r == Ok::<Encoded, &'static str>(
            Encoded::Units(nb_nal as usize),
        ),
        ret >= 0 && nb_nal <= 0 ==> r == Ok::<Encoded, &'static str>(Encoded::Delayed),
{
    if ret < 0 {
        Err("Error encoding")
    } else if nb_nal > 0 {
        Ok(Encoded::Units(nb_nal as usize))
    } else {
        Ok(Encoded::Delayed)
    }
}

/// The payloads of some units, one after the other.
pub open spec fn joined(payloads: Seq<Seq<u8>>) -> Seq<u8>
    decreases payloads.len(),
{
    if payloads.len() == 0 {
        Seq::empty()
    } else {
        joined(payloads.drop_last()) + payloads.last()
    }
}

impl NalData {
    /// Copies the payloads of the units that an encode call wrote into one
    /// buffer.
    pub fn from_nals(payloads: &Vec<Vec<u8>>) -> (data: NalData)
        ensures
            data.vec@ == joined(payloads@.map_values(|p: Vec<u8>| p@)),
    {
        let ghost all = payloads@.map_values(|p: Vec<u8>| p@);
        let mut vec: Vec<u8> = Vec::new();
        let mut i: usize = 0;
        proof {
            assert(all.take(0) =~= Seq::<Seq<u8>>::empty());
        }
        while i < payloads.len()
            invariant
                i <= payloads.len(),
                all == payloads@.map_values(|p: Vec<u8>| p@),
                vec@ == joined(all.take(i as int)),
            decreases payloads.len() - i,
        {
            proof {
                assert(all.take(i + 1).drop_last() =~= all.take(i as int));
                assert(all.take(i + 1).last() == payloads[i as int]@);
            }
            vec.extend_from_slice(payloads[i].as_slice());
            i += 1;
        }
        proof {
            assert(all.take(payloads.len() as int) =~= all);
        }
        NalData { vec }
    }
}

/// Reads the answer of the call that opens an encoder: whether it gave a
/// handle.
pub fn open_reply(opened: bool) -> (r: Result<(), &'static str>)
    ensures
        opened ==> r is Ok,
        !opened ==> (r matches Err(m) && m@ == "Out of Memory"@),
{
    if opened {
        Ok(())
    } else {
        Err("Out of Memory")
    }
}

/// Reads the answer of the call that writes the stream's headers.
pub fn headers_reply(bytes: i32) -> (r: Result<(), &'static str>)
    ensures
        bytes >= 0 ==> r is Ok,
        bytes < 0 ==> (r matches Err(m) && m@ == "Encoding Headers Failed"@),
{
    if bytes < 0 {
        Err("Encoding Headers Failed")
    } else {
        Ok(())
    }
}

/// The layouts of a picture's samples that the encoder takes.
#[derive(Copy, Clone, Debug, PartialEq, Eq, Structural)]
pub enum Colorspace {
    I420,
    YV12,
    NV12,
    NV21,
    I422,
    YV16,
    NV16,
    I444,
    YV24,
    BGR,
    BGRA,
    RGB,
}

/// How wide and how high the planes of a layout are, in 256ths of the
/// picture's width and height. A plane that the layout does not have is 0
/// wide and high.
#[derive(Copy, Clone, Debug, PartialEq, Eq)]
pub struct ColorspaceScale {
    pub w: [usize; 3],
    pub h: [usize; 3],
}

/// The width of plane `i` of a layout in 256ths of the picture's width.
pub open spec fn width_scale(csp: Colorspace, i: int) -> int {
    match csp {
        Colorspace::I420 | Colorspace::YV12 | Colorspace::I422 | Colorspace::YV16 => if i == 0 {
            256
        } else {
            128
        },
        Colorspace::NV12 | Colorspace::NV21 | Colorspace::NV16 => if i == 2 {
            0
        } else {
            256
        },
        Colorspace::I444 | Colorspace::YV24 => 256,
        Colorspace::BGR | Colorspace::RGB => if i == 0 {
            768
        } else {
            0
        },
        Colorspace::BGRA => if i == 0 {
            1024
        } else {
            0
        },
    }
}

/// The height of plane `i` of a layout in 256ths of the picture's height.
pub open spec fn height_scale(csp: Colorspace, i: int) -> int {
    match csp {
        Colorspace::I420 | Colorspace::YV12 => if i == 0 {
            256
        } else {
            128
        },
        Colorspace::NV12 | Colorspace::NV21 => if i == 0 {
            256
        } else if i == 1 {
            128
        } else {
            0
        },
        Colorspace::I422 | Colorspace::YV16 | Colorspace::I444 | Colorspace::YV24 => 256,
        Colorspace::NV16 => if i == 2 {
            0
        } else {
            256
        },
        Colorspace::BGR | Colorspace::BGRA | Colorspace::RGB => if i == 0 {
            256
        } else {
            0
        },
    }
}

/// The number of bytes that plane `i` of a picture is read with: the
/// plane's share of the width, times the bytes of a sample, times the
/// plane's share of the height, each division rounding down in turn.
pub open spec fn plane_samples(csp: Colorspace, i: int, width: u32, height: u32, bytes: u32) -> int {
    width * width_scale(csp, i) / 256 * bytes * height * height_scale(csp, i) / 256
}

/// The sizes of the planes of a layout.
pub fn scale_from_csp(csp: Colorspace) -> (scale: ColorspaceScale)
    ensures
        forall|i: int| 0 <= i < 3 ==> scale.w[i] == width_scale(csp, i),
        forall|i: int| 0 <= i < 3 ==> scale.h[i] == height_scale(csp, i),
{
    match csp {
        Colorspace::I420 | Colorspace::YV12 => ColorspaceScale {
            w: [256, 128, 128],
            h: [256, 128, 128],
        },
        Colorspace::NV12 | Colorspace::NV21 => ColorspaceScale { w: [256, 256, 0], h: [256, 128, 0] },
        Colorspace::I422 | Colorspace::YV16 => ColorspaceScale {
            w: [256, 128, 128],
            h: [256, 256, 256],
        },
        Colorspace::NV16 => ColorspaceScale { w: [256, 256, 0], h: [256, 256, 0] },
        Colorspace::I444 | Colorspace::YV24 => ColorspaceScale {
            w: [256, 256, 256],
            h: [256, 256, 256],
        },
        Colorspace::BGR | Colorspace::RGB => ColorspaceScale { w: [768, 0, 0], h: [256, 0, 0] },
        Colorspace::BGRA => ColorspaceScale { w: [1024, 0, 0], h: [256, 0, 0] },
    }
}

/// The bytes of a sample: two for pictures of high bit depth, one
/// otherwise.
pub open spec fn sample_bytes(high_depth: bool) -> u32 {
    if high_depth {
        2
    } else {
        1
    }
}

/// The number of bytes that a plane of a picture is read with. There is
/// none for a plane above the third or where the number is no `usize`.
pub fn plane_size(csp: Colorspace, plane: usize, width: u32, height: u32, high_depth: bool) -> (r:
    Option<usize>)
    ensures
        r == if plane < 3 && plane_samples(
            csp,
            plane as int,
            width,
            height,
            sample_bytes(high_depth),
        ) <= usize::MAX {
            Some(
                plane_samples(csp, plane as int, width, height, sample_bytes(high_depth)) as usize,
            )
        } else {
            None
        },
{
    if plane >= 3 {
        return None;
    }
    let bytes: u32 = if high_depth {
        2
    } else {
        1
    };
    let scale = scale_from_csp(csp);
    let w = scale.w[plane] as u128;
    let h = scale.h[plane] as u128;
    assert(w == width_scale(csp, plane as int));
    assert(h == height_scale(csp, plane as int));
    assert(w <= 1024 && h <= 256);
    assert(0 <= width * w <= 0xffff_ffff * 1024) by (nonlinear_arith)
        requires
            0 <= width <= 0xffff_ffff,
            0 <= w <= 1024,
    ;
    let share: u128 = width as u128 * w / 256;
    assert(0 <= share * bytes <= 0xffff_ffff * 8) by (nonlinear_arith)
        requires
            0 <= share <= 0xffff_ffff * 4,
            0 <= bytes <= 2,
    ;
    let row: u128 = share * bytes as u128;
    assert(0 <= row * height <= 0xffff_ffff * 8 * 0xffff_ffff) by (nonlinear_arith)
        requires
            0 <= row <= 0xffff_ffff * 8,
            0 <= height <= 0xffff_ffff,
    ;
    let rows: u128 = row * height as u128;
    assert(0 <= rows * h <= 0xffff_ffff * 8 * 0xffff_ffff * 256) by (nonlinear_arith)
        requires
            0 <= rows <= 0xffff_ffff * 8 * 0xffff_ffff,
            0 <= h <= 256,
    ;
    let size: u128 = rows * h / 256;
    if size > usize::MAX as u128 {
        None
    } else {
        Some(size as usize)
    }
}

/// For a picture of even height in the usual 4:2:0 layout, the planes are
/// read with the sizes that they have: the luma plane with width times
/// height samples, a chroma plane with half the width times half the height.
pub proof fn lemma_plane_samples_420(width: u32, height: u32)
    requires
        height % 2 == 0,
    ensures
        plane_samples(Colorspace::I420, 0, width, height, 1) == width * height,
        plane_samples(Colorspace::I420, 1, width, height, 1) == (width / 2) * (height / 2),
        plane_samples(Colorspace::I420, 2, width, height, 1) == (width / 2) * (height / 2),
{
    let w = width as int;
    let h = height as int;
    assert(w * 256 / 256 == w);
    assert(w * 128 / 256 == w / 2);
    assert(w * 1 * h * 256 / 256 == w * h) by (nonlinear_arith);
    let c = w / 2;
    let k = h / 2;
    assert(h == 2 * k);
    assert(c * 1 * h * 128 == (c * k) * 256) by (nonlinear_arith)
        requires
            h == 2 * k,
    ;
    assert((c * k) * 256 / 256 == c * k);
}

} // verus!
