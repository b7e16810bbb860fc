//! The compute half of the media sink.
//!
//! A received media payload is decoded (auto-detecting the format) and is to
//! be written to the platform temp directory under `image_<n>.png`, where
//! `n` is drawn uniformly from `0..=100`, then shown with the platform's
//! default viewer.  Decoding and the choice of file name and viewer
//! invocation stand here; writing the file and spawning the viewer are the
//! caller's I/O.

use vstd::prelude::*;

use crate::decimal::decimal;
use crate::decimal::u8_decimal;

verus! {

/// image::DynamicImage, declared so a decoded image can be carried through
/// to the caller that saves it; the value itself is opaque here.
#[verifier::external_type_specification]
#[verifier::external_body]
pub struct ExDynamicImage(image::DynamicImage);

/// image::ImageError, declared so the decode wrapper can return it; it is
/// mapped to this module's own error right away.
#[verifier::external_type_specification]
#[verifier::external_body]
pub struct ExImageError(image::ImageError);

/// Failure of the media sink's compute half: the payload would not decode.
#[derive(PartialEq, Eq, Structural, Clone, Copy, Debug)]
pub enum MediaError {
    Decode,
}

/// The characters of the temp-file name `image_<n>.png`.
pub open spec fn media_file_name_chars(n: int) -> Seq<char> {
    seq!['i', 'm', 'a', 'g', 'e', '_'] + decimal(n) + seq!['.', 'p', 'n', 'g']
}

/// The plan for showing one received media payload: the decoded image and
/// the temp-file name to save it under.
pub struct MediaPlan {
    pub image: image::DynamicImage,
    pub file_name: String,
}

/// Relies on image::ImageReader::decode, with the format guessed from the
/// bytes.  Whether a payload decodes is not a function of the bytes alone:
/// the crate consults process-global, runtime-registrable format and
/// decoder hooks, so nothing correlates success with the payload here; a
/// payload that does not decode is reported as an error, never a panic.
#[verifier::external_body]
fn decode_image(bytes: &Vec<u8>) -> Result<image::DynamicImage, image::ImageError> {
    let reader = image::ImageReader::new(std::io::Cursor::new(bytes.as_slice()));
    match reader.with_guessed_format() {
        Ok(guessed) => guessed.decode(),
        Err(e) => Err(image::ImageError::IoError(e)),
    }
}

/// Relies on rand::random_range: a file-name suffix drawn uniformly from
/// `0..=100` by the thread-local generator.
#[verifier::external_body]
fn random_suffix() -> (n: u8)
    ensures
        n <= 100,
{
    rand::random_range(0..=100u8)
}

/// The temp-file name `image_<n>.png` for suffix `n`.
pub fn media_file_name(n: u8) -> (s: String)
    ensures
        s@ == media_file_name_chars(n as int),
{
    let mut s = String::from_str("image_");
    s.append(u8_decimal(n).as_str());
    s.append(".png");
    proof {
        reveal_strlit("image_");
        reveal_strlit(".png");
        assert(s@ =~= media_file_name_chars(n as int));
    }
    s
}

/// Pairs a decoded image with the temp-file name for the given suffix.
pub fn media_plan(image: image::DynamicImage, suffix: u8) -> (plan: MediaPlan)
    requires
        suffix <= 100,
    ensures
        plan.file_name@ == media_file_name_chars(suffix as int),
        plan.image == image,
{
    let file_name = media_file_name(suffix);
    MediaPlan { image, file_name }
}

/// Decodes a media payload and picks the temp-file name under a fresh
/// random suffix.  Whatever the decoder decides, every outcome is pinned: a
/// payload that does not decode is a `Decode` error, and on success the
/// file name is `image_<n>.png` for some `n` in `0..=100`.
pub fn prepare_media(bytes: &Vec<u8>) -> (r: Result<MediaPlan, MediaError>)
    ensures
        match r {
            Ok(plan) => exists|n: int|
                0 <= n <= 100 && plan.file_name@ == media_file_name_chars(n),
            Err(e) => e == MediaError::Decode,
        },
{
    match decode_image(bytes) {
        Ok(image) => {
            let suffix = random_suffix();
            let plan = media_plan(image, suffix);
            proof {
                assert(plan.file_name@ == media_file_name_chars(suffix as int));
            }
            Ok(plan)
        },
        Err(_) => Err(MediaError::Decode),
    }
}

/// The host platforms a viewer can be spawned on.
#[derive(PartialEq, Eq, Structural, Clone, Copy, Debug)]
pub enum HostPlatform {
    Windows,
    MacOs,
    Linux,
}

/// The detached viewer invocation for a saved image: the program to spawn
/// and its arguments, per platform.
pub fn viewer_invocation(platform: HostPlatform, path: String) -> (cmd: (String, Vec<String>))
    ensures
        match platform {
            HostPlatform::Windows => cmd.0@ == "cmd"@ && cmd.1.deep_view() == seq!["/C"@, path@],
            HostPlatform::MacOs => cmd.0@ == "open"@ && cmd.1.deep_view() == seq![path@],
            HostPlatform::Linux => cmd.0@ == "xdg-open"@ && cmd.1.deep_view() == seq![path@],
        },
{
    match platform {
        HostPlatform::Windows => {
            let mut args: Vec<String> = Vec::new();
            args.push(String::from_str("/C"));
            args.push(path);
            proof {
                assert(args.deep_view() =~= seq!["/C"@, args@[1]@]);
            }
            (String::from_str("cmd"), args)
        },
        HostPlatform::MacOs => {
            let mut args: Vec<String> = Vec::new();
            args.push(path);
            proof {
                assert(args.deep_view() =~= seq![args@[0]@]);
            }
            (String::from_str("open"), args)
        },
        HostPlatform::Linux => {
            let mut args: Vec<String> = Vec::new();
            args.push(path);
            proof {
                assert(args.deep_view() =~= seq![args@[0]@]);
            }
            (String::from_str("xdg-open"), args)
        },
    }
}

} // verus!
