//! A still picture of a video's first frame, handed out as a data URL.

use vstd::prelude::*;
use crate::failure::{Failure, FailureKind};
use crate::text::{empty_list, push_text};

verus! {

/// The text that `base64`'s standard engine, with the standard alphabet and
/// padding, makes of `bytes`.
pub uninterp spec fn base64_standard(bytes: Seq<u8>) -> Seq<char>;

/// True when the base64 text of `length` bytes fits what a machine can
/// address.
pub open spec fn encodable_length(length: nat) -> bool {
    (length / 3) * 4 + 4 <= usize::MAX
}

/// Calls `Engine::encode` of `base64` on the engine
/// `general_purpose::STANDARD`, which writes `bytes` in base64 with the
/// standard alphabet and `=` padding. It panics where the length of the
/// text does not fit a `usize`, which `requires` rules out. The result
/// depends on `bytes` alone; the contract gives it the name
/// `base64_standard` and claims no more.
#[verifier::external_body]
fn encode_base64(bytes: &[u8]) -> (text: String)
    requires
        encodable_length(bytes@.len()),
    ensures
        text@ == base64_standard(bytes@),
{
    base64::Engine::encode(&base64::engine::general_purpose::STANDARD, bytes)
}

/// The arguments with which the transcoding tool writes the first frame of
/// the video at `path` as a picture to `picture_path`.
pub open spec fn preview_arguments(path: Seq<char>, picture_path: Seq<char>) -> Seq<Seq<char>> {
    seq!["-y"@, "-i"@, path, "-ss"@, "0"@, "-vframes"@, "1"@, "-q:v"@, "2"@, picture_path]
}

/// Builds the arguments that write the first frame of a video as a picture.
pub fn build_preview_args(path: &str, picture_path: &str) -> (args: Vec<String>)
    ensures
        args.deep_view() == preview_arguments(path@, picture_path@),
{
    let mut args = empty_list();
    push_text(&mut args, "-y");
    push_text(&mut args, "-i");
    push_text(&mut args, path);
    push_text(&mut args, "-ss");
    push_text(&mut args, "0");
    push_text(&mut args, "-vframes");
    push_text(&mut args, "1");
    push_text(&mut args, "-q:v");
    push_text(&mut args, "2");
    push_text(&mut args, picture_path);
    args
}

/// The data URL of a JPEG picture.
pub open spec fn data_url(picture: Seq<u8>) -> Seq<char> {
    "data:image/jpeg;base64,"@ + base64_standard(picture)
}

/// Writes a JPEG picture as a data URL.
pub fn preview_data_url(picture: &[u8]) -> (url: String)
    requires
        encodable_length(picture@.len()),
    ensures
        url@ == data_url(picture@),
{
    "data:image/jpeg;base64,".to_owned().concat(encode_base64(picture).as_str())
}

/// Writes a JPEG picture as a data URL, where its base64 text fits what a
/// machine can address, and nothing where it does not.
pub fn try_preview_data_url(picture: &[u8]) -> (url: Option<String>)
    ensures
        match url {
            Some(text) => encodable_length(picture@.len()) && text@ == data_url(picture@),
            None => !encodable_length(picture@.len()),
        },
{
    if picture.len() / 3 <= (usize::MAX - 4) / 4 {
        Some(preview_data_url(picture))
    } else {
        None
    }
}

/// The failure of a run that was to write a preview; `diagnostics` is what
/// the tool wrote to its error stream.
pub open spec fn preview_failure(diagnostics: Seq<char>) -> FailureKind {
    FailureKind::Io("Failed to generate preview: "@ + diagnostics)
}

/// Decides whether the run that was to write a preview did so.
pub fn check_preview_run(succeeded: bool, diagnostics: &str) -> (checked: Result<(), Failure>)
    ensures
        match checked {
            Ok(_) => succeeded,
            Err(failure) => !succeeded && failure@ == preview_failure(diagnostics@),
        },
{
    if succeeded {
        Ok(())
    } else {
        Err(Failure::Io("Failed to generate preview: ".to_owned().concat(diagnostics)))
    }
}

} // verus!
