//! The decisions of the boundary call: whether the host's path is text at
//! all, and what a finished load publishes.

use vstd::prelude::*;
use vstd::string::StringSliceAdditionalSpecFns;
use vstd::utf8::{decode_utf8, valid_utf8};
use crate::descriptor::{MeshSlice, MeshSliceView};
use crate::flatten::FlatMesh;

verus! {

/// Why a load came to nothing.
///
/// The host never learns which of these it was: every one of them reaches it
/// as the same plain failure.
#[derive(Clone, Copy, Debug, PartialEq, Eq)]
pub enum LoadError {
    /// The file is missing or cannot be read.
    Io,
    /// The bytes are malformed before any entity is parsed.
    Format,
    /// The bytes do not encode entities that the parser accepts.
    Parse,
    /// The entities cannot be triangulated.
    Geometry,
    /// The path is not valid text.
    Encoding,
    /// Something inside the load ended abnormally and was intercepted.
    InternalFault,
}

/// The error type of `core::str::from_utf8`. Nothing is read from it.
#[verifier::external_type_specification]
#[verifier::external_body]
pub struct ExUtf8Error(core::str::Utf8Error);

/// `core::str::from_utf8` succeeds exactly on well-formed UTF-8, and the
/// string slice it then returns is made of the bytes it was given.
pub assume_specification[ core::str::from_utf8 ](v: &[u8]) -> (text: Result<
    &str,
    core::str::Utf8Error,
>)
    ensures
        text is Ok <==> valid_utf8(v@),
        text matches Ok(s) ==> s.spec_bytes() == v@,
;

/// Reads the host's path, given as the bytes before the terminator, as text.
///
/// Well-formed UTF-8 gives the text that the bytes encode; anything else is
/// an `Encoding` error. No file is touched either way.
pub fn decode_path(path: &[u8]) -> (text: Result<&str, LoadError>)
    ensures
        valid_utf8(path@) ==> (text matches Ok(s) && s@ == decode_utf8(path@) && s.spec_bytes()
            == path@),
        !valid_utf8(path@) ==> text == Err::<&str, LoadError>(LoadError::Encoding),
{
    match core::str::from_utf8(path) {
        Ok(s) => {
            proof {
                vstd::utf8::encode_utf8_decode_utf8(s@);
            }
            Ok(s)
        },
        Err(_) => Err(LoadError::Encoding),
    }
}

/// Ends a load: publishes the descriptor of its buffers through `out_mesh`
/// and reports success, or reports failure and leaves `out_mesh` as it was.
///
/// Every kind of error ends the same way. A descriptor is published whole or
/// not at all, and a published one takes the buffers over as they are.
pub fn publish<T>(outcome: Result<FlatMesh<T>, LoadError>, out_mesh: &mut Option<MeshSlice<T>>) -> (success: bool)
    ensures
        success <==> outcome is Ok,
        outcome matches Ok(flat) ==> (*final(out_mesh) matches Some(slice) && slice@
            == MeshSliceView::of(flat@) && slice@.wf()),
        outcome is Err ==> *final(out_mesh) == *old(out_mesh),
{
    match outcome {
        Ok(flat) => {
            *out_mesh = Some(MeshSlice::new(flat));
            true
        },
        Err(_) => false,
    }
}

} // verus!
