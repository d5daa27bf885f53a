//! The public face of displays and setup operations on the bus.

pub mod interfaces;
pub mod public_state;
pub mod signals;

use crate::display::{segment_text, CastDisplayId};
use crate::text::{concat, hex_digit};
use vstd::prelude::*;
use vstd::string::*;

verus! {

pub const MANAGER_PATH: &'static str = "/io/github/pronkproject/Pronk1";

pub const CAST_DISPLAY_PATH_PREFIX: &'static str = "/io/github/pronkproject/Pronk1/displays";

pub const OPERATION_PATH_PREFIX: &'static str = "/io/github/pronkproject/Pronk1/operations";

/// A character of a path segment.
pub open spec fn is_segment_character(character: char) -> bool {
    ||| '0' <= character <= '9'
    ||| 'A' <= character <= 'Z'
    ||| 'a' <= character <= 'z'
    ||| character == '_'
}

/// The text is an object path: a single slash, or segments that each start
/// with a slash and are not empty.
pub open spec fn valid_object_path(path: Seq<char>) -> bool {
    &&& path.len() > 0
    &&& path[0] == '/'
    &&& path.len() > 1 ==> path.last() != '/'
    &&& forall|i: int|
        0 <= i < path.len() ==> ((#[trigger] path[i]) == '/' || is_segment_character(path[i]))
    &&& forall|i: int| 0 < i < path.len() ==> !(path[i - 1] == '/' && #[trigger] path[i] == '/')
}

/// Whether `zvariant::OwnedObjectPath::try_from` takes a text. It takes exactly
/// the object paths, and keeps the text of one as it is. Nothing is said of the
/// text of its error.
#[verifier::external_body]
fn object_path(path: String) -> (result: Result<String, String>)
    ensures
        result is Ok <==> valid_object_path(path@),
        result matches Ok(text) ==> text@ == path@,
{
    match zvariant::OwnedObjectPath::try_from(path) {
        Ok(path) => Ok(path.as_str().to_owned()),
        Err(error) => Err(error.to_string()),
    }
}

proof fn segments_are_valid(prefix: Seq<char>, bytes: Seq<u8>)
    requires
        valid_object_path(prefix),
        prefix.len() > 1,
        bytes.len() == 16,
    ensures
        valid_object_path(prefix + "/"@ + segment_text(bytes)),
{
    reveal_strlit("/");
    let segment = segment_text(bytes);
    let path = prefix + "/"@ + segment;
    assert forall|i: int| 0 <= i < segment.len() implies is_segment_character(
        #[trigger] segment[i],
    ) by {
        assert(segment[i] == hex_digit(crate::display::nibble_at(bytes, i)));
    }
    assert forall|i: int| 0 <= i < path.len() implies ((#[trigger] path[i]) == '/'
        || is_segment_character(path[i])) by {
        if i < prefix.len() {
            assert(path[i] == prefix[i]);
        } else if i > prefix.len() {
            assert(path[i] == segment[i - prefix.len() - 1]);
        }
    }
    assert forall|i: int| 0 < i < path.len() implies !(path[i - 1] == '/' && #[trigger] path[i]
        == '/') by {
        if i < prefix.len() {
            assert(path[i] == prefix[i] && path[i - 1] == prefix[i - 1]);
        } else if i == prefix.len() {
            assert(path[i - 1] == prefix.last());
        } else {
            assert(path[i] == segment[i - prefix.len() - 1]);
            assert(is_segment_character(segment[i - prefix.len() - 1]));
        }
    }
    assert(path.last() == segment.last());
    assert(is_segment_character(segment[31]));
}

/// The path of a display's setup operation.
pub open spec fn operation_path_text(display_id: Seq<u8>) -> Seq<char> {
    OPERATION_PATH_PREFIX@ + "/"@ + segment_text(display_id)
}

/// The path of a display.
pub open spec fn display_path_text(display_id: Seq<u8>) -> Seq<char> {
    CAST_DISPLAY_PATH_PREFIX@ + "/"@ + segment_text(display_id)
}

/// The object of a display's setup operation.
pub fn operation_path(display_id: CastDisplayId) -> (result: Result<String, String>)
    ensures
        result is Ok,
        result->Ok_0@ == operation_path_text(display_id@),
{
    let segment = display_id.object_segment();
    let mut path = concat(OPERATION_PATH_PREFIX, "/");
    path.append(segment.as_str());
    proof {
        reveal_strlit("/io/github/pronkproject/Pronk1/operations");
        assert(valid_object_path(OPERATION_PATH_PREFIX@));
        segments_are_valid(OPERATION_PATH_PREFIX@, display_id@);
    }
    object_path(path)
}

/// The object of a display.
pub fn display_path(display_id: CastDisplayId) -> (result: Result<String, String>)
    ensures
        result is Ok,
        result->Ok_0@ == display_path_text(display_id@),
{
    let segment = display_id.object_segment();
    let mut path = concat(CAST_DISPLAY_PATH_PREFIX, "/");
    path.append(segment.as_str());
    proof {
        reveal_strlit("/io/github/pronkproject/Pronk1/displays");
        assert(valid_object_path(CAST_DISPLAY_PATH_PREFIX@));
        segments_are_valid(CAST_DISPLAY_PATH_PREFIX@, display_id@);
    }
    object_path(path)
}

/// The sender of a method call: a call without one is not served.
pub fn method_sender(sender: Option<String>) -> (result: Result<String, &'static str>)
    ensures
        match sender {
            Some(name) => result == Ok::<String, &'static str>(name),
            None => result is Err && result->Err_0@ == "D-Bus caller has no sender"@,
        },
{
    match sender {
        Some(name) => Ok(name),
        None => Err("D-Bus caller has no sender"),
    }
}

/// Every object has a path of its own, below that of the manager: displays among
/// displays, operations among operations. The path ends in the 32 digits of the
/// display.
pub proof fn objects_have_paths_of_their_own(left: Seq<u8>, right: Seq<u8>)
    requires
        left.len() == 16,
        right.len() == 16,
    ensures
        valid_object_path(operation_path_text(left)),
        valid_object_path(display_path_text(left)),
        operation_path_text(left) == operation_path_text(right) <==> left == right,
        display_path_text(left) == display_path_text(right) <==> left == right,
        operation_path_text(left) != display_path_text(right),
        "/io/github/pronkproject/Pronk1/operations/"@.is_prefix_of(operation_path_text(left)),
        "/io/github/pronkproject/Pronk1/displays/"@.is_prefix_of(display_path_text(left)),
        operation_path_text(left).skip(42) == segment_text(left),
        display_path_text(left).skip(40) == segment_text(left),
{
    reveal_strlit("/");
    reveal_strlit("/io/github/pronkproject/Pronk1/operations");
    reveal_strlit("/io/github/pronkproject/Pronk1/displays");
    reveal_strlit("/io/github/pronkproject/Pronk1/operations/");
    reveal_strlit("/io/github/pronkproject/Pronk1/displays/");
    assert(valid_object_path(OPERATION_PATH_PREFIX@));
    assert(valid_object_path(CAST_DISPLAY_PATH_PREFIX@));
    segments_are_valid(OPERATION_PATH_PREFIX@, left);
    segments_are_valid(CAST_DISPLAY_PATH_PREFIX@, left);
    crate::display::identities_have_texts_of_their_own(left, right);
    assert("/io/github/pronkproject/Pronk1/operations/"@ =~= OPERATION_PATH_PREFIX@ + "/"@);
    assert("/io/github/pronkproject/Pronk1/displays/"@ =~= CAST_DISPLAY_PATH_PREFIX@ + "/"@);
    assert(operation_path_text(left).skip(42) =~= segment_text(left));
    assert(operation_path_text(right).skip(42) =~= segment_text(right));
    assert(display_path_text(left).skip(40) =~= segment_text(left));
    assert(display_path_text(right).skip(40) =~= segment_text(right));
    assert(operation_path_text(left).len() == 74);
    assert(display_path_text(right).len() == 72);
}

} // verus!
