//! Identity and setup state of a cast display.

pub mod sequence;
pub mod session_factory;
pub mod setup;

use crate::display_media::CaptureSource;
use crate::display_state::{larger, next, DisplayGrantState, DisplayRuntimeState, RuntimeView};
use crate::nonzero::NonZeroU64;
use crate::output::CastKmsOutput;
use crate::preparation::PreparedCastDevice;
use crate::protocol::{DeviceInfo, DeviceView};
use crate::text::{clip, clipped, decimal, digit, hex_digit, push_decimal};
use vstd::prelude::*;
use vstd::string::*;
use vstd::utf8::{encode_utf8, is_ascii_chars, is_ascii_chars_encode_utf8};

verus! {

/// The session generation of a display's first device session.
pub const INITIAL_SESSION_GENERATION: u64 = 1;

/// Longest diagnostic of a setup operation.
pub const MAX_OPERATION_ERROR_BYTES: usize = 512;

pub const VIDEO_FRAME_RATE_NUMERATOR: u32 = 30;

pub const VIDEO_FRAME_RATE_DENOMINATOR: u32 = 1;

/// Capture selection and media runtime of the account that runs media services.
#[derive(Debug, PartialEq, Eq)]
pub struct MediaRuntime {
    pub directory: String,
    pub server_uid: u32,
    pub capture_source: CaptureSource,
}

impl MediaRuntime {
    pub fn new(directory: String, server_uid: u32) -> (runtime: Self)
        ensures
            runtime == (MediaRuntime {
                directory,
                server_uid,
                capture_source: CaptureSource::Renderer,
            }),
    {
        MediaRuntime { directory, server_uid, capture_source: CaptureSource::default() }
    }

    pub fn for_user(uid: u32) -> (runtime: Self)
        ensures
            runtime.directory@ == "/run/user/"@ + decimal(uid as nat) + "/pronk/media"@,
            runtime.server_uid == uid,
            runtime.capture_source == CaptureSource::Renderer,
    {
        let mut directory = "/run/user/".to_owned();
        push_decimal(&mut directory, uid as u64);
        directory.append("/pronk/media");
        MediaRuntime::new(directory, uid)
    }

    pub fn with_capture_source(self, capture_source: CaptureSource) -> (runtime: Self)
        ensures
            runtime == (MediaRuntime { capture_source, ..self }),
    {
        MediaRuntime { directory: self.directory, server_uid: self.server_uid, capture_source }
    }

    pub fn capture_source(&self) -> (source: CaptureSource)
        ensures
            source == self.capture_source,
    {
        self.capture_source
    }
}

/// The random identity of one cast display.
#[derive(Debug, Clone, Copy, PartialEq, Eq, PartialOrd, Ord, Hash)]
pub struct CastDisplayId {
    pub bytes: [u8; 16],
}

impl View for CastDisplayId {
    type V = Seq<u8>;

    open spec fn view(&self) -> Seq<u8> {
        self.bytes@
    }
}

/// The text is not an identity that this service makes.
#[derive(Debug, Clone, Copy, PartialEq, Eq, Structural)]
pub struct CastDisplayIdParseError;

/// The bytes carry the marks of a random UUID: version 4, and the common
/// variant.
pub open spec fn random_uuid(bytes: Seq<u8>) -> bool {
    bytes.len() == 16 && bytes[6] / 16 == 4 && bytes[8] / 64 == 2
}

/// The number of hexadecimal digit `index` of the bytes.
pub open spec fn nibble_at(bytes: Seq<u8>, index: int) -> nat {
    if index % 2 == 0 {
        (bytes[index / 2] / 16) as nat
    } else {
        (bytes[index / 2] % 16) as nat
    }
}

/// The bytes as hexadecimal digits.
pub open spec fn segment_text(bytes: Seq<u8>) -> Seq<char> {
    Seq::new(32, |i: int| hex_digit(nibble_at(bytes, i)))
}

/// The places of the dashes in a UUID.
pub open spec fn is_dash(place: int) -> bool {
    place == 8 || place == 13 || place == 18 || place == 23
}

/// The digit that stands at a place of a UUID which is no dash.
pub open spec fn digit_of_place(place: int) -> int {
    if place < 8 {
        place
    } else if place < 13 {
        place - 1
    } else if place < 18 {
        place - 2
    } else if place < 23 {
        place - 3
    } else {
        place - 4
    }
}

/// The place of a digit in a UUID.
pub open spec fn place_of_digit(digit: int) -> int {
    if digit < 8 {
        digit
    } else if digit < 12 {
        digit + 1
    } else if digit < 16 {
        digit + 2
    } else if digit < 20 {
        digit + 3
    } else {
        digit + 4
    }
}

/// The bytes as a UUID.
pub open spec fn id_text(bytes: Seq<u8>) -> Seq<char> {
    Seq::new(
        36,
        |place: int|
            if is_dash(place) {
                '-'
            } else {
                hex_digit(nibble_at(bytes, digit_of_place(place)))
            },
    )
}

/// The number that a hexadecimal digit stands for.
pub open spec fn nibble_of(digit: u8) -> Option<u8> {
    if 0x30 <= digit <= 0x39 {
        Some((digit - 0x30) as u8)
    } else if 0x61 <= digit <= 0x66 {
        Some((digit - 0x61 + 10) as u8)
    } else if 0x41 <= digit <= 0x46 {
        Some((digit - 0x41 + 10) as u8)
    } else {
        None
    }
}

/// The byte that two digits of a UUID stand for.
pub open spec fn parsed_byte(text: Seq<u8>, index: int) -> u8 {
    (nibble_of(text[place_of_digit(2 * index)])->0 * 16 + nibble_of(
        text[place_of_digit(2 * index) + 1],
    )->0) as u8
}

/// The text has the shape of a UUID.
pub open spec fn uuid_shape(text: Seq<u8>) -> bool {
    &&& text.len() == 36
    &&& text[8] == 0x2d && text[13] == 0x2d && text[18] == 0x2d && text[23] == 0x2d
    &&& forall|i: int|
        0 <= i < 32 ==> (#[trigger] nibble_of(text[place_of_digit(i)])) is Some
}

/// The bytes that a text stands for, if it is a random UUID.
pub open spec fn parsed_id(text: Seq<u8>) -> Option<Seq<u8>> {
    let bytes = Seq::new(16, |i: int| parsed_byte(text, i));
    if uuid_shape(text) && random_uuid(bytes) {
        Some(bytes)
    } else {
        None
    }
}

/// Random bytes with the marks of a random UUID.
pub open spec fn marked(bytes: Seq<u8>) -> Seq<u8> {
    bytes.update(6, (bytes[6] % 16 + 64) as u8).update(8, (bytes[8] % 64 + 128) as u8)
}

impl CastDisplayId {
    /// The identity that random bytes make.
    pub fn from_random_bytes(random: [u8; 16]) -> (id: Self)
        ensures
            id@ == marked(random@),
            random_uuid(id@),
    {
        let mut bytes = random;
        bytes[6] = bytes[6] % 16 + 64;
        bytes[8] = bytes[8] % 64 + 128;
        CastDisplayId { bytes }
    }

    /// The identity as a segment of an object path.
    pub fn object_segment(self) -> (segment: String)
        ensures
            segment@ == segment_text(self@),
    {
        let mut segment = String::new();
        let mut index: usize = 0;
        while index < 32
            invariant
                index <= 32,
                segment@ == segment_text(self@).take(index as int),
            decreases 32 - index,
        {
            segment.push(hex_char_at(&self.bytes, index));
            index += 1;
            proof {
                assert(segment@ =~= segment_text(self@).take(index as int));
            }
        }
        proof {
            assert(segment_text(self@).take(32) =~= segment_text(self@));
        }
        segment
    }

    /// The identity as a UUID.
    pub fn to_text(self) -> (text: String)
        ensures
            text@ == id_text(self@),
    {
        let mut text = String::new();
        let mut place: usize = 0;
        let mut digit: usize = 0;
        while place < 36
            invariant
                place <= 36,
                place < 36 && !is_dash(place as int) ==> digit == digit_of_place(place as int),
                place < 36 && is_dash(place as int) ==> digit == digit_of_place(
                    place as int + 1,
                ),
                text@ == id_text(self@).take(place as int),
            decreases 36 - place,
        {
            if place == 8 || place == 13 || place == 18 || place == 23 {
                text.push('-');
            } else {
                text.push(hex_char_at(&self.bytes, digit));
                digit += 1;
            }
            place += 1;
            proof {
                assert(text@ =~= id_text(self@).take(place as int));
            }
        }
        proof {
            assert(id_text(self@).take(36) =~= id_text(self@));
        }
        text
    }

    /// The identity that a text stands for.
    pub fn parse(value: &str) -> (result: Result<Self, CastDisplayIdParseError>)
        ensures
            match parsed_id(value.spec_bytes()) {
                Some(bytes) => result is Ok && result->Ok_0@ == bytes,
                None => result is Err,
            },
    {
        let text = value.as_bytes();
        let ghost all = text@;
        if text.len() != 36 {
            return Err(CastDisplayIdParseError);
        }
        if text[8] != 0x2d || text[13] != 0x2d || text[18] != 0x2d || text[23] != 0x2d {
            return Err(CastDisplayIdParseError);
        }
        let mut bytes: [u8; 16] = [0u8;16];
        let mut input: usize = 0;
        let mut output: usize = 0;
        while output < 16
            invariant
                output <= 16,
                text@ == all,
                all == value.spec_bytes(),
                all.len() == 36,
                all[8] == 0x2d && all[13] == 0x2d && all[18] == 0x2d && all[23] == 0x2d,
                output < 16 ==> (input == place_of_digit(2 * output) || input + 1
                    == place_of_digit(2 * output)),
                output < 16 && input + 1 == place_of_digit(2 * output) ==> is_dash(input as int),
                output < 16 && input == place_of_digit(2 * output) ==> !is_dash(input as int),
                bytes@.len() == 16,
                forall|i: int|
                    0 <= i < 2 * output ==> (#[trigger] nibble_of(
                        all[place_of_digit(i)],
                    )) is Some,
                forall|i: int|
                    0 <= i < output ==> (#[trigger] bytes@[i]) == parsed_byte(all, i),
            decreases 16 - output,
        {
            if input == 8 || input == 13 || input == 18 || input == 23 {
                input += 1;
            }
            proof {
                assert(input == place_of_digit(2 * output));
                assert(input + 1 == place_of_digit(2 * output + 1));
            }
            let high: u8 = match hex_nibble(text[input]) {
                Some(high) => high,
                None => {
                    proof {
                        assert(nibble_of(all[place_of_digit(2 * output)]) is None);
                    }
                    return Err(CastDisplayIdParseError);
                },
            };
            let low: u8 = match hex_nibble(text[input + 1]) {
                Some(low) => low,
                None => {
                    proof {
                        assert(nibble_of(all[place_of_digit(2 * output + 1)]) is None);
                    }
                    return Err(CastDisplayIdParseError);
                },
            };
            bytes[output] = high * 16 + low;
            input += 2;
            proof {
                assert forall|i: int| 0 <= i < 2 * (output + 1) implies (#[trigger] nibble_of(
                    all[place_of_digit(i)],
                )) is Some by {
                    if i == 2 * output || i == 2 * output + 1 {
                    }
                }
            }
            output += 1;
        }
        proof {
            assert(bytes@ =~= Seq::new(16, |i: int| parsed_byte(all, i)));
        }
        // Public identities are always the random ones made here.
        if bytes[6] / 16 != 4 || bytes[8] / 64 != 2 {
            return Err(CastDisplayIdParseError);
        }
        Ok(CastDisplayId { bytes })
    }

    /// Whether two identities are the same.
    pub fn same(&self, other: &CastDisplayId) -> (same: bool)
        ensures
            same == (self@ == other@),
    {
        let mut index: usize = 0;
        while index < 16
            invariant
                index <= 16,
                forall|i: int| 0 <= i < index ==> self@[i] == other@[i],
            decreases 16 - index,
        {
            if self.bytes[index] != other.bytes[index] {
                return false;
            }
            index += 1;
        }
        proof {
            assert(self@ =~= other@);
        }
        true
    }
}

impl std::str::FromStr for CastDisplayId {
    type Err = CastDisplayIdParseError;

    fn from_str(value: &str) -> (result: Result<Self, CastDisplayIdParseError>)
        ensures
            match parsed_id(value.spec_bytes()) {
                Some(bytes) => result is Ok && result->Ok_0@ == bytes,
                None => result is Err,
            },
    {
        CastDisplayId::parse(value)
    }
}

fn hex_char_at(bytes: &[u8; 16], index: usize) -> (character: char)
    requires
        index < 32,
    ensures
        character == hex_digit(nibble_at(bytes@, index as int)),
{
    let byte: u8 = bytes[index / 2];
    let nibble: u8 = if index % 2 == 0 {
        byte / 16
    } else {
        byte % 16
    };
    crate::text::hex_char(nibble)
}

fn hex_nibble(value: u8) -> (nibble: Option<u8>)
    ensures
        nibble == nibble_of(value),
        nibble matches Some(number) ==> number < 16,
{
    if 0x30 <= value && value <= 0x39 {
        Some(value - 0x30)
    } else if 0x61 <= value && value <= 0x66 {
        Some(value - 0x61 + 10)
    } else if 0x41 <= value && value <= 0x46 {
        Some(value - 0x41 + 10)
    } else {
        None
    }
}

/// An identity that was written as text is read back as itself.
pub proof fn written_identities_are_read_back(bytes: Seq<u8>)
    requires
        random_uuid(bytes),
    ensures
        parsed_id(encode_utf8(id_text(bytes))) == Some(bytes),
{
    let text = id_text(bytes);
    assert(is_ascii_chars(text));
    is_ascii_chars_encode_utf8(text);
    let encoded = encode_utf8(text);
    assert(encoded.len() == 36);
    assert forall|place: int| 0 <= place < 36 && !is_dash(place) implies nibble_of(
        #[trigger] encoded[place],
    ) == Some(nibble_at(bytes, digit_of_place(place)) as u8) by {
        assert(encoded[place] == text[place] as u8);
    }
    assert forall|i: int| 0 <= i < 32 implies (#[trigger] nibble_of(
        encoded[place_of_digit(i)],
    )) == Some(nibble_at(bytes, i) as u8) by {
        assert(digit_of_place(place_of_digit(i)) == i);
        assert(!is_dash(place_of_digit(i)));
    }
    let read = Seq::new(16, |i: int| parsed_byte(encoded, i));
    assert forall|i: int| 0 <= i < 16 implies #[trigger] read[i] == bytes[i] by {
        assert(nibble_of(encoded[place_of_digit(2 * i)]) == Some(nibble_at(bytes, 2 * i) as u8));
        assert(place_of_digit(2 * i) + 1 == place_of_digit(2 * i + 1));
        assert(nibble_of(encoded[place_of_digit(2 * i + 1)]) == Some(
            nibble_at(bytes, 2 * i + 1) as u8,
        ));
    }
    assert(read =~= bytes);
    assert(encoded[8] == text[8] as u8 && encoded[13] == text[13] as u8 && encoded[18]
        == text[18] as u8 && encoded[23] == text[23] as u8);
}

/// Different identities have different texts and different path segments.
pub proof fn identities_have_texts_of_their_own(left: Seq<u8>, right: Seq<u8>)
    requires
        left.len() == 16,
        right.len() == 16,
    ensures
        id_text(left) == id_text(right) ==> left == right,
        segment_text(left) == segment_text(right) ==> left == right,
{
    if segment_text(left) == segment_text(right) {
        assert forall|i: int| 0 <= i < 16 implies left[i] == right[i] by {
            assert(segment_text(left)[2 * i] == segment_text(right)[2 * i]);
            assert(segment_text(left)[2 * i + 1] == segment_text(right)[2 * i + 1]);
        }
        assert(left =~= right);
    }
    if id_text(left) == id_text(right) {
        assert forall|i: int| 0 <= i < 16 implies left[i] == right[i] by {
            let high = place_of_digit(2 * i);
            let low = place_of_digit(2 * i + 1);
            assert(id_text(left)[high] == id_text(right)[high]);
            assert(id_text(left)[low] == id_text(right)[low]);
            assert(digit_of_place(high) == 2 * i && !is_dash(high));
            assert(digit_of_place(low) == 2 * i + 1 && !is_dash(low));
        }
        assert(left =~= right);
    }
}

/// Whatever is read as an identity is one that this service could have made.
pub proof fn read_identities_are_random_uuids(text: Seq<u8>)
    ensures
        parsed_id(text) matches Some(bytes) ==> random_uuid(bytes),
{
}

/// A text of ASCII bytes in lower case.
pub open spec fn lower_case(text: Seq<u8>) -> Seq<u8> {
    text.map_values(
        |byte: u8|
            if 0x41 <= byte <= 0x5a {
                (byte + 0x20) as u8
            } else {
                byte
            },
    )
}

/// A text is read as an identity exactly if it has dashes in their four places,
/// hexadecimal digits of either case in the others, and the marks of a random
/// UUID. The identity is then written as that text in lower case.
pub proof fn identities_are_read_in_either_case(text: Seq<u8>)
    ensures
        parsed_id(text) is Some <==> {
            &&& text.len() == 36
            &&& forall|place: int|
                0 <= place < 36 ==> if is_dash(place) {
                    #[trigger] text[place] == 0x2d
                } else {
                    nibble_of(text[place]) is Some
                }
            &&& text[14] == 0x34
            &&& nibble_of(text[19]) is Some && 8 <= nibble_of(text[19])->0 <= 11
        },
        parsed_id(text) matches Some(bytes) ==> encode_utf8(id_text(bytes)) == lower_case(text),
{
    let bytes = Seq::new(16, |i: int| parsed_byte(text, i));
    let placed = forall|place: int|
        0 <= place < 36 ==> if is_dash(place) {
            #[trigger] text[place] == 0x2d
        } else {
            nibble_of(text[place]) is Some
        };
    if uuid_shape(text) {
        assert forall|place: int| 0 <= place < 36 implies if is_dash(place) {
            #[trigger] text[place] == 0x2d
        } else {
            nibble_of(text[place]) is Some
        } by {
            if !is_dash(place) {
                assert(nibble_of(text[place_of_digit(digit_of_place(place))]) is Some);
            }
        }
    }
    if text.len() == 36 && placed {
        assert(text[8] == 0x2d && text[13] == 0x2d && text[18] == 0x2d && text[23] == 0x2d);
        assert forall|i: int| 0 <= i < 32 implies (#[trigger] nibble_of(
            text[place_of_digit(i)],
        )) is Some by {
            assert(!is_dash(place_of_digit(i)));
        }
    }
    if uuid_shape(text) {
        assert forall|place: int| 0 <= place < 36 && !is_dash(place) implies #[trigger] nibble_at(
            bytes,
            digit_of_place(place),
        ) == nibble_of(text[place])->0 by {
            let digit = digit_of_place(place);
            assert(place_of_digit(digit) == place);
            let high = nibble_of(text[place_of_digit(2 * (digit / 2))])->0;
            let low = nibble_of(text[place_of_digit(2 * (digit / 2)) + 1])->0;
            assert(place_of_digit(2 * (digit / 2)) + 1 == place_of_digit(2 * (digit / 2) + 1));
            assert(nibble_of(text[place_of_digit(2 * (digit / 2))]) is Some);
            assert(nibble_of(text[place_of_digit(2 * (digit / 2) + 1)]) is Some);
            assert(high < 16 && low < 16);
            assert(bytes[digit / 2] == high * 16 + low);
        }
        assert(digit_of_place(14) == 12 && digit_of_place(19) == 16);
        assert(nibble_at(bytes, 12) == nibble_of(text[14])->0);
        assert(nibble_at(bytes, 16) == nibble_of(text[19])->0);
        assert(nibble_of(text[14]) is Some && nibble_of(text[19]) is Some);
        assert(bytes[8] / 64 == (bytes[8] / 16) / 4);
        let written = id_text(bytes);
        assert(is_ascii_chars(written));
        is_ascii_chars_encode_utf8(written);
        assert forall|place: int| 0 <= place < 36 implies #[trigger] encode_utf8(written)[place]
            == lower_case(text)[place] by {
            assert(encode_utf8(written)[place] == written[place] as u8);
            if !is_dash(place) {
                assert(nibble_at(bytes, digit_of_place(place)) == nibble_of(text[place])->0);
                assert(nibble_of(text[place]) is Some);
            }
        }
        assert(encode_utf8(written) =~= lower_case(text));
    }
}

/// How far the setup of a display is.
#[derive(Debug, Clone, Copy, PartialEq, Eq, Structural)]
pub enum DisplaySetupStage {
    Validating,
    Authorizing,
    PreparingDevice,
    Attaching,
    Added,
    Cancelled,
    Failed,
}

impl DisplaySetupStage {
    pub open spec fn terminal(self) -> bool {
        self == DisplaySetupStage::Added || self == DisplaySetupStage::Cancelled || self
            == DisplaySetupStage::Failed
    }

    pub fn is_terminal(self) -> (terminal: bool)
        ensures
            terminal == self.terminal(),
    {
        matches!(
            self,
            DisplaySetupStage::Added | DisplaySetupStage::Cancelled | DisplaySetupStage::Failed
        )
    }
}

/// A text without what would make it longer than `maximum` bytes; characters
/// stay whole.
pub fn bounded_text(value: String, maximum: usize) -> (bounded: String)
    ensures
        bounded@ == clip(value@, maximum as nat),
{
    clipped(value.as_str(), maximum)
}


/// Read-only projection of an added display.
#[derive(Debug, PartialEq, Eq)]
pub struct AddedCastDisplaySnapshot {
    pub display_id: CastDisplayId,
    pub state_revision: u64,
    pub device: DeviceInfo,
    pub prepared: PreparedCastDevice,
    pub output: CastKmsOutput,
    pub kernel_session_id: NonZeroU64,
    pub grant_state: DisplayGrantState,
    pub runtime: DisplayRuntimeState,
}

/// The contents of an [`AddedCastDisplaySnapshot`].
pub struct SnapshotView {
    pub display_id: Seq<u8>,
    pub state_revision: u64,
    pub device: DeviceView,
    pub prepared: PreparedCastDevice,
    pub output: CastKmsOutput,
    pub kernel_session_id: NonZeroU64,
    pub grant_state: DisplayGrantState,
    pub runtime: RuntimeView,
}

impl View for AddedCastDisplaySnapshot {
    type V = SnapshotView;

    open spec fn view(&self) -> SnapshotView {
        SnapshotView {
            display_id: self.display_id@,
            state_revision: self.state_revision,
            device: self.device@,
            prepared: self.prepared,
            output: self.output,
            kernel_session_id: self.kernel_session_id,
            grant_state: self.grant_state,
            runtime: self.runtime@,
        }
    }
}

impl Clone for AddedCastDisplaySnapshot {
    fn clone(&self) -> (copy: Self)
        ensures
            copy@ == self@,
    {
        AddedCastDisplaySnapshot {
            display_id: self.display_id,
            state_revision: self.state_revision,
            device: self.device.clone(),
            prepared: self.prepared.clone(),
            output: self.output.clone(),
            kernel_session_id: self.kernel_session_id,
            grant_state: self.grant_state,
            runtime: self.runtime.clone(),
        }
    }
}

/// What a setup hands over to the owner of a display.
#[derive(Debug)]
pub struct AddedCastDisplay {
    pub display_id: CastDisplayId,
    pub state_revision: u64,
    pub device: DeviceInfo,
}

impl AddedCastDisplay {
    /// Follow the device until the display's owner does. Only a change counts.
    pub fn update_device(&mut self, device: DeviceInfo) -> (changed: bool)
        ensures
            changed == (old(self).device@ != device@),
            final(self).display_id == old(self).display_id,
            final(self).device@ == device@,
            final(self).state_revision == (if changed {
                larger(next(old(self).state_revision), device.device_revision)
            } else {
                old(self).state_revision
            }),
    {
        if self.device.same(&device) {
            return false;
        }
        let following: u64 = if self.state_revision == u64::MAX {
            u64::MAX
        } else {
            self.state_revision + 1
        };
        self.state_revision = if following >= device.device_revision {
            following
        } else {
            device.device_revision
        };
        self.device = device;
        true
    }
}

/// The marks of a random UUID are set and nothing else is changed: the version in
/// the upper half of one byte, the variant in the two upper bits of another.
pub proof fn marks_leave_the_rest(bytes: Seq<u8>)
    requires
        bytes.len() == 16,
    ensures
        marked(bytes).len() == 16,
        forall|i: int| 0 <= i < 16 && i != 6 && i != 8 ==> #[trigger] marked(bytes)[i] == bytes[i],
        0x40 <= marked(bytes)[6] < 0x50,
        0x80 <= marked(bytes)[8] < 0xc0,
        (marked(bytes)[6] - bytes[6]) % 16 == 0,
        (marked(bytes)[8] - bytes[8]) % 64 == 0,
        marked(marked(bytes)) == marked(bytes),
{
    assert(marked(marked(bytes)) =~= marked(bytes));
}

/// A setup has ended exactly when its display is there, or it was cancelled, or it
/// failed.
pub proof fn ended_setups_go_no_further(stage: DisplaySetupStage)
    ensures
        stage is Added || stage is Cancelled || stage is Failed ==> stage.terminal(),
        stage is Validating || stage is Authorizing || stage is PreparingDevice || stage
            is Attaching ==> !stage.terminal(),
{
}

/// A display shows all that is known of it.
pub proof fn displays_show_all_that_is_known(snapshot: AddedCastDisplaySnapshot)
    ensures
        snapshot@.display_id == snapshot.display_id.bytes@,
        snapshot@.state_revision == snapshot.state_revision,
        snapshot@.device == snapshot.device@,
        snapshot@.prepared == snapshot.prepared,
        snapshot@.output == snapshot.output,
        snapshot@.kernel_session_id == snapshot.kernel_session_id,
        snapshot@.grant_state == snapshot.grant_state,
        snapshot@.runtime == snapshot.runtime@,
{
}

/// The two texts of an identity have the same digits; one has four dashes more, at
/// its own places.
pub proof fn both_texts_have_the_same_digits(bytes: Seq<u8>)
    ensures
        segment_text(bytes).len() == 32,
        id_text(bytes).len() == 36,
        id_text(bytes) == segment_text(bytes).subrange(0, 8) + seq!['-'] + segment_text(
            bytes,
        ).subrange(8, 12) + seq!['-'] + segment_text(bytes).subrange(12, 16) + seq!['-']
            + segment_text(bytes).subrange(16, 20) + seq!['-'] + segment_text(bytes).subrange(
            20,
            32,
        ),
        forall|i: int|
            0 <= i < 16 ==> crate::text::hex_digit((#[trigger] bytes[i] / 16) as nat)
                == segment_text(bytes)[2 * i] && crate::text::hex_digit((bytes[i] % 16) as nat)
                == segment_text(bytes)[2 * i + 1],
{
    assert(id_text(bytes) =~= segment_text(bytes).subrange(0, 8) + seq!['-'] + segment_text(
        bytes,
    ).subrange(8, 12) + seq!['-'] + segment_text(bytes).subrange(12, 16) + seq!['-']
        + segment_text(bytes).subrange(16, 20) + seq!['-'] + segment_text(bytes).subrange(20, 32));
    assert forall|i: int| 0 <= i < 16 implies crate::text::hex_digit(
        (#[trigger] bytes[i] / 16) as nat,
    ) == segment_text(bytes)[2 * i] && crate::text::hex_digit((bytes[i] % 16) as nat)
        == segment_text(bytes)[2 * i + 1] by {
        assert((2 * i) / 2 == i && (2 * i) % 2 == 0);
        assert((2 * i + 1) / 2 == i && (2 * i + 1) % 2 == 1);
    }
}

} // verus!
