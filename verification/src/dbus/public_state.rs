//! What other processes see of displays and setup operations.

use crate::display::setup::{DisplaySetupSnapshot, OperationErrorCode};
use crate::display::{id_text, AddedCastDisplaySnapshot, DisplaySetupStage, SnapshotView};
use crate::display_state::{AttachmentState, MediaState, RouteState, RoutedMode};
use crate::order::same_text;
use crate::preparation::{IdentitySource, PnpResolutionSource};
use crate::protocol::{DeviceInfo, DeviceView};
use crate::text::{clip, clip_is_the_longest_fitting_prefix, clipped, utf8_width};
use vstd::prelude::*;
use vstd::std_specs::iter::IteratorSpec;
use vstd::string::*;
use vstd::utf8::encode_utf8;

verus! {

/// Longest public diagnostic of a media session, in bytes.
pub const MAX_MEDIA_ERROR_BYTES: usize = 512;

#[derive(Debug, Clone, Copy, PartialEq, Eq, Structural)]
pub enum OperationStage {
    Validating,
    Authorizing,
    PreparingDevice,
    Attaching,
    Added,
    Cancelled,
    Failed,
}

/// The public state of a setup operation.
#[derive(Debug, PartialEq, Eq)]
pub struct OperationState {
    pub display_id: String,
    pub stage: OperationStage,
    pub error_code: OperationErrorCode,
    pub error: String,
}

#[derive(Debug, Clone, Copy, PartialEq, Eq, Structural)]
pub enum DisplayIdentitySource {
    Absent,
    SetupEndpoint,
    AuthenticatedDeviceInfo,
    DiscoveryAdvertisement,
}

#[derive(Debug, Clone, Copy, PartialEq, Eq, Structural)]
pub enum DisplayAttachmentState {
    Attached,
    Detached,
    Unknown,
}

#[derive(Debug, Clone, Copy, PartialEq, Eq, Structural)]
pub enum DisplayRouteState {
    Disabled,
    Active,
}

#[derive(Debug, Clone, Copy, PartialEq, Eq, Structural)]
pub enum MediaSessionPhase {
    Inactive,
    Starting,
    Running,
    Suspended,
    Recovering,
    Stopping,
    Failed,
}

/// What a display is.
#[derive(Debug, PartialEq, Eq)]
pub struct CastDisplayInfo {
    pub display_id: String,
    pub backend_id: String,
    pub device_id: String,
    pub display_name: String,
    pub manufacturer_name: String,
    pub manufacturer_source: DisplayIdentitySource,
    pub product_name: String,
    pub product_source: DisplayIdentitySource,
    pub pnp_id: String,
    pub pnp_resolution_source: PnpResolutionSource,
    pub connector_id: u32,
    pub connector_name: String,
    pub output_index: u32,
    pub product_code: u16,
    pub serial: u32,
    pub attachment_state: DisplayAttachmentState,
}

/// The contents of a [`CastDisplayInfo`].
pub struct InfoView {
    pub display_id: Seq<char>,
    pub backend_id: Seq<char>,
    pub device_id: Seq<char>,
    pub display_name: Seq<char>,
    pub manufacturer_name: Seq<char>,
    pub manufacturer_source: DisplayIdentitySource,
    pub product_name: Seq<char>,
    pub product_source: DisplayIdentitySource,
    pub pnp_id: Seq<char>,
    pub pnp_resolution_source: PnpResolutionSource,
    pub connector_id: u32,
    pub connector_name: Seq<char>,
    pub output_index: u32,
    pub product_code: u16,
    pub serial: u32,
    pub attachment_state: DisplayAttachmentState,
}

impl View for CastDisplayInfo {
    type V = InfoView;

    open spec fn view(&self) -> InfoView {
        InfoView {
            display_id: self.display_id@,
            backend_id: self.backend_id@,
            device_id: self.device_id@,
            display_name: self.display_name@,
            manufacturer_name: self.manufacturer_name@,
            manufacturer_source: self.manufacturer_source,
            product_name: self.product_name@,
            product_source: self.product_source,
            pnp_id: self.pnp_id@,
            pnp_resolution_source: self.pnp_resolution_source,
            connector_id: self.connector_id,
            connector_name: self.connector_name@,
            output_index: self.output_index,
            product_code: self.product_code,
            serial: self.serial,
            attachment_state: self.attachment_state,
        }
    }
}

/// How a display stands.
#[derive(Debug, PartialEq, Eq)]
pub struct CastDisplayState {
    pub revision: u64,
    pub device: DeviceInfo,
    pub attachment_state: DisplayAttachmentState,
    pub route_state: DisplayRouteState,
    pub routed_mode: Option<RoutedMode>,
}

/// The contents of a [`CastDisplayState`].
pub struct DisplayStateView {
    pub revision: u64,
    pub device: DeviceView,
    pub attachment_state: DisplayAttachmentState,
    pub route_state: DisplayRouteState,
    pub routed_mode: Option<RoutedMode>,
}

impl View for CastDisplayState {
    type V = DisplayStateView;

    open spec fn view(&self) -> DisplayStateView {
        DisplayStateView {
            revision: self.revision,
            device: self.device@,
            attachment_state: self.attachment_state,
            route_state: self.route_state,
            routed_mode: self.routed_mode,
        }
    }
}

/// How the media session of a display stands.
#[derive(Debug, PartialEq, Eq)]
pub struct MediaSessionState {
    pub revision: u64,
    pub phase: MediaSessionPhase,
    pub media_generation: u64,
    pub audio_enabled: bool,
    pub error: String,
}

/// The contents of a [`MediaSessionState`].
pub struct MediaSessionView {
    pub revision: u64,
    pub phase: MediaSessionPhase,
    pub media_generation: u64,
    pub audio_enabled: bool,
    pub error: Seq<char>,
}

impl View for MediaSessionState {
    type V = MediaSessionView;

    open spec fn view(&self) -> MediaSessionView {
        MediaSessionView {
            revision: self.revision,
            phase: self.phase,
            media_generation: self.media_generation,
            audio_enabled: self.audio_enabled,
            error: self.error@,
        }
    }
}

/// The text, or nothing.
pub open spec fn text_or_empty(text: Option<String>) -> Seq<char> {
    match text {
        Some(text) => text@,
        None => Seq::empty(),
    }
}

fn unwrap_or_empty(text: &Option<String>) -> (result: String)
    ensures
        result@ == text_or_empty(*text),
{
    match text {
        Some(text) => text.clone(),
        None => String::new(),
    }
}

/// The public name of a stage.
pub open spec fn stage_of(stage: DisplaySetupStage) -> OperationStage {
    match stage {
        DisplaySetupStage::Validating => OperationStage::Validating,
        DisplaySetupStage::Authorizing => OperationStage::Authorizing,
        DisplaySetupStage::PreparingDevice => OperationStage::PreparingDevice,
        DisplaySetupStage::Attaching => OperationStage::Attaching,
        DisplaySetupStage::Added => OperationStage::Added,
        DisplaySetupStage::Cancelled => OperationStage::Cancelled,
        DisplaySetupStage::Failed => OperationStage::Failed,
    }
}

/// The public state is that of the operation.
pub open spec fn shows_operation(snapshot: DisplaySetupSnapshot, state: OperationState) -> bool {
    &&& state.display_id@ == id_text(snapshot.display_id@)
    &&& state.stage == stage_of(snapshot.stage)
    &&& state.error_code == snapshot.error_code
    &&& state.error@ == text_or_empty(snapshot.error)
}

pub fn public_operation_state(snapshot: &DisplaySetupSnapshot) -> (state: OperationState)
    ensures
        shows_operation(*snapshot, state),
{
    OperationState {
        display_id: snapshot.display_id.to_text(),
        stage: match snapshot.stage {
            DisplaySetupStage::Validating => OperationStage::Validating,
            DisplaySetupStage::Authorizing => OperationStage::Authorizing,
            DisplaySetupStage::PreparingDevice => OperationStage::PreparingDevice,
            DisplaySetupStage::Attaching => OperationStage::Attaching,
            DisplaySetupStage::Added => OperationStage::Added,
            DisplaySetupStage::Cancelled => OperationStage::Cancelled,
            DisplaySetupStage::Failed => OperationStage::Failed,
        },
        error_code: snapshot.error_code,
        error: unwrap_or_empty(&snapshot.error),
    }
}

/// The public name of an attachment.
pub open spec fn attachment_of(state: AttachmentState) -> DisplayAttachmentState {
    match state {
        AttachmentState::Attached => DisplayAttachmentState::Attached,
        AttachmentState::Detached => DisplayAttachmentState::Detached,
        AttachmentState::Unknown => DisplayAttachmentState::Unknown,
    }
}

pub fn public_attachment_state(state: AttachmentState) -> (public: DisplayAttachmentState)
    ensures
        public == attachment_of(state),
{
    match state {
        AttachmentState::Attached => DisplayAttachmentState::Attached,
        AttachmentState::Detached => DisplayAttachmentState::Detached,
        AttachmentState::Unknown => DisplayAttachmentState::Unknown,
    }
}

/// The public name of a source.
pub open spec fn source_of(source: IdentitySource) -> DisplayIdentitySource {
    match source {
        IdentitySource::Absent => DisplayIdentitySource::Absent,
        IdentitySource::SetupEndpoint => DisplayIdentitySource::SetupEndpoint,
        IdentitySource::AuthenticatedDeviceInfo => DisplayIdentitySource::AuthenticatedDeviceInfo,
        IdentitySource::DiscoveryAdvertisement => DisplayIdentitySource::DiscoveryAdvertisement,
    }
}

pub fn public_identity_source(source: IdentitySource) -> (public: DisplayIdentitySource)
    ensures
        public == source_of(source),
{
    match source {
        IdentitySource::Absent => DisplayIdentitySource::Absent,
        IdentitySource::SetupEndpoint => DisplayIdentitySource::SetupEndpoint,
        IdentitySource::AuthenticatedDeviceInfo => DisplayIdentitySource::AuthenticatedDeviceInfo,
        IdentitySource::DiscoveryAdvertisement => DisplayIdentitySource::DiscoveryAdvertisement,
    }
}

/// What is public of a display.
pub open spec fn info_of(display: SnapshotView) -> InfoView {
    InfoView {
        display_id: id_text(display.display_id),
        backend_id: display.device.backend_id,
        device_id: display.device.device_id,
        display_name: display.device.display_name,
        manufacturer_name: text_or_empty(display.prepared.manufacturer_name),
        manufacturer_source: source_of(display.prepared.manufacturer_source),
        product_name: text_or_empty(display.prepared.product_name),
        product_source: source_of(display.prepared.product_source),
        pnp_id: display.prepared.pnp_id@,
        pnp_resolution_source: display.prepared.pnp_source,
        connector_id: display.output.connector_id,
        connector_name: display.output.connector_name@,
        output_index: display.output.id.output_index,
        product_code: display.prepared.product_code,
        serial: display.prepared.serial,
        attachment_state: attachment_of(display.runtime.topology.spec_attachment()),
    }
}

pub fn public_display(display: &AddedCastDisplaySnapshot) -> (info: CastDisplayInfo)
    ensures
        info@ == info_of(display@),
{
    CastDisplayInfo {
        display_id: display.display_id.to_text(),
        backend_id: display.device.backend_id.clone(),
        device_id: display.device.device_id.clone(),
        display_name: display.device.display_name.clone(),
        manufacturer_name: unwrap_or_empty(&display.prepared.manufacturer_name),
        manufacturer_source: public_identity_source(display.prepared.manufacturer_source),
        product_name: unwrap_or_empty(&display.prepared.product_name),
        product_source: public_identity_source(display.prepared.product_source),
        pnp_id: display.prepared.pnp_id.clone(),
        pnp_resolution_source: display.prepared.pnp_source,
        connector_id: display.output.connector_id,
        connector_name: display.output.connector_name.clone(),
        output_index: display.output.id.output_index,
        product_code: display.prepared.product_code,
        serial: display.prepared.serial,
        attachment_state: public_attachment_state(display.runtime.attachment()),
    }
}

/// The public state of a display.
pub open spec fn state_of(display: SnapshotView) -> DisplayStateView {
    DisplayStateView {
        revision: display.state_revision,
        device: display.device,
        attachment_state: attachment_of(display.runtime.topology.spec_attachment()),
        route_state: match display.runtime.topology.spec_route() {
            RouteState::Disabled => DisplayRouteState::Disabled,
            RouteState::Active(_) => DisplayRouteState::Active,
        },
        routed_mode: match display.runtime.topology.spec_route() {
            RouteState::Disabled => None,
            RouteState::Active(route) => Some(route.mode),
        },
    }
}

pub fn public_display_state(display: &AddedCastDisplaySnapshot) -> (state: CastDisplayState)
    ensures
        state@ == state_of(display@),
{
    CastDisplayState {
        revision: display.state_revision,
        device: display.device.clone(),
        attachment_state: public_attachment_state(display.runtime.attachment()),
        route_state: match display.runtime.route() {
            RouteState::Disabled => DisplayRouteState::Disabled,
            RouteState::Active(_) => DisplayRouteState::Active,
        },
        routed_mode: match display.runtime.route() {
            RouteState::Disabled => None,
            RouteState::Active(route) => Some(route.mode),
        },
    }
}

/// The public phase of a media session.
pub open spec fn phase_of(media: MediaState) -> MediaSessionPhase {
    match media {
        MediaState::Idle => MediaSessionPhase::Inactive,
        MediaState::StartingCapture => MediaSessionPhase::Starting,
        MediaState::StartingMedia => MediaSessionPhase::Starting,
        MediaState::Running => MediaSessionPhase::Running,
        MediaState::Suspended => MediaSessionPhase::Suspended,
        MediaState::Reconfiguring => MediaSessionPhase::Recovering,
        MediaState::Reconnecting => MediaSessionPhase::Recovering,
        MediaState::Stopping => MediaSessionPhase::Stopping,
        MediaState::Failed => MediaSessionPhase::Failed,
    }
}

/// The public state of a display's media session: only a failure is explained.
pub open spec fn media_session_of(display: SnapshotView) -> MediaSessionView {
    MediaSessionView {
        revision: display.state_revision,
        phase: phase_of(display.runtime.media.state),
        media_generation: display.runtime.media_generation,
        audio_enabled: display.prepared.audio_enabled,
        error: if display.runtime.media.state == MediaState::Failed {
            media_error_of(display.runtime.media.error)
        } else {
            Seq::empty()
        },
    }
}

pub fn public_media_session_state(display: &AddedCastDisplaySnapshot) -> (state: MediaSessionState)
    ensures
        state@ == media_session_of(display@),
{
    let phase = match display.runtime.media() {
        MediaState::Idle => MediaSessionPhase::Inactive,
        MediaState::StartingCapture | MediaState::StartingMedia => MediaSessionPhase::Starting,
        MediaState::Running => MediaSessionPhase::Running,
        MediaState::Suspended => MediaSessionPhase::Suspended,
        MediaState::Reconfiguring | MediaState::Reconnecting => MediaSessionPhase::Recovering,
        MediaState::Stopping => MediaSessionPhase::Stopping,
        MediaState::Failed => MediaSessionPhase::Failed,
    };
    let error = if phase == MediaSessionPhase::Failed {
        public_media_error(display.runtime.last_error())
    } else {
        String::new()
    };
    MediaSessionState {
        revision: display.state_revision,
        phase,
        media_generation: display.runtime.media_generation(),
        audio_enabled: display.prepared.audio_enabled,
        error,
    }
}

/// A control character.
pub open spec fn is_control(character: char) -> bool {
    character as u32 <= 0x1f || 0x7f <= character as u32 <= 0x9f
}

/// A character that Unicode counts as white space.
pub open spec fn is_white_space(character: char) -> bool {
    let scalar = character as u32;
    ||| 0x09 <= scalar <= 0x0d
    ||| scalar == 0x20
    ||| scalar == 0x85
    ||| scalar == 0xa0
    ||| scalar == 0x1680
    ||| 0x2000 <= scalar <= 0x200a
    ||| scalar == 0x2028
    ||| scalar == 0x2029
    ||| scalar == 0x202f
    ||| scalar == 0x205f
    ||| scalar == 0x3000
}

/// A space in place of a control character.
pub open spec fn printable(character: char) -> char {
    if is_control(character) {
        ' '
    } else {
        character
    }
}

/// The text without white space at its start.
pub open spec fn trimmed_start(text: Seq<char>) -> Seq<char>
    decreases text.len(),
{
    if text.len() > 0 && is_white_space(text[0]) {
        trimmed_start(text.drop_first())
    } else {
        text
    }
}

/// The text without white space at its end.
pub open spec fn trimmed_end(text: Seq<char>) -> Seq<char>
    decreases text.len(),
{
    if text.len() > 0 && is_white_space(text.last()) {
        trimmed_end(text.drop_last())
    } else {
        text
    }
}

/// The text in printable characters, without white space around it.
pub open spec fn cleaned(text: Seq<char>) -> Seq<char> {
    trimmed_end(trimmed_start(text.map_values(|character: char| printable(character))))
}

/// The public form of a diagnostic.
pub open spec fn media_error_of(error: Option<Seq<char>>) -> Seq<char> {
    let missing = "media session failed without diagnostic detail"@;
    let text = match error {
        Some(text) => cleaned(text),
        None => cleaned(missing),
    };
    if text.len() == 0 {
        missing
    } else {
        clip(text, MAX_MEDIA_ERROR_BYTES as nat)
    }
}

fn white_space(character: char) -> (white: bool)
    ensures
        white == is_white_space(character),
{
    let scalar: u32 = character as u32;
    (0x09 <= scalar && scalar <= 0x0d) || scalar == 0x20 || scalar == 0x85 || scalar == 0xa0
        || scalar == 0x1680 || (0x2000 <= scalar && scalar <= 0x200a) || scalar == 0x2028 || scalar
        == 0x2029 || scalar == 0x202f || scalar == 0x205f || scalar == 0x3000
}

fn printable_characters(text: &str) -> (characters: Vec<char>)
    ensures
        characters@ == text@.map_values(|character: char| printable(character)),
{
    let ghost all = text@.map_values(|character: char| printable(character));
    let mut characters: Vec<char> = Vec::new();
    let mut rest = text.chars();
    proof {
        assert(text@.skip(0) =~= text@);
    }
    loop
        invariant
            rest.obeys_prophetic_iter_laws(),
            characters@.len() <= text@.len(),
            rest.remaining() == text@.skip(characters@.len() as int),
            all == text@.map_values(|character: char| printable(character)),
            characters@ == all.take(characters@.len() as int),
        decreases text@.len() - characters@.len(),
    {
        let ghost taken = characters@.len() as int;
        let next = rest.next();
        match next {
            None => {
                proof {
                    assert(all.take(taken) =~= all);
                }
                return characters;
            },
            Some(character) => {
                let scalar: u32 = character as u32;
                if scalar <= 0x1f || (0x7f <= scalar && scalar <= 0x9f) {
                    characters.push(' ');
                } else {
                    characters.push(character);
                }
                proof {
                    assert(text@.skip(taken).drop_first() =~= text@.skip(taken + 1));
                    assert(characters@ =~= all.take(taken + 1));
                }
            },
        }
    }
}

/// The text in printable characters, without white space around it.
pub fn clean(text: &str) -> (result: String)
    ensures
        result@ == cleaned(text@),
{
    let characters = printable_characters(text);
    let ghost all = characters@;
    let mut start: usize = 0;
    proof {
        assert(all.skip(0) =~= all);
    }
    while start < characters.len() && white_space(characters[start])
        invariant
            start <= characters@.len(),
            characters@ == all,
            trimmed_start(all) == trimmed_start(all.skip(start as int)),
        decreases characters@.len() - start,
    {
        proof {
            assert(all.skip(start as int).drop_first() =~= all.skip(start + 1));
        }
        start += 1;
    }
    let ghost front = all.skip(start as int);
    let mut end: usize = characters.len();
    proof {
        assert(all.subrange(start as int, end as int) =~= front);
    }
    while end > start && white_space(characters[end - 1])
        invariant
            start <= end <= characters@.len(),
            characters@ == all,
            trimmed_end(front) == trimmed_end(all.subrange(start as int, end as int)),
        decreases end,
    {
        proof {
            let part = all.subrange(start as int, end as int);
            assert(part.last() == all[end - 1]);
            assert(part.drop_last() =~= all.subrange(start as int, end - 1));
        }
        end -= 1;
    }
    let ghost kept = all.subrange(start as int, end as int);
    let mut result = String::new();
    let mut index: usize = start;
    proof {
        if end > start {
            assert(kept.last() == all[end - 1]);
        }
        assert(result@ =~= all.subrange(start as int, start as int));
    }
    while index < end
        invariant
            start <= index <= end <= characters@.len(),
            characters@ == all,
            result@ == all.subrange(start as int, index as int),
        decreases end - index,
    {
        result.push(characters[index]);
        proof {
            assert(result@ =~= all.subrange(start as int, index + 1));
        }
        index += 1;
    }
    result
}

pub fn public_media_error(error: Option<&str>) -> (result: String)
    ensures
        result@ == media_error_of(
            match error {
                Some(text) => Some(text@),
                None => None,
            },
        ),
{
    let missing = "media session failed without diagnostic detail";
    let text = match error {
        Some(text) => clean(text),
        None => clean(missing),
    };
    if is_empty(&text) {
        return missing.to_owned();
    }
    clipped(text.as_str(), MAX_MEDIA_ERROR_BYTES)
}

fn is_empty(text: &String) -> (empty: bool)
    ensures
        empty == (text@.len() == 0),
{
    let empty = same_text(text.as_str(), "");
    proof {
        reveal_strlit("");
        if text@.len() == 0 {
            assert(text@ =~= ""@);
        }
    }
    empty
}

/// Two states of a media session that differ at most in their revision.
pub open spec fn same_observation(left: MediaSessionView, right: MediaSessionView) -> bool {
    left == MediaSessionView { revision: left.revision, ..right }
}

pub fn same_media_observation(left: &MediaSessionState, right: &MediaSessionState) -> (same: bool)
    ensures
        same == same_observation(left@, right@),
{
    left.phase == right.phase && left.media_generation == right.media_generation
        && left.audio_enabled == right.audio_enabled && same_text(
        left.error.as_str(),
        right.error.as_str(),
    )
}

/// What is public of each display.
pub fn public_displays(displays: &Vec<AddedCastDisplaySnapshot>) -> (infos: Vec<CastDisplayInfo>)
    ensures
        infos@.len() == displays@.len(),
        forall|i: int|
            0 <= i < infos@.len() ==> (#[trigger] infos@[i])@ == info_of(displays@[i]@),
{
    let mut infos: Vec<CastDisplayInfo> = Vec::new();
    let mut index: usize = 0;
    while index < displays.len()
        invariant
            index <= displays@.len(),
            infos@.len() == index,
            forall|i: int|
                0 <= i < index ==> (#[trigger] infos@[i])@ == info_of(displays@[i]@),
        decreases displays@.len() - index,
    {
        infos.push(public_display(&displays[index]));
        index += 1;
    }
    infos
}

/// The text holds no control character.
pub open spec fn without_controls(text: Seq<char>) -> bool {
    forall|i: int| 0 <= i < text.len() ==> !is_control(#[trigger] text[i])
}

proof fn trimming_keeps(text: Seq<char>)
    requires
        without_controls(text),
    ensures
        without_controls(trimmed_start(text)),
        without_controls(trimmed_end(text)),
    decreases text.len(),
{
    if text.len() > 0 {
        let tail = text.drop_first();
        assert forall|i: int| 0 <= i < tail.len() implies !is_control(#[trigger] tail[i]) by {
            assert(tail[i] == text[i + 1]);
        }
        let front = text.drop_last();
        assert forall|i: int| 0 <= i < front.len() implies !is_control(#[trigger] front[i]) by {
            assert(front[i] == text[i]);
        }
        trimming_keeps(tail);
        trimming_keeps(front);
    }
}

/// A public diagnostic says something, fits its bound, and holds no control
/// character.
pub proof fn public_media_errors_are_bounded(error: Option<Seq<char>>)
    ensures
        media_error_of(error).len() > 0,
        encode_utf8(media_error_of(error)).len() <= MAX_MEDIA_ERROR_BYTES,
        without_controls(media_error_of(error)),
{
    let missing = "media session failed without diagnostic detail"@;
    let raw = match error {
        Some(text) => text,
        None => missing,
    };
    let mapped = raw.map_values(|character: char| printable(character));
    let text = cleaned(raw);
    assert forall|i: int| 0 <= i < mapped.len() implies !is_control(#[trigger] mapped[i]) by {
        assert(mapped[i] == printable(raw[i]));
    }
    trimming_keeps(mapped);
    trimming_keeps(trimmed_start(mapped));
    if text.len() == 0 {
        reveal_strlit("media session failed without diagnostic detail");
        assert(vstd::utf8::is_ascii_chars(missing));
        vstd::utf8::is_ascii_chars_encode_utf8(missing);
    } else {
        clip_is_the_longest_fitting_prefix(text, MAX_MEDIA_ERROR_BYTES as nat);
        assert(utf8_width(text[0]) <= 4);
        let public = clip(text, MAX_MEDIA_ERROR_BYTES as nat);
        assert(public.len() > 0);
        assert forall|i: int| 0 <= i < public.len() implies !is_control(#[trigger] public[i]) by {
            assert(public[i] == text[i]);
        }
    }
}

/// A media session is explained exactly if it failed.
pub proof fn only_failures_are_explained(display: SnapshotView)
    ensures
        (media_session_of(display).error.len() > 0) == (media_session_of(display).phase
            == MediaSessionPhase::Failed),
{
    public_media_errors_are_bounded(display.runtime.media.error);
}

/// A public operation is in the stage of its setup, with its error; the text is
/// empty where there is none.
pub proof fn operations_are_shown_as_they_are(setup: DisplaySetupSnapshot, state: OperationState)
    requires
        shows_operation(setup, state),
    ensures
        state.display_id@ == id_text(setup.display_id@),
        state.stage is Validating <==> setup.stage is Validating,
        state.stage is Authorizing <==> setup.stage is Authorizing,
        state.stage is PreparingDevice <==> setup.stage is PreparingDevice,
        state.stage is Attaching <==> setup.stage is Attaching,
        state.stage is Added <==> setup.stage is Added,
        state.stage is Cancelled <==> setup.stage is Cancelled,
        state.stage is Failed <==> setup.stage is Failed,
        state.error_code == setup.error_code,
        setup.error is Some ==> state.error@ == setup.error->0@,
        setup.error is None ==> state.error@.len() == 0,
{
}

/// A display is described by its own identity, its device, what was prepared for
/// it, and the output that it has.
pub proof fn displays_are_described_as_they_are(display: AddedCastDisplaySnapshot)
    ensures
        info_of(display@).display_id == id_text(display.display_id@),
        info_of(display@).backend_id == display.device.backend_id@,
        info_of(display@).device_id == display.device.device_id@,
        info_of(display@).display_name == display.device.display_name@,
        info_of(display@).pnp_id == display.prepared.pnp_id@,
        info_of(display@).pnp_resolution_source == display.prepared.pnp_source,
        info_of(display@).product_code == display.prepared.product_code,
        info_of(display@).serial == display.prepared.serial,
        info_of(display@).connector_id == display.output.connector_id,
        info_of(display@).connector_name == display.output.connector_name@,
        info_of(display@).output_index == display.output.id.output_index,
        display.prepared.manufacturer_name is Some ==> info_of(display@).manufacturer_name
            == display.prepared.manufacturer_name->0@,
        display.prepared.manufacturer_name is None ==> info_of(display@).manufacturer_name.len()
            == 0,
        display.prepared.product_name is Some ==> info_of(display@).product_name
            == display.prepared.product_name->0@,
        display.prepared.product_name is None ==> info_of(display@).product_name.len() == 0,
{
}

/// The sources of the two names are told apart, each as it was found.
pub proof fn name_sources_are_told_apart(display: AddedCastDisplaySnapshot)
    ensures
        info_of(display@).manufacturer_source is Absent
            <==> display.prepared.manufacturer_source is Absent,
        info_of(display@).manufacturer_source is SetupEndpoint
            <==> display.prepared.manufacturer_source is SetupEndpoint,
        info_of(display@).manufacturer_source is AuthenticatedDeviceInfo
            <==> display.prepared.manufacturer_source is AuthenticatedDeviceInfo,
        info_of(display@).manufacturer_source is DiscoveryAdvertisement
            <==> display.prepared.manufacturer_source is DiscoveryAdvertisement,
        info_of(display@).product_source is Absent <==> display.prepared.product_source is Absent,
        info_of(display@).product_source is SetupEndpoint
            <==> display.prepared.product_source is SetupEndpoint,
        info_of(display@).product_source is AuthenticatedDeviceInfo
            <==> display.prepared.product_source is AuthenticatedDeviceInfo,
        info_of(display@).product_source is DiscoveryAdvertisement
            <==> display.prepared.product_source is DiscoveryAdvertisement,
{
}

/// A display is shown attached as its connector is, and routed exactly while the
/// connector has a route, in the mode of that.
pub proof fn displays_show_their_connector(display: AddedCastDisplaySnapshot)
    ensures
        state_of(display@).revision == display.state_revision,
        state_of(display@).device == display.device@,
        state_of(display@).attachment_state == info_of(display@).attachment_state,
        state_of(display@).attachment_state is Attached <==> display@.runtime.topology is Attached,
        state_of(display@).attachment_state is Detached <==> display@.runtime.topology is Detached,
        state_of(display@).attachment_state is Unknown <==> display@.runtime.topology is Unknown,
        state_of(display@).route_state is Active <==> state_of(display@).routed_mode is Some,
        state_of(display@).route_state is Active <==> (display@.runtime.topology is Attached
            && display@.runtime.topology->Attached_route is Some),
        state_of(display@).route_state is Active ==> state_of(display@).routed_mode->0
            == display@.runtime.topology->Attached_route->0.mode,
{
}

/// A media session is shown in the phase that its media are in, of their
/// generation.
pub proof fn media_sessions_show_their_phase(display: AddedCastDisplaySnapshot)
    ensures
        media_session_of(display@).revision == display.state_revision,
        media_session_of(display@).media_generation == display@.runtime.media_generation,
        media_session_of(display@).audio_enabled == display.prepared.audio_enabled,
        media_session_of(display@).phase is Inactive <==> display@.runtime.media.state is Idle,
        media_session_of(display@).phase is Starting <==> display@.runtime.media.state
            is StartingCapture || display@.runtime.media.state is StartingMedia,
        media_session_of(display@).phase is Running <==> display@.runtime.media.state is Running,
        media_session_of(display@).phase is Suspended <==> display@.runtime.media.state
            is Suspended,
        media_session_of(display@).phase is Recovering <==> display@.runtime.media.state
            is Reconfiguring || display@.runtime.media.state is Reconnecting,
        media_session_of(display@).phase is Stopping <==> display@.runtime.media.state is Stopping,
        media_session_of(display@).phase is Failed <==> display@.runtime.media.state is Failed,
{
}

/// Two observations of a media session differ exactly where something besides the
/// revision does.
pub proof fn revisions_alone_are_no_news(left: MediaSessionView, right: MediaSessionView)
    ensures
        same_observation(left, right) <==> left.phase == right.phase && left.media_generation
            == right.media_generation && left.audio_enabled == right.audio_enabled && left.error
            == right.error,
        same_observation(left, right) <==> same_observation(right, left),
{
}

/// The part stands in the text from `start` on, with a space for each control
/// character; around it is white space alone.
pub open spec fn stands_in(part: Seq<char>, text: Seq<char>, start: int) -> bool {
    &&& 0 <= start
    &&& start + part.len() <= text.len()
    &&& forall|i: int|
        0 <= i < part.len() ==> #[trigger] part[i] == (if is_control(text[start + i]) {
            ' '
        } else {
            text[start + i]
        })
    &&& forall|i: int|
        0 <= i < start || start + part.len() <= i < text.len() ==> is_white_space(
            #[trigger] text[i],
        ) || is_control(text[i])
}

/// The first and the last character are no white space, and what is between them
/// is the text as it was, with a space for each control character.
pub proof fn cleaned_texts_are_trimmed(text: Seq<char>)
    ensures
        cleaned(text).len() > 0 ==> !is_white_space(cleaned(text)[0]) && !is_white_space(
            cleaned(text).last(),
        ),
        cleaned(text).len() <= text.len(),
        exists|start: int| #[trigger] stands_in(cleaned(text), text, start),
{
    let all = text.map_values(|character: char| printable(character));
    let middle = trimmed_start(all);
    trimming_ends(all);
    trimming_ends(middle);
    let start = all.len() - middle.len();
    let end = start + cleaned(text).len();
    assert(cleaned(text) =~= all.subrange(start, end));
    assert forall|i: int| (0 <= i < start || end <= i < text.len()) implies is_white_space(
        printable(#[trigger] text[i]),
    ) by {
        assert(all[i] == printable(text[i]));
        if i >= end {
            assert(middle[i - start] == all[i]);
        }
    }
    if cleaned(text).len() > 0 {
        assert(cleaned(text)[0] == middle[0]);
    }
    assert(stands_in(cleaned(text), text, start));
}

proof fn trimming_ends(text: Seq<char>)
    ensures
        trimmed_start(text).len() <= text.len(),
        trimmed_start(text) == text.skip(text.len() - trimmed_start(text).len()),
        trimmed_start(text).len() > 0 ==> !is_white_space(trimmed_start(text)[0]),
        forall|i: int|
            0 <= i < text.len() - trimmed_start(text).len() ==> is_white_space(#[trigger] text[i]),
        trimmed_end(text).len() <= text.len(),
        trimmed_end(text) == text.take(trimmed_end(text).len() as int),
        trimmed_end(text).len() > 0 ==> !is_white_space(trimmed_end(text).last()),
        forall|i: int|
            trimmed_end(text).len() <= i < text.len() ==> is_white_space(#[trigger] text[i]),
    decreases text.len(),
{
    if text.len() > 0 {
        trimming_ends(text.drop_first());
        trimming_ends(text.drop_last());
        if is_white_space(text[0]) {
            let kept = trimmed_start(text);
            assert(kept =~= text.skip(text.len() - kept.len()));
            assert forall|i: int| 0 <= i < text.len() - kept.len() implies is_white_space(
                #[trigger] text[i],
            ) by {
                if i > 0 {
                    assert(text.drop_first()[i - 1] == text[i]);
                }
            }
        } else {
            assert(text.skip(0) =~= text);
        }
        if is_white_space(text.last()) {
            let kept = trimmed_end(text);
            assert(kept =~= text.take(kept.len() as int));
            assert forall|i: int| kept.len() <= i < text.len() implies is_white_space(
                #[trigger] text[i],
            ) by {
                if i < text.len() - 1 {
                    assert(text.drop_last()[i] == text[i]);
                }
            }
        } else {
            assert(text.take(text.len() as int) =~= text);
        }
    } else {
        assert(text.skip(0) =~= text);
        assert(text.take(0) =~= text);
    }
}

/// White space of ASCII is the space, the tab and the four characters after it;
/// control characters are those below the space and those from 0x7f to 0x9f. Both
/// leave letters, digits and marks as they are.
pub proof fn visible_characters_are_kept(character: char)
    ensures
        (character as u32) < 128 ==> (is_white_space(character) <==> character == ' '
            || '\t' <= character <= '\r'),
        is_control(character) <==> character < ' ' || '\u{7f}' <= character <= '\u{9f}',
        ' ' <= character <= '~' ==> printable(character) == character,
        printable(character) == character || printable(character) == ' ',
        !is_control(printable(character)),
{
}

/// A failure is explained by the whole diagnostic, if that fits in 512 bytes once
/// it is cleaned; one without visible text is said to have no detail.
pub proof fn diagnostics_that_fit_are_shown_whole(error: Option<Seq<char>>)
    ensures
        error is Some && cleaned(error->0).len() > 0 && encode_utf8(cleaned(error->0)).len() <= 512
            ==> media_error_of(error) == cleaned(error->0),
        error is Some && cleaned(error->0).len() > 0 ==> media_error_of(error).is_prefix_of(
            cleaned(error->0),
        ),
        error is None || cleaned(error->0).len() == 0 ==> media_error_of(error)
            == "media session failed without diagnostic detail"@,
{
    let missing = "media session failed without diagnostic detail"@;
    reveal_strlit("media session failed without diagnostic detail");
    assert(vstd::utf8::is_ascii_chars(missing));
    vstd::utf8::is_ascii_chars_encode_utf8(missing);
    clip_is_the_longest_fitting_prefix(missing, MAX_MEDIA_ERROR_BYTES as nat);
    cleaned_is_itself(missing);
    if error is Some {
        clip_is_the_longest_fitting_prefix(cleaned(error->0), MAX_MEDIA_ERROR_BYTES as nat);
    }
}

proof fn cleaned_is_itself(text: Seq<char>)
    requires
        text.len() > 0,
        !is_white_space(text[0]),
        !is_white_space(text.last()),
        forall|i: int| 0 <= i < text.len() ==> !is_control(#[trigger] text[i]),
    ensures
        cleaned(text) == text,
{
    assert(text.map_values(|character: char| printable(character)) =~= text);
}

/// What is public of a display shows all of its parts.
pub proof fn public_displays_show_their_parts(
    info: CastDisplayInfo,
    state: CastDisplayState,
    media: MediaSessionState,
)
    ensures
        info@.display_id == info.display_id@,
        info@.backend_id == info.backend_id@,
        info@.device_id == info.device_id@,
        info@.display_name == info.display_name@,
        info@.manufacturer_name == info.manufacturer_name@,
        info@.manufacturer_source == info.manufacturer_source,
        info@.product_name == info.product_name@,
        info@.product_source == info.product_source,
        info@.pnp_id == info.pnp_id@,
        info@.pnp_resolution_source == info.pnp_resolution_source,
        info@.connector_id == info.connector_id,
        info@.connector_name == info.connector_name@,
        info@.output_index == info.output_index,
        info@.product_code == info.product_code,
        info@.serial == info.serial,
        info@.attachment_state == info.attachment_state,
        state@.revision == state.revision,
        state@.device == state.device@,
        state@.attachment_state == state.attachment_state,
        state@.route_state == state.route_state,
        state@.routed_mode == state.routed_mode,
        media@.revision == media.revision,
        media@.phase == media.phase,
        media@.media_generation == media.media_generation,
        media@.audio_enabled == media.audio_enabled,
        media@.error == media.error@,
{
}

} // verus!
