//! Capture layouts that a renderer can export at every offered size.

use crate::device_session::DisplayMode;
use vstd::prelude::*;

verus! {

/// Most layouts in one offer.
pub const MAX_RAW_VIDEO_LAYOUTS: usize = 64;

/// The pixel formats `AR24`, `XR24`, `AB24` and `XB24`.
pub const FOURCC_AR24: u32 = 0x3432_5241;

pub const FOURCC_XR24: u32 = 0x3432_5258;

pub const FOURCC_AB24: u32 = 0x3432_4241;

pub const FOURCC_XB24: u32 = 0x3432_4258;

/// The channel orders that a renderer is asked about.
#[derive(Debug, Clone, Copy, PartialEq, Eq, Structural)]
pub enum PackedFormat {
    Bgra8,
    Rgba8,
}

/// Where the pixels of a layout are.
#[derive(Debug, Clone, Copy, PartialEq, Eq, Structural)]
pub enum RawVideoMemory {
    System,
    DmaBuf { modifier: u64 },
}

/// One layout of raw video.
#[derive(Debug, Clone, Copy, PartialEq, Eq, Structural)]
pub struct RawVideoLayout {
    pub fourcc: u32,
    pub memory: RawVideoMemory,
}

pub open spec fn in_system_memory(fourcc: u32) -> RawVideoLayout {
    RawVideoLayout { fourcc, memory: RawVideoMemory::System }
}

pub open spec fn in_dma_buf(fourcc: u32, modifier: u64) -> RawVideoLayout {
    RawVideoLayout { fourcc, memory: RawVideoMemory::DmaBuf { modifier } }
}

impl RawVideoLayout {
    pub fn system_memory(fourcc: u32) -> (layout: Self)
        ensures
            layout == in_system_memory(fourcc),
    {
        RawVideoLayout { fourcc, memory: RawVideoMemory::System }
    }

    pub fn dma_buf(fourcc: u32, modifier: u64) -> (layout: Self)
        ensures
            layout == in_dma_buf(fourcc, modifier),
    {
        RawVideoLayout { fourcc, memory: RawVideoMemory::DmaBuf { modifier } }
    }
}

/// The kinds of failure that are told apart.
#[derive(Debug, Clone, Copy, PartialEq, Eq, Structural)]
pub enum ProbeErrorKind {
    InvalidInput,
    Unsupported,
    BrokenPipe,
    Other,
}

/// Why a renderer could not be asked.
#[derive(Debug, PartialEq, Eq)]
pub struct ProbeError {
    pub kind: ProbeErrorKind,
    pub message: String,
}

/// The offer without a renderer.
pub fn system_only() -> (layouts: Vec<RawVideoLayout>)
    ensures
        layouts@ == seq![in_system_memory(FOURCC_XR24)],
{
    let layouts: Vec<RawVideoLayout> = vec![RawVideoLayout::system_memory(FOURCC_XR24)];
    proof {
        assert(layouts@ =~= seq![in_system_memory(FOURCC_XR24)]);
    }
    layouts
}

/// The layouts that a renderer can do: those of every mode, and those of each mode.
#[derive(Debug, PartialEq, Eq)]
pub struct OutputLayouts {
    pub raw_layouts: Vec<RawVideoLayout>,
    pub mode_raw_layouts: Vec<Vec<RawVideoLayout>>,
}

/// The contents of an [`OutputLayouts`].
#[verifier::ext_equal]
pub struct LayoutsView {
    pub raw_layouts: Seq<RawVideoLayout>,
    pub mode_raw_layouts: Seq<Seq<RawVideoLayout>>,
}

/// The contents of several lists of layouts.
pub open spec fn lists_view(lists: Seq<Vec<RawVideoLayout>>) -> Seq<Seq<RawVideoLayout>> {
    lists.map_values(|list: Vec<RawVideoLayout>| list@)
}

impl View for OutputLayouts {
    type V = LayoutsView;

    open spec fn view(&self) -> LayoutsView {
        LayoutsView {
            raw_layouts: self.raw_layouts@,
            mode_raw_layouts: lists_view(self.mode_raw_layouts@),
        }
    }
}

/// The layouts of a renderer that cannot be asked.
pub open spec fn without_renderer() -> LayoutsView {
    LayoutsView {
        raw_layouts: seq![in_system_memory(FOURCC_XR24)],
        mode_raw_layouts: Seq::empty(),
    }
}

/// The offer of a renderer that cannot be asked: system memory, and nothing for
/// any mode of its own.
pub fn system_only_offer() -> (layouts: OutputLayouts)
    ensures
        layouts@ == without_renderer(),
{
    let layouts = OutputLayouts { raw_layouts: system_only(), mode_raw_layouts: Vec::new() };
    proof {
        assert(layouts@.mode_raw_layouts =~= Seq::empty());
    }
    layouts
}

/// The answer of a renderer for one mode.
pub type Answer = Result<Vec<u64>, ProbeError>;

/// The modifiers that are in `available` too, in order.
pub open spec fn kept(modifiers: Seq<u64>, available: Seq<u64>) -> Seq<u64>
    decreases modifiers.len(),
{
    if modifiers.len() == 0 {
        Seq::empty()
    } else {
        let earlier = kept(modifiers.drop_last(), available);
        if available.contains(modifiers.last()) {
            earlier.push(modifiers.last())
        } else {
            earlier
        }
    }
}

/// The first thing wrong with a mode or its answer.
pub open spec fn fault(mode: DisplayMode, answer: Answer) -> Option<(ProbeErrorKind, Seq<char>)> {
    if mode.width == 0 {
        Some((ProbeErrorKind::InvalidInput, "zero output width"@))
    } else if mode.height == 0 {
        Some((ProbeErrorKind::InvalidInput, "zero output height"@))
    } else {
        match answer {
            Err(error) => Some((error.kind, error.message@)),
            Ok(_) => None,
        }
    }
}

/// The modifiers that are available for every mode, in the order of the first
/// answer; or the first failure.
pub open spec fn common(modes: Seq<DisplayMode>, answers: Seq<Answer>) -> Result<
    Option<Seq<u64>>,
    (ProbeErrorKind, Seq<char>),
>
    decreases modes.len(),
{
    if modes.len() == 0 {
        Ok(None)
    } else {
        let index = modes.len() - 1;
        match common(modes.drop_last(), answers) {
            Err(error) => Err(error),
            Ok(earlier) => match fault(modes.last(), answers[index]) {
                Some(error) => Err(error),
                None => Ok(
                    Some(
                        match earlier {
                            None => answers[index]->Ok_0@,
                            Some(modifiers) => kept(modifiers, answers[index]->Ok_0@),
                        },
                    ),
                ),
            },
        }
    }
}

fn retain(modifiers: &Vec<u64>, available: &Vec<u64>) -> (result: Vec<u64>)
    ensures
        result@ == kept(modifiers@, available@),
{
    let mut result: Vec<u64> = Vec::new();
    let mut index: usize = 0;
    proof {
        assert(modifiers@.take(0) =~= Seq::empty());
    }
    while index < modifiers.len()
        invariant
            index <= modifiers@.len(),
            result@ == kept(modifiers@.take(index as int), available@),
        decreases modifiers@.len() - index,
    {
        proof {
            assert(modifiers@.take(index + 1).drop_last() =~= modifiers@.take(index as int));
            assert(modifiers@.take(index + 1).last() == modifiers@[index as int]);
        }
        if holds(available, modifiers[index]) {
            result.push(modifiers[index]);
        }
        index += 1;
    }
    proof {
        assert(modifiers@.take(index as int) =~= modifiers@);
    }
    result
}

fn holds(values: &Vec<u64>, value: u64) -> (found: bool)
    ensures
        found == values@.contains(value),
{
    let mut index: usize = 0;
    while index < values.len()
        invariant
            index <= values@.len(),
            forall|i: int| 0 <= i < index ==> values@[i] != value,
        decreases values@.len() - index,
    {
        if values[index] == value {
            return true;
        }
        index += 1;
    }
    false
}

fn copied(values: &Vec<u64>) -> (copy: Vec<u64>)
    ensures
        copy@ == values@,
{
    let mut copy: Vec<u64> = Vec::new();
    let mut index: usize = 0;
    while index < values.len()
        invariant
            index <= values@.len(),
            copy@ == values@.take(index as int),
        decreases values@.len() - index,
    {
        copy.push(values[index]);
        index += 1;
        proof {
            assert(copy@ =~= values@.take(index as int));
        }
    }
    proof {
        assert(values@.take(index as int) =~= values@);
    }
    copy
}

/// A mode that fails makes the whole fail in the same way.
proof fn common_prefix_error(modes: Seq<DisplayMode>, answers: Seq<Answer>, length: int)
    requires
        0 <= length <= modes.len(),
        common(modes.take(length), answers) is Err,
    ensures
        common(modes, answers) == common(modes.take(length), answers),
    decreases modes.len() - length,
{
    if length < modes.len() {
        assert(modes.take(length + 1).drop_last() =~= modes.take(length));
        common_prefix_error(modes, answers, length + 1);
    } else {
        assert(modes.take(length) =~= modes);
    }
}

/// The size to ask the renderer about next, if there is one: one question for
/// each mode, in order, up to the first failure.
pub fn next_query(modes: &Vec<DisplayMode>, answers: &Vec<Answer>) -> (query: Option<DisplayMode>)
    ensures
        match query {
            Some(mode) => {
                &&& answers@.len() < modes@.len()
                &&& mode == modes@[answers@.len() as int]
                &&& mode.width != 0 && mode.height != 0
                &&& answers@.len() > 0 ==> answers@.last() is Ok
            },
            None => {
                ||| answers@.len() >= modes@.len()
                ||| answers@.len() > 0 && answers@.last() is Err
                ||| modes@[answers@.len() as int].width == 0 || modes@[answers@.len() as int].height
                    == 0
            },
        },
{
    let count: usize = answers.len();
    if count >= modes.len() {
        return None;
    }
    if count > 0 && answers[count - 1].is_err() {
        return None;
    }
    let mode = modes[count];
    if mode.width == 0 || mode.height == 0 {
        return None;
    }
    Some(mode)
}

/// The result says what the modes have in common.
pub open spec fn tells_common(
    result: Result<Vec<u64>, ProbeError>,
    modes: Seq<DisplayMode>,
    answers: Seq<Answer>,
) -> bool {
    match common(modes, answers) {
        Ok(None) => result is Ok && result->Ok_0@ == Seq::<u64>::empty(),
        Ok(Some(modifiers)) => result is Ok && result->Ok_0@ == modifiers,
        Err((kind, message)) => result is Err && result->Err_0.kind == kind
            && result->Err_0.message@ == message,
    }
}

/// There is an answer for every mode, up to the first failure.
pub open spec fn answered(modes: Seq<DisplayMode>, answers: Seq<Answer>) -> bool {
    forall|i: int|
        0 <= i < modes.len() && common(#[trigger] modes.take(i), answers) is Ok && modes[i].width
            != 0 && modes[i].height != 0 ==> i < answers.len()
}

/// The modifiers that are available for every mode.
pub fn common_modifiers(modes: &Vec<DisplayMode>, answers: &Vec<Answer>) -> (result: Result<
    Vec<u64>,
    ProbeError,
>)
    requires
        answered(modes@, answers@),
    ensures
        tells_common(result, modes@, answers@),
{
    let ghost all = modes@;
    let mut found: Option<Vec<u64>> = None;
    let mut index: usize = 0;
    proof {
        assert(all.take(0) =~= Seq::empty());
    }
    while index < modes.len()
        invariant
            index <= modes@.len(),
            all == modes@,
            answered(all, answers@),
            common(all.take(index as int), answers@) == Ok::<
                Option<Seq<u64>>,
                (ProbeErrorKind, Seq<char>),
            >(match found {
                Some(modifiers) => Some(modifiers@),
                None => None,
            }),
        decreases modes@.len() - index,
    {
        let mode = modes[index];
        let ghost upto = all.take(index + 1);
        proof {
            assert(upto.drop_last() =~= all.take(index as int));
            assert(upto.last() == mode);
            if common(upto, answers@) is Err {
                common_prefix_error(all, answers@, index + 1);
            }
        }
        if mode.width == 0 {
            return Err(
                ProbeError {
                    kind: ProbeErrorKind::InvalidInput,
                    message: "zero output width".to_owned(),
                },
            );
        }
        if mode.height == 0 {
            return Err(
                ProbeError {
                    kind: ProbeErrorKind::InvalidInput,
                    message: "zero output height".to_owned(),
                },
            );
        }
        match &answers[index] {
            Err(error) => {
                return Err(ProbeError { kind: error.kind, message: error.message.clone() });
            },
            Ok(available) => {
                found = Some(
                    match &found {
                        None => copied(available),
                        Some(modifiers) => retain(modifiers, available),
                    },
                );
            },
        }
        index += 1;
    }
    proof {
        assert(all.take(index as int) =~= all);
    }
    match found {
        Some(modifiers) => Ok(modifiers),
        None => {
            let none: Vec<u64> = Vec::new();
            proof {
                assert(none@ =~= Seq::<u64>::empty());
            }
            Ok(none)
        },
    }
}

/// The layouts of one rank: each format of a channel order that has so many
/// modifiers.
pub open spec fn rank_layouts(bgra: Seq<u64>, rgba: Seq<u64>, rank: int) -> Seq<RawVideoLayout> {
    (if rank < bgra.len() {
        seq![in_dma_buf(FOURCC_AR24, bgra[rank]), in_dma_buf(FOURCC_XR24, bgra[rank])]
    } else {
        Seq::empty()
    }) + (if rank < rgba.len() {
        seq![in_dma_buf(FOURCC_AB24, rgba[rank]), in_dma_buf(FOURCC_XB24, rgba[rank])]
    } else {
        Seq::empty()
    })
}

/// The layouts of the first ranks.
pub open spec fn ranked_layouts(bgra: Seq<u64>, rgba: Seq<u64>, ranks: int) -> Seq<RawVideoLayout>
    decreases ranks,
{
    if ranks <= 0 {
        Seq::empty()
    } else {
        ranked_layouts(bgra, rgba, ranks - 1) + rank_layouts(bgra, rgba, ranks - 1)
    }
}

/// As much of an offer as is allowed.
pub open spec fn capped(layouts: Seq<RawVideoLayout>) -> Seq<RawVideoLayout> {
    if layouts.len() <= MAX_RAW_VIDEO_LAYOUTS {
        layouts
    } else {
        layouts.take(MAX_RAW_VIDEO_LAYOUTS as int)
    }
}

pub open spec fn longer(left: nat, right: nat) -> nat {
    if left >= right {
        left
    } else {
        right
    }
}

/// The offer for the modifiers of both channel orders.
///
/// The orders share the offer rank by rank: one with an unusually long list
/// does not hide the other.
pub open spec fn offer(bgra: Seq<u64>, rgba: Seq<u64>) -> Seq<RawVideoLayout> {
    capped(
        seq![in_system_memory(FOURCC_XR24)] + ranked_layouts(
            bgra,
            rgba,
            longer(bgra.len(), rgba.len()) as int,
        ),
    )
}

fn push_capped(layouts: &mut Vec<RawVideoLayout>, layout: RawVideoLayout, Ghost(all): Ghost<
    Seq<RawVideoLayout>,
>)
    requires
        old(layouts)@ == capped(all),
    ensures
        final(layouts)@ == capped(all.push(layout)),
{
    if layouts.len() < MAX_RAW_VIDEO_LAYOUTS {
        layouts.push(layout);
    }
    proof {
        assert(layouts@ =~= capped(all.push(layout)));
    }
}

fn build_offer(bgra: &Vec<u64>, rgba: &Vec<u64>) -> (layouts: Vec<RawVideoLayout>)
    ensures
        layouts@ == offer(bgra@, rgba@),
{
    let mut layouts = system_only();
    let ghost mut all: Seq<RawVideoLayout> = seq![in_system_memory(FOURCC_XR24)];
    let ranks: usize = if bgra.len() >= rgba.len() {
        bgra.len()
    } else {
        rgba.len()
    };
    let mut rank: usize = 0;
    proof {
        assert(all + ranked_layouts(bgra@, rgba@, 0) =~= all);
    }
    while rank < ranks
        invariant
            rank <= ranks,
            ranks == longer(bgra@.len(), rgba@.len()),
            all == seq![in_system_memory(FOURCC_XR24)] + ranked_layouts(
                bgra@,
                rgba@,
                rank as int,
            ),
            layouts@ == capped(all),
        decreases ranks - rank,
    {
        let ghost before = all;
        if rank < bgra.len() {
            let first = RawVideoLayout::dma_buf(FOURCC_AR24, bgra[rank]);
            push_capped(&mut layouts, first, Ghost(all));
            proof {
                all = all.push(first);
            }
            let second = RawVideoLayout::dma_buf(FOURCC_XR24, bgra[rank]);
            push_capped(&mut layouts, second, Ghost(all));
            proof {
                all = all.push(second);
            }
        }
        if rank < rgba.len() {
            let first = RawVideoLayout::dma_buf(FOURCC_AB24, rgba[rank]);
            push_capped(&mut layouts, first, Ghost(all));
            proof {
                all = all.push(first);
            }
            let second = RawVideoLayout::dma_buf(FOURCC_XB24, rgba[rank]);
            push_capped(&mut layouts, second, Ghost(all));
            proof {
                all = all.push(second);
            }
        }
        proof {
            assert(all =~= before + rank_layouts(bgra@, rgba@, rank as int));
            assert(all =~= seq![in_system_memory(FOURCC_XR24)] + ranked_layouts(
                bgra@,
                rgba@,
                rank as int + 1,
            ));
        }
        rank += 1;
    }
    layouts
}

/// The modifiers that an order contributes: none, if it could not be asked.
pub open spec fn contributed(
    modes: Seq<DisplayMode>,
    answers: Seq<Answer>,
) -> Seq<u64> {
    match common(modes, answers) {
        Ok(Some(modifiers)) => modifiers,
        _ => Seq::empty(),
    }
}

/// The offer for several display sizes, given the answers for both channel
/// orders. An order that cannot be asked does not hide the other; if neither
/// can, the failure of the first is told.
pub fn for_modes_with(modes: &Vec<DisplayMode>, bgra: &Vec<Answer>, rgba: &Vec<Answer>) -> (result: Result<
    Vec<RawVideoLayout>,
    ProbeError,
>)
    requires
        answered(modes@, bgra@),
        answered(modes@, rgba@),
    ensures
        match (common(modes@, bgra@), common(modes@, rgba@)) {
            (Err((kind, message)), Err(_)) => {
                &&& result is Err
                &&& result->Err_0.kind == kind
                &&& result->Err_0.message@ == message
            },
            _ => result is Ok && result->Ok_0@ == offer(
                contributed(modes@, bgra@),
                contributed(modes@, rgba@),
            ),
        },
{
    let first = common_modifiers(modes, bgra);
    let second = common_modifiers(modes, rgba);
    match (first, second) {
        (Ok(bgra), Ok(rgba)) => Ok(build_offer(&bgra, &rgba)),
        (Ok(bgra), Err(_)) => {
            let none: Vec<u64> = Vec::new();
            proof {
                assert(none@ =~= Seq::<u64>::empty());
            }
            Ok(build_offer(&bgra, &none))
        },
        (Err(_), Ok(rgba)) => {
            let none: Vec<u64> = Vec::new();
            proof {
                assert(none@ =~= Seq::<u64>::empty());
            }
            Ok(build_offer(&none, &rgba))
        },
        (Err(error), Err(_)) => Err(error),
    }
}

proof fn kept_facts(modifiers: Seq<u64>, available: Seq<u64>, modifier: u64)
    ensures
        kept(modifiers, available).contains(modifier) <==> modifiers.contains(modifier)
            && available.contains(modifier),
    decreases modifiers.len(),
{
    if modifiers.len() > 0 {
        let shorter = modifiers.drop_last();
        kept_facts(shorter, available, modifier);
        let all = kept(modifiers, available);
        let earlier = kept(shorter, available);
        if modifiers.contains(modifier) {
            let i = choose|i: int| 0 <= i < modifiers.len() && modifiers[i] == modifier;
            if i < shorter.len() {
                assert(shorter[i] == modifier);
                if earlier.contains(modifier) {
                    let k = choose|k: int| 0 <= k < earlier.len() && earlier[k] == modifier;
                    assert(all[k] == modifier);
                }
            } else if available.contains(modifier) {
                assert(all[earlier.len() as int] == modifier);
            }
        }
        if all.contains(modifier) {
            let k = choose|k: int| 0 <= k < all.len() && all[k] == modifier;
            if k < earlier.len() {
                assert(earlier[k] == modifier);
                let i = choose|i: int| 0 <= i < shorter.len() && shorter[i] == modifier;
                assert(modifiers[i] == modifier);
            } else {
                assert(modifiers[modifiers.len() - 1] == modifier);
            }
        }
    }
}

/// A modifier is common exactly if every mode's answer has it.
pub proof fn common_modifiers_are_available_everywhere(
    modes: Seq<DisplayMode>,
    answers: Seq<Answer>,
    modifier: u64,
)
    requires
        modes.len() > 0,
        common(modes, answers) is Ok,
    ensures
        common(modes, answers)->Ok_0 is Some,
        common(modes, answers)->Ok_0->0.contains(modifier) <==> forall|i: int|
            0 <= i < modes.len() ==> (#[trigger] answers[i])->Ok_0@.contains(modifier),
    decreases modes.len(),
{
    let shorter = modes.drop_last();
    let last = modes.len() - 1;
    if shorter.len() > 0 {
        common_modifiers_are_available_everywhere(shorter, answers, modifier);
        kept_facts(common(shorter, answers)->Ok_0->0, answers[last]->Ok_0@, modifier);
        if forall|i: int|
            0 <= i < shorter.len() ==> (#[trigger] answers[i])->Ok_0@.contains(modifier) {
            if answers[last]->Ok_0@.contains(modifier) {
                assert forall|i: int| 0 <= i < modes.len() implies (
                #[trigger] answers[i])->Ok_0@.contains(modifier) by {
                    if i < shorter.len() {
                    }
                }
            }
        }
    } else {
        assert(common(shorter, answers) == Ok::<
            Option<Seq<u64>>,
            (ProbeErrorKind, Seq<char>),
        >(None));
        if answers[0]->Ok_0@.contains(modifier) {
            assert forall|i: int| 0 <= i < modes.len() implies (
            #[trigger] answers[i])->Ok_0@.contains(modifier) by {
                assert(i == 0);
            }
        }
    }
}

/// An offer starts with system memory and keeps its bound.
pub proof fn offers_are_bounded(bgra: Seq<u64>, rgba: Seq<u64>)
    ensures
        0 < offer(bgra, rgba).len() <= MAX_RAW_VIDEO_LAYOUTS,
        offer(bgra, rgba)[0] == in_system_memory(FOURCC_XR24),
{
}

/// The first modifier of each channel order is offered in both of its formats,
/// however long the other's list is.
pub proof fn both_orders_are_offered(bgra: Seq<u64>, rgba: Seq<u64>)
    ensures
        bgra.len() > 0 ==> offer(bgra, rgba).contains(in_dma_buf(FOURCC_AR24, bgra[0])) && offer(
            bgra,
            rgba,
        ).contains(in_dma_buf(FOURCC_XR24, bgra[0])),
        rgba.len() > 0 ==> offer(bgra, rgba).contains(in_dma_buf(FOURCC_AB24, rgba[0])) && offer(
            bgra,
            rgba,
        ).contains(in_dma_buf(FOURCC_XB24, rgba[0])),
{
    let ranks = longer(bgra.len(), rgba.len()) as int;
    let all = seq![in_system_memory(FOURCC_XR24)] + ranked_layouts(bgra, rgba, ranks);
    let offered = offer(bgra, rgba);
    if ranks > 0 {
        first_rank_comes_first(bgra, rgba, ranks);
        let row = rank_layouts(bgra, rgba, 0);
        assert(row.len() <= 4);
        assert forall|i: int| 0 <= i < row.len() implies #[trigger] offered[i + 1] == row[i] by {
            assert(all[i + 1] == ranked_layouts(bgra, rgba, ranks)[i]);
        }
        if bgra.len() > 0 {
            assert(offered[1] == row[0] && offered[2] == row[1]);
        }
        if rgba.len() > 0 {
            let skip: int = if bgra.len() > 0 {
                2
            } else {
                0
            };
            assert(offered[skip + 1] == row[skip] && offered[skip + 2] == row[skip + 1]);
        }
    }
}

proof fn first_rank_comes_first(bgra: Seq<u64>, rgba: Seq<u64>, ranks: int)
    requires
        ranks > 0,
    ensures
        rank_layouts(bgra, rgba, 0).is_prefix_of(ranked_layouts(bgra, rgba, ranks)),
    decreases ranks,
{
    if ranks > 1 {
        first_rank_comes_first(bgra, rgba, ranks - 1);
        let earlier = ranked_layouts(bgra, rgba, ranks - 1);
        let row = rank_layouts(bgra, rgba, 0);
        assert(ranked_layouts(bgra, rgba, ranks).take(row.len() as int) =~= earlier.take(
            row.len() as int,
        ));
    } else {
        assert(ranked_layouts(bgra, rgba, 0) =~= Seq::empty());
        assert(ranked_layouts(bgra, rgba, 1) =~= rank_layouts(bgra, rgba, 0));
    }
}

/// The codes of the pixel formats spell their names, first letter in the lowest
/// byte.
pub proof fn format_codes_spell_their_names()
    ensures
        FOURCC_AR24 == 'A' as int + 0x100 * ('R' as int) + 0x1_0000 * ('2' as int) + 0x100_0000 * (
        '4' as int),
        FOURCC_XR24 == 'X' as int + 0x100 * ('R' as int) + 0x1_0000 * ('2' as int) + 0x100_0000 * (
        '4' as int),
        FOURCC_AB24 == 'A' as int + 0x100 * ('B' as int) + 0x1_0000 * ('2' as int) + 0x100_0000 * (
        '4' as int),
        FOURCC_XB24 == 'X' as int + 0x100 * ('B' as int) + 0x1_0000 * ('2' as int) + 0x100_0000 * (
        '4' as int),
{
}

/// The lower of two numbers.
pub open spec fn lower(left: int, right: int) -> int {
    if left <= right {
        left
    } else {
        right
    }
}

/// How many layouts come before those of a rank, after the one in system memory.
pub open spec fn layouts_before(bgra: Seq<u64>, rgba: Seq<u64>, rank: int) -> int {
    2 * lower(rank, bgra.len() as int) + 2 * lower(rank, rgba.len() as int)
}

proof fn ranks_have_their_places(bgra: Seq<u64>, rgba: Seq<u64>, ranks: int)
    requires
        ranks >= 0,
    ensures
        ranked_layouts(bgra, rgba, ranks).len() == layouts_before(bgra, rgba, ranks),
        forall|k: int, i: int|
            0 <= k < ranks && 0 <= i < rank_layouts(bgra, rgba, k).len()
                ==> #[trigger] ranked_layouts(bgra, rgba, ranks)[layouts_before(bgra, rgba, k) + i]
                == #[trigger] rank_layouts(bgra, rgba, k)[i],
    decreases ranks,
{
    if ranks > 0 {
        ranks_have_their_places(bgra, rgba, ranks - 1);
        let earlier = ranked_layouts(bgra, rgba, ranks - 1);
        let all = ranked_layouts(bgra, rgba, ranks);
        assert forall|k: int, i: int|
            0 <= k < ranks && 0 <= i < rank_layouts(bgra, rgba, k).len() implies #[trigger] all[
        layouts_before(bgra, rgba, k) + i] == #[trigger] rank_layouts(bgra, rgba, k)[i] by {
            if k < ranks - 1 {
                assert(
                    earlier[layouts_before(bgra, rgba, k) + i] == rank_layouts(bgra, rgba, k)[i]
                );
                assert(layouts_before(bgra, rgba, k) + i < earlier.len());
            }
        }
    }
}

/// The offer has one layout in system memory, and two for each common modifier: the
/// formats with and without an alpha channel. The modifiers take turns by their
/// rank, those of the order that begins with blue before those that begins with red,
/// up to sixty-four layouts in all.
pub proof fn modifiers_are_offered_by_their_rank(bgra: Seq<u64>, rgba: Seq<u64>, rank: int)
    requires
        rank >= 0,
    ensures
        ({
            let offered = offer(bgra, rgba);
            let place = 1 + 2 * lower(rank, bgra.len() as int) + 2 * lower(rank, rgba.len() as int);
            let after = place + if rank < bgra.len() {
                2int
            } else {
                0
            };
            &&& offered.len() == lower(64, (1 + 2 * bgra.len() + 2 * rgba.len()) as int)
            &&& offered[0] == (RawVideoLayout {
                fourcc: 0x3432_5258,
                memory: RawVideoMemory::System,
            })
            &&& rank < bgra.len() && place < 64 ==> offered[place] == (RawVideoLayout {
                fourcc: 0x3432_5241,
                memory: RawVideoMemory::DmaBuf { modifier: bgra[rank] },
            })
            &&& rank < bgra.len() && place + 1 < 64 ==> offered[place + 1] == (RawVideoLayout {
                fourcc: 0x3432_5258,
                memory: RawVideoMemory::DmaBuf { modifier: bgra[rank] },
            })
            &&& rank < rgba.len() && after < 64 ==> offered[after] == (RawVideoLayout {
                fourcc: 0x3432_4241,
                memory: RawVideoMemory::DmaBuf { modifier: rgba[rank] },
            })
            &&& rank < rgba.len() && after + 1 < 64 ==> offered[after + 1] == (RawVideoLayout {
                fourcc: 0x3432_4258,
                memory: RawVideoMemory::DmaBuf { modifier: rgba[rank] },
            })
        }),
{
    let ranks = longer(bgra.len(), rgba.len()) as int;
    ranks_have_their_places(bgra, rgba, ranks);
    let listed = ranked_layouts(bgra, rgba, ranks);
    let all = seq![in_system_memory(FOURCC_XR24)] + listed;
    let row = rank_layouts(bgra, rgba, rank);
    let before = layouts_before(bgra, rgba, rank);
    assert(offer(bgra, rgba) == capped(all));
    if rank < ranks {
        assert forall|i: int| 0 <= i < row.len() implies #[trigger] all[1 + before + i] == row[i] by {
            assert(listed[before + i] == row[i]);
        }
        if rank < bgra.len() {
            assert(all[1 + before + 0] == row[0]);
            assert(all[1 + before + 1] == row[1]);
        }
        if rank < rgba.len() {
            let skip: int = if rank < bgra.len() {
                2
            } else {
                0
            };
            assert(all[1 + before + skip] == row[skip]);
            assert(all[1 + before + (skip + 1)] == row[skip + 1]);
        }
    }
}

proof fn listed_layouts_come_from_a_modifier(bgra: Seq<u64>, rgba: Seq<u64>, ranks: int, index: int)
    requires
        0 <= index < ranked_layouts(bgra, rgba, ranks).len(),
    ensures
        exists|rank: int|
            #![trigger layouts_before(bgra, rgba, rank)]
            0 <= rank < ranks && {
                let place = index - layouts_before(bgra, rgba, rank);
                &&& 0 <= place < rank_layouts(bgra, rgba, rank).len()
                &&& ranked_layouts(bgra, rgba, ranks)[index] == rank_layouts(
                    bgra,
                    rgba,
                    rank,
                )[place]
            },
    decreases ranks,
{
    if ranks > 0 {
        ranks_have_their_places(bgra, rgba, ranks - 1);
        let earlier = ranked_layouts(bgra, rgba, ranks - 1);
        if index < earlier.len() {
            listed_layouts_come_from_a_modifier(bgra, rgba, ranks - 1, index);
            let rank = choose|rank: int|
                #![trigger layouts_before(bgra, rgba, rank)]
                0 <= rank < ranks - 1 && {
                    let place = index - layouts_before(bgra, rgba, rank);
                    &&& 0 <= place < rank_layouts(bgra, rgba, rank).len()
                    &&& earlier[index] == rank_layouts(bgra, rgba, rank)[place]
                };
            assert(ranked_layouts(bgra, rgba, ranks)[index] == earlier[index]);
            assert(layouts_before(bgra, rgba, rank) <= index);
        } else {
            assert(layouts_before(bgra, rgba, ranks - 1) == earlier.len());
        }
    }
}

/// The channel order of a format has the modifier.
pub open spec fn order_has(bgra: Seq<u64>, rgba: Seq<u64>, fourcc: u32, modifier: u64) -> bool {
    ||| (fourcc == 0x3432_5241 || fourcc == 0x3432_5258) && bgra.contains(modifier)
    ||| (fourcc == 0x3432_4241 || fourcc == 0x3432_4258) && rgba.contains(modifier)
}

/// A layout in a buffer of the renderer is offered only if the channel order of its
/// format has its modifier; and, as long as the whole offer fits its bound, it is
/// offered whenever that is so, whatever the modifier's rank.
pub proof fn exactly_common_modifiers_are_offered(
    bgra: Seq<u64>,
    rgba: Seq<u64>,
    fourcc: u32,
    modifier: u64,
)
    ensures
        offer(bgra, rgba).contains(
            RawVideoLayout { fourcc, memory: RawVideoMemory::DmaBuf { modifier } },
        ) ==> order_has(bgra, rgba, fourcc, modifier),
        1 + 2 * bgra.len() + 2 * rgba.len() <= 64 ==> (offer(bgra, rgba).contains(
            RawVideoLayout { fourcc, memory: RawVideoMemory::DmaBuf { modifier } },
        ) <==> order_has(bgra, rgba, fourcc, modifier)),
{
    let layout = RawVideoLayout { fourcc, memory: RawVideoMemory::DmaBuf { modifier } };
    let offered = offer(bgra, rgba);
    let ranks = longer(bgra.len(), rgba.len()) as int;
    let listed = ranked_layouts(bgra, rgba, ranks);
    ranks_have_their_places(bgra, rgba, ranks);
    if offered.contains(layout) {
        let i = choose|i: int| 0 <= i < offered.len() && offered[i] == layout;
        assert(i > 0);
        assert(listed[i - 1] == layout);
        listed_layouts_come_from_a_modifier(bgra, rgba, ranks, i - 1);
        let rank = choose|rank: int|
            #![trigger layouts_before(bgra, rgba, rank)]
            0 <= rank < ranks && {
                let place = i - 1 - layouts_before(bgra, rgba, rank);
                &&& 0 <= place < rank_layouts(bgra, rgba, rank).len()
                &&& listed[i - 1] == rank_layouts(bgra, rgba, rank)[place]
            };
        if rank < bgra.len() {
            assert(bgra.contains(bgra[rank]));
        }
        if rank < rgba.len() {
            assert(rgba.contains(rgba[rank]));
        }
    }
    if 1 + 2 * bgra.len() + 2 * rgba.len() <= 64 && order_has(bgra, rgba, fourcc, modifier) {
        if fourcc == 0x3432_5241 || fourcc == 0x3432_5258 {
            let rank = choose|rank: int| 0 <= rank < bgra.len() && bgra[rank] == modifier;
            modifiers_are_offered_by_their_rank(bgra, rgba, rank);
            let place = 1 + layouts_before(bgra, rgba, rank);
            assert(offered[place].fourcc == 0x3432_5241 && offered[place + 1].fourcc
                == 0x3432_5258);
            assert(offered[place] == layout || offered[place + 1] == layout);
        } else {
            let rank = choose|rank: int| 0 <= rank < rgba.len() && rgba[rank] == modifier;
            modifiers_are_offered_by_their_rank(bgra, rgba, rank);
            let place = 1 + layouts_before(bgra, rgba, rank) + if rank < bgra.len() {
                2int
            } else {
                0
            };
            assert(offered[place].fourcc == 0x3432_4241 && offered[place + 1].fourcc
                == 0x3432_4258);
            assert(offered[place] == layout || offered[place + 1] == layout);
        }
    }
}

/// Where no modifier is listed twice, no layout is offered twice.
pub proof fn no_layout_is_offered_twice(bgra: Seq<u64>, rgba: Seq<u64>, left: int, right: int)
    requires
        bgra.no_duplicates(),
        rgba.no_duplicates(),
        0 <= left < right < offer(bgra, rgba).len(),
    ensures
        offer(bgra, rgba)[left] != offer(bgra, rgba)[right],
{
    let ranks = longer(bgra.len(), rgba.len()) as int;
    let listed = ranked_layouts(bgra, rgba, ranks);
    ranks_have_their_places(bgra, rgba, ranks);
    let offered = offer(bgra, rgba);
    assert(offered[right] == listed[right - 1]);
    listed_layouts_come_from_a_modifier(bgra, rgba, ranks, right - 1);
    let last = choose|rank: int|
        #![trigger layouts_before(bgra, rgba, rank)]
        0 <= rank < ranks && {
            let place = right - 1 - layouts_before(bgra, rgba, rank);
            &&& 0 <= place < rank_layouts(bgra, rgba, rank).len()
            &&& listed[right - 1] == rank_layouts(bgra, rgba, rank)[place]
        };
    if left > 0 {
        assert(offered[left] == listed[left - 1]);
        listed_layouts_come_from_a_modifier(bgra, rgba, ranks, left - 1);
        let first = choose|rank: int|
            #![trigger layouts_before(bgra, rgba, rank)]
            0 <= rank < ranks && {
                let place = left - 1 - layouts_before(bgra, rgba, rank);
                &&& 0 <= place < rank_layouts(bgra, rgba, rank).len()
                &&& listed[left - 1] == rank_layouts(bgra, rgba, rank)[place]
            };
        if first == last {
        } else {
            if first < bgra.len() && last < bgra.len() {
                assert(bgra[first] != bgra[last]);
            }
            if first < rgba.len() && last < rgba.len() {
                assert(rgba[first] != rgba[last]);
            }
        }
    }
}

/// A mode has an area, and the renderer answered for it.
pub open spec fn usable(mode: DisplayMode, answer: Answer) -> bool {
    mode.width > 0 && mode.height > 0 && answer is Ok
}

/// A channel order fails exactly if one of the modes has no area or could not be
/// answered for, and it fails with the first of those.
pub proof fn the_first_failure_is_told(modes: Seq<DisplayMode>, answers: Seq<Answer>, first: int)
    requires
        0 <= first < modes.len(),
        !usable(modes[first], answers[first]),
        forall|i: int| 0 <= i < first ==> usable(#[trigger] modes[i], answers[i]),
    ensures
        common(modes, answers) is Err,
        modes[first].width == 0 ==> common(modes, answers)->Err_0 == (
            ProbeErrorKind::InvalidInput,
            "zero output width"@,
        ),
        modes[first].width > 0 && modes[first].height == 0 ==> common(modes, answers)->Err_0 == (
            ProbeErrorKind::InvalidInput,
            "zero output height"@,
        ),
        modes[first].width > 0 && modes[first].height > 0 ==> answers[first] is Err && common(
            modes,
            answers,
        )->Err_0 == (answers[first]->Err_0.kind, answers[first]->Err_0.message@),
    decreases modes.len(),
{
    let shorter = modes.drop_last();
    if first < shorter.len() {
        assert(shorter[first] == modes[first]);
        assert forall|i: int| 0 <= i < first implies usable(#[trigger] shorter[i], answers[i]) by {
            assert(shorter[i] == modes[i]);
        }
        the_first_failure_is_told(shorter, answers, first);
    } else {
        assert forall|i: int| 0 <= i < shorter.len() implies usable(
            #[trigger] shorter[i],
            answers[i],
        ) by {
            assert(shorter[i] == modes[i]);
        }
        usable_modes_do_not_fail(shorter, answers);
    }
}

/// A channel order whose modes all have an area, and an answer, does not fail.
pub proof fn usable_modes_do_not_fail(modes: Seq<DisplayMode>, answers: Seq<Answer>)
    requires
        forall|i: int| 0 <= i < modes.len() ==> usable(#[trigger] modes[i], answers[i]),
    ensures
        common(modes, answers) is Ok,
    decreases modes.len(),
{
    if modes.len() > 0 {
        let shorter = modes.drop_last();
        assert forall|i: int| 0 <= i < shorter.len() implies usable(
            #[trigger] shorter[i],
            answers[i],
        ) by {
            assert(shorter[i] == modes[i]);
        }
        usable_modes_do_not_fail(shorter, answers);
        assert(usable(modes[modes.len() - 1], answers[modes.len() - 1]));
    }
}

/// Items that come one after the other in one list do so in another.
pub open spec fn ordered_as(part: Seq<u64>, whole: Seq<u64>) -> bool {
    forall|p: int, q: int|
        #![trigger part[p], part[q]]
        0 <= p < q < part.len() ==> comes_before(whole, part[p], part[q])
}

/// One item comes before another.
pub open spec fn comes_before(list: Seq<u64>, first: u64, second: u64) -> bool {
    exists|i: int, j: int|
        #![trigger list[i], list[j]]
        0 <= i < j < list.len() && list[i] == first && list[j] == second
}

proof fn kept_modifiers_keep_their_order(modifiers: Seq<u64>, available: Seq<u64>)
    ensures
        ordered_as(kept(modifiers, available), modifiers),
    decreases modifiers.len(),
{
    if modifiers.len() > 0 {
        let shorter = modifiers.drop_last();
        let earlier = kept(shorter, available);
        let all = kept(modifiers, available);
        kept_modifiers_keep_their_order(shorter, available);
        assert forall|p: int, q: int|
            #![trigger all[p], all[q]]
            0 <= p < q < all.len() implies comes_before(modifiers, all[p], all[q]) by {
            if q < earlier.len() {
                assert(all[p] == earlier[p] && all[q] == earlier[q]);
                assert(comes_before(shorter, earlier[p], earlier[q]));
                let (i, j) = choose|i: int, j: int|
                    #![trigger shorter[i], shorter[j]]
                    0 <= i < j < shorter.len() && shorter[i] == earlier[p] && shorter[j]
                        == earlier[q];
                assert(modifiers[i] == all[p] && modifiers[j] == all[q]);
            } else {
                assert(all[p] == earlier[p]);
                kept_facts(shorter, available, earlier[p]);
                assert(earlier.contains(earlier[p]));
                let i = choose|i: int| 0 <= i < shorter.len() && shorter[i] == earlier[p];
                assert(modifiers[i] == all[p]);
                assert(modifiers[modifiers.len() - 1] == all[q]);
            }
        }
    }
}

/// Common modifiers keep the order in which the renderer prefers them for the first
/// mode.
pub proof fn common_modifiers_keep_their_order(modes: Seq<DisplayMode>, answers: Seq<Answer>)
    requires
        modes.len() > 0,
        common(modes, answers) is Ok,
        answers[0]->Ok_0@.no_duplicates(),
    ensures
        common(modes, answers)->Ok_0 is Some,
        ordered_as(common(modes, answers)->Ok_0->0, answers[0]->Ok_0@),
        common(modes, answers)->Ok_0->0.no_duplicates(),
    decreases modes.len(),
{
    let shorter = modes.drop_last();
    let whole = answers[0]->Ok_0@;
    if shorter.len() == 0 {
        assert(common(shorter, answers) == Ok::<
            Option<Seq<u64>>,
            (ProbeErrorKind, Seq<char>),
        >(None));
        assert forall|p: int, q: int|
            #![trigger whole[p], whole[q]]
            0 <= p < q < whole.len() implies comes_before(whole, whole[p], whole[q]) by {}
    } else {
        common_modifiers_keep_their_order(shorter, answers);
        let earlier = common(shorter, answers)->Ok_0->0;
        let last = answers[modes.len() - 1]->Ok_0@;
        let all = common(modes, answers)->Ok_0->0;
        kept_modifiers_keep_their_order(earlier, last);
        assert forall|p: int, q: int|
            #![trigger all[p], all[q]]
            0 <= p < q < all.len() implies comes_before(whole, all[p], all[q]) && all[p]
            != all[q] by {
            assert(comes_before(earlier, all[p], all[q]));
            let (i, j) = choose|i: int, j: int|
                #![trigger earlier[i], earlier[j]]
                0 <= i < j < earlier.len() && earlier[i] == all[p] && earlier[j] == all[q];
            assert(comes_before(whole, earlier[i], earlier[j]));
            assert(earlier[i] != earlier[j]);
        }
    }
}

/// An order that could not be asked takes nothing away from the other, and adds
/// nothing to it.
pub proof fn failed_orders_hide_nothing(modes: Seq<DisplayMode>, answers: Seq<Answer>)
    ensures
        common(modes, answers) is Err ==> contributed(modes, answers).len() == 0,
        common(modes, answers) is Ok && modes.len() > 0 ==> Some(contributed(modes, answers))
            == common(modes, answers)->Ok_0,
        modes.len() == 0 ==> contributed(modes, answers).len() == 0,
{
    if modes.len() > 0 && common(modes, answers) is Ok {
        common_modifiers_are_available_everywhere(modes, answers, 0);
    }
}

/// A renderer that cannot be asked leaves one layout: system memory, without alpha.
pub proof fn without_a_renderer_system_memory_is_left()
    ensures
        without_renderer().raw_layouts.len() == 1,
        without_renderer().raw_layouts[0].memory == RawVideoMemory::System,
        without_renderer().raw_layouts[0].fourcc == 0x3432_5258,
        without_renderer().mode_raw_layouts.len() == 0,
        offer(Seq::empty(), Seq::empty()) == without_renderer().raw_layouts,
{
    assert(ranked_layouts(Seq::empty(), Seq::empty(), 0) =~= Seq::empty());
    assert(offer(Seq::empty(), Seq::empty()) =~= without_renderer().raw_layouts);
}

} // verus!
