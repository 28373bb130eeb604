//! Surface capability negotiation.
//!
//! The graphics backend reports, for an (adapter, surface) pair, the pixel
//! formats, presentation modes and alpha-compositing modes it supports.
//! This module picks one of each by a deterministic priority: formats are
//! scored by component count and sRGB encoding (eligible formats only),
//! presentation modes by a fixed rank that prefers tear-free vsync, and the
//! alpha mode is the first one reported.

use vstd::prelude::*;

verus! {

/// What the negotiation reads of one pixel format: whether its sample type
/// is floating point (as opposed to a depth/stencil or integer format),
/// whether its guaranteed features allow use as a color render target, its
/// component count, and whether it is sRGB-encoded. Real backends report
/// between one and four components.
#[derive(Clone, Copy, Debug, PartialEq, Eq, Structural)]
pub struct FormatInfo {
    pub float_sample: bool,
    pub render_attachment: bool,
    pub components: u8,
    pub srgb: bool,
}

/// A format may be rendered to only if it is float-sampled and usable as a
/// color render target.
pub open spec fn format_eligible(f: FormatInfo) -> bool {
    f.float_sample && f.render_attachment
}

/// Priority of a format: ineligible formats score 0; eligible ones score
/// twice their component count, plus one if sRGB-encoded.
pub open spec fn spec_format_score(f: FormatInfo) -> int {
    if format_eligible(f) {
        f.components * 2 + (if f.srgb { 1int } else { 0int })
    } else {
        0
    }
}

/// Computes the priority score of one reported format.
pub fn format_score(f: &FormatInfo) -> (score: u32)
    ensures
        score == spec_format_score(*f),
{
    if f.float_sample && f.render_attachment {
        (f.components as u32) * 2 + (if f.srgb { 1 } else { 0 })
    } else {
        0
    }
}

/// Position `i` holds the winning format of the list: no format scores
/// higher, and every format reported before it scores strictly lower
/// (ties are broken by the backend's reporting order).
pub open spec fn best_format_at(formats: Seq<FormatInfo>, i: int) -> bool {
    &&& 0 <= i < formats.len()
    &&& forall|j: int|
        0 <= j < formats.len() ==> spec_format_score(formats[j]) <= spec_format_score(formats[i])
    &&& forall|j: int| 0 <= j < i ==> spec_format_score(formats[j]) < spec_format_score(formats[i])
}

/// Selects the surface format: the first format of maximal score, or
/// `None` when the backend reported no formats at all.
pub fn select_format(formats: &Vec<FormatInfo>) -> (r: Option<usize>)
    ensures
        r is None <==> formats@.len() == 0,
        r matches Some(i) ==> best_format_at(formats@, i as int),
{
    if formats.len() == 0 {
        return None;
    }
    let mut best: usize = 0;
    let mut best_score: u32 = format_score(&formats[0]);
    let mut k: usize = 1;
    while k < formats.len()
        invariant
            1 <= k <= formats@.len(),
            best < k,
            best_score == spec_format_score(formats@[best as int]),
            forall|j: int|
                0 <= j < k ==> spec_format_score(formats@[j]) <= spec_format_score(
                    formats@[best as int],
                ),
            forall|j: int|
                0 <= j < best ==> spec_format_score(formats@[j]) < spec_format_score(
                    formats@[best as int],
                ),
        decreases formats@.len() - k,
    {
        let score = format_score(&formats[k]);
        if score > best_score {
            best = k;
            best_score = score;
        }
        k = k + 1;
    }
    Some(best)
}

/// If any reported format is eligible, the winning format is eligible:
/// the degraded score-0 path is taken only when no float-sampled,
/// render-target-capable format exists. Holds for capability lists whose
/// formats have at least one component, as real backends report.
pub proof fn lemma_selected_format_eligible(formats: Seq<FormatInfo>, i: int)
    requires
        best_format_at(formats, i),
        forall|j: int| 0 <= j < formats.len() ==> formats[j].components >= 1,
        exists|j: int| 0 <= j < formats.len() && format_eligible(formats[j]),
    ensures
        format_eligible(formats[i]),
{
    let j = choose|j: int| 0 <= j < formats.len() && format_eligible(formats[j]);
    assert(spec_format_score(formats[j]) >= 2);
    assert(spec_format_score(formats[i]) >= spec_format_score(formats[j]));
}

/// When no reported format is eligible at all, every format scores 0 and
/// the selection degrades to the first format in the backend's reporting
/// order.
pub proof fn lemma_no_eligible_falls_back_to_first(formats: Seq<FormatInfo>, i: int)
    requires
        best_format_at(formats, i),
        forall|j: int| 0 <= j < formats.len() ==> !format_eligible(#[trigger] formats[j]),
    ensures
        i == 0,
        spec_format_score(formats[i]) == 0,
{
    assert(spec_format_score(formats[i]) == 0);
    if i != 0 {
        assert(spec_format_score(formats[0]) < spec_format_score(formats[i]));
    }
}

/// The synchronization policies a surface can present with; the names
/// follow the backend's.
#[derive(Clone, Copy, Debug, PartialEq, Eq, Structural)]
pub enum PresentMode {
    /// Strict vsync, never tears, framerate capped at the refresh rate.
    Fifo,
    /// Vsync that may tear when the framerate falls below the refresh rate.
    FifoRelaxed,
    /// Backend-chosen vsync-respecting mode.
    AutoVsync,
    /// Low-latency, no tearing, framerate may exceed the refresh rate.
    Mailbox,
    /// No synchronization at all; presents immediately.
    Immediate,
    /// Backend-chosen mode that does not promise vsync.
    AutoNoVsync,
}

/// Fixed total order over presentation modes, independent of the order the
/// backend reports them in: tear-free capped vsync ranks highest, uncapped
/// unsynchronized modes lowest.
pub open spec fn spec_mode_rank(m: PresentMode) -> int {
    match m {
        PresentMode::Fifo => 10,
        PresentMode::FifoRelaxed => 9,
        PresentMode::AutoVsync => 8,
        PresentMode::Mailbox => 7,
        PresentMode::Immediate => 6,
        PresentMode::AutoNoVsync => 5,
    }
}

/// Computes the fixed rank of one presentation mode.
pub fn mode_rank(m: PresentMode) -> (rank: u32)
    ensures
        rank == spec_mode_rank(m),
{
    match m {
        PresentMode::Fifo => 10,
        PresentMode::FifoRelaxed => 9,
        PresentMode::AutoVsync => 8,
        PresentMode::Mailbox => 7,
        PresentMode::Immediate => 6,
        PresentMode::AutoNoVsync => 5,
    }
}

/// Position `i` holds the winning presentation mode of the list: no mode
/// ranks higher, and every mode reported before it ranks strictly lower.
pub open spec fn best_mode_at(modes: Seq<PresentMode>, i: int) -> bool {
    &&& 0 <= i < modes.len()
    &&& forall|j: int| 0 <= j < modes.len() ==> spec_mode_rank(modes[j]) <= spec_mode_rank(modes[i])
    &&& forall|j: int| 0 <= j < i ==> spec_mode_rank(modes[j]) < spec_mode_rank(modes[i])
}

/// Selects the presentation mode: the first mode of maximal rank, or
/// `None` when the backend reported no modes at all.
pub fn select_present_mode(modes: &Vec<PresentMode>) -> (r: Option<usize>)
    ensures
        r is None <==> modes@.len() == 0,
        r matches Some(i) ==> best_mode_at(modes@, i as int),
{
    if modes.len() == 0 {
        return None;
    }
    let mut best: usize = 0;
    let mut best_rank: u32 = mode_rank(modes[0]);
    let mut k: usize = 1;
    while k < modes.len()
        invariant
            1 <= k <= modes@.len(),
            best < k,
            best_rank == spec_mode_rank(modes@[best as int]),
            forall|j: int|
                0 <= j < k ==> spec_mode_rank(modes@[j]) <= spec_mode_rank(modes@[best as int]),
            forall|j: int|
                0 <= j < best ==> spec_mode_rank(modes@[j]) < spec_mode_rank(modes@[best as int]),
        decreases modes@.len() - k,
    {
        let rank = mode_rank(modes[k]);
        if rank > best_rank {
            best = k;
            best_rank = rank;
        }
        k = k + 1;
    }
    Some(best)
}

/// The alpha-compositing modes a surface can be configured with; the names
/// follow the backend's. No scoring: the first reported mode is taken.
#[derive(Clone, Copy, Debug, PartialEq, Eq, Structural)]
pub enum AlphaMode {
    Auto,
    Opaque,
    PreMultiplied,
    PostMultiplied,
    Inherit,
}

/// Why negotiation failed: the backend reported no entry in one of the
/// three capability lists, so no usable surface configuration exists.
/// Startup-fatal by design; there is no fallback rendering path.
#[derive(Clone, Copy, Debug, PartialEq, Eq, Structural)]
pub enum NegotiationError {
    NoFormat,
    NoPresentMode,
    NoAlphaMode,
}

/// The usage bits a negotiated surface is configured with: usable as a
/// color render target, and nothing else.
pub const RENDER_ATTACHMENT_USAGE: u32 = 16;

/// The surface configuration the negotiation settles on. The format is
/// given as an index into the reported format list, so the caller can
/// recover the backend's own format value; width and height are the
/// window's pixel size at negotiation time.
#[derive(Clone, Copy, Debug, PartialEq, Eq, Structural)]
pub struct ChosenConfiguration {
    pub format_index: usize,
    pub present_mode: PresentMode,
    pub alpha_mode: AlphaMode,
    pub width: u32,
    pub height: u32,
    pub usage_bits: u32,
}

/// The configuration's invariant against the capability lists it was
/// chosen from: the format index points into the format list, the
/// presentation mode was reported, and the alpha mode is the first
/// reported one.
pub open spec fn configuration_consistent(
    c: ChosenConfiguration,
    formats: Seq<FormatInfo>,
    modes: Seq<PresentMode>,
    alpha_modes: Seq<AlphaMode>,
) -> bool {
    &&& c.format_index < formats.len()
    &&& exists|i: int| 0 <= i < modes.len() && modes[i] == c.present_mode
    &&& alpha_modes.len() > 0
    &&& c.alpha_mode == alpha_modes[0]
    &&& c.usage_bits == RENDER_ATTACHMENT_USAGE
}

/// Negotiates the surface configuration from the reported capability
/// lists and the window's pixel size: the best format by score, the best
/// presentation mode by rank, the first alpha mode. Fails exactly when one
/// of the three lists is empty, naming the first empty list.
pub fn negotiate(
    formats: &Vec<FormatInfo>,
    modes: &Vec<PresentMode>,
    alpha_modes: &Vec<AlphaMode>,
    width: u32,
    height: u32,
) -> (r: Result<ChosenConfiguration, NegotiationError>)
    ensures
        r is Err <==> (formats@.len() == 0 || modes@.len() == 0 || alpha_modes@.len() == 0),
        r == Result::<ChosenConfiguration, NegotiationError>::Err(NegotiationError::NoFormat)
            <==> formats@.len() == 0,
        r == Result::<ChosenConfiguration, NegotiationError>::Err(NegotiationError::NoPresentMode)
            <==> (formats@.len() > 0 && modes@.len() == 0),
        r == Result::<ChosenConfiguration, NegotiationError>::Err(NegotiationError::NoAlphaMode)
            <==> (formats@.len() > 0 && modes@.len() > 0 && alpha_modes@.len() == 0),
        r matches Ok(c) ==> {
            &&& configuration_consistent(c, formats@, modes@, alpha_modes@)
            &&& best_format_at(formats@, c.format_index as int)
            &&& exists|i: int| 0 <= i < modes@.len() && modes@[i] == c.present_mode
                && best_mode_at(modes@, i)
            &&& c.width == width
            &&& c.height == height
        },
{
    let format_index = match select_format(formats) {
        Some(i) => i,
        None => {
            return Err(NegotiationError::NoFormat);
        },
    };
    let mode_index = match select_present_mode(modes) {
        Some(i) => i,
        None => {
            return Err(NegotiationError::NoPresentMode);
        },
    };
    if alpha_modes.len() == 0 {
        return Err(NegotiationError::NoAlphaMode);
    }
    Ok(
        ChosenConfiguration {
            format_index,
            present_mode: modes[mode_index],
            alpha_mode: alpha_modes[0],
            width,
            height,
            usage_bits: RENDER_ATTACHMENT_USAGE,
        },
    )
}

} // verus!
