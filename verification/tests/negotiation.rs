use hexscene::caps::AlphaMode;
use hexscene::caps::ChosenConfiguration;
use hexscene::caps::FormatInfo;
use hexscene::caps::NegotiationError;
use hexscene::caps::PresentMode;
use hexscene::caps::RENDER_ATTACHMENT_USAGE;
use hexscene::caps::format_score;
use hexscene::caps::mode_rank;
use hexscene::caps::negotiate;
use hexscene::caps::select_format;
use hexscene::caps::select_present_mode;

fn fmt(float_sample: bool, render_attachment: bool, components: u8, srgb: bool) -> FormatInfo {
    FormatInfo { float_sample, render_attachment, components, srgb }
}

#[test]
fn format_scores_concrete() {
    // Four-component sRGB, four-component linear, three-component sRGB.
    assert_eq!(format_score(&fmt(true, true, 4, true)), 9);
    assert_eq!(format_score(&fmt(true, true, 4, false)), 8);
    assert_eq!(format_score(&fmt(true, true, 3, true)), 7);
    // Ineligible formats score zero whatever their shape.
    assert_eq!(format_score(&fmt(false, true, 4, true)), 0);
    assert_eq!(format_score(&fmt(true, false, 4, true)), 0);
}

#[test]
fn select_format_prefers_srgb_four_component() {
    let formats = vec![
        fmt(true, true, 4, true),  // score 9
        fmt(true, true, 4, false), // score 8
        fmt(true, true, 3, true),  // score 7
    ];
    assert_eq!(select_format(&formats), Some(0));
}

#[test]
fn select_format_order_among_all_eligible() {
    // Same three formats, reported worst-first: the sRGB four-component
    // format still wins.
    let formats = vec![
        fmt(true, true, 3, true),
        fmt(true, true, 4, false),
        fmt(true, true, 4, true),
    ];
    assert_eq!(select_format(&formats), Some(2));
}

#[test]
fn select_format_skips_ineligible() {
    let formats = vec![
        fmt(false, true, 4, true), // depth/integer sample type: score 0
        fmt(true, false, 4, true), // not render-target-capable: score 0
        fmt(true, true, 1, false), // eligible, score 2
    ];
    assert_eq!(select_format(&formats), Some(2));
}

#[test]
fn select_format_tie_breaks_by_reported_order() {
    let formats = vec![
        fmt(true, true, 4, true),
        fmt(true, true, 4, true),
    ];
    assert_eq!(select_format(&formats), Some(0));
}

#[test]
fn select_format_degraded_all_ineligible() {
    // No eligible format at all: every score is 0 and the first reported
    // format is taken.
    let formats = vec![
        fmt(false, false, 4, true),
        fmt(false, true, 2, false),
    ];
    assert_eq!(select_format(&formats), Some(0));
}

#[test]
fn select_format_empty() {
    let formats: Vec<FormatInfo> = Vec::new();
    assert_eq!(select_format(&formats), None);
}

#[test]
fn mode_ranks_fixed_order() {
    assert_eq!(mode_rank(PresentMode::Fifo), 10);
    assert_eq!(mode_rank(PresentMode::FifoRelaxed), 9);
    assert_eq!(mode_rank(PresentMode::AutoVsync), 8);
    assert_eq!(mode_rank(PresentMode::Mailbox), 7);
    assert_eq!(mode_rank(PresentMode::Immediate), 6);
    assert_eq!(mode_rank(PresentMode::AutoNoVsync), 5);
}

#[test]
fn select_mode_fifo_wins() {
    let modes = vec![PresentMode::Immediate, PresentMode::Fifo, PresentMode::Mailbox];
    let i = select_present_mode(&modes).unwrap();
    assert_eq!(modes[i], PresentMode::Fifo);
}

#[test]
fn select_mode_mailbox_without_fifo() {
    let modes = vec![PresentMode::Immediate, PresentMode::Mailbox];
    let i = select_present_mode(&modes).unwrap();
    assert_eq!(modes[i], PresentMode::Mailbox);
}

#[test]
fn select_mode_empty() {
    let modes: Vec<PresentMode> = Vec::new();
    assert_eq!(select_present_mode(&modes), None);
}

#[test]
fn negotiate_full_capabilities() {
    let formats = vec![
        fmt(true, true, 4, false),
        fmt(true, true, 4, true),
    ];
    let modes = vec![PresentMode::Immediate, PresentMode::Mailbox];
    let alphas = vec![AlphaMode::Opaque, AlphaMode::Auto];
    let c: ChosenConfiguration = negotiate(&formats, &modes, &alphas, 800, 600).unwrap();
    assert_eq!(c.format_index, 1);
    assert_eq!(c.present_mode, PresentMode::Mailbox);
    assert_eq!(c.alpha_mode, AlphaMode::Opaque);
    assert_eq!(c.width, 800);
    assert_eq!(c.height, 600);
    assert_eq!(c.usage_bits, RENDER_ATTACHMENT_USAGE);
}

#[test]
fn negotiate_no_format() {
    let formats: Vec<FormatInfo> = Vec::new();
    let modes = vec![PresentMode::Fifo];
    let alphas = vec![AlphaMode::Opaque];
    assert_eq!(negotiate(&formats, &modes, &alphas, 1, 1), Err(NegotiationError::NoFormat));
}

#[test]
fn negotiate_no_present_mode() {
    let formats = vec![fmt(true, true, 4, true)];
    let modes: Vec<PresentMode> = Vec::new();
    let alphas = vec![AlphaMode::Opaque];
    assert_eq!(negotiate(&formats, &modes, &alphas, 1, 1), Err(NegotiationError::NoPresentMode));
}

#[test]
fn negotiate_no_alpha_mode() {
    let formats = vec![fmt(true, true, 4, true)];
    let modes = vec![PresentMode::Fifo];
    let alphas: Vec<AlphaMode> = Vec::new();
    assert_eq!(negotiate(&formats, &modes, &alphas, 1, 1), Err(NegotiationError::NoAlphaMode));
}
