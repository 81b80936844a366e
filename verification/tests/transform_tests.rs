use servable::transform::transformers::{
    CropTransformer, Direction, MaxDimTransformer, TransformerEnum,
};
use servable::transform::{PixelDim, TransformerChain};

#[test]
fn pixeldim_parses_bare_numbers_as_pixels() {
    assert_eq!(PixelDim::from_str("100"), Ok(PixelDim::Pixels(100)));
    assert_eq!(PixelDim::from_str("40px"), Ok(PixelDim::Pixels(40)));
    assert_eq!(PixelDim::from_str("0"), Ok(PixelDim::Pixels(0)));
}

#[test]
fn pixeldim_parses_percentages_in_hundredths() {
    assert_eq!(PixelDim::from_str("50vw"), Ok(PixelDim::WidthPercent(5000)));
    assert_eq!(PixelDim::from_str("100vh"), Ok(PixelDim::HeightPercent(10000)));
    assert_eq!(PixelDim::from_str("12.5vw"), Ok(PixelDim::WidthPercent(1250)));
    assert_eq!(PixelDim::from_str(".5vh"), Ok(PixelDim::HeightPercent(50)));
    assert_eq!(PixelDim::from_str("5.vw"), Ok(PixelDim::WidthPercent(500)));
}

#[test]
fn pixeldim_rejects_bad_tokens() {
    assert!(PixelDim::from_str("").is_err());
    assert!(PixelDim::from_str("12em").is_err());
    assert!(PixelDim::from_str("1.5px").is_err());
    assert!(PixelDim::from_str("1.5").is_err());
    assert!(PixelDim::from_str("1.2.3vw").is_err());
    assert!(PixelDim::from_str(".vw").is_err());
    assert!(PixelDim::from_str("px").is_err());
}

#[test]
fn step_parses_name_and_args() {
    let step = TransformerEnum::from_str("maxdim(100,100)").unwrap();
    assert!(matches!(step, TransformerEnum::MaxDim(_)));
    let step = TransformerEnum::from_str(" crop( 50 , 50 , c ) ").unwrap();
    match step {
        TransformerEnum::Crop(c) => {
            assert_eq!(c.w, PixelDim::Pixels(50));
            assert_eq!(c.h, PixelDim::Pixels(50));
            assert_eq!(c.float, Direction::Center);
        }
        _ => panic!("expected a crop step"),
    }
}

#[test]
fn step_rejects_malformed_tokens() {
    assert!(TransformerEnum::from_str("maxdim").is_err());
    assert!(TransformerEnum::from_str("maxdim(100,100").is_err());
    assert!(TransformerEnum::from_str("maxdim(100,100)x").is_err());
    assert!(TransformerEnum::from_str("rotate(90)").is_err());
    assert!(TransformerEnum::from_str("format(txt)").is_err());
    assert!(TransformerEnum::from_str("crop(50,50)").is_err());
    assert!(TransformerEnum::from_str("crop(50,50,up)").is_err());
}

#[test]
fn chain_parses_two_steps_with_terminal_format() {
    let chain = TransformerChain::from_str("maxdim(100,100);format(png)").unwrap();
    assert_eq!(chain.steps.len(), 2);
    assert!(matches!(chain.steps[0], TransformerEnum::MaxDim(_)));
    assert!(matches!(chain.steps[1], TransformerEnum::Format { .. }));
}

#[test]
fn chain_rejects_format_not_last() {
    assert!(TransformerChain::from_str("format(png);maxdim(10,10)").is_err());
}

#[test]
fn chain_rejects_duplicate_format() {
    assert!(TransformerChain::from_str("format(png);format(gif)").is_err());
}

#[test]
fn chain_skips_empty_segments() {
    let chain = TransformerChain::from_str(";;maxdim(10,10);;").unwrap();
    assert_eq!(chain.steps.len(), 1);
    let chain = TransformerChain::from_str("").unwrap();
    assert_eq!(chain.steps.len(), 0);
}

#[test]
fn chain_reports_the_offending_step() {
    let err = TransformerChain::from_str("maxdim(10,10);bogus(1)").unwrap_err();
    assert!(err.contains("invalid step"), "got: {err}");
    assert!(err.contains("bogus"), "got: {err}");
}

#[test]
fn crop_center_anchoring_on_a_wide_image() {
    let c = CropTransformer::new(
        PixelDim::Pixels(50),
        PixelDim::Pixels(50),
        Direction::Center,
    );
    let (cw, ch) = c.crop_dim(200, 100);
    assert_eq!((cw, ch), (50, 50));
    let (x, y) = c.crop_pos(200, 100, cw, ch);
    assert_eq!((x, y), (75, 25));
}

#[test]
fn crop_anchoring_table() {
    let dims = |d: Direction| {
        let c = CropTransformer::new(PixelDim::Pixels(60), PixelDim::Pixels(40), d);
        c.crop_pos(200, 100, 60, 40)
    };
    assert_eq!(dims(Direction::North), (70, 0));
    assert_eq!(dims(Direction::South), (70, 60));
    assert_eq!(dims(Direction::East), (140, 30));
    assert_eq!(dims(Direction::West), (0, 30));
    assert_eq!(dims(Direction::Center), (70, 30));
    assert_eq!(dims(Direction::NorthEast), (140, 0));
    assert_eq!(dims(Direction::NorthWest), (0, 0));
    assert_eq!(dims(Direction::SouthEast), (140, 60));
    assert_eq!(dims(Direction::SouthWest), (0, 60));
}

#[test]
fn crop_percentages_resolve_against_the_named_axis() {
    let c = CropTransformer::new(
        PixelDim::WidthPercent(10000),
        PixelDim::Pixels(50),
        Direction::North,
    );
    assert_eq!(c.crop_dim(200, 100), (200, 50));
    let c = CropTransformer::new(
        PixelDim::HeightPercent(5000),
        PixelDim::Pixels(50),
        Direction::North,
    );
    assert_eq!(c.crop_dim(200, 100), (50, 50));
}

#[test]
fn maxdim_scales_by_the_smaller_ratio() {
    // width bound 50, height bound 100: ratio min(50/200, 100/100) = 1/4
    let t = MaxDimTransformer::new(PixelDim::Pixels(50), PixelDim::Pixels(100));
    assert_eq!(t.target_dim(200, 100), (50, 25));
}

#[test]
fn maxdim_with_width_percent_bound() {
    // 50vw of 200 is 100: ratio min(100/200, 100/100) = 1/2
    let t = MaxDimTransformer::new(PixelDim::WidthPercent(5000), PixelDim::Pixels(100));
    assert_eq!(t.target_dim(200, 100), (100, 50));
    // 25vw of 200 is 50: ratio min(50/200, 100/100) = 1/4
    let t = MaxDimTransformer::new(PixelDim::WidthPercent(2500), PixelDim::Pixels(100));
    assert_eq!(t.target_dim(200, 100), (50, 25));
}

#[test]
fn maxdim_never_scales_up() {
    let t = MaxDimTransformer::new(PixelDim::Pixels(400), PixelDim::Pixels(400));
    assert_eq!(t.target_dim(200, 100), (200, 100));
}

#[test]
fn maxdim_opposite_axis_percent_leaves_bound_unconstrained() {
    // height slot holds a width percent: height is unconstrained,
    // so only the width bound of 50 applies
    let t = MaxDimTransformer::new(PixelDim::Pixels(50), PixelDim::WidthPercent(100));
    assert_eq!(t.target_dim(200, 100), (50, 25));
}

#[test]
fn pixeldim_range_limits() {
    assert_eq!(
        PixelDim::from_str("4294967295"),
        Ok(PixelDim::Pixels(4294967295))
    );
    assert!(PixelDim::from_str("4294967296").is_err());
    assert_eq!(
        PixelDim::from_str("42949672.95vw"),
        Ok(PixelDim::WidthPercent(4294967295))
    );
    assert!(PixelDim::from_str("42949673vw").is_err());
}

#[test]
fn maxdim_handles_degenerate_images() {
    let t = MaxDimTransformer::new(PixelDim::Pixels(50), PixelDim::Pixels(50));
    assert_eq!(t.target_dim(0, 100), (0, 100));
    assert_eq!(t.target_dim(100, 0), (100, 0));
}

#[test]
fn crop_never_enlarges_a_dimension() {
    let c = CropTransformer::new(
        PixelDim::Pixels(300),
        PixelDim::Pixels(50),
        Direction::East,
    );
    let (cw, ch) = c.crop_dim(200, 100);
    assert_eq!((cw, ch), (300, 50));
    // the kept region is clipped to the image before anchoring
    let (x, y) = c.crop_pos(200, 100, cw.min(200), ch.min(100));
    assert_eq!((x, y), (0, 25));
}

#[test]
fn step_names_are_case_sensitive_but_format_tokens_are_not() {
    assert!(TransformerEnum::from_str("MAXDIM(10,10)").is_err());
    assert!(matches!(
        TransformerEnum::from_str("format(Png)").unwrap(),
        TransformerEnum::Format { .. }
    ));
}

#[test]
fn dimensions_and_steps_render_back_to_their_tokens() {
    assert_eq!(PixelDim::Pixels(100).to_string(), "100");
    assert_eq!(PixelDim::WidthPercent(5000).to_string(), "50.00vw");
    assert_eq!(PixelDim::HeightPercent(1250).to_string(), "12.50vh");
    assert_eq!(Direction::NorthEast.to_string(), "ne");

    let chain = TransformerChain::from_str("maxdim(100,100);format(png)").unwrap();
    assert_eq!(chain.to_string(), "maxdim(100,100);format(png)");
    let chain = TransformerChain::from_str(" crop( 50 , 50.00vw , northeast ) ").unwrap();
    assert_eq!(chain.to_string(), "crop(50,50.00vw,ne)");
    let chain = TransformerChain::from_str("").unwrap();
    assert_eq!(chain.to_string(), "");
}
