use plotted::adapt::{FloatMapped, ValueMapped, Vec2};
use plotted::histogram::{calc_histogram_bins, Bin};
use plotted::kde::{calc_kde, KdeSample, TriangularKernel, KERNEL_SCALE};
use plotted::minmax::get_minmax;
use plotted::plan::{
    PlottedAttributes, RenderMode, RenderPlan, RenderPrimitive, HISTOGRAM_BIN_COUNT,
    KDE_SAMPLE_COUNT,
};
use plotted::point::{Frac, Point};
use plotted::series::{build_series, Plotted};

fn points(xy: &[(i64, i64)]) -> Vec<Point> {
    xy.iter().map(|&(x, y)| Point { x, y }).collect()
}

#[test]
fn scalar_series_uses_index_as_x() {
    // The scenario series [5, 2, 3, 4, 1] of bare scalars.
    let col: Vec<i64> = vec![5, 2, 3, 4, 1];
    let series = build_series(&col);
    assert_eq!(series, points(&[(0, 5), (1, 2), (2, 3), (3, 4), (4, 1)]));
}

#[test]
fn pair_series_passes_through_unchanged() {
    // The pair scenario, quantized at ten units per whole: (-1.0, 0.3),
    // (0.0, 0.2), (1.0, 0.1) become (-10, 3), (0, 2), (10, 1).
    let col: Vec<(i64, i64)> = vec![(-10, 3), (0, 2), (10, 1)];
    let series = build_series(&col);
    assert_eq!(series, points(&[(-10, 3), (0, 2), (10, 1)]));
}

#[test]
fn series_length_matches_collection_length() {
    for n in 0..7u8 {
        let col: Vec<u8> = (0..n).collect();
        assert_eq!(build_series(&col).len(), n as usize);
    }
}

#[test]
fn empty_collection_builds_empty_series() {
    let col: Vec<i64> = vec![];
    assert!(build_series(&col).is_empty());
}

#[test]
fn mixed_pair_types_adapt_componentwise() {
    let col: Vec<(u8, i32)> = vec![(7, -9)];
    assert_eq!(build_series(&col), points(&[(7, -9)]));
}

#[test]
fn vec2_supplies_both_coordinates() {
    let col: Vec<Vec2> = vec![Vec2 { x: 4, y: -2 }, Vec2 { x: -1, y: 8 }];
    assert_eq!(build_series(&col), points(&[(4, -2), (-1, 8)]));
}

#[test]
fn wide_unsigned_magnitudes_saturate() {
    assert_eq!(u64::MAX.extract_magnitude(), i64::MAX);
    assert_eq!(17u64.extract_magnitude(), 17);
    assert_eq!(usize::MAX.extract_magnitude(), i64::MAX);
    assert_eq!((-3i64).extract_magnitude(), -3);
}

#[test]
fn extract_value_of_scalar_takes_the_given_index() {
    let p = 42u16.extract_value(9);
    assert_eq!(p, Point { x: 9, y: 42 });
    let q = (5i8, 6i8).extract_value(9);
    assert_eq!(q, Point { x: 5, y: 6 });
}

#[test]
fn get_minmax_finds_the_y_extremes() {
    let series = points(&[(0, 5), (1, 2), (2, 3), (3, 4), (4, 1)]);
    assert_eq!(get_minmax(&series), Some((1, 5)));
    assert_eq!(get_minmax(&vec![]), None);
}

#[test]
fn histogram_of_the_scenario_series() {
    // Series [5, 2, 3, 4, 1], four bins: min 1, max 5, step 1; the value 5
    // is clamped into the last bin, giving counts 1, 1, 1, 2.
    let series = points(&[(0, 5), (1, 2), (2, 3), (3, 4), (4, 1)]);
    let bins = calc_histogram_bins(&series, 4);
    let expected: Vec<Bin> = (0..4)
        .map(|i| Bin {
            lower: Frac { num: 4 + 4 * i, den: 4 },
            upper: Frac { num: 8 + 4 * i, den: 4 },
            count: if i == 3 { 2 } else { 1 },
        })
        .collect();
    assert_eq!(bins, expected);
}

#[test]
fn histogram_counts_cover_the_series() {
    let series = points(&[(0, -7), (1, 13), (2, 0), (3, 13), (4, 2), (5, -7), (6, 5)]);
    let bins = calc_histogram_bins(&series, 5);
    let total: u32 = bins.iter().map(|b| b.count).sum();
    assert_eq!(total, series.len() as u32);
    for w in bins.windows(2) {
        assert_eq!(w[0].upper, w[1].lower);
    }
}

#[test]
fn histogram_maximum_lands_in_the_last_bin() {
    let series = points(&[(0, 0), (1, 10)]);
    let bins = calc_histogram_bins(&series, 3);
    assert_eq!(bins.last().unwrap().count, 1);
    assert_eq!(bins[0].count, 1);
    assert_eq!(bins[1].count, 0);
}

#[test]
fn histogram_of_equal_values_counts_in_the_last_bin() {
    // A zero-width range: every value is the maximum and goes to the last
    // bin; all bin edges coincide at the single value.
    let series = points(&[(0, 7), (1, 7), (2, 7)]);
    let bins = calc_histogram_bins(&series, 3);
    assert_eq!(bins.len(), 3);
    for b in &bins {
        assert_eq!(b.lower, Frac { num: 21, den: 3 });
        assert_eq!(b.upper, Frac { num: 21, den: 3 });
    }
    assert_eq!(bins[0].count, 0);
    assert_eq!(bins[1].count, 0);
    assert_eq!(bins[2].count, 3);
}

#[test]
fn histogram_empty_inputs_give_empty_output() {
    assert!(calc_histogram_bins(&vec![], 4).is_empty());
    let series = points(&[(0, 1)]);
    assert!(calc_histogram_bins(&series, 0).is_empty());
}

#[test]
fn kde_sample_locations_are_centered_and_ascending() {
    // Series y-range [0, 10], five samples: locations 1, 3, 5, 7, 9 —
    // half a step in from each edge, strictly ascending.
    let series = points(&[(0, 0), (1, 10)]);
    let samples = calc_kde(&series, 5, &TriangularKernel);
    assert_eq!(samples.len(), 5);
    for (i, s) in samples.iter().enumerate() {
        assert_eq!(s.x, Frac { num: 10 + 20 * i as i128, den: 10 });
    }
    for w in samples.windows(2) {
        assert!(w[0].x.num * (w[1].x.den as i128) < w[1].x.num * (w[0].x.den as i128));
    }
}

#[test]
fn kde_accumulates_exact_kernel_weights() {
    // Range [0, 100], five samples at 10, 30, 50, 70, 90, bandwidth 5.
    // Only the y-value 8 is inside any bandwidth: 2 away from the sample at
    // 10, weighing 1 - 2/5 of the scale. Every other weight is zero.
    let series = points(&[(0, 0), (1, 8), (2, 100)]);
    let samples = calc_kde(&series, 5, &TriangularKernel);
    assert_eq!(samples.len(), 5);
    assert_eq!(samples[0].y, (KERNEL_SCALE as i128) * 3 / 5);
    for s in &samples[1..] {
        assert_eq!(s.y, 0);
    }
}

#[test]
fn kde_of_equal_values_stacks_full_weights() {
    // A zero-width range: every sample location coincides with every value,
    // so each sample accumulates the full scale once per point.
    let series = points(&[(0, 5), (1, 5)]);
    let samples = calc_kde(&series, 3, &TriangularKernel);
    assert_eq!(samples.len(), 3);
    for s in &samples {
        assert_eq!(s.x, Frac { num: 30, den: 6 });
        assert_eq!(s.y, 2 * KERNEL_SCALE as i128);
    }
}

#[test]
fn kde_empty_inputs_give_empty_output() {
    assert!(calc_kde(&vec![], 5, &TriangularKernel).is_empty());
    let series = points(&[(0, 1)]);
    assert!(calc_kde(&series, 0, &TriangularKernel).is_empty());
}

#[test]
fn repeated_calls_yield_identical_output() {
    let col: Vec<i64> = vec![5, 2, 3, 4, 1];
    assert_eq!(build_series(&col), build_series(&col));
    let series = build_series(&col);
    assert_eq!(calc_histogram_bins(&series, 4), calc_histogram_bins(&series, 4));
    assert_eq!(
        calc_kde(&series, 7, &TriangularKernel),
        calc_kde(&series, 7, &TriangularKernel)
    );
}

#[test]
fn default_attributes_draw_a_plain_line() {
    let attrs = PlottedAttributes::default();
    assert_eq!(attrs.mode, RenderMode::Line);
    assert_eq!(attrs.min_x, None);
    assert_eq!(attrs.max_x, None);
    assert_eq!(attrs.min_y, None);
    assert_eq!(attrs.max_y, None);
}

#[test]
fn line_mode_passes_the_raw_series_through() {
    let plotted = Plotted(vec![3i64, 1, 2]);
    let plan = plotted.render_plan(&PlottedAttributes::default());
    assert_eq!(
        plan,
        RenderPlan {
            primitive: RenderPrimitive::Line(points(&[(0, 3), (1, 1), (2, 2)])),
            min_x: None,
            max_x: None,
            min_y: None,
            max_y: None,
        }
    );
}

#[test]
fn scatter_mode_keeps_the_points_and_the_hints() {
    let plotted = Plotted(vec![(4i64, 4i64), (6, 0)]);
    let attrs = PlottedAttributes {
        mode: RenderMode::Scatter,
        min_x: Some(-5),
        max_x: Some(5),
        min_y: None,
        max_y: Some(100),
    };
    let plan = plotted.render_plan(&attrs);
    assert_eq!(
        plan.primitive,
        RenderPrimitive::Scatter(points(&[(4, 4), (6, 0)]))
    );
    assert_eq!(plan.min_x, Some(-5));
    assert_eq!(plan.max_x, Some(5));
    assert_eq!(plan.min_y, None);
    assert_eq!(plan.max_y, Some(100));
}

#[test]
fn histogram_mode_discards_empty_bins() {
    // Two equal values: the fixed 21 bins all coincide and only the last
    // counts anything, so a single bar remains.
    let plotted = Plotted(vec![3i64, 3]);
    let attrs = PlottedAttributes { mode: RenderMode::Histogram, ..PlottedAttributes::default() };
    let plan = plotted.render_plan(&attrs);
    let n = HISTOGRAM_BIN_COUNT as i128;
    match plan.primitive {
        RenderPrimitive::Bars(bars) => {
            assert_eq!(bars.len(), 1);
            assert_eq!(
                bars[0],
                Bin {
                    lower: Frac { num: 3 * n, den: HISTOGRAM_BIN_COUNT as u64 },
                    upper: Frac { num: 3 * n, den: HISTOGRAM_BIN_COUNT as u64 },
                    count: 2,
                }
            );
        },
        other => panic!("expected bars, got {:?}", other),
    }
}

#[test]
fn histogram_mode_keeps_every_count() {
    // The discarded zero-count bins carry nothing: the bars that remain
    // still count the whole series.
    let plotted = Plotted(vec![5i64, 2, 3, 4, 1]);
    let attrs = PlottedAttributes { mode: RenderMode::Histogram, ..PlottedAttributes::default() };
    let plan = plotted.render_plan(&attrs);
    match plan.primitive {
        RenderPrimitive::Bars(bars) => {
            let total: u32 = bars.iter().map(|b| b.count).sum();
            assert_eq!(total, 5);
            assert!(bars.iter().all(|b| b.count > 0));
        },
        other => panic!("expected bars, got {:?}", other),
    }
}

#[test]
fn kde_mode_runs_the_reducer_with_the_fixed_sample_count() {
    let plotted = Plotted(vec![5i64, 5]);
    let attrs = PlottedAttributes { mode: RenderMode::Kde, ..PlottedAttributes::default() };
    let plan = plotted.render_plan(&attrs);
    match plan.primitive {
        RenderPrimitive::Curve(samples) => {
            assert_eq!(samples.len(), KDE_SAMPLE_COUNT as usize);
            for s in &samples {
                assert_eq!(
                    s,
                    &KdeSample {
                        x: Frac {
                            num: 5 * 2 * KDE_SAMPLE_COUNT as i128,
                            den: 2 * KDE_SAMPLE_COUNT as u64,
                        },
                        y: 2 * KERNEL_SCALE as i128,
                    }
                );
            }
        },
        other => panic!("expected a curve, got {:?}", other),
    }
}

#[test]
fn empty_collection_yields_an_empty_plan_in_every_mode() {
    for mode in [RenderMode::Line, RenderMode::Scatter, RenderMode::Histogram, RenderMode::Kde] {
        let plotted = Plotted(Vec::<i64>::new());
        let attrs = PlottedAttributes { mode, ..PlottedAttributes::default() };
        let plan = plotted.render_plan(&attrs);
        let empty = match plan.primitive {
            RenderPrimitive::Line(ps) => ps.is_empty(),
            RenderPrimitive::Scatter(ps) => ps.is_empty(),
            RenderPrimitive::Bars(bs) => bs.is_empty(),
            RenderPrimitive::Curve(ss) => ss.is_empty(),
        };
        assert!(empty);
    }
}
